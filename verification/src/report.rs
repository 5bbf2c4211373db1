//! The reports. Each takes the outcomes of its programs in the order in
//! which the programs were declared, and says in its contract which outcome
//! stands where.

use vstd::prelude::*;
use crate::flagged::Leaf;
use crate::flagged::LeafView;
use crate::flagged::flag_preserving;
use crate::flagged::flag_preserving_report;
use crate::flagged::leaves_of;
use crate::outcome::RunError;
use crate::outcome::RunResult;
use crate::outcome::RunStringResult;
use crate::outcome::error_text;
use crate::policy::all_ok_formatted_or_first_error;
use crate::policy::all_succeeded;
use crate::policy::first_error_or_formatted;
use crate::policy::is_first_failure;
use crate::policy::lemma_report_by_cases;
use crate::policy::outcome_of;
use crate::policy::payloads;
use crate::policy::report_of;
use crate::twin::FlagStringTwin;
use crate::twin::StringTwinResult;
use crate::twin::twin_result_value;

verus! {

/// The text of the memory and disk report.
pub open spec fn sysinfo_text(free: Seq<char>, tmpfs: Seq<char>) -> Seq<char> {
    "Sysinfo of (free tier) Deta.Space. Thank you Team Deta.Space & Love you.\n"@
        + "Format and URL routing/handling are subject to change!\n"@
        + "(https://github.com/peter-kehl/sysinfo-1-s4498989.deta.app)\n\n"@ + "free -m:\n"@ + free
        + "\n-----\n\n"@ + "df -m /tmp:\n"@ + tmpfs
}

/// The text of the binary-location report: the four answers, one per line.
pub open spec fn located_text(
    free: Seq<char>,
    df: Seq<char>,
    mount: Seq<char>,
    tree: Seq<char>,
) -> Seq<char> {
    free + "\n"@ + df + "\n"@ + mount + "\n"@ + tree
}

/// The text of the directory-listing report.
pub open spec fn listing_text(
    current: Seq<char>,
    root: Seq<char>,
    bin: Seq<char>,
    sbin: Seq<char>,
    tmp: Seq<char>,
) -> Seq<char> {
    "ls -l . :\n"@ + current + "\n\nls -l / :\n"@ + root + "\n\nls /bin :\n"@ + bin
        + "\n\nls /sbin :\n"@ + sbin + "\n\nls -l /tmp :\n"@ + tmp
}

/// Formats the memory and disk report from the outputs of `free -m` and
/// `df -m /tmp`: a heading, then each output under its label.
pub fn format_sysinfo(free: String, tmpfs: String) -> (text: String)
    ensures
        text@ == sysinfo_text(free@, tmpfs@),
{
    let mut text =
        "Sysinfo of (free tier) Deta.Space. Thank you Team Deta.Space & Love you.\n".to_owned();
    text.append("Format and URL routing/handling are subject to change!\n");
    text.append("(https://github.com/peter-kehl/sysinfo-1-s4498989.deta.app)\n\n");
    text.append("free -m:\n");
    text.append(free.as_str());
    text.append("\n-----\n\n");
    text.append("df -m /tmp:\n");
    text.append(tmpfs.as_str());
    text
}

/// Formats the binary-location report from the four answers: one per line,
/// in the order given.
pub fn format_located(free: String, df: String, mount: String, tree: String) -> (text: String)
    ensures
        text@ == located_text(free@, df@, mount@, tree@),
{
    let mut text = free;
    text.append("\n");
    text.append(df.as_str());
    text.append("\n");
    text.append(mount.as_str());
    text.append("\n");
    text.append(tree.as_str());
    text
}

/// Formats the directory-listing report from the five listings: each under
/// the label of its command, an empty line between each two.
pub fn format_listing(
    current: String,
    root: String,
    bin: String,
    sbin: String,
    tmp: String,
) -> (text: String)
    ensures
        text@ == listing_text(current@, root@, bin@, sbin@, tmp@),
{
    let mut text = "ls -l . :\n".to_owned();
    text.append(current.as_str());
    text.append("\n\nls -l / :\n");
    text.append(root.as_str());
    text.append("\n\nls /bin :\n");
    text.append(bin.as_str());
    text.append("\n\nls /sbin :\n");
    text.append(sbin.as_str());
    text.append("\n\nls -l /tmp :\n");
    text.append(tmp.as_str());
    text
}

/// The memory and disk report, of `free -m` and `df -m /tmp` in that order:
/// the labelled outputs under a heading, or the message of the first error.
pub fn content(free: RunStringResult, tmpfs: RunStringResult) -> (report: StringTwinResult)
    ensures
        report_of(report) == first_error_or_formatted(
            seq![outcome_of(free), outcome_of(tmpfs)],
            |found: Seq<Seq<char>>| sysinfo_text(found[0], found[1]),
        ),
{
    let ghost outcomes = seq![outcome_of(free), outcome_of(tmpfs)];
    let ghost formatter = |found: Seq<Seq<char>>| sysinfo_text(found[0], found[1]);
    let ok_filter = || -> (all: RunResult<(String, String)>)
        ensures
            free is Ok && tmpfs is Ok ==> all == Ok::<(String, String), RunError>(
                (free->Ok_0, tmpfs->Ok_0),
            ),
            free is Err ==> all == Err::<(String, String), RunError>(free->Err_0),
            free is Ok && tmpfs is Err ==> all == Err::<(String, String), RunError>(tmpfs->Err_0),
        { Ok((free?, tmpfs?)) };
    let ok_formatter = |found: (String, String)| -> (text: String)
        ensures
            text@ == sysinfo_text(found.0@, found.1@),
        { format_sysinfo(found.0, found.1) };
    let report = all_ok_formatted_or_first_error(ok_filter, ok_formatter);
    proof {
        assert(outcomes[0] == outcome_of(free) && outcomes[1] == outcome_of(tmpfs));
        assert forall|k: int| is_first_failure(outcomes, k) implies report_of(report) == Err::<
            Seq<char>,
            Seq<char>,
        >(error_text(outcomes[k]->Err_0)) by {
            if k == 1 {
                assert(outcomes[0] is Ok);
            }
        }
        if all_succeeded(outcomes) {
            assert(outcomes[0] is Ok && outcomes[1] is Ok);
            assert(payloads(outcomes) =~= seq![free->Ok_0@, tmpfs->Ok_0@]);
        }
        lemma_report_by_cases(outcomes, formatter, report_of(report));
    }
    report
}

/// The binary-location report, of the lookups of `free`, `df`, `mount` and
/// `tree` in that order: the four answers one per line, or the message of
/// the first error.
pub fn content_locate_binaries(
    free: RunStringResult,
    df: RunStringResult,
    mount: RunStringResult,
    tree: RunStringResult,
) -> (report: StringTwinResult)
    ensures
        report_of(report) == first_error_or_formatted(
            seq![outcome_of(free), outcome_of(df), outcome_of(mount), outcome_of(tree)],
            |found: Seq<Seq<char>>| located_text(found[0], found[1], found[2], found[3]),
        ),
{
    let ghost outcomes = seq![outcome_of(free), outcome_of(df), outcome_of(mount), outcome_of(tree)];
    let ghost formatter = |found: Seq<Seq<char>>|
        located_text(found[0], found[1], found[2], found[3]);
    let ok_filter = || -> (all: RunResult<(String, String, String, String)>)
        ensures
            free is Ok && df is Ok && mount is Ok && tree is Ok ==> all == Ok::<
                (String, String, String, String),
                RunError,
            >((free->Ok_0, df->Ok_0, mount->Ok_0, tree->Ok_0)),
            free is Err ==> all is Err && all->Err_0 == free->Err_0,
            free is Ok && df is Err ==> all is Err && all->Err_0 == df->Err_0,
            free is Ok && df is Ok && mount is Err ==> all is Err && all->Err_0 == mount->Err_0,
            free is Ok && df is Ok && mount is Ok && tree is Err ==> all is Err && all->Err_0
                == tree->Err_0,
        { Ok((free?, df?, mount?, tree?)) };
    let ok_formatter = |found: (String, String, String, String)| -> (text: String)
        ensures
            text@ == located_text(found.0@, found.1@, found.2@, found.3@),
        { format_located(found.0, found.1, found.2, found.3) };
    let report = all_ok_formatted_or_first_error(ok_filter, ok_formatter);
    proof {
        assert(outcomes[0] == outcome_of(free) && outcomes[1] == outcome_of(df) && outcomes[2]
            == outcome_of(mount) && outcomes[3] == outcome_of(tree));
        assert forall|k: int| is_first_failure(outcomes, k) implies report_of(report) == Err::<
            Seq<char>,
            Seq<char>,
        >(error_text(outcomes[k]->Err_0)) by {
            assert(forall|j: int| 0 <= j < k ==> (#[trigger] outcomes[j]) is Ok);
            if k >= 1 {
                assert(outcomes[0] is Ok);
            }
            if k >= 2 {
                assert(outcomes[1] is Ok);
            }
            if k >= 3 {
                assert(outcomes[2] is Ok);
            }
        }
        if all_succeeded(outcomes) {
            assert(outcomes[0] is Ok && outcomes[1] is Ok && outcomes[2] is Ok && outcomes[3] is Ok);
            assert(payloads(outcomes) =~= seq![
                free->Ok_0@,
                df->Ok_0@,
                mount->Ok_0@,
                tree->Ok_0@,
            ]);
        }
        lemma_report_by_cases(outcomes, formatter, report_of(report));
    }
    report
}

/// The directory-listing report, of the listings of `.`, `/`, `/bin`, `/sbin`
/// and `/tmp` in that order: the labelled listings, or the message of the
/// first error.
pub fn content_ls(
    current: RunStringResult,
    root: RunStringResult,
    bin: RunStringResult,
    sbin: RunStringResult,
    tmp: RunStringResult,
) -> (report: StringTwinResult)
    ensures
        report_of(report) == first_error_or_formatted(
            seq![
                outcome_of(current),
                outcome_of(root),
                outcome_of(bin),
                outcome_of(sbin),
                outcome_of(tmp),
            ],
            |found: Seq<Seq<char>>| listing_text(found[0], found[1], found[2], found[3], found[4]),
        ),
{
    let ghost outcomes = seq![
        outcome_of(current),
        outcome_of(root),
        outcome_of(bin),
        outcome_of(sbin),
        outcome_of(tmp),
    ];
    let ghost formatter = |found: Seq<Seq<char>>|
        listing_text(found[0], found[1], found[2], found[3], found[4]);
    let ok_filter = || -> (all: RunResult<(String, String, String, String, String)>)
        ensures
            current is Ok && root is Ok && bin is Ok && sbin is Ok && tmp is Ok ==> all == Ok::<
                (String, String, String, String, String),
                RunError,
            >((current->Ok_0, root->Ok_0, bin->Ok_0, sbin->Ok_0, tmp->Ok_0)),
            current is Err ==> all is Err && all->Err_0 == current->Err_0,
            current is Ok && root is Err ==> all is Err && all->Err_0 == root->Err_0,
            current is Ok && root is Ok && bin is Err ==> all is Err && all->Err_0 == bin->Err_0,
            current is Ok && root is Ok && bin is Ok && sbin is Err ==> all is Err && all->Err_0
                == sbin->Err_0,
            current is Ok && root is Ok && bin is Ok && sbin is Ok && tmp is Err ==> all is Err
                && all->Err_0 == tmp->Err_0,
        { Ok((current?, root?, bin?, sbin?, tmp?)) };
    let ok_formatter = |found: (String, String, String, String, String)| -> (text: String)
        ensures
            text@ == listing_text(found.0@, found.1@, found.2@, found.3@, found.4@),
        { format_listing(found.0, found.1, found.2, found.3, found.4) };
    let report = all_ok_formatted_or_first_error(ok_filter, ok_formatter);
    proof {
        assert(outcomes[0] == outcome_of(current) && outcomes[1] == outcome_of(root) && outcomes[2]
            == outcome_of(bin) && outcomes[3] == outcome_of(sbin) && outcomes[4] == outcome_of(
            tmp,
        ));
        assert forall|k: int| is_first_failure(outcomes, k) implies report_of(report) == Err::<
            Seq<char>,
            Seq<char>,
        >(error_text(outcomes[k]->Err_0)) by {
            assert(forall|j: int| 0 <= j < k ==> (#[trigger] outcomes[j]) is Ok);
            if k >= 1 {
                assert(outcomes[0] is Ok);
            }
            if k >= 2 {
                assert(outcomes[1] is Ok);
            }
            if k >= 3 {
                assert(outcomes[2] is Ok);
            }
            if k >= 4 {
                assert(outcomes[3] is Ok);
            }
        }
        if all_succeeded(outcomes) {
            assert(outcomes[0] is Ok && outcomes[1] is Ok && outcomes[2] is Ok && outcomes[3] is Ok
                && outcomes[4] is Ok);
            assert(payloads(outcomes) =~= seq![
                current->Ok_0@,
                root->Ok_0@,
                bin->Ok_0@,
                sbin->Ok_0@,
                tmp->Ok_0@,
            ]);
        }
        lemma_report_by_cases(outcomes, formatter, report_of(report));
    }
    report
}

/// The flag-preserving directory-listing report, of the listings of `.`,
/// `/`, `/bin` and `/sbin` in that order. Every listing is reported under its
/// label with its own status, also where another one failed; the report is
/// on the success side only if all four succeeded.
pub fn content_ls2(
    current: FlagStringTwin,
    root: FlagStringTwin,
    bin: FlagStringTwin,
    sbin: FlagStringTwin,
) -> (report: StringTwinResult)
    ensures
        report_of(report) == flag_preserving(
            seq![
                LeafView { label: "ls ."@, is_ok: current.is_ok, value: current.value@ },
                LeafView { label: "ls /"@, is_ok: root.is_ok, value: root.value@ },
                LeafView { label: "ls /bin"@, is_ok: bin.is_ok, value: bin.value@ },
                LeafView { label: "ls /sbin"@, is_ok: sbin.is_ok, value: sbin.value@ },
            ],
        ),
        report is Ok <==> current.is_ok && root.is_ok && bin.is_ok && sbin.is_ok,
{
    let chained = current.pairable().pair_first(root).pair(bin).pair(sbin);
    let (all_ok, (((current, root), bin), sbin)) = chained.split();
    let mut leaves: Vec<Leaf> = Vec::new();
    leaves.push(Leaf::new("ls .", current));
    leaves.push(Leaf::new("ls /", root));
    leaves.push(Leaf::new("ls /bin", bin));
    leaves.push(Leaf::new("ls /sbin", sbin));
    let ghost listed = leaves_of(leaves@);
    proof {
        assert(listed =~= seq![leaves@[0]@, leaves@[1]@, leaves@[2]@, leaves@[3]@]);
        if all_ok {
            assert forall|i: int| 0 <= i < listed.len() implies (#[trigger] listed[i]).is_ok by {}
        } else {
            assert(!listed[0].is_ok || !listed[1].is_ok || !listed[2].is_ok || !listed[3].is_ok);
        }
    }
    let text = twin_result_value(flag_preserving_report(&leaves));
    if all_ok {
        Ok(text)
    } else {
        Err(text)
    }
}

} // verus!
