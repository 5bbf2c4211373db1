use sysreport::outcome::RunError;
use sysreport::outcome::RunStringResult;
use sysreport::report::content;
use sysreport::report::content_locate_binaries;
use sysreport::report::content_ls;
use sysreport::report::content_ls2;
use sysreport::twin::FlagTwin;

fn ok(text: &str) -> RunStringResult {
    Ok(text.to_string())
}

fn failed(program: &str, error: &str) -> RunStringResult {
    Err(RunError::new(program.to_string(), error.to_string()))
}

fn message(program: &str, error: &str) -> String {
    format!("Expected to run {}, but failed abruptly: {}.", program, error)
}

#[test]
fn content_labels_both_outputs_under_the_heading() {
    let report = content(ok("FREE"), ok("DF"));
    assert_eq!(
        report,
        Ok("Sysinfo of (free tier) Deta.Space. Thank you Team Deta.Space & Love you.\n\
            Format and URL routing/handling are subject to change!\n\
            (https://github.com/peter-kehl/sysinfo-1-s4498989.deta.app)\n\n\
            free -m:\nFREE\n-----\n\ndf -m /tmp:\nDF"
            .to_string())
    );
}

#[test]
fn content_reports_the_first_error() {
    assert_eq!(
        content(failed("/usr/bin/free -m", "a"), failed("/bin/df -m /tmp", "b")),
        Err(message("/usr/bin/free -m", "a"))
    );
    assert_eq!(
        content(ok("FREE"), failed("/bin/df -m /tmp", "b")),
        Err(message("/bin/df -m /tmp", "b"))
    );
    assert_eq!(
        content(failed("/usr/bin/free -m", "a"), ok("DF")),
        Err(message("/usr/bin/free -m", "a"))
    );
}

#[test]
fn echo_then_missing_binary_never_reports_the_echo() {
    let report =
        content(ok("A"), failed("/no/such/binary", "No such file or directory (os error 2)"));
    assert_eq!(
        report,
        Err(message("/no/such/binary", "No such file or directory (os error 2)"))
    );
}

#[test]
fn four_located_binaries_are_joined_by_newlines() {
    let report = content_locate_binaries(
        ok("/usr/bin/free"),
        ok("/usr/bin/df"),
        ok("/usr/bin/mount"),
        ok("/usr/bin/tree"),
    );
    assert_eq!(
        report,
        Ok("/usr/bin/free\n/usr/bin/df\n/usr/bin/mount\n/usr/bin/tree".to_string())
    );
}

#[test]
fn locate_binaries_reports_the_first_error_in_declared_order() {
    let report = content_locate_binaries(
        ok("/usr/bin/free"),
        failed("/usr/bin/which df", "1"),
        ok("/usr/bin/mount"),
        failed("/usr/bin/which tree", "2"),
    );
    assert_eq!(report, Err(message("/usr/bin/which df", "1")));
    let report = content_locate_binaries(
        ok("/usr/bin/free"),
        ok("/usr/bin/df"),
        ok("/usr/bin/mount"),
        failed("/usr/bin/which tree", "2"),
    );
    assert_eq!(report, Err(message("/usr/bin/which tree", "2")));
    let report = content_locate_binaries(
        failed("/usr/bin/which free", "0"),
        failed("/usr/bin/which df", "1"),
        failed("/usr/bin/which mount", "2"),
        failed("/usr/bin/which tree", "3"),
    );
    assert_eq!(report, Err(message("/usr/bin/which free", "0")));
    let report = content_locate_binaries(
        ok("/usr/bin/free"),
        ok("/usr/bin/df"),
        failed("/usr/bin/which mount", "2"),
        ok("/usr/bin/tree"),
    );
    assert_eq!(report, Err(message("/usr/bin/which mount", "2")));
}

#[test]
fn listings_are_labelled_in_declared_order() {
    let report = content_ls(ok("C"), ok("R"), ok("B"), ok("S"), ok("T"));
    assert_eq!(
        report,
        Ok("ls -l . :\nC\n\nls -l / :\nR\n\nls /bin :\nB\n\nls /sbin :\nS\n\nls -l /tmp :\nT"
            .to_string())
    );
}

#[test]
fn listings_report_the_first_error_in_declared_order() {
    for k in 0..5usize {
        let at = |i: usize| {
            if i >= k {
                failed(&format!("ls {}", i), &format!("e{}", i))
            } else {
                ok("fine")
            }
        };
        let report = content_ls(at(0), at(1), at(2), at(3), at(4));
        assert_eq!(report, Err(message(&format!("ls {}", k), &format!("e{}", k))));
    }
}

fn twin(is_ok: bool, text: &str) -> FlagTwin<String> {
    if is_ok {
        FlagTwin::new(Ok(text.to_string()))
    } else {
        FlagTwin::new(Err(text.to_string()))
    }
}

#[test]
fn flagged_listings_all_ok() {
    let report =
        content_ls2(twin(true, "C"), twin(true, "R"), twin(true, "B"), twin(true, "S"));
    assert_eq!(
        report,
        Ok("ls . : OK\nC\n\nls / : OK\nR\n\nls /bin : OK\nB\n\nls /sbin : OK\nS".to_string())
    );
}

#[test]
fn flagged_listings_keep_every_outcome_when_some_fail() {
    let report =
        content_ls2(twin(true, "C"), twin(false, "no root"), twin(true, "B"), twin(false, "no sbin"));
    assert_eq!(
        report,
        Err("ls . : OK\nC\n\nls / : FAILED\nno root\n\nls /bin : OK\nB\n\nls /sbin : FAILED\nno sbin"
            .to_string())
    );
}

#[test]
fn flagged_listings_succeed_only_if_all_four_did() {
    for bits in 0..16u8 {
        let report = content_ls2(
            twin(bits & 1 != 0, "C"),
            twin(bits & 2 != 0, "R"),
            twin(bits & 4 != 0, "B"),
            twin(bits & 8 != 0, "S"),
        );
        assert_eq!(report.is_ok(), bits == 15);
    }
}

#[test]
fn all_successes_give_what_the_formatter_makes_of_them() {
    assert_eq!(
        content(ok("F"), ok("D")),
        Ok(sysreport::report::format_sysinfo("F".to_string(), "D".to_string()))
    );
    assert_eq!(
        content_locate_binaries(ok("a"), ok("b"), ok("c"), ok("d")),
        Ok(sysreport::report::format_located(
            "a".to_string(),
            "b".to_string(),
            "c".to_string(),
            "d".to_string()
        ))
    );
    assert_eq!(
        content_ls(ok("1"), ok("2"), ok("3"), ok("4"), ok("5")),
        Ok(sysreport::report::format_listing(
            "1".to_string(),
            "2".to_string(),
            "3".to_string(),
            "4".to_string(),
            "5".to_string()
        ))
    );
}

#[test]
fn located_formatter_joins_with_single_newlines() {
    assert_eq!(
        sysreport::report::format_located(
            "w".to_string(),
            "x".to_string(),
            "y".to_string(),
            "z".to_string()
        ),
        "w\nx\ny\nz"
    );
}
