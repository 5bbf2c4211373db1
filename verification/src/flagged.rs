//! The flag-preserving report: every operation is listed with its own
//! status, whether or not the others succeeded.
//!
//! Each operation takes one block: a status line made of the operation's
//! label, the text ` : ` and `OK` or `FAILED`, then on the following lines
//! what the operation gave, which is its output or its error message. Blocks
//! are separated by one empty line.

use vstd::prelude::*;
use crate::policy::Report;
use crate::policy::report_of;
use crate::twin::FlagTwinTuple;
use crate::twin::StringTwinResult;
use crate::twin::twin_value;

verus! {

/// One operation as it is listed in the report.
#[derive(Debug)]
pub struct Leaf {
    /// The name by which the operation is listed.
    pub label: String,
    /// Whether the operation succeeded.
    pub is_ok: bool,
    /// What the operation gave: its output, or its error message.
    pub value: String,
}

/// The mathematical content of a [`Leaf`].
pub struct LeafView {
    pub label: Seq<char>,
    pub is_ok: bool,
    pub value: Seq<char>,
}

impl View for Leaf {
    type V = LeafView;

    open spec fn view(&self) -> LeafView {
        LeafView { label: self.label@, is_ok: self.is_ok, value: self.value@ }
    }
}

/// The contents of a sequence of leaves, in order.
pub open spec fn leaves_of(leaves: Seq<Leaf>) -> Seq<LeafView> {
    Seq::new(leaves.len(), |i: int| leaves[i]@)
}

/// The word that stands for a status.
pub open spec fn status_word(is_ok: bool) -> Seq<char> {
    if is_ok {
        "OK"@
    } else {
        "FAILED"@
    }
}

/// The block of one operation.
pub open spec fn leaf_block(leaf: LeafView) -> Seq<char> {
    leaf.label + " : "@ + status_word(leaf.is_ok) + "\n"@ + leaf.value
}

/// The blocks of the operations in order, an empty line between each two.
pub open spec fn leaf_blocks(leaves: Seq<LeafView>) -> Seq<char>
    decreases leaves.len(),
{
    if leaves.len() == 0 {
        Seq::empty()
    } else if leaves.len() == 1 {
        leaf_block(leaves[0])
    } else {
        leaf_blocks(leaves.drop_last()) + "\n\n"@ + leaf_block(leaves.last())
    }
}

/// Whether every operation succeeded.
pub open spec fn all_ok(leaves: Seq<LeafView>) -> bool {
    forall|i: int| 0 <= i < leaves.len() ==> (#[trigger] leaves[i]).is_ok
}

/// The flag-preserving report: the same text either way, on the success
/// side only if every operation succeeded.
pub open spec fn flag_preserving(leaves: Seq<LeafView>) -> Report {
    if all_ok(leaves) {
        Ok(leaf_blocks(leaves))
    } else {
        Err(leaf_blocks(leaves))
    }
}

impl Leaf {
    /// The leaf that lists under `label` a flag and a value taken out of an
    /// aggregate.
    pub fn new(label: &str, flagged: FlagTwinTuple<String>) -> (leaf: Self)
        ensures
            leaf@ == (LeafView { label: label@, is_ok: flagged.0, value: flagged.1@ }),
    {
        Leaf { label: label.to_owned(), is_ok: flagged.0, value: flagged.1 }
    }

    /// The block that lists this operation.
    pub fn render(&self) -> (block: String)
        ensures
            block@ == leaf_block(self@),
    {
        let mut block = self.label.clone();
        block.append(" : ");
        if self.is_ok {
            block.append("OK");
        } else {
            block.append("FAILED");
        }
        block.append("\n");
        block.append(self.value.as_str());
        block
    }
}

/// Renders the report that lists every operation with its own status, in
/// declared order. The text is on the success side if all operations
/// succeeded and on the failure side otherwise; no operation is left out
/// because another one failed.
pub fn flag_preserving_report(leaves: &Vec<Leaf>) -> (report: StringTwinResult)
    ensures
        report_of(report) == flag_preserving(leaves_of(leaves@)),
        report is Ok <==> all_ok(leaves_of(leaves@)),
        twin_value(report)@ == leaf_blocks(leaves_of(leaves@)),
{
    let ghost views = leaves_of(leaves@);
    let mut text = String::new();
    let mut every_ok = true;
    let mut i: usize = 0;
    assert(views.subrange(0, 0) =~= Seq::<LeafView>::empty());
    while i < leaves.len()
        invariant
            i <= leaves.len(),
            views == leaves_of(leaves@),
            text@ == leaf_blocks(views.subrange(0, i as int)),
            every_ok == all_ok(views.subrange(0, i as int)),
        decreases leaves.len() - i,
    {
        let ghost before = views.subrange(0, i as int);
        let ghost after = views.subrange(0, i + 1);
        assert(after.drop_last() =~= before);
        assert(after.last() == leaves@[i as int]@);
        if i > 0 {
            text.append("\n\n");
        }
        let block = leaves[i].render();
        text.append(block.as_str());
        assert(text@ =~= leaf_blocks(after));
        proof {
            if all_ok(before) && leaves@[i as int].is_ok {
                assert forall|j: int| 0 <= j < after.len() implies (#[trigger] after[j]).is_ok by {
                    if j < i {
                        assert(after[j] == before[j]);
                    }
                }
            }
            if all_ok(after) {
                assert(after[i as int].is_ok);
                assert forall|j: int| 0 <= j < before.len() implies (#[trigger] before[j]).is_ok by {
                    assert(before[j] == after[j]);
                }
            }
        }
        every_ok = every_ok && leaves[i].is_ok;
        i += 1;
    }
    assert(views.subrange(0, i as int) =~= views);
    if every_ok {
        Ok(text)
    } else {
        Err(text)
    }
}

} // verus!
