//! The ordered plan of privilege operations.
//!
//! A run performs, for each requested capability in order, a raise into the
//! inheritable set and then a raise into the ambient set; after all of them
//! one read of the effective set; and last, if a target program was given,
//! the process replacement. This module states that order as a sequence of
//! operations and proves its invariants; the driver performs the operations
//! in exactly this order.

use vstd::prelude::*;

use crate::cap::Capability;

verus! {

/// One privilege operation of a run, in the order the driver performs them.
#[derive(Clone, Copy, PartialEq, Eq, Structural, Debug)]
pub enum CapOp {
    /// Raise one capability into the inheritable set of the calling process.
    RaiseInheritable(Capability),
    /// Raise one capability into the ambient set of the calling process.
    RaiseAmbient(Capability),
    /// Read the effective set of the calling process, for the report.
    ReadEffective,
    /// Replace the process image with the target program.
    Exec,
}

/// The raise operations for the requested capabilities, in request order:
/// inheritable first, then ambient, for each capability in turn.
pub open spec fn raise_ops(caps: Seq<Capability>) -> Seq<CapOp>
    decreases caps.len(),
{
    if caps.len() == 0 {
        Seq::empty()
    } else {
        seq![CapOp::RaiseInheritable(caps[0]), CapOp::RaiseAmbient(caps[0])]
            + raise_ops(caps.drop_first())
    }
}

/// Every operation of a whole run: all raises, then the one effective-set
/// read, then — only when a target program was given — the replacement.
pub open spec fn run_ops(caps: Seq<Capability>, has_program: bool) -> Seq<CapOp> {
    raise_ops(caps) + seq![CapOp::ReadEffective] + if has_program {
        seq![CapOp::Exec]
    } else {
        Seq::empty()
    }
}

proof fn lemma_raise_ops_len(caps: Seq<Capability>)
    ensures
        raise_ops(caps).len() == 2 * caps.len(),
    decreases caps.len(),
{
    if caps.len() > 0 {
        lemma_raise_ops_len(caps.drop_first());
    }
}

proof fn lemma_raise_ops_index(caps: Seq<Capability>, i: int)
    requires
        0 <= i < caps.len(),
    ensures
        raise_ops(caps).len() == 2 * caps.len(),
        raise_ops(caps)[2 * i] == CapOp::RaiseInheritable(caps[i]),
        raise_ops(caps)[2 * i + 1] == CapOp::RaiseAmbient(caps[i]),
    decreases caps.len(),
{
    lemma_raise_ops_len(caps);
    if i > 0 {
        lemma_raise_ops_index(caps.drop_first(), i - 1);
        lemma_raise_ops_len(caps.drop_first());
    }
}

proof fn lemma_raise_ops_only_raises(caps: Seq<Capability>, j: int)
    requires
        0 <= j < raise_ops(caps).len(),
    ensures
        raise_ops(caps)[j] is RaiseInheritable || raise_ops(caps)[j] is RaiseAmbient,
    decreases caps.len(),
{
    lemma_raise_ops_len(caps);
    if j >= 2 {
        lemma_raise_ops_only_raises(caps.drop_first(), j - 2);
        lemma_raise_ops_len(caps.drop_first());
    }
}

/// LAW (raising order): for every requested capability, the raise into the
/// inheritable set stands strictly before the raise into the ambient set of
/// that same request; the two are adjacent, in request order, before
/// anything else of the run.
pub proof fn lemma_inheritable_before_ambient(
    caps: Seq<Capability>,
    has_program: bool,
    i: int,
)
    requires
        0 <= i < caps.len(),
    ensures
        run_ops(caps, has_program)[2 * i] == CapOp::RaiseInheritable(caps[i]),
        run_ops(caps, has_program)[2 * i + 1] == CapOp::RaiseAmbient(caps[i]),
        2 * i + 1 < run_ops(caps, has_program).len(),
{
    lemma_raise_ops_index(caps, i);
}

/// LAW (one report, after every raise): a run reads the effective set
/// exactly once, and only after the raises of all requested capabilities —
/// successful or not — stand before it.
pub proof fn lemma_effective_read_once_after_raises(caps: Seq<Capability>, has_program: bool)
    ensures
        run_ops(caps, has_program)[2 * caps.len() as int] == CapOp::ReadEffective,
        forall|j: int|
            0 <= j < run_ops(caps, has_program).len() && j != 2 * caps.len() as int
                ==> run_ops(caps, has_program)[j] != CapOp::ReadEffective,
        forall|j: int|
            0 <= j < 2 * caps.len() as int
                ==> (run_ops(caps, has_program)[j] is RaiseInheritable || run_ops(
                caps,
                has_program,
            )[j] is RaiseAmbient),
{
    lemma_raise_ops_len(caps);
    assert forall|j: int| 0 <= j < 2 * caps.len() as int implies (run_ops(caps, has_program)[j]
        is RaiseInheritable || run_ops(caps, has_program)[j] is RaiseAmbient) by {
        lemma_raise_ops_only_raises(caps, j);
    }
}

/// LAW (no program, no replacement): without a target program the run holds
/// no replacement operation at all; it ends after the effective-set read.
pub proof fn lemma_no_program_no_exec(caps: Seq<Capability>)
    ensures
        forall|j: int|
            0 <= j < run_ops(caps, false).len() ==> run_ops(caps, false)[j] != CapOp::Exec,
        run_ops(caps, false).last() == CapOp::ReadEffective,
{
    lemma_raise_ops_len(caps);
    assert forall|j: int| 0 <= j < run_ops(caps, false).len() implies run_ops(caps, false)[j]
        != CapOp::Exec by {
        if j < 2 * caps.len() {
            lemma_raise_ops_only_raises(caps, j);
        }
    }
}

/// LAW (the replacement is last): with a target program the run ends in the
/// one replacement operation; nothing follows it, and no other operation of
/// the run is a replacement.
pub proof fn lemma_exec_is_last(caps: Seq<Capability>)
    ensures
        run_ops(caps, true).last() == CapOp::Exec,
        forall|j: int|
            0 <= j < run_ops(caps, true).len() - 1 ==> run_ops(caps, true)[j] != CapOp::Exec,
{
    lemma_raise_ops_len(caps);
    assert forall|j: int| 0 <= j < run_ops(caps, true).len() - 1 implies run_ops(caps, true)[j]
        != CapOp::Exec by {
        if j < 2 * caps.len() {
            lemma_raise_ops_only_raises(caps, j);
        }
    }
}

} // verus!
