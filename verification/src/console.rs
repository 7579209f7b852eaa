//! Sequencing for the console-model attach guard.
//!
//! On a platform where console identity is per-process global state, directing
//! an operation's console I/O at the target terminal takes three console
//! calls: detach from the current console, attach to the agent's console, and
//! — unconditionally, once the operation is done — detach again. The calls
//! themselves are foreign and best-effort; this module fixes their order and
//! proves that the order alone already guarantees the binding ends detached.

use vstd::prelude::*;

verus! {

/// One call into the per-process console subsystem.
#[derive(Clone, Copy, Debug, PartialEq, Eq, Structural)]
pub enum ConsoleOp {
    /// Detach the calling process from whatever console it holds.
    Detach,
    /// Attach the calling process to the console of the process `pid`.
    Attach { pid: u32 },
}

/// The process-global console binding: at most one console at a time.
#[derive(Clone, Copy, Debug, PartialEq, Eq, Structural)]
pub enum ConsoleBinding {
    /// The process holds no console.
    Detached,
    /// The process holds the console of the process `pid`.
    Attached { pid: u32 },
}

/// How one console call may change the binding. A detach always leaves the
/// process without a console (detaching with none attached merely fails). An
/// attach is best-effort: it reaches the target's console or, on failure,
/// leaves the binding as it was.
pub open spec fn op_step(pre: ConsoleBinding, op: ConsoleOp, post: ConsoleBinding) -> bool {
    match op {
        ConsoleOp::Detach => post == ConsoleBinding::Detached,
        ConsoleOp::Attach { pid } => post == (ConsoleBinding::Attached { pid }) || post == pre,
    }
}

/// Whether running `ops` in order can take the binding from `pre` to `post`,
/// each call behaving as `op_step` allows.
pub open spec fn ops_run(pre: ConsoleBinding, ops: Seq<ConsoleOp>, post: ConsoleBinding) -> bool
    decreases ops.len(),
{
    if ops.len() == 0 {
        post == pre
    } else {
        exists|mid: ConsoleBinding| op_step(pre, ops[0], mid) && ops_run(mid, ops.skip(1), post)
    }
}

/// The console calls to make before running the guarded operation: detach
/// from the current console, then attach to the console of the process `pid`.
pub fn attach_prologue(pid: u32) -> (ops: Vec<ConsoleOp>)
    ensures
        ops@ == seq![ConsoleOp::Detach, ConsoleOp::Attach { pid }],
{
    let mut ops: Vec<ConsoleOp> = Vec::new();
    ops.push(ConsoleOp::Detach);
    ops.push(ConsoleOp::Attach { pid });
    proof {
        assert(ops@ =~= seq![ConsoleOp::Detach, ConsoleOp::Attach { pid }]);
    }
    ops
}

/// The console call to make after the guarded operation, on every exit path:
/// one unconditional detach.
pub fn attach_epilogue() -> (ops: Vec<ConsoleOp>)
    ensures
        ops@ == seq![ConsoleOp::Detach],
{
    let mut ops: Vec<ConsoleOp> = Vec::new();
    ops.push(ConsoleOp::Detach);
    proof {
        assert(ops@ =~= seq![ConsoleOp::Detach]);
    }
    ops
}

/// Law: a run of console calls whose last call is a detach leaves the binding
/// detached, whatever the calls before it did and however each call fared.
pub proof fn lemma_final_detach_leaves_detached(
    pre: ConsoleBinding,
    ops: Seq<ConsoleOp>,
    post: ConsoleBinding,
)
    requires
        ops.len() > 0,
        ops.last() == ConsoleOp::Detach,
        ops_run(pre, ops, post),
    ensures
        post == ConsoleBinding::Detached,
    decreases ops.len(),
{
    let mid = choose|mid: ConsoleBinding| op_step(pre, ops[0], mid) && ops_run(
        mid,
        ops.skip(1),
        post,
    );
    if ops.len() == 1 {
        assert(post == mid);
    } else {
        assert(ops.skip(1).last() == ops.last());
        lemma_final_detach_leaves_detached(mid, ops.skip(1), post);
    }
}

/// Law: after an attach guard completes — prologue, guarded operation,
/// epilogue, with the operation itself leaving the binding alone, as the
/// single-threaded design demands — the process's console binding is left
/// detached, never attached to the target's console, whether or not the
/// operation or any console call succeeded.
pub proof fn lemma_attach_guard_ends_detached(
    pid: u32,
    pre: ConsoleBinding,
    mid: ConsoleBinding,
    post: ConsoleBinding,
)
    requires
        ops_run(pre, seq![ConsoleOp::Detach, ConsoleOp::Attach { pid }], mid),
        ops_run(mid, seq![ConsoleOp::Detach], post),
    ensures
        post == ConsoleBinding::Detached,
{
    lemma_final_detach_leaves_detached(mid, seq![ConsoleOp::Detach], post);
}

} // verus!
