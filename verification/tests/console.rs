use terminal_bridge::console::{attach_epilogue, attach_prologue, ConsoleOp};

#[test]
fn prologue_detaches_then_attaches_the_target() {
    let ops = attach_prologue(4242);
    assert_eq!(ops, vec![ConsoleOp::Detach, ConsoleOp::Attach { pid: 4242 }]);
}

#[test]
fn epilogue_is_one_unconditional_detach() {
    let ops = attach_epilogue();
    assert_eq!(ops, vec![ConsoleOp::Detach]);
}

#[test]
fn every_guard_sequence_ends_with_a_detach() {
    let pid = 31337;
    let mut all: Vec<ConsoleOp> = attach_prologue(pid);
    all.extend(attach_epilogue());
    assert_eq!(all.last(), Some(&ConsoleOp::Detach));
}
