use ssri_server::engine::{
    window, Action, ExecutionContext, Field, Slot, SyscallRequest, INDEX_OUT_OF_BOUND,
    ITEM_MISSING, SLICE_OUT_OF_BOUND, SUCCESS, SYS_EXEC, SYS_DEBUG, SYS_EXIT, SYS_LOAD_CELL, SYS_LOAD_CELL_DATA,
    SYS_LOAD_HEADER, SYS_LOAD_SCRIPT, SYS_LOAD_TRANSACTION, SYS_LOAD_WITNESS, SYS_SET_CONTENT,
};
use ssri_server::error::Error;
use ssri_server::types::{CellOutputWithData, Hex, OutPoint, SearchMode, TransactionData};

fn target() -> OutPoint {
    OutPoint { tx_hash: vec![0x11; 32], index: 0 }
}

fn req(number: u64, a0: u64, a1: u64, a2: u64, a3: u64) -> SyscallRequest {
    SyscallRequest { number, a0, a1, a2, a3, a4: 0 }
}

fn bare(args: Vec<Vec<u8>>) -> ExecutionContext {
    ExecutionContext::new(target(), args, None, None, None)
}

#[test]
fn window_cuts_partial_loads() {
    assert_eq!(window(&[1, 2, 3, 4], 1, 2), (vec![2, 3], 3));
    assert_eq!(window(&[1, 2, 3, 4], 0, 10), (vec![1, 2, 3, 4], 4));
    assert_eq!(window(&[1, 2, 3, 4], 4, 10), (vec![], 0));
    assert_eq!(window(&[1, 2, 3, 4], 9, 1), (vec![], 0));
    assert_eq!(window(&[], 0, 0), (vec![], 0));
}

#[test]
fn exit_reads_signed_low_byte() {
    let ctx = bare(vec![]);
    assert!(matches!(ctx.decide(&req(SYS_EXIT, 7, 0, 0, 0)), Action::Exit(7)));
    assert!(matches!(ctx.decide(&req(SYS_EXIT, 255, 0, 0, 0)), Action::Exit(-1)));
    assert!(matches!(ctx.decide(&req(SYS_EXIT, 0x100, 0, 0, 0)), Action::Exit(0)));
}

#[test]
fn exit_seven_is_script_error_whatever_the_args() {
    for args in [vec![], vec![vec![1u8]], vec![vec![0xde, 0xad], vec![]]] {
        let ctx = bare(args);
        match ctx.decide(&req(SYS_EXIT, 7, 0, 0, 0)) {
            Action::Exit(code) => assert!(matches!(ctx.finish(code), Err(Error::Script(7)))),
            _ => panic!("expected an exit"),
        }
    }
}

#[test]
fn exit_zero_returns_written_bytes_whatever_the_args() {
    for args in [vec![], vec![vec![9u8, 9]]] {
        let mut ctx = bare(args);
        assert!(matches!(
            ctx.decide(&req(SYS_SET_CONTENT, 0x1000, 3, 0, 0)),
            Action::ReadContent { addr: 0x1000, len: 3 }
        ));
        ctx.set_content(vec![1, 2, 3]);
        assert_eq!(ctx.finish(0).unwrap(), Some(vec![1, 2, 3]));
    }
    assert_eq!(bare(vec![]).finish(0).unwrap(), None);
}

#[test]
fn unknown_syscall_traps_and_others_go_on() {
    let ctx = bare(vec![]);
    assert!(matches!(ctx.decide(&req(9999, 0, 0, 0, 0)), Action::Fail(Error::Vm(_))));
    let next = bare(vec![vec![5]]);
    assert!(matches!(next.decide(&req(SYS_EXIT, 0, 0, 0, 0)), Action::Exit(0)));
    assert!(matches!(next.decide(&req(SYS_DEBUG, 0, 0, 0, 0)), Action::Status(SUCCESS)));
}

#[test]
fn missing_pieces_are_fetched_once() {
    let mut ctx = bare(vec![]);
    assert!(matches!(ctx.decide(&req(SYS_LOAD_CELL, 0, 0, 0, 0)), Action::Fetch(Field::Cell)));
    ctx.supply_cell(Some(CellOutputWithData {
        cell_output: vec![7, 8],
        hex_data: Some(Hex { hex: vec![4, 5, 6] }),
    }));
    match ctx.decide(&req(SYS_LOAD_CELL_DATA, 0, 0, 1, 0)) {
        Action::Load { data, offset } => {
            assert_eq!(data, vec![4, 5, 6]);
            assert_eq!(offset, 1);
        }
        _ => panic!("expected a load"),
    }
    ctx.supply_cell(None);
    assert!(matches!(ctx.cell, Slot::Ready(_)));
    assert!(matches!(
        ctx.decide(&req(SYS_LOAD_CELL, 0, 0, 0, 1)),
        Action::Status(INDEX_OUT_OF_BOUND)
    ));
}

#[test]
fn absent_pieces() {
    let mut ctx = bare(vec![]);
    ctx.supply_cell(None);
    assert!(matches!(
        ctx.decide(&req(SYS_LOAD_CELL, 0, 0, 0, 0)),
        Action::Fail(Error::InvalidRequest("Cell not found"))
    ));
    ctx.supply_transaction(None);
    assert!(matches!(
        ctx.decide(&req(SYS_LOAD_TRANSACTION, 0, 0, 0, 0)),
        Action::Status(ITEM_MISSING)
    ));
    assert!(matches!(ctx.decide(&req(SYS_LOAD_HEADER, 0, 0, 0, 0)), Action::Status(ITEM_MISSING)));
    assert!(matches!(ctx.decide(&req(SYS_LOAD_WITNESS, 0, 0, 0, 0)), Action::Status(ITEM_MISSING)));
}

#[test]
fn witnesses_load_by_index() {
    let mut ctx = bare(vec![]);
    assert!(matches!(
        ctx.decide(&req(SYS_LOAD_WITNESS, 0, 0, 0, 0)),
        Action::Fetch(Field::Transaction)
    ));
    ctx.supply_transaction(Some(TransactionData {
        packed: vec![0xee],
        witnesses: vec![vec![1], vec![2, 3]],
    }));
    match ctx.decide(&req(SYS_LOAD_WITNESS, 0, 0, 0, 1)) {
        Action::Load { data, offset } => {
            assert_eq!(data, vec![2, 3]);
            assert_eq!(offset, 0);
        }
        _ => panic!("expected a load"),
    }
    assert!(matches!(
        ctx.decide(&req(SYS_LOAD_WITNESS, 0, 0, 0, 2)),
        Action::Status(INDEX_OUT_OF_BOUND)
    ));
    match ctx.decide(&req(SYS_LOAD_TRANSACTION, 0, 0, 0, 0)) {
        Action::Load { data, .. } => assert_eq!(data, vec![0xee]),
        _ => panic!("expected a load"),
    }
}

#[test]
fn given_script_is_never_fetched() {
    let mut ctx = ExecutionContext::new(target(), vec![], Some(vec![0xaa, 0xbb]), None, None);
    match ctx.decide(&req(SYS_LOAD_SCRIPT, 0, 0, 0, 0)) {
        Action::Load { data, .. } => assert_eq!(data, vec![0xaa, 0xbb]),
        _ => panic!("expected a load"),
    }
    ctx.supply_script(Some(vec![1]));
    assert!(matches!(&ctx.script, Slot::Ready(s) if *s == vec![0xaa, 0xbb]));
    assert!(matches!(ctx.decide(&req(SYS_LOAD_CELL, 0, 0, 0, 0)), Action::Fetch(Field::Cell)));
    assert!(matches!(
        ctx.decide(&req(SYS_LOAD_TRANSACTION, 0, 0, 0, 0)),
        Action::Fetch(Field::Transaction)
    ));
}

#[test]
fn two_calls_on_one_target_do_not_interfere() {
    let mut a = bare(vec![vec![1]]);
    let mut b = bare(vec![vec![2]]);
    a.set_content(vec![1]);
    b.supply_cell(None);
    b.set_content(vec![2]);
    assert!(matches!(a.cell, Slot::Unresolved));
    assert_eq!(a.finish(0).unwrap(), Some(vec![1]));
    assert_eq!(b.finish(0).unwrap(), Some(vec![2]));
}

#[test]
fn search_mode_defaults_to_prefix() {
    assert_eq!(SearchMode::default(), SearchMode::Prefix);
}

#[test]
fn exec_takes_a_slice_of_cell_data_or_witness() {
    let mut ctx = bare(vec![]);
    assert!(matches!(ctx.decide(&req(SYS_EXEC, 0, 3, 0, 0)), Action::Fetch(Field::Cell)));
    ctx.supply_cell(Some(CellOutputWithData {
        cell_output: vec![],
        hex_data: Some(Hex { hex: vec![10, 11, 12, 13, 14] }),
    }));
    match ctx.decide(&req(SYS_EXEC, 0, 3, 0, 0)) {
        Action::Exec(p) => assert_eq!(p, vec![10, 11, 12, 13, 14]),
        _ => panic!("expected exec"),
    }
    match ctx.decide(&req(SYS_EXEC, 0, 3, 0, (1u64 << 32) | 2)) {
        Action::Exec(p) => assert_eq!(p, vec![11, 12]),
        _ => panic!("expected exec"),
    }
    match ctx.decide(&req(SYS_EXEC, 0, 3, 0, 5u64 << 32)) {
        Action::Exec(p) => assert_eq!(p, Vec::<u8>::new()),
        _ => panic!("expected exec"),
    }
    assert!(matches!(
        ctx.decide(&req(SYS_EXEC, 0, 3, 0, 6u64 << 32)),
        Action::Status(SLICE_OUT_OF_BOUND)
    ));
    assert!(matches!(
        ctx.decide(&req(SYS_EXEC, 0, 3, 0, (4u64 << 32) | 2)),
        Action::Status(SLICE_OUT_OF_BOUND)
    ));
    assert!(matches!(ctx.decide(&req(SYS_EXEC, 1, 3, 0, 0)), Action::Status(INDEX_OUT_OF_BOUND)));
    ctx.supply_transaction(Some(TransactionData { packed: vec![], witnesses: vec![vec![7, 8]] }));
    match ctx.decide(&req(SYS_EXEC, 0, 3, 1, 0)) {
        Action::Exec(p) => assert_eq!(p, vec![7, 8]),
        _ => panic!("expected exec"),
    }
    assert!(matches!(ctx.decide(&req(SYS_EXEC, 1, 3, 1, 0)), Action::Status(INDEX_OUT_OF_BOUND)));
}
