use vstd::prelude::*;

use crate::error::Error;
use crate::types::{CellOutputWithData, OutPoint, TransactionData};

verus! {

/// Ends the program; `a0` carries the exit code.
pub const SYS_EXIT: u64 = 93;
/// Replaces the running program with one taken from a cell's data or a
/// witness: `a0` index, `a2` place (0 data, 1 witness), `a3` bounds (offset
/// in the high half, length in the low half, zero for "to the end"), `a4`
/// and `a5` the new argument count and vector.
pub const SYS_EXEC: u64 = 2043;
/// Loads the packed transaction that the program runs under.
pub const SYS_LOAD_TRANSACTION: u64 = 2051;
/// Loads the packed script that the program runs for.
pub const SYS_LOAD_SCRIPT: u64 = 2052;
/// Loads a packed cell output.
pub const SYS_LOAD_CELL: u64 = 2071;
/// Loads a block header.
pub const SYS_LOAD_HEADER: u64 = 2072;
/// Loads a witness.
pub const SYS_LOAD_WITNESS: u64 = 2074;
/// Loads a cell's data.
pub const SYS_LOAD_CELL_DATA: u64 = 2092;
/// Prints a message for debugging; has no effect on the result.
pub const SYS_DEBUG: u64 = 2177;
/// Writes the call's result: `a0` is its address, `a1` its length.
pub const SYS_SET_CONTENT: u64 = 2103;

/// Status codes written back into `a0`, as the chain's own scripts expect.
pub const SUCCESS: u64 = 0;
pub const INDEX_OUT_OF_BOUND: u64 = 1;
pub const ITEM_MISSING: u64 = 2;
pub const SLICE_OUT_OF_BOUND: u64 = 3;

/// The cycle budget of one run.
pub const MAX_CYCLES: u64 = 70000000;

/// A piece of the execution context that may have to be fetched.
#[derive(Clone, Copy, Debug, PartialEq, Eq, Structural)]
pub enum Field {
    Script,
    Cell,
    Transaction,
}

/// One piece of the context: not yet asked for, known, or known to be absent.
#[derive(Clone, Debug)]
pub enum Slot<T> {
    Unresolved,
    Ready(T),
    Missing,
}

/// The registers of one `ecall`: its number (from `a7`) and `a0` to `a4`.
#[derive(Clone, Copy, Debug)]
pub struct SyscallRequest {
    pub number: u64,
    pub a0: u64,
    pub a1: u64,
    pub a2: u64,
    pub a3: u64,
    pub a4: u64,
}

/// What the host does for one syscall.
#[derive(Clone, Debug)]
pub enum Action {
    /// Fetch this piece of the context, hand it over, and ask again.
    Fetch(Field),
    /// Write the window of `data` from `offset` (see `window`) and report success.
    Load { data: Vec<u8>, offset: u64 },
    /// Write this status code into `a0`.
    Status(u64),
    /// Read `len` bytes at `addr`, hand them to `set_content`, report success.
    ReadContent { addr: u64, len: u64 },
    /// Restart the machine on this program, with the arguments at `a4`/`a5`.
    Exec(Vec<u8>),
    /// Stop the program with this exit code.
    Exit(i8),
    /// Stop the call with this error.
    Fail(Error),
}

/// An action as a mathematical value.
pub enum Plan {
    Fetch(Field),
    Load { data: Seq<u8>, offset: u64 },
    Status(u64),
    ReadContent { addr: u64, len: u64 },
    Exec(Seq<u8>),
    Exit(i8),
    Fail(Error),
}

impl View for Action {
    type V = Plan;

    open spec fn view(&self) -> Plan {
        match self {
            Action::Fetch(f) => Plan::Fetch(*f),
            Action::Load { data, offset } => Plan::Load { data: data@, offset: *offset },
            Action::Status(c) => Plan::Status(*c),
            Action::ReadContent { addr, len } => Plan::ReadContent { addr: *addr, len: *len },
            Action::Exec(p) => Plan::Exec(p@),
            Action::Exit(c) => Plan::Exit(*c),
            Action::Fail(e) => Plan::Fail(*e),
        }
    }
}

/// Everything one run may see: the target, its arguments, the script, cell
/// and transaction (given up front or fetched once on demand), and the result
/// the program has written so far.
#[derive(Clone, Debug)]
pub struct ExecutionContext {
    pub target: OutPoint,
    pub args: Vec<Vec<u8>>,
    pub script: Slot<Vec<u8>>,
    pub cell: Slot<CellOutputWithData>,
    pub tx: Slot<TransactionData>,
    pub content: Option<Vec<u8>>,
}

/// The exit code in the low byte of `a0`, read as a signed byte.
pub open spec fn exit_code_of(a0: u64) -> i8 {
    let v = a0 as int % 256;
    if v < 128 {
        v as i8
    } else {
        (v - 256) as i8
    }
}

/// Whether a syscall number is one this engine serves.
pub open spec fn is_served(n: u64) -> bool {
    n == SYS_EXIT || n == SYS_EXEC || n == SYS_LOAD_TRANSACTION || n == SYS_LOAD_SCRIPT || n
        == SYS_LOAD_CELL || n == SYS_LOAD_HEADER || n == SYS_LOAD_WITNESS || n
        == SYS_LOAD_CELL_DATA || n == SYS_DEBUG || n == SYS_SET_CONTENT
}

/// The part of `data` that exec bounds select: from the offset in the high
/// half, the length in the low half (zero: to the end); `None` where that
/// runs past the end.
pub open spec fn exec_slice_of(data: Seq<u8>, bounds: u64) -> Option<Seq<u8>> {
    let offset = bounds as int / 0x1_0000_0000;
    let length = bounds as int % 0x1_0000_0000;
    let end = if length == 0 { data.len() as int } else { offset + length };
    if offset <= data.len() && end <= data.len() {
        Some(data.subrange(offset, end))
    } else {
        None
    }
}

/// What exec does with the item it found.
pub open spec fn exec_plan(data: Seq<u8>, bounds: u64) -> Plan {
    match exec_slice_of(data, bounds) {
        Some(p) => Plan::Exec(p),
        None => Plan::Status(SLICE_OUT_OF_BOUND),
    }
}

/// What the engine does for `req` in context `ctx`, apart from traps on
/// numbers it does not serve.
pub open spec fn plan(ctx: ExecutionContext, req: SyscallRequest) -> Plan {
    let n = req.number;
    if n == SYS_EXIT {
        Plan::Exit(exit_code_of(req.a0))
    } else if n == SYS_LOAD_SCRIPT {
        match ctx.script {
            Slot::Unresolved => Plan::Fetch(Field::Script),
            Slot::Ready(b) => Plan::Load { data: b@, offset: req.a2 },
            Slot::Missing => Plan::Fail(Error::InvalidRequest("Cell not found")),
        }
    } else if n == SYS_LOAD_CELL || n == SYS_LOAD_CELL_DATA {
        if req.a3 != 0 {
            Plan::Status(INDEX_OUT_OF_BOUND)
        } else {
            match ctx.cell {
                Slot::Unresolved => Plan::Fetch(Field::Cell),
                Slot::Missing => Plan::Fail(Error::InvalidRequest("Cell not found")),
                Slot::Ready(c) => if n == SYS_LOAD_CELL {
                    Plan::Load { data: c.cell_output@, offset: req.a2 }
                } else {
                    match c.hex_data {
                        Some(h) => Plan::Load { data: h.hex@, offset: req.a2 },
                        None => Plan::Status(ITEM_MISSING),
                    }
                },
            }
        }
    } else if n == SYS_LOAD_TRANSACTION {
        match ctx.tx {
            Slot::Unresolved => Plan::Fetch(Field::Transaction),
            Slot::Ready(t) => Plan::Load { data: t.packed@, offset: req.a2 },
            Slot::Missing => Plan::Status(ITEM_MISSING),
        }
    } else if n == SYS_LOAD_WITNESS {
        match ctx.tx {
            Slot::Unresolved => Plan::Fetch(Field::Transaction),
            Slot::Ready(t) => if req.a3 < t.witnesses@.len() {
                Plan::Load { data: t.witnesses@[req.a3 as int]@, offset: req.a2 }
            } else {
                Plan::Status(INDEX_OUT_OF_BOUND)
            },
            Slot::Missing => Plan::Status(ITEM_MISSING),
        }
    } else if n == SYS_EXEC {
        if req.a2 == 0 {
            if req.a0 != 0 {
                Plan::Status(INDEX_OUT_OF_BOUND)
            } else {
                match ctx.cell {
                    Slot::Unresolved => Plan::Fetch(Field::Cell),
                    Slot::Missing => Plan::Fail(Error::InvalidRequest("Cell not found")),
                    Slot::Ready(c) => match c.hex_data {
                        Some(h) => exec_plan(h.hex@, req.a3),
                        None => Plan::Status(ITEM_MISSING),
                    },
                }
            }
        } else if req.a2 == 1 {
            match ctx.tx {
                Slot::Unresolved => Plan::Fetch(Field::Transaction),
                Slot::Ready(t) => if req.a0 < t.witnesses@.len() {
                    exec_plan(t.witnesses@[req.a0 as int]@, req.a3)
                } else {
                    Plan::Status(INDEX_OUT_OF_BOUND)
                },
                Slot::Missing => Plan::Status(ITEM_MISSING),
            }
        } else {
            Plan::Status(INDEX_OUT_OF_BOUND)
        }
    } else if n == SYS_LOAD_HEADER {
        Plan::Status(ITEM_MISSING)
    } else if n == SYS_SET_CONTENT {
        Plan::ReadContent { addr: req.a0, len: req.a1 }
    } else {
        Plan::Status(SUCCESS)
    }
}

fn copy_range(data: &[u8], start: usize, end: usize) -> (r: Vec<u8>)
    requires
        start <= end <= data@.len(),
    ensures
        r@ == data@.subrange(start as int, end as int),
{
    let mut out: Vec<u8> = Vec::new();
    let mut i: usize = start;
    while i < end
        invariant
            start <= i <= end,
            end <= data@.len(),
            out@ == data@.subrange(start as int, i as int),
        decreases end - i,
    {
        out.push(data[i]);
        i = i + 1;
        proof {
            assert(out@ =~= data@.subrange(start as int, i as int));
        }
    }
    out
}

fn exec_action(data: &[u8], bounds: u64) -> (r: Action)
    ensures
        r@ == exec_plan(data@, bounds),
{
    let offset: u64 = bounds / 0x1_0000_0000;
    let length: u64 = bounds % 0x1_0000_0000;
    let len = data.len() as u64;
    if offset > len {
        return Action::Status(SLICE_OUT_OF_BOUND);
    }
    let end: u64 = if length == 0 {
        len
    } else if length > len - offset {
        return Action::Status(SLICE_OUT_OF_BOUND);
    } else {
        offset + length
    };
    Action::Exec(copy_range(data, offset as usize, end as usize))
}

fn exit_code(a0: u64) -> (r: i8)
    ensures
        r == exit_code_of(a0),
{
    let v: u64 = a0 % 256;
    if v < 128 {
        v as i8
    } else {
        (v as i16 - 256) as i8
    }
}

impl ExecutionContext {
    /// Decides what the host does for one syscall. A number this engine does
    /// not serve traps the run with `Vm`; any other follows `plan`.
    pub fn decide(&self, req: &SyscallRequest) -> (r: Action)
        ensures
            !is_served(req.number) ==> (r is Fail && r->Fail_0 is Vm),
            is_served(req.number) ==> r@ == plan(*self, *req),
    {
        let n = req.number;
        if n == SYS_EXIT {
            Action::Exit(exit_code(req.a0))
        } else if n == SYS_LOAD_SCRIPT {
            match &self.script {
                Slot::Unresolved => Action::Fetch(Field::Script),
                Slot::Ready(b) => Action::Load { data: b.clone(), offset: req.a2 },
                Slot::Missing => Action::Fail(Error::InvalidRequest("Cell not found")),
            }
        } else if n == SYS_LOAD_CELL || n == SYS_LOAD_CELL_DATA {
            if req.a3 != 0 {
                Action::Status(INDEX_OUT_OF_BOUND)
            } else {
                match &self.cell {
                    Slot::Unresolved => Action::Fetch(Field::Cell),
                    Slot::Missing => Action::Fail(Error::InvalidRequest("Cell not found")),
                    Slot::Ready(c) => if n == SYS_LOAD_CELL {
                        Action::Load { data: c.cell_output.clone(), offset: req.a2 }
                    } else {
                        match &c.hex_data {
                            Some(h) => Action::Load { data: h.hex.clone(), offset: req.a2 },
                            None => Action::Status(ITEM_MISSING),
                        }
                    },
                }
            }
        } else if n == SYS_LOAD_TRANSACTION {
            match &self.tx {
                Slot::Unresolved => Action::Fetch(Field::Transaction),
                Slot::Ready(t) => Action::Load { data: t.packed.clone(), offset: req.a2 },
                Slot::Missing => Action::Status(ITEM_MISSING),
            }
        } else if n == SYS_LOAD_WITNESS {
            match &self.tx {
                Slot::Unresolved => Action::Fetch(Field::Transaction),
                Slot::Ready(t) => if req.a3 < t.witnesses.len() as u64 {
                    Action::Load { data: t.witnesses[req.a3 as usize].clone(), offset: req.a2 }
                } else {
                    Action::Status(INDEX_OUT_OF_BOUND)
                },
                Slot::Missing => Action::Status(ITEM_MISSING),
            }
        } else if n == SYS_EXEC {
            if req.a2 == 0 {
                if req.a0 != 0 {
                    Action::Status(INDEX_OUT_OF_BOUND)
                } else {
                    match &self.cell {
                        Slot::Unresolved => Action::Fetch(Field::Cell),
                        Slot::Missing => Action::Fail(Error::InvalidRequest("Cell not found")),
                        Slot::Ready(c) => match &c.hex_data {
                            Some(h) => exec_action(h.hex.as_slice(), req.a3),
                            None => Action::Status(ITEM_MISSING),
                        },
                    }
                }
            } else if req.a2 == 1 {
                match &self.tx {
                    Slot::Unresolved => Action::Fetch(Field::Transaction),
                    Slot::Ready(t) => if req.a0 < t.witnesses.len() as u64 {
                        exec_action(t.witnesses[req.a0 as usize].as_slice(), req.a3)
                    } else {
                        Action::Status(INDEX_OUT_OF_BOUND)
                    },
                    Slot::Missing => Action::Status(ITEM_MISSING),
                }
            } else {
                Action::Status(INDEX_OUT_OF_BOUND)
            }
        } else if n == SYS_LOAD_HEADER {
            Action::Status(ITEM_MISSING)
        } else if n == SYS_SET_CONTENT {
            Action::ReadContent { addr: req.a0, len: req.a1 }
        } else if n == SYS_DEBUG {
            Action::Status(SUCCESS)
        } else {
            Action::Fail(Error::Vm(String::from_str("unsupported syscall")))
        }
    }
}

/// A fetched piece fills its slot only while the slot is unresolved: a piece
/// given up front, or fetched before in this run, is kept.
pub open spec fn filled<T>(old_slot: Slot<T>, found: Option<T>, new_slot: Slot<T>) -> bool {
    match old_slot {
        Slot::Unresolved => match found {
            Some(v) => new_slot == Slot::Ready(v),
            None => new_slot is Missing,
        },
        _ => new_slot == old_slot,
    }
}

fn fill<T>(slot: &mut Slot<T>, found: Option<T>)
    ensures
        filled(*old(slot), found, *final(slot)),
{
    if let Slot::Unresolved = slot {
        match found {
            Some(v) => {
                *slot = Slot::Ready(v);
            },
            None => {
                *slot = Slot::Missing;
            },
        }
    }
}

impl ExecutionContext {
    /// A fresh context for `target`: each override fills its slot, the other
    /// slots wait for the first syscall that needs them.
    pub fn new(
        target: OutPoint,
        args: Vec<Vec<u8>>,
        script: Option<Vec<u8>>,
        cell: Option<CellOutputWithData>,
        tx: Option<TransactionData>,
    ) -> (r: ExecutionContext)
        ensures
            r.target == target,
            r.args == args,
            r.script == (match script { Some(v) => Slot::Ready(v), None => Slot::Unresolved }),
            r.cell == (match cell { Some(v) => Slot::Ready(v), None => Slot::Unresolved }),
            r.tx == (match tx { Some(v) => Slot::Ready(v), None => Slot::Unresolved }),
            r.content is None,
    {
        ExecutionContext {
            target,
            args,
            script: match script {
                Some(v) => Slot::Ready(v),
                None => Slot::Unresolved,
            },
            cell: match cell {
                Some(v) => Slot::Ready(v),
                None => Slot::Unresolved,
            },
            tx: match tx {
                Some(v) => Slot::Ready(v),
                None => Slot::Unresolved,
            },
            content: None,
        }
    }

    /// Hands over the fetched script (`None`: the target cell was not found).
    pub fn supply_script(&mut self, found: Option<Vec<u8>>)
        ensures
            filled(old(self).script, found, final(self).script),
            final(self).cell == old(self).cell,
            final(self).tx == old(self).tx,
            final(self).target == old(self).target,
            final(self).args == old(self).args,
            final(self).content == old(self).content,
    {
        fill(&mut self.script, found);
    }

    /// Hands over the fetched cell (`None`: no live cell at the target).
    pub fn supply_cell(&mut self, found: Option<CellOutputWithData>)
        ensures
            filled(old(self).cell, found, final(self).cell),
            final(self).script == old(self).script,
            final(self).tx == old(self).tx,
            final(self).target == old(self).target,
            final(self).args == old(self).args,
            final(self).content == old(self).content,
    {
        fill(&mut self.cell, found);
    }

    /// Hands over the fetched transaction (`None`: it was not found).
    pub fn supply_transaction(&mut self, found: Option<TransactionData>)
        ensures
            filled(old(self).tx, found, final(self).tx),
            final(self).script == old(self).script,
            final(self).cell == old(self).cell,
            final(self).target == old(self).target,
            final(self).args == old(self).args,
            final(self).content == old(self).content,
    {
        fill(&mut self.tx, found);
    }

    /// Records the bytes that the program wrote to its result slot; a later
    /// write replaces an earlier one.
    pub fn set_content(&mut self, bytes: Vec<u8>)
        ensures
            final(self).content == Some(bytes),
            final(self).script == old(self).script,
            final(self).cell == old(self).cell,
            final(self).tx == old(self).tx,
            final(self).target == old(self).target,
            final(self).args == old(self).args,
    {
        self.content = Some(bytes);
    }

    /// The result of a run that ended with `exit_code`: on zero, what the
    /// program wrote to its result slot (or nothing); otherwise `Script`.
    pub fn finish(self, exit_code: i8) -> (r: Result<Option<Vec<u8>>, Error>)
        ensures
            r == run_outcome(exit_code, self.content),
    {
        if exit_code == 0 {
            Ok(self.content)
        } else {
            Err(Error::Script(exit_code))
        }
    }
}

/// The outcome of a run from its exit code and result slot.
pub open spec fn run_outcome(exit_code: i8, content: Option<Vec<u8>>) -> Result<
    Option<Vec<u8>>,
    Error,
> {
    if exit_code == 0 {
        Ok(content)
    } else {
        Err(Error::Script(exit_code))
    }
}

/// The part of `data` that a load from `offset` into a buffer of `size` bytes
/// copies, and the length that it reports: what is left of `data` from
/// `offset` on (nothing, where `offset` lies past its end).
pub open spec fn window_of(data: Seq<u8>, offset: u64, size: u64) -> (Seq<u8>, u64) {
    let start = if offset as int <= data.len() { offset as int } else { data.len() as int };
    let full = data.len() - start;
    let copied = if size as int <= full { size as int } else { full };
    (data.subrange(start, start + copied), full as u64)
}

/// Cuts the window of a partial load: the bytes copied and the full length.
pub fn window(data: &[u8], offset: u64, size: u64) -> (r: (Vec<u8>, u64))
    ensures
        r.0@ == window_of(data@, offset, size).0,
        r.1 == window_of(data@, offset, size).1,
{
    let len = data.len() as u64;
    let start: u64 = if offset <= len { offset } else { len };
    let full: u64 = len - start;
    let copied: u64 = if size <= full { size } else { full };
    let out = copy_range(data, start as usize, (start + copied) as usize);
    (out, full)
}

/// A program that exits with zero returns exactly what it wrote to its
/// result slot, and one that exits with any other code fails with `Script`
/// and that code; the arguments play no part in either.
pub proof fn lemma_exit_code_decides(exit_code: i8, content: Option<Vec<u8>>)
    ensures
        exit_code == 0 ==> run_outcome(exit_code, content) == Ok::<Option<Vec<u8>>, Error>(content),
        exit_code != 0 ==> run_outcome(exit_code, content) == Err::<Option<Vec<u8>>, Error>(
            Error::Script(exit_code),
        ),
{
}

/// A script given up front is never fetched, and no fetched value replaces
/// it; the cell and the transaction, when not given, are still fetched when
/// a syscall first needs them.
pub proof fn lemma_given_script_is_kept(
    ctx: ExecutionContext,
    req: SyscallRequest,
    found: Option<Vec<u8>>,
    after: Slot<Vec<u8>>,
)
    requires
        ctx.script is Ready,
        filled(ctx.script, found, after),
    ensures
        plan(ctx, req) != Plan::Fetch(Field::Script),
        after == ctx.script,
        ctx.cell is Unresolved && req.number == SYS_LOAD_CELL && req.a3 == 0 ==> plan(ctx, req)
            == Plan::Fetch(Field::Cell),
        ctx.cell is Unresolved && req.number == SYS_LOAD_CELL_DATA && req.a3 == 0 ==> plan(
            ctx,
            req,
        ) == Plan::Fetch(Field::Cell),
        ctx.tx is Unresolved && req.number == SYS_LOAD_TRANSACTION ==> plan(ctx, req)
            == Plan::Fetch(Field::Transaction),
{
}

/// The arguments play no part in how syscalls are served: two runs whose
/// script, cell and transaction agree are served alike, whatever arguments
/// and target each was given.
pub proof fn lemma_decisions_ignore_args(a: ExecutionContext, b: ExecutionContext, req: SyscallRequest)
    requires
        a.script == b.script,
        a.cell == b.cell,
        a.tx == b.tx,
    ensures
        plan(a, req) == plan(b, req),
{
}

/// Each field is fetched at most once in a run: once filled, a slot asks for
/// no fetch again and keeps its value.
pub proof fn lemma_fetch_at_most_once<T>(old_slot: Slot<T>, found: Option<T>, new_slot: Slot<T>)
    requires
        filled(old_slot, found, new_slot),
    ensures
        !(new_slot is Unresolved),
        !(old_slot is Unresolved) ==> new_slot == old_slot,
{
}

} // verus!
