use vstd::prelude::*;

use crate::codec::{decode, encode, is_wire_hex, wire_decodes_to, wire_of};
use crate::engine::{ExecutionContext, Slot};
use crate::error::Error;
use crate::types::{CellOutputWithData, OutPoint, TransactionData};

verus! {

/// The one optional piece of context a caller may give: the four call shapes
/// are the four values of this type.
#[derive(Clone, Debug)]
pub enum Override {
    Nothing,
    Script(Vec<u8>),
    Cell(CellOutputWithData),
    Transaction(TransactionData),
}

/// Every argument is a wire string.
pub open spec fn all_wire(args: Seq<String>) -> bool {
    forall|i: int| 0 <= i < args.len() ==> is_wire_hex(#[trigger] args[i]@)
}

/// Decodes the call's arguments, in order; the first malformed one fails the
/// call with `Encoding`.
pub fn decode_args(args: &Vec<String>) -> (r: Result<Vec<Vec<u8>>, Error>)
    ensures
        r is Ok <==> all_wire(args@),
        r matches Ok(v) ==> v@.len() == args@.len() && forall|i: int|
            0 <= i < args@.len() ==> wire_decodes_to(args@[i]@, #[trigger] v@[i]@),
        r matches Err(e) ==> e is Encoding,
{
    let mut out: Vec<Vec<u8>> = Vec::new();
    let mut i: usize = 0;
    while i < args.len()
        invariant
            i <= args@.len(),
            out@.len() == i,
            forall|j: int| 0 <= j < i ==> is_wire_hex(#[trigger] args@[j]@),
            forall|j: int| 0 <= j < i ==> wire_decodes_to(args@[j]@, #[trigger] out@[j]@),
        decreases args@.len() - i,
    {
        match decode(args[i].as_str()) {
            Ok(v) => {
                out.push(v);
            },
            Err(e) => {
                return Err(e);
            },
        }
        i = i + 1;
    }
    Ok(out)
}

/// The program a code-level call runs: the data of the target's live cell.
pub open spec fn program_outcome(target_cell: Option<CellOutputWithData>) -> Result<
    Seq<u8>,
    Error,
> {
    match target_cell {
        None => Err(Error::InvalidRequest("Cell not found")),
        Some(c) => match c.hex_data {
            None => Err(Error::InvalidRequest("Cell doesn't have data")),
            Some(h) => Ok(h.hex@),
        },
    }
}

/// Takes the program out of the target's live cell.
pub fn program_of(target_cell: Option<CellOutputWithData>) -> (r: Result<Vec<u8>, Error>)
    ensures
        match r {
            Ok(p) => program_outcome(target_cell) == Ok::<Seq<u8>, Error>(p@),
            Err(e) => program_outcome(target_cell) == Err::<Seq<u8>, Error>(e),
        },
{
    match target_cell {
        None => Err(Error::InvalidRequest("Cell not found")),
        Some(c) => match c.hex_data {
            None => Err(Error::InvalidRequest("Cell doesn't have data")),
            Some(h) => Ok(h.hex),
        },
    }
}

/// Prepares one call from the caller's input and the target's live cell (as
/// fetched; `None` where there is none): the program to run and the context
/// it runs in. Malformed arguments fail first, then a missing cell or data;
/// on any failure no context exists and nothing runs.
pub fn prepare(
    target: OutPoint,
    args: &Vec<String>,
    overrides: Override,
    target_cell: Option<CellOutputWithData>,
) -> (r: Result<(Vec<u8>, ExecutionContext), Error>)
    ensures
        !all_wire(args@) ==> (r is Err && r->Err_0 is Encoding),
        all_wire(args@) ==> match r {
            Ok((p, ctx)) => {
                &&& program_outcome(target_cell) == Ok::<Seq<u8>, Error>(p@)
                &&& ctx.target == target
                &&& ctx.args@.len() == args@.len()
                &&& forall|i: int|
                    0 <= i < args@.len() ==> wire_decodes_to(args@[i]@, #[trigger] ctx.args@[i]@)
                &&& ctx.content is None
                &&& match overrides {
                    Override::Nothing => ctx.script is Unresolved && ctx.cell is Unresolved
                        && ctx.tx is Unresolved,
                    Override::Script(s) => ctx.script == Slot::Ready(s) && ctx.cell is Unresolved
                        && ctx.tx is Unresolved,
                    Override::Cell(c) => ctx.script is Unresolved && ctx.cell == Slot::Ready(c)
                        && ctx.tx is Unresolved,
                    Override::Transaction(t) => ctx.script is Unresolved && ctx.cell is Unresolved
                        && ctx.tx == Slot::Ready(t),
                }
            },
            Err(e) => program_outcome(target_cell) == Err::<Seq<u8>, Error>(e),
        },
{
    let decoded = match decode_args(args) {
        Ok(v) => v,
        Err(e) => {
            return Err(e);
        },
    };
    let program = match program_of(target_cell) {
        Ok(p) => p,
        Err(e) => {
            return Err(e);
        },
    };
    let ctx = match overrides {
        Override::Nothing => ExecutionContext::new(target, decoded, None, None, None),
        Override::Script(s) => ExecutionContext::new(target, decoded, Some(s), None, None),
        Override::Cell(c) => ExecutionContext::new(target, decoded, None, Some(c), None),
        Override::Transaction(t) => ExecutionContext::new(target, decoded, None, None, Some(t)),
    };
    Ok((program, ctx))
}

/// The wire form of a call's result: absent stays absent.
pub fn encode_result(result: &Option<Vec<u8>>) -> (r: Option<String>)
    ensures
        match result {
            None => r is None,
            Some(b) => r matches Some(s) && s@ == wire_of(b@),
        },
{
    match result {
        None => None,
        Some(b) => Some(encode(b.as_slice())),
    }
}

} // verus!
