use vstd::prelude::*;
use vstd::string::*;

use crate::codec::{encode, wire_of};
use crate::error::Error;
use crate::numeral::{append_numeral, numeral};
use crate::types::{
    hash_type_name, order_name, script_type_name, search_mode_name, Order, OutPoint, ScriptKey,
    SearchKey,
};

verus! {

/// The text of a JSON-RPC request.
pub open spec fn envelope(method: Seq<char>, params: Seq<char>, id: u64) -> Seq<char> {
    "{\"jsonrpc\":\"2.0\",\"method\":\""@ + method + "\",\"params\":"@ + params + ",\"id\":"@
        + numeral(id as nat, 10) + "}"@
}

/// The parameters of `get_live_cell`: the out-point (its index as a
/// `0x`-prefixed hex number) and whether to include the data.
pub open spec fn live_cell_params(out_point: OutPoint, with_data: bool) -> Seq<char> {
    "[{\"index\":\"0x"@ + numeral(out_point.index as nat, 16) + "\",\"tx_hash\":\""@ + wire_of(
        out_point.tx_hash@,
    ) + "\"},"@ + (if with_data {
        "true"@
    } else {
        "false"@
    }) + "]"@
}

/// The parameters of `get_transaction`: the transaction hash.
pub open spec fn transaction_params(tx_hash: Seq<u8>) -> Seq<char> {
    "[\""@ + wire_of(tx_hash) + "\"]"@
}

/// A script as JSON.
pub open spec fn script_json(s: ScriptKey) -> Seq<char> {
    "{\"code_hash\":\""@ + wire_of(s.code_hash@) + "\",\"hash_type\":\""@ + hash_type_name(
        s.hash_type,
    ) + "\",\"args\":\""@ + wire_of(s.args@) + "\"}"@
}

/// A search key as JSON; an absent option is left out.
pub open spec fn search_key_json(k: SearchKey) -> Seq<char> {
    "{\"script\":"@ + script_json(k.script) + ",\"script_type\":\""@ + script_type_name(
        k.script_type,
    ) + "\""@ + (match k.script_search_mode {
        Some(m) => ",\"script_search_mode\":\""@ + search_mode_name(m) + "\""@,
        None => Seq::empty(),
    }) + (match k.with_data {
        Some(b) => ",\"with_data\":"@ + (if b {
            "true"@
        } else {
            "false"@
        }),
        None => Seq::empty(),
    }) + "}"@
}

/// The parameters of `get_cells`: the key, the order, the page size as a
/// `0x`-prefixed hex number, and the cursor of the page to continue from.
pub open spec fn cells_params(k: SearchKey, order: Order, limit: u32, cursor: Option<Seq<u8>>) -> Seq<
    char,
> {
    "["@ + search_key_json(k) + ",\""@ + order_name(order) + "\",\"0x"@ + numeral(
        limit as nat,
        16,
    ) + "\","@ + (match cursor {
        Some(c) => "\""@ + wire_of(c) + "\""@,
        None => "null"@,
    }) + "]"@
}

fn append_script_json(out: &mut String, s: &ScriptKey)
    ensures
        final(out)@ == old(out)@ + script_json(*s),
{
    out.append("{\"code_hash\":\"");
    let code_hash = encode(s.code_hash.as_slice());
    out.append(code_hash.as_str());
    out.append("\",\"hash_type\":\"");
    out.append(s.hash_type.name());
    out.append("\",\"args\":\"");
    let args = encode(s.args.as_slice());
    out.append(args.as_str());
    out.append("\"}");
    proof {
        reveal_strlit("{\"code_hash\":\"");
        reveal_strlit("\",\"hash_type\":\"");
        reveal_strlit("\",\"args\":\"");
        reveal_strlit("\"}");
        assert(out@ =~= old(out)@ + script_json(*s));
    }
}

fn append_search_key_json(out: &mut String, k: &SearchKey)
    ensures
        final(out)@ == old(out)@ + search_key_json(*k),
{
    let ghost start = out@;
    out.append("{\"script\":");
    append_script_json(out, &k.script);
    out.append(",\"script_type\":\"");
    out.append(k.script_type.name());
    out.append("\"");
    proof {
        reveal_strlit("{\"script\":");
        reveal_strlit(",\"script_type\":\"");
        reveal_strlit("\"");
    }
    match k.script_search_mode {
        Some(m) => {
            out.append(",\"script_search_mode\":\"");
            out.append(m.name());
            out.append("\"");
            proof {
                reveal_strlit(",\"script_search_mode\":\"");
            }
        },
        None => {},
    }
    match k.with_data {
        Some(b) => {
            out.append(",\"with_data\":");
            if b {
                out.append("true");
            } else {
                out.append("false");
            }
            proof {
                reveal_strlit(",\"with_data\":");
                reveal_strlit("true");
                reveal_strlit("false");
            }
        },
        None => {},
    }
    out.append("}");
    proof {
        reveal_strlit("}");
        assert(out@ =~= start + search_key_json(*k));
    }
}

/// The request side of a connection to a chain node: each request carries
/// the next id of this client's own sequence. It holds no cache.
#[derive(Clone, Debug)]
pub struct ChainClient {
    pub next_id: u64,
}

fn frame(method: &str, params: &str, id: u64) -> (r: String)
    ensures
        r@ == envelope(method@, params@, id),
{
    let mut r = String::from_str("{\"jsonrpc\":\"2.0\",\"method\":\"");
    r.append(method);
    r.append("\",\"params\":");
    r.append(params);
    r.append(",\"id\":");
    append_numeral(&mut r, id, 10);
    r.append("}");
    proof {
        reveal_strlit("{\"jsonrpc\":\"2.0\",\"method\":\"");
        reveal_strlit("\",\"params\":");
        reveal_strlit(",\"id\":");
        reveal_strlit("}");
        assert(r@ =~= envelope(method@, params@, id));
    }
    r
}

impl ChainClient {
    /// A client whose first request carries id zero.
    pub fn new() -> (r: ChainClient)
        ensures
            r.next_id == 0,
    {
        ChainClient { next_id: 0 }
    }

    /// Takes the next id; `None` once the sequence is used up.
    pub fn next_request_id(&mut self) -> (r: Option<u64>)
        ensures
            old(self).next_id < u64::MAX ==> r == Some(old(self).next_id) && final(self).next_id
                == old(self).next_id + 1,
            old(self).next_id == u64::MAX ==> r is None && final(self).next_id == old(
                self,
            ).next_id,
    {
        if self.next_id < u64::MAX {
            let id = self.next_id;
            self.next_id = self.next_id + 1;
            Some(id)
        } else {
            None
        }
    }

    /// The request for the live cell at `out_point`, with its id.
    pub fn get_live_cell_request(&mut self, out_point: &OutPoint, with_data: bool) -> (r: Option<
        (u64, String),
    >)
        ensures
            old(self).next_id < u64::MAX ==> (r matches Some((id, text)) && id == old(self).next_id
                && final(self).next_id == id + 1 && text@ == envelope(
                "get_live_cell"@,
                live_cell_params(*out_point, with_data),
                id,
            )),
            old(self).next_id == u64::MAX ==> r is None && final(self).next_id == old(
                self,
            ).next_id,
    {
        let id = match self.next_request_id() {
            Some(id) => id,
            None => {
                return None;
            },
        };
        let mut params = String::from_str("[{\"index\":\"0x");
        append_numeral(&mut params, out_point.index as u64, 16);
        params.append("\",\"tx_hash\":\"");
        let hash = encode(out_point.tx_hash.as_slice());
        params.append(hash.as_str());
        params.append("\"},");
        if with_data {
            params.append("true");
        } else {
            params.append("false");
        }
        params.append("]");
        proof {
            reveal_strlit("[{\"index\":\"0x");
            reveal_strlit("\",\"tx_hash\":\"");
            reveal_strlit("\"},");
            reveal_strlit("true");
            reveal_strlit("false");
            reveal_strlit("]");
            assert(params@ =~= live_cell_params(*out_point, with_data));
        }
        let text = frame("get_live_cell", params.as_str(), id);
        proof {
            reveal_strlit("get_live_cell");
        }
        Some((id, text))
    }

    /// The request for the transaction with hash `tx_hash`, with its id.
    pub fn get_transaction_request(&mut self, tx_hash: &Vec<u8>) -> (r: Option<(u64, String)>)
        ensures
            old(self).next_id < u64::MAX ==> (r matches Some((id, text)) && id == old(self).next_id
                && final(self).next_id == id + 1 && text@ == envelope(
                "get_transaction"@,
                transaction_params(tx_hash@),
                id,
            )),
            old(self).next_id == u64::MAX ==> r is None && final(self).next_id == old(
                self,
            ).next_id,
    {
        let id = match self.next_request_id() {
            Some(id) => id,
            None => {
                return None;
            },
        };
        let mut params = String::from_str("[\"");
        let hash = encode(tx_hash.as_slice());
        params.append(hash.as_str());
        params.append("\"]");
        proof {
            reveal_strlit("[\"");
            reveal_strlit("\"]");
            assert(params@ =~= transaction_params(tx_hash@));
        }
        let text = frame("get_transaction", params.as_str(), id);
        proof {
            reveal_strlit("get_transaction");
        }
        Some((id, text))
    }
}

impl ChainClient {
    /// The request for one page of the cells that `key` finds, with its id.
    pub fn get_cells_request(
        &mut self,
        key: &SearchKey,
        order: Order,
        limit: u32,
        cursor: &Option<Vec<u8>>,
    ) -> (r: Option<(u64, String)>)
        ensures
            old(self).next_id < u64::MAX ==> (r matches Some((id, text)) && id == old(self).next_id
                && final(self).next_id == id + 1 && text@ == envelope(
                "get_cells"@,
                cells_params(
                    *key,
                    order,
                    limit,
                    match cursor {
                        Some(c) => Some(c@),
                        None => None,
                    },
                ),
                id,
            )),
            old(self).next_id == u64::MAX ==> r is None && final(self).next_id == old(
                self,
            ).next_id,
    {
        let id = match self.next_request_id() {
            Some(id) => id,
            None => {
                return None;
            },
        };
        let mut params = String::from_str("[");
        append_search_key_json(&mut params, key);
        params.append(",\"");
        params.append(order.name());
        params.append("\",\"0x");
        append_numeral(&mut params, limit as u64, 16);
        params.append("\",");
        match cursor {
            Some(c) => {
                params.append("\"");
                let text = encode(c.as_slice());
                params.append(text.as_str());
                params.append("\"");
            },
            None => {
                params.append("null");
            },
        }
        params.append("]");
        proof {
            reveal_strlit("[");
            reveal_strlit(",\"");
            reveal_strlit("\",\"0x");
            reveal_strlit("\",");
            reveal_strlit("\"");
            reveal_strlit("null");
            reveal_strlit("]");
            assert(params@ =~= cells_params(
                *key,
                order,
                limit,
                match cursor {
                    Some(c) => Some(c@),
                    None => None,
                },
            ));
        }
        let text = frame("get_cells", params.as_str(), id);
        proof {
            reveal_strlit("get_cells");
        }
        Some((id, text))
    }
}

/// Accepts a response only when it answers the request with id `expected`
/// and carries a result; anything else is a transport failure.
pub fn check_response(expected: u64, got: Option<u64>, has_result: bool) -> (r: Result<(), Error>)
    ensures
        r is Ok <==> (got == Some(expected) && has_result),
        r matches Err(e) ==> e is ChainUnavailable,
{
    match got {
        Some(id) => if id == expected && has_result {
            Ok(())
        } else {
            Err(Error::ChainUnavailable)
        },
        None => Err(Error::ChainUnavailable),
    }
}

} // verus!
