use vstd::prelude::*;
use vstd::string::*;

use crate::numeral::{append_numeral, numeral};

verus! {

/// Every failure that a call can end in, each with a stable numeric code.
#[derive(Debug, Clone)]
pub enum Error {
    /// The request envelope was malformed at the transport layer.
    JsonRpcRequestError,
    /// A wire string was not `0x`-prefixed, even-length hex.
    Encoding(&'static str),
    /// The target cell is missing, lacks data, or a parameter is malformed.
    InvalidRequest(&'static str),
    /// The program exited with a non-zero code.
    Script(i8),
    /// The program trapped or ran out of cycles.
    Vm(String),
    /// The chain data source could not be reached.
    ChainUnavailable,
}

/// The stable numeric code of each variant.
pub open spec fn error_code_of(e: Error) -> i32 {
    match e {
        Error::JsonRpcRequestError => 1000,
        Error::Encoding(_) => 1001,
        Error::InvalidRequest(_) => 1002,
        Error::Script(_) => 1003,
        Error::Vm(_) => 1004,
        Error::ChainUnavailable => 1005,
    }
}

/// `c` written in decimal, with a minus sign when negative.
pub open spec fn signed_decimal(c: i8) -> Seq<char> {
    if c < 0 {
        seq!['-'] + numeral((-c) as nat, 10)
    } else {
        numeral(c as nat, 10)
    }
}

/// The message that crosses the boundary with each variant.
pub open spec fn error_message_of(e: Error) -> Seq<char> {
    match e {
        Error::JsonRpcRequestError => Seq::empty(),
        Error::Encoding(m) => m@,
        Error::InvalidRequest(m) => m@,
        Error::Script(c) => "Script returns "@ + signed_decimal(c),
        Error::Vm(m) => m@,
        Error::ChainUnavailable => "Chain data source unavailable"@,
    }
}

impl Error {
    /// The numeric code that crosses the boundary with this error.
    pub fn code(&self) -> (r: i32)
        ensures
            r == error_code_of(*self),
    {
        match self {
            Error::JsonRpcRequestError => 1000,
            Error::Encoding(_) => 1001,
            Error::InvalidRequest(_) => 1002,
            Error::Script(_) => 1003,
            Error::Vm(_) => 1004,
            Error::ChainUnavailable => 1005,
        }
    }

    /// The short message that crosses the boundary with this error.
    pub fn message(&self) -> (r: String)
        ensures
            r@ == error_message_of(*self),
    {
        match self {
            Error::JsonRpcRequestError => String::new(),
            Error::Encoding(m) => String::from_str(m),
            Error::InvalidRequest(m) => String::from_str(m),
            Error::Script(c) => {
                let mut r = String::from_str("Script returns ");
                proof {
                    reveal_strlit("Script returns ");
                }
                let c = *c;
                if c < 0 {
                    r.append("-");
                    proof {
                        reveal_strlit("-");
                    }
                    let magnitude: u8 = (0 - (c as i16)) as u8;
                    append_numeral(&mut r, magnitude as u64, 10);
                } else {
                    append_numeral(&mut r, c as u64, 10);
                }
                proof {
                    assert(r@ =~= error_message_of(*self));
                }
                r
            },
            Error::Vm(m) => m.clone(),
            Error::ChainUnavailable => String::from_str("Chain data source unavailable"),
        }
    }
}

} // verus!
