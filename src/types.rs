use vstd::prelude::*;
use vstd::string::*;

use crate::codec::{encode, wire_of};

verus! {

/// A byte string that crosses every boundary in its `0x`-prefixed hex form.
#[derive(Clone, Debug)]
pub struct Hex {
    pub hex: Vec<u8>,
}

impl Hex {
    /// The wire form: `0x` and two lowercase digits per byte.
    pub fn wire(&self) -> (r: String)
        ensures
            r@ == wire_of(self.hex@),
    {
        encode(self.hex.as_slice())
    }
}

/// Identifies one cell: a transaction hash and an output index.
#[derive(Clone, Debug)]
pub struct OutPoint {
    pub tx_hash: Vec<u8>,
    pub index: u32,
}

/// A cell as a program sees it: its output in the chain's packed form, and
/// its data payload if it has one.
#[derive(Clone, Debug)]
pub struct CellOutputWithData {
    pub cell_output: Vec<u8>,
    pub hex_data: Option<Hex>,
}

/// A transaction as a program sees it: in the chain's packed form, and its
/// witnesses one by one.
#[derive(Clone, Debug)]
pub struct TransactionData {
    pub packed: Vec<u8>,
    pub witnesses: Vec<Vec<u8>>,
}

/// What a successful run hands back, with the cells it consulted.
#[derive(Clone, Debug)]
pub struct VmResult {
    pub content: Hex,
    pub cell_deps: Vec<OutPoint>,
}

/// How a cell search matches a script or data.
#[derive(Clone, Copy, Debug, PartialEq, Eq, Structural, Hash)]
pub enum SearchMode {
    Prefix,
    Exact,
    Partial,
}

impl Default for SearchMode {
    fn default() -> (r: SearchMode)
        ensures
            r == SearchMode::Prefix,
    {
        SearchMode::Prefix
    }
}

impl SearchMode {
    /// The name a chain node knows this mode by.
    pub fn name(&self) -> (r: &'static str)
        ensures
            r@ == search_mode_name(*self),
    {
        proof {
            reveal_strlit("prefix");
            reveal_strlit("exact");
            reveal_strlit("partial");
        }
        match self {
            SearchMode::Prefix => "prefix",
            SearchMode::Exact => "exact",
            SearchMode::Partial => "partial",
        }
    }
}

pub open spec fn search_mode_name(m: SearchMode) -> Seq<char> {
    match m {
        SearchMode::Prefix => "prefix"@,
        SearchMode::Exact => "exact"@,
        SearchMode::Partial => "partial"@,
    }
}

/// Which of a cell's scripts a search looks at.
#[derive(Clone, Copy, Debug, PartialEq, Eq, Structural)]
pub enum ScriptType {
    Lock,
    Type,
}

impl ScriptType {
    /// The name a chain node knows this script type by.
    pub fn name(&self) -> (r: &'static str)
        ensures
            r@ == script_type_name(*self),
    {
        proof {
            reveal_strlit("lock");
            reveal_strlit("type");
        }
        match self {
            ScriptType::Lock => "lock",
            ScriptType::Type => "type",
        }
    }
}

pub open spec fn script_type_name(t: ScriptType) -> Seq<char> {
    match t {
        ScriptType::Lock => "lock"@,
        ScriptType::Type => "type"@,
    }
}

/// The order of a paged cell search.
#[derive(Clone, Copy, Debug, PartialEq, Eq, Structural)]
pub enum Order {
    Desc,
    Asc,
}

impl Order {
    /// The name a chain node knows this order by.
    pub fn name(&self) -> (r: &'static str)
        ensures
            r@ == order_name(*self),
    {
        proof {
            reveal_strlit("desc");
            reveal_strlit("asc");
        }
        match self {
            Order::Desc => "desc",
            Order::Asc => "asc",
        }
    }
}

pub open spec fn order_name(o: Order) -> Seq<char> {
    match o {
        Order::Desc => "desc"@,
        Order::Asc => "asc"@,
    }
}

/// How a script's code hash is matched against code.
#[derive(Clone, Copy, Debug, PartialEq, Eq, Structural)]
pub enum ScriptHashType {
    Data,
    Type,
    Data1,
    Data2,
}

impl ScriptHashType {
    /// The name a chain node knows this hash type by.
    pub fn name(&self) -> (r: &'static str)
        ensures
            r@ == hash_type_name(*self),
    {
        proof {
            reveal_strlit("data");
            reveal_strlit("type");
            reveal_strlit("data1");
            reveal_strlit("data2");
        }
        match self {
            ScriptHashType::Data => "data",
            ScriptHashType::Type => "type",
            ScriptHashType::Data1 => "data1",
            ScriptHashType::Data2 => "data2",
        }
    }
}

pub open spec fn hash_type_name(h: ScriptHashType) -> Seq<char> {
    match h {
        ScriptHashType::Data => "data"@,
        ScriptHashType::Type => "type"@,
        ScriptHashType::Data1 => "data1"@,
        ScriptHashType::Data2 => "data2"@,
    }
}

/// A script as a search names it.
#[derive(Clone, Debug)]
pub struct ScriptKey {
    pub code_hash: Vec<u8>,
    pub hash_type: ScriptHashType,
    pub args: Vec<u8>,
}

/// What a paged cell search looks for.
#[derive(Clone, Debug)]
pub struct SearchKey {
    pub script: ScriptKey,
    pub script_type: ScriptType,
    pub script_search_mode: Option<SearchMode>,
    pub with_data: Option<bool>,
}

} // verus!
