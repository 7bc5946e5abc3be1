//! Search: what a query may refer to, in which order that is tried against
//! the node, and the answer for the first try that succeeds.

use vstd::prelude::*;
use vstd::string::*;
use crate::error::AppError;
use crate::text::{
    all_digits, all_hex, chars_of, digits_value, is_u64_text, only_digits, only_hex, parse_u64,
    trim, trimmed,
};

verus! {

/// Length of a block hash or transaction id in hexadecimal digits.
pub const HASH_HEX_LEN: usize = 64;

/// A search request as the client sent it.
#[derive(Debug, Clone, PartialEq, Eq)]
pub struct SearchParams {
    pub q: String,
}

/// The answer to a search: what the query refers to, and the value to
/// look it up by.
#[derive(Debug, Clone, PartialEq, Eq)]
pub struct SearchResult {
    pub result_type: String,
    pub value: String,
}

/// One try against the node.
#[derive(Debug, Clone, Copy, PartialEq, Eq, Structural)]
pub enum Probe {
    /// Is there a block at this height?
    BlockAtHeight(u64),
    /// Is the query the hash of a block?
    BlockHash,
    /// Is the query the id of a transaction?
    Transaction,
    /// Is the query the registration hash of a masternode?
    Masternode,
    /// Is the query an address?
    Address,
}

/// The height that a query of digits means; zero when it is too large.
pub open spec fn height_of(q: Seq<char>) -> u64 {
    if is_u64_text(q) {
        digits_value(q) as u64
    } else {
        0
    }
}

/// Whether a query looks like a hash: 64 hexadecimal digits.
pub open spec fn looks_like_hash(q: Seq<char>) -> bool {
    q.len() == HASH_HEX_LEN && all_hex(q)
}

/// Whether a query starts like an address.
pub open spec fn looks_like_address(q: Seq<char>) -> bool {
    q.len() > 0 && (q[0] == 'y' || q[0] == 'X' || q[0] == '8' || q[0] == '7')
}

/// The tries for a trimmed, non-empty query, in the order in which they
/// are made: a height for a query of digits, then block, transaction and
/// masternode for a query that looks like a hash, then an address for a
/// query that starts like one.
pub open spec fn probes_for(q: Seq<char>) -> Seq<Probe> {
    let by_height = if all_digits(q) {
        seq![Probe::BlockAtHeight(height_of(q))]
    } else {
        Seq::empty()
    };
    let by_hash = if looks_like_hash(q) {
        seq![Probe::BlockHash, Probe::Transaction, Probe::Masternode]
    } else {
        Seq::empty()
    };
    let by_address = if looks_like_address(q) {
        seq![Probe::Address]
    } else {
        Seq::empty()
    };
    by_height + by_hash + by_address
}

/// A search that is ready to be tried against the node.
#[derive(Debug, Clone, PartialEq, Eq)]
pub struct SearchPlan {
    /// The query without surrounding white space.
    pub query: String,
    /// The tries to make, in order, until one succeeds.
    pub probes: Vec<Probe>,
}

/// Plans a search. A query that is empty once trimmed is a bad request.
pub fn plan_search(params: &SearchParams) -> (r: Result<SearchPlan, AppError>)
    ensures
        trimmed(params.q@).len() == 0 ==> (r matches Err(AppError::BadRequest(m)) && m@
            == "Search query is empty"@),
        trimmed(params.q@).len() > 0 ==> (r matches Ok(plan) && plan.query@ == trimmed(
            params.q@,
        ) && plan.probes@ == probes_for(trimmed(params.q@))),
{
    let q = trim(params.q.as_str());
    let chars = chars_of(q);
    if chars.len() == 0 {
        return Err(AppError::BadRequest(String::from_str("Search query is empty")));
    }
    let mut probes: Vec<Probe> = Vec::new();
    if only_digits(&chars) {
        let height: u64 = match parse_u64(&chars) {
            Some(h) => h,
            None => 0,
        };
        probes.push(Probe::BlockAtHeight(height));
    }
    if chars.len() == HASH_HEX_LEN && only_hex(&chars) {
        probes.push(Probe::BlockHash);
        probes.push(Probe::Transaction);
        probes.push(Probe::Masternode);
    }
    let first = chars[0];
    if first == 'y' || first == 'X' || first == '8' || first == '7' {
        probes.push(Probe::Address);
    }
    assert(probes@ =~= probes_for(q@));
    Ok(SearchPlan { query: String::from_str(q), probes })
}

/// What a successful try is called in the answer.
pub open spec fn result_type_of(probe: Probe) -> Seq<char> {
    match probe {
        Probe::BlockAtHeight(_) => "block"@,
        Probe::BlockHash => "block"@,
        Probe::Transaction => "tx"@,
        Probe::Masternode => "masternode"@,
        Probe::Address => "address"@,
    }
}

/// The answer for a try that succeeded. A block found by its height is
/// answered with the hash that the node gave for it; everything else is
/// answered with the query itself.
pub fn answer(query: &str, probe: Probe, found_hash: &str) -> (r: SearchResult)
    ensures
        r.result_type@ == result_type_of(probe),
        probe is BlockAtHeight ==> r.value@ == found_hash@,
        !(probe is BlockAtHeight) ==> r.value@ == query@,
{
    match probe {
        Probe::BlockAtHeight(_) => SearchResult {
            result_type: String::from_str("block"),
            value: String::from_str(found_hash),
        },
        Probe::BlockHash => SearchResult {
            result_type: String::from_str("block"),
            value: String::from_str(query),
        },
        Probe::Transaction => SearchResult {
            result_type: String::from_str("tx"),
            value: String::from_str(query),
        },
        Probe::Masternode => SearchResult {
            result_type: String::from_str("masternode"),
            value: String::from_str(query),
        },
        Probe::Address => SearchResult {
            result_type: String::from_str("address"),
            value: String::from_str(query),
        },
    }
}

/// The answer when no try succeeded.
pub fn no_match() -> (r: SearchResult)
    ensures
        r.result_type@ == "none"@,
        r.value@ == Seq::<char>::empty(),
{
    SearchResult { result_type: String::from_str("none"), value: String::new() }
}

} // verus!
