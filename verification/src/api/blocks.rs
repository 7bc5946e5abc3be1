//! Block lookups: how a block is referred to, and which heights a page of
//! the block list shows.

use vstd::prelude::*;
use vstd::string::*;
use crate::error::AppError;
use crate::text::{all_digits, chars_of, digits_value, is_u64_text, only_digits, parse_u64};

verus! {

/// Page size of the block list when the request names none.
pub const DEFAULT_BLOCKS_PER_PAGE: u32 = 20;

/// Largest page size of the block list.
pub const MAX_BLOCKS_PER_PAGE: u32 = 100;

/// Paging of a block list request as the client sent it.
#[derive(Debug, Clone, Copy, PartialEq, Eq)]
pub struct BlockListParams {
    pub page: Option<u32>,
    pub limit: Option<u32>,
}

/// The page that a request means: the one it names, at least the first.
pub open spec fn blocks_page(page: Option<u32>) -> u32 {
    match page {
        Some(p) => if p >= 1 {
            p
        } else {
            1
        },
        None => 1,
    }
}

/// The page size that a request means: the one it names, at most
/// `MAX_BLOCKS_PER_PAGE`.
pub open spec fn blocks_limit(limit: Option<u32>) -> u32 {
    match limit {
        Some(l) => if l <= MAX_BLOCKS_PER_PAGE {
            l
        } else {
            MAX_BLOCKS_PER_PAGE
        },
        None => DEFAULT_BLOCKS_PER_PAGE,
    }
}

impl BlockListParams {
    /// The page meant, counted from one.
    pub fn page(&self) -> (p: u32)
        ensures
            p == blocks_page(self.page),
            p >= 1,
    {
        match self.page {
            Some(p) => if p >= 1 {
                p
            } else {
                1
            },
            None => 1,
        }
    }

    /// The page size meant.
    pub fn limit(&self) -> (l: u32)
        ensures
            l == blocks_limit(self.limit),
            l <= MAX_BLOCKS_PER_PAGE,
    {
        match self.limit {
            Some(l) => if l <= MAX_BLOCKS_PER_PAGE {
                l
            } else {
                MAX_BLOCKS_PER_PAGE
            },
            None => DEFAULT_BLOCKS_PER_PAGE,
        }
    }
}

/// The heights that one page of the block list shows, from `start` down
/// to `end`, and the number of pages of the list.
#[derive(Debug, Clone, Copy, PartialEq, Eq, Structural)]
pub struct BlockWindow {
    pub start: u64,
    pub end: u64,
    pub pages: u64,
}

/// Difference that stops at zero.
pub open spec fn minus_or_zero(a: int, b: int) -> int {
    if a >= b {
        a - b
    } else {
        0
    }
}

/// The window of page `page` at `limit` blocks a page when the tip is at
/// `tip`: the first page starts at the tip, every further page `limit`
/// blocks lower, and no page reaches below the genesis block. The number
/// of pages is capped at what 64 bits hold.
pub open spec fn window_of(tip: int, page: int, limit: int) -> BlockWindow {
    let start = minus_or_zero(tip, (page - 1) * limit);
    BlockWindow {
        start: start as u64,
        end: minus_or_zero(start, limit - 1) as u64,
        pages: if tip / limit + 1 > u64::MAX {
            u64::MAX
        } else {
            (tip / limit + 1) as u64
        },
    }
}

impl BlockWindow {
    /// The heights of the window, highest first.
    pub open spec fn heights(&self) -> Seq<u64> {
        Seq::new((self.start - self.end + 1) as nat, |i: int| (self.start - i) as u64)
    }
}

/// Computes the window of a page of the block list.
pub fn block_window(tip: u64, page: u32, limit: u32) -> (w: BlockWindow)
    requires
        page >= 1,
        limit >= 1,
    ensures
        w == window_of(tip as int, page as int, limit as int),
        w.end <= w.start <= tip,
        w.start - w.end < limit,
{
    assert((page - 1) * limit <= 0xffff_ffff * 0xffff_ffff) by (nonlinear_arith)
        requires
            0 <= page - 1 <= 0xffff_ffff,
            0 <= limit <= 0xffff_ffff,
    ;
    let back: u64 = (page - 1) as u64 * (limit as u64);
    let start: u64 = if tip >= back {
        tip - back
    } else {
        0
    };
    let span: u64 = (limit - 1) as u64;
    let end: u64 = if start >= span {
        start - span
    } else {
        0
    };
    let pages: u64 = if tip / (limit as u64) == u64::MAX {
        u64::MAX
    } else {
        tip / (limit as u64) + 1
    };
    BlockWindow { start, end, pages }
}

/// How a request refers to a block.
#[derive(Debug, Clone, PartialEq, Eq)]
pub enum BlockRef {
    /// By its height.
    Height(u64),
    /// By its hash.
    Hash(String),
}

/// Reads a block reference. A text of digits only is a height, and is
/// refused as a bad request when it is empty or too large for a height;
/// any other text is taken for a hash.
pub fn parse_block_ref(hash_or_height: &str) -> (r: Result<BlockRef, AppError>)
    ensures
        is_u64_text(hash_or_height@) ==> r == Ok::<BlockRef, AppError>(
            BlockRef::Height(digits_value(hash_or_height@) as u64),
        ),
        all_digits(hash_or_height@) && !is_u64_text(hash_or_height@) ==> (r matches Err(
            AppError::BadRequest(m),
        ) && m@ == "Invalid block height"@),
        !all_digits(hash_or_height@) ==> (r matches Ok(BlockRef::Hash(h)) && h@
            == hash_or_height@),
{
    let chars = chars_of(hash_or_height);
    if only_digits(&chars) {
        match parse_u64(&chars) {
            Some(h) => Ok(BlockRef::Height(h)),
            None => Err(AppError::BadRequest(String::from_str("Invalid block height"))),
        }
    } else {
        Ok(BlockRef::Hash(String::from_str(hash_or_height)))
    }
}

} // verus!
