//! Offset/limit paging over an ordered sequence.

use vstd::prelude::*;

verus! {

/// Paging query: `offset` is 1-based, `limit` bounds the page length.
pub struct Pagination {
    pub offset: u32,
    pub limit: u32,
}

/// The page of `s` selected by a 1-based `offset` and a `limit`: empty once
/// `offset` reaches the length of `s`, otherwise at most `limit` elements
/// starting at index `offset - 1`.
pub open spec fn page_of<T>(s: Seq<T>, limit: u32, offset: u32) -> Seq<T> {
    if offset as int >= s.len() {
        Seq::empty()
    } else {
        let lo = offset as int - 1;
        let hi = if lo + limit as int <= s.len() { lo + limit as int } else { s.len() as int };
        s.subrange(lo, hi)
    }
}

impl Pagination {
    /// A query is valid when its offset is at least 1.
    pub open spec fn valid(&self) -> bool {
        self.offset >= 1
    }

    /// Checks the offset range; the error names the offending field.
    pub fn validate(&self) -> (r: Result<(), String>)
        ensures
            r.is_ok() <==> self.valid(),
            r matches Err(f) ==> f@ == "offset"@,
    {
        if self.offset >= 1 {
            Ok(())
        } else {
            Err(String::from_str("offset"))
        }
    }
}

/// Returns the page of `array` selected by `limit` and the 1-based `offset`.
pub fn extract_data<T>(array: &Vec<T>, limit: u32, offset: u32) -> (r: &[T])
    requires
        offset >= 1,
    ensures
        r@ == page_of(array@, limit, offset),
{
    let len = array.len();
    if offset as usize >= len {
        return vstd::slice::slice_subrange(array.as_slice(), 0, 0);
    }
    let lo = (offset - 1) as usize;
    let remaining = len - lo;
    let count = if (limit as usize) <= remaining { limit as usize } else { remaining };
    vstd::slice::slice_subrange(array.as_slice(), lo, lo + count)
}

/// For a 1-based offset inside the sequence, the page holds exactly
/// `min(limit, len - offset + 1)` elements, the first being element `offset - 1`.
pub proof fn lemma_page_within<T>(s: Seq<T>, limit: u32, offset: u32)
    requires
        1 <= offset,
        offset < s.len(),
    ensures
        page_of(s, limit, offset).len() == if (limit as int) < s.len() - offset + 1 {
            limit as int
        } else {
            s.len() - offset + 1
        },
        forall|i: int|
            0 <= i < page_of(s, limit, offset).len() ==> page_of(s, limit, offset)[i] == s[offset
                - 1 + i],
{
}

/// Once the offset reaches the length of the sequence the page is empty.
pub proof fn lemma_page_past_end<T>(s: Seq<T>, limit: u32, offset: u32)
    requires
        offset >= s.len(),
    ensures
        page_of(s, limit, offset).len() == 0,
{
}

} // verus!
