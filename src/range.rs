use vstd::prelude::*;

use crate::text::{decimal, push_decimal};

verus! {

/// A request whose start and end are both zero fetches the whole object.
pub open spec fn is_whole_object(start: u64, end: u64) -> bool {
    start == 0 && end == 0
}

/// A range that a request may carry: the whole object, or a window
/// `[start, end)` whose last byte `end - 1` exists.
pub open spec fn range_is_valid(start: u64, end: u64) -> bool {
    is_whole_object(start, end) || end > 0
}

/// The value of the `Range` header (and of the S3 range parameter) for the
/// half-open window `[start, end)`: `bytes=<first>-<last>`, both offsets
/// inclusive.
pub open spec fn range_value(start: nat, end: nat) -> Seq<char> {
    seq!['b', 'y', 't', 'e', 's', '='] + decimal(start) + seq!['-'] + decimal((end - 1) as nat)
}

/// The range value that a request for `[start, end)` carries, or `None` for a
/// request of the whole object.
pub open spec fn range_for(start: u64, end: u64) -> Option<Seq<char>> {
    if is_whole_object(start, end) {
        None
    } else {
        Some(range_value(start as nat, end as nat))
    }
}

/// Builds the `Range` header value for `[start, end)`; `None` when the whole
/// object is requested, so that no header is attached.
pub fn range_header_value(start: u64, end: u64) -> (r: Option<String>)
    requires
        range_is_valid(start, end),
    ensures
        r is None <==> is_whole_object(start, end),
        r matches Some(v) ==> range_for(start, end) == Some(v@),
{
    if start == 0 && end == 0 {
        return None;
    }
    let mut s = String::from_str("bytes=");
    proof {
        reveal_strlit("bytes=");
        reveal_strlit("-");
    }
    push_decimal(&mut s, start);
    s.append("-");
    push_decimal(&mut s, end - 1);
    assert(s@ =~= range_value(start as nat, end as nat));
    Some(s)
}

} // verus!
