use crate::parse::{parse_u8_chars, parse_u8_seq, slice_range, starts_with_chars, trim_chars, trim_seq};
use crate::text::str_chars;
use vstd::prelude::*;

verus! {

/// The id named by a well-formed refresh command: the line, trimmed of
/// surrounding whitespace, must be "update " followed by a decimal integer
/// that fits in eight unsigned bits. Anything else names nothing and is
/// ignored.
pub open spec fn parse_update_seq(s: Seq<char>) -> Option<u8> {
    let t = trim_seq(s);
    if t.len() >= 7 && t.take(7) == "update "@ {
        parse_u8_seq(t.skip(7))
    } else {
        None
    }
}

/// The id named by one inbound command line, if it is well formed.
pub fn parse_update_command(raw: &str) -> (r: Option<u8>)
    ensures
        r == parse_update_seq(raw@),
{
    proof {
        reveal_strlit("update ");
    }
    let chars = str_chars(raw);
    let t = trim_chars(&chars);
    let pat = str_chars("update ");
    if starts_with_chars(&t, &pat) {
        let rest = slice_range(&t, 7, t.len());
        assert(rest@ =~= trim_seq(raw@).skip(7));
        parse_u8_chars(&rest)
    } else {
        None
    }
}

} // verus!
