use vstd::prelude::*;
use vstd::string::StringSliceAdditionalSpecFns;
use vstd::utf8::{decode_utf8, encode_utf8, encode_utf8_decode_utf8, is_char_boundary};
use crate::fit::FitLevel;

verus! {

/// The marker drawn beside a model in the list; its colour, not its shape,
/// tells the levels apart.
pub fn fit_indicator(level: FitLevel) -> (r: &'static str)
    ensures
        r@ == "●"@,
{
    match level {
        FitLevel::Perfect => "●",
        FitLevel::Good => "●",
        FitLevel::Marginal => "●",
        FitLevel::TooTight => "●",
    }
}

/// What `truncate_str` returns: the text itself when its UTF-8 encoding
/// has at most `max_len` bytes, else the text of its first `max_len - 1`
/// bytes and an ellipsis.
pub open spec fn truncated(s: Seq<char>, max_len: nat) -> Seq<char> {
    if encode_utf8(s).len() <= max_len {
        s
    } else {
        decode_utf8(encode_utf8(s).subrange(0, max_len - 1)) + seq!['…']
    }
}

/// The texts `truncate_str` can shorten: those that fit, and those whose
/// byte `max_len - 1` starts a character.
pub open spec fn can_truncate(s: Seq<char>, max_len: nat) -> bool {
    encode_utf8(s).len() <= max_len || (max_len >= 1 && is_char_boundary(
        encode_utf8(s),
        max_len - 1,
    ))
}

/// Shortens a text to at most `max_len` bytes before the ellipsis, marking
/// a cut with an ellipsis.
pub fn truncate_str(s: &str, max_len: usize) -> (r: String)
    requires
        encode_utf8(s@).len() <= usize::MAX,
        can_truncate(s@, max_len as nat),
    ensures
        r@ == truncated(s@, max_len as nat),
{
    assert(s.spec_bytes() == encode_utf8(s@));
    if s.len() <= max_len {
        String::from_str(s)
    } else {
        let (head, _rest) = s.split_at(max_len - 1);
        proof {
            encode_utf8_decode_utf8(head@);
            reveal_strlit("…");
        }
        let mut r = String::from_str(head);
        r.append("…");
        assert(r@ =~= truncated(s@, max_len as nat));
        r
    }
}

} // verus!
