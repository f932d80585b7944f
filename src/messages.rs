//! The short preview of a room message that is written to the log.
use vstd::prelude::*;

verus! {

/// The most characters a preview holds.
pub const PREVIEW_LEN: usize = 60;

/// Whether `c` is an ASCII character.
pub open spec fn is_ascii_char(c: char) -> bool {
    (c as u32) < 128
}

/// The ASCII characters of `s`, in order.
pub open spec fn ascii_only(s: Seq<char>) -> Seq<char>
    decreases s.len(),
{
    if s.len() == 0 {
        Seq::empty()
    } else if is_ascii_char(s.last()) {
        ascii_only(s.drop_last()).push(s.last())
    } else {
        ascii_only(s.drop_last())
    }
}

/// At most the first `PREVIEW_LEN` characters of `s`.
pub open spec fn clipped(s: Seq<char>) -> Seq<char> {
    if s.len() <= PREVIEW_LEN {
        s
    } else {
        s.subrange(0, PREVIEW_LEN as int)
    }
}

/// The preview of a message body: its ASCII characters, at most the first
/// `PREVIEW_LEN` of them.
pub open spec fn preview_spec(body: Seq<char>) -> Seq<char> {
    clipped(ascii_only(body))
}

/// The preview of a message body: non-ASCII characters are dropped and the
/// rest is cut to `PREVIEW_LEN` characters.
pub fn message_preview(body: &str) -> (r: Vec<char>)
    ensures
        r@ == preview_spec(body@),
{
    let mut out: Vec<char> = Vec::new();
    for c in it: body.chars()
        invariant
            it.seq() == body@,
            out@ == clipped(ascii_only(body@.subrange(0, it.index() as int))),
    {
        let ghost pre = body@.subrange(0, it.index() as int);
        let ghost next = body@.subrange(0, it.index() + 1);
        assert(next.drop_last() =~= pre);
        assert(next.last() == c);
        if (c as u32) < 128 && out.len() < PREVIEW_LEN {
            out.push(c);
            assert(out@ =~= clipped(ascii_only(next)));
        } else {
            assert(out@ =~= clipped(ascii_only(next)));
        }
    }
    assert(body@.subrange(0, body@.len() as int) =~= body@);
    out
}

} // verus!
