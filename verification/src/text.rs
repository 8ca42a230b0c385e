//! Stretches of a string between byte offsets, and joining strings.

use vstd::prelude::*;
use vstd::string::*;
use vstd::utf8::*;

verus! {

/// Whether `at` is a byte offset of `s` at which a character starts or `s` ends.
pub open spec fn on_boundary(s: Seq<char>, at: int) -> bool {
    0 <= at <= encode_utf8(s).len() && is_char_boundary(encode_utf8(s), at)
}

/// The characters of `s` that its UTF-8 bytes from `from` up to `to` encode.
pub open spec fn segment(s: Seq<char>, from: int, to: int) -> Seq<char> {
    decode_utf8(encode_utf8(s).subrange(from, to))
}

/// The whole of a string is the segment from its first byte to its last.
pub proof fn segment_whole(s: Seq<char>)
    ensures
        segment(s, 0, encode_utf8(s).len() as int) == s,
{
    broadcast use group_utf8_lib;

    let b = encode_utf8(s);
    assert(b.subrange(0, b.len() as int) =~= b);
}

/// In a text of ASCII characters alone, bytes and characters are counted
/// alike: every offset lies on a boundary, and the segment between two
/// offsets is the subrange between them.
pub proof fn segment_of_ascii(s: Seq<char>, from: int, to: int)
    requires
        is_ascii_chars(s),
        0 <= from <= to <= s.len(),
    ensures
        on_boundary(s, from),
        on_boundary(s, to),
        segment(s, from, to) == s.subrange(from, to),
{
    broadcast use group_utf8_lib;

    let b = encode_utf8(s);
    let part = s.subrange(from, to);
    is_ascii_chars_encode_utf8(s);
    assert(is_ascii_chars(part));
    is_ascii_chars_encode_utf8(part);
    assert(b.subrange(from, to) =~= encode_utf8(part));
    assert(valid_utf8(b));
    ascii_offset_on_boundary(s, from);
    ascii_offset_on_boundary(s, to);
}

proof fn ascii_offset_on_boundary(s: Seq<char>, at: int)
    requires
        is_ascii_chars(s),
        0 <= at <= s.len(),
    ensures
        on_boundary(s, at),
{
    broadcast use group_utf8_lib;

    let b = encode_utf8(s);
    is_ascii_chars_encode_utf8(s);
    assert(valid_utf8(b));
    if at < s.len() {
        let c = s[at];
        assert(b[at] == c as u8);
        assert('\0' <= c <= '\u{7f}');
        let byte = b[at];
        assert(byte < 0x80u8);
        assert(is_leading_byte_width_1(byte)) by (bit_vector)
            requires
                byte < 0x80u8,
        ;
        is_char_boundary_iff_is_leading_byte(b, at);
    } else {
        is_char_boundary_start_end_of_seq(b);
    }
}

/// The stretch of `text` between two byte offsets that lie on character
/// boundaries.
pub fn piece<'a>(text: &'a str, from: usize, to: usize) -> (r: &'a str)
    requires
        from <= to,
        on_boundary(text@, from as int),
        on_boundary(text@, to as int),
    ensures
        r@ == segment(text@, from as int, to as int),
{
    broadcast use group_utf8_lib;

    let (head, _tail) = text.split_at(to);
    proof {
        let b = text.spec_bytes();
        let h = head.spec_bytes();
        assert(valid_utf8(b));
        assert(valid_utf8(h));
        if from < to {
            assert(h[from as int] == b[from as int]);
            is_char_boundary_iff_not_is_continuation_byte(b, from as int);
            is_char_boundary_iff_not_is_continuation_byte(h, from as int);
        } else {
            is_char_boundary_start_end_of_seq(h);
        }
    }
    let (_skip, rest) = head.split_at(from);
    proof {
        let b = text.spec_bytes();
        assert(rest.spec_bytes() =~= b.subrange(from as int, to as int));
        assert(decode_utf8(encode_utf8(rest@)) == rest@);
    }
    rest
}

/// The stretch of `text` from a byte offset that lies on a character boundary
/// to its end.
pub fn rest_from<'a>(text: &'a str, from: usize) -> (r: &'a str)
    requires
        on_boundary(text@, from as int),
    ensures
        r@ == segment(text@, from as int, encode_utf8(text@).len() as int),
{
    broadcast use group_utf8_lib;

    let (_head, tail) = text.split_at(from);
    proof {
        assert(decode_utf8(encode_utf8(tail@)) == tail@);
    }
    tail
}

/// `head` followed by `tail`.
pub fn chain(head: &str, tail: &str) -> (r: String)
    ensures
        r@ == head@ + tail@,
{
    let mut out = String::from_str(head);
    out.append(tail);
    out
}

/// `parts` written one after another with `sep` between each two.
pub open spec fn joined(parts: Seq<Seq<char>>, sep: Seq<char>) -> Seq<char>
    decreases parts.len(),
{
    if parts.len() == 0 {
        Seq::<char>::empty()
    } else if parts.len() == 1 {
        parts[0]
    } else {
        parts[0] + sep + joined(parts.drop_first(), sep)
    }
}

/// The views of a list of strings.
pub open spec fn views(list: Seq<String>) -> Seq<Seq<char>> {
    Seq::new(list.len(), |i: int| list[i]@)
}

/// Joining is the same whether the separators are set from the left or
/// from the right.
pub proof fn joined_push(parts: Seq<Seq<char>>, sep: Seq<char>, last: Seq<char>)
    ensures
        joined(parts.push(last), sep) == if parts.len() == 0 {
            last
        } else {
            joined(parts, sep) + sep + last
        },
    decreases parts.len(),
{
    let all = parts.push(last);
    if parts.len() == 0 {
        assert(all.len() == 1);
        assert(all[0] == last);
    } else if parts.len() == 1 {
        assert(all.drop_first() =~= seq![last]);
        assert(joined(seq![last], sep) == last) by {
            assert(seq![last][0] == last);
        }
        assert(all[0] == parts[0]);
    } else {
        let rest = parts.drop_first();
        joined_push(rest, sep, last);
        assert(all.drop_first() =~= rest.push(last));
        assert(all[0] == parts[0]);
        assert(joined(all, sep) =~= parts[0] + sep + (joined(rest, sep) + sep + last));
        assert(joined(parts, sep) == parts[0] + sep + joined(rest, sep));
    }
}

/// Joins `list` with `sep` between each two items.
pub fn join(list: &Vec<String>, sep: &str) -> (r: String)
    ensures
        r@ == joined(views(list@), sep@),
{
    let mut out = String::new();
    let mut i: usize = 0;
    while i < list.len()
        invariant
            i <= list.len(),
            out@ == joined(views(list@).take(i as int), sep@),
        decreases list.len() - i,
    {
        proof {
            let all = views(list@);
            joined_push(all.take(i as int), sep@, all[i as int]);
            assert(all.take(i as int).push(all[i as int]) =~= all.take(i as int + 1));
        }
        if i > 0 {
            out.append(sep);
        }
        out.append(list[i].as_str());
        i = i + 1;
    }
    proof {
        assert(views(list@).take(list.len() as int) =~= views(list@));
    }
    out
}

} // verus!
