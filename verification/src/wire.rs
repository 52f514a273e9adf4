//! The wire form of an event: one JSON object text per event.
//!
//! Each emitted event is sent to clients as a single textual message
//! holding exactly two fields, the decoded text under `code` and the fixed
//! kind label under `type`, keys in sorted order. The escaping is the
//! usual JSON one: quote, backslash and the named control characters by a
//! two-character escape, every other control character as `\u00` and two
//! lowercase hex digits, and all other bytes — including multi-byte UTF-8
//! sequences — unchanged.
use crate::ScanEvent;
use vstd::prelude::*;

verus! {

/// The lowercase hex digit for a value below 16.
pub open spec fn hex_digit(n: u8) -> u8 {
    if n < 10 {
        (48 + n) as u8
    } else {
        (87 + n) as u8
    }
}

/// How one byte of a JSON string body is written out.
pub open spec fn escape_byte(b: u8) -> Seq<u8> {
    if b == 34 {
        seq![92u8, 34u8]
    } else if b == 92 {
        seq![92u8, 92u8]
    } else if b == 8 {
        seq![92u8, 98u8]
    } else if b == 9 {
        seq![92u8, 116u8]
    } else if b == 10 {
        seq![92u8, 110u8]
    } else if b == 12 {
        seq![92u8, 102u8]
    } else if b == 13 {
        seq![92u8, 114u8]
    } else if b < 32 {
        seq![92u8, 117u8, 48u8, 48u8, hex_digit(b / 16), hex_digit(b % 16)]
    } else {
        seq![b]
    }
}

/// A byte sequence written out as a JSON string body.
pub open spec fn json_escaped(s: Seq<u8>) -> Seq<u8>
    decreases s.len(),
{
    if s.len() == 0 {
        Seq::empty()
    } else {
        escape_byte(s[0]) + json_escaped(s.skip(1))
    }
}

/// Escaping a sequence one byte longer appends that byte's escape.
proof fn lemma_json_escaped_push(s: Seq<u8>, b: u8)
    ensures
        json_escaped(s.push(b)) == json_escaped(s) + escape_byte(b),
    decreases s.len(),
{
    if s.len() == 0 {
        assert(s.push(b)[0] == b);
        assert(s.push(b).skip(1) =~= Seq::<u8>::empty());
        assert(json_escaped(Seq::<u8>::empty()) == Seq::<u8>::empty());
        assert(json_escaped(s.push(b)) =~= json_escaped(s) + escape_byte(b));
    } else {
        assert(s.push(b)[0] == s[0]);
        assert(s.push(b).skip(1) =~= s.skip(1).push(b));
        lemma_json_escaped_push(s.skip(1), b);
        assert(json_escaped(s.push(b)) =~= json_escaped(s) + escape_byte(b));
    }
}

/// The opening of the message, through the code field's opening quote.
pub open spec fn frame_prefix() -> Seq<u8> {
    seq![123u8, 34u8, 99u8, 111u8, 100u8, 101u8, 34u8, 58u8, 34u8]
}

/// Between the two fields: the code field's closing quote through the type
/// field's opening quote.
pub open spec fn frame_middle() -> Seq<u8> {
    seq![34u8, 44u8, 34u8, 116u8, 121u8, 112u8, 101u8, 34u8, 58u8, 34u8]
}

/// The type field's closing quote and the closing brace.
pub open spec fn frame_suffix() -> Seq<u8> {
    seq![34u8, 125u8]
}

/// The exact bytes of the wire message for an event whose kind label and
/// decoded text encode to the given byte sequences.
pub open spec fn message_bytes(label: Seq<u8>, code: Seq<u8>) -> Seq<u8> {
    frame_prefix() + json_escaped(code) + frame_middle() + json_escaped(label) + frame_suffix()
}

/// The lowercase hex digit for a value below 16.
fn hex_digit_of(n: u8) -> (r: u8)
    requires
        n < 16,
    ensures
        r == hex_digit(n),
{
    if n < 10 {
        48 + n
    } else {
        87 + n
    }
}

/// Append one byte's escape to the message being built.
fn push_escaped(out: &mut Vec<u8>, b: u8)
    ensures
        final(out)@ == old(out)@ + escape_byte(b),
{
    if b == 34 {
        out.push(92);
        out.push(34);
    } else if b == 92 {
        out.push(92);
        out.push(92);
    } else if b == 8 {
        out.push(92);
        out.push(98);
    } else if b == 9 {
        out.push(92);
        out.push(116);
    } else if b == 10 {
        out.push(92);
        out.push(110);
    } else if b == 12 {
        out.push(92);
        out.push(102);
    } else if b == 13 {
        out.push(92);
        out.push(114);
    } else if b < 32 {
        out.push(92);
        out.push(117);
        out.push(48);
        out.push(48);
        out.push(hex_digit_of(b / 16));
        out.push(hex_digit_of(b % 16));
    } else {
        out.push(b);
    }
    proof {
        assert(final(out)@ =~= old(out)@ + escape_byte(b));
    }
}

/// Append a whole string body, escaped, to the message being built.
fn push_escaped_all(out: &mut Vec<u8>, s: &[u8])
    ensures
        final(out)@ == old(out)@ + json_escaped(s@),
{
    let mut i: usize = 0;
    while i < s.len()
        invariant
            i <= s@.len(),
            out@ == old(out)@ + json_escaped(s@.take(i as int)),
        decreases s@.len() - i,
    {
        push_escaped(out, s[i]);
        proof {
            lemma_json_escaped_push(s@.take(i as int), s@[i as int]);
            assert(s@.take(i + 1 as int) =~= s@.take(i as int).push(s@[i as int]));
        }
        i += 1;
    }
    proof {
        assert(s@.take(s@.len() as int) =~= s@);
    }
}

impl ScanEvent {
    /// The single textual message this event is delivered as, byte for
    /// byte: its decoded text and its kind label as one JSON object.
    pub fn message(&self) -> (out: Vec<u8>)
        ensures
            out@ == message_bytes(
                vstd::utf8::encode_utf8(self@.label),
                vstd::utf8::encode_utf8(self@.code),
            ),
    {
        let mut out: Vec<u8> = Vec::new();
        out.push(123);  // {
        out.push(34);  // "
        out.push(99);  // c
        out.push(111);  // o
        out.push(100);  // d
        out.push(101);  // e
        out.push(34);  // "
        out.push(58);  // :
        out.push(34);  // "
        push_escaped_all(&mut out, self.code.as_str().as_bytes());
        out.push(34);  // "
        out.push(44);  // ,
        out.push(34);  // "
        out.push(116);  // t
        out.push(121);  // y
        out.push(112);  // p
        out.push(101);  // e
        out.push(34);  // "
        out.push(58);  // :
        out.push(34);  // "
        push_escaped_all(&mut out, self.type_label.as_str().as_bytes());
        out.push(34);  // "
        out.push(125);  // }
        proof {
            assert(out@ =~= message_bytes(
                vstd::utf8::encode_utf8(self@.label),
                vstd::utf8::encode_utf8(self@.code),
            ));
        }
        out
    }
}

} // verus!
