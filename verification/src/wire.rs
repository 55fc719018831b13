//! Byte-level wire shapes shared with the host: big-endian 32-bit lengths and
//! length-prefixed segments.

use vstd::prelude::*;
use vstd::arithmetic::div_mod::lemma_fundamental_div_mod_converse;
use vstd::utf8::encode_utf8;

verus! {

/// The number of values a 32-bit length field can hold.
pub open spec fn length_modulus() -> int {
    0x1_0000_0000
}

/// The four bytes of `x`, most significant first.
#[verifier::opaque]
pub open spec fn be32(x: u32) -> Seq<u8> {
    seq![
        (x / 0x100_0000) as u8,
        (x / 0x1_0000 % 0x100) as u8,
        (x / 0x100 % 0x100) as u8,
        (x % 0x100) as u8,
    ]
}

/// The number that four bytes stand for, most significant first.
#[verifier::opaque]
pub open spec fn be32_value(b: Seq<u8>) -> nat
    recommends
        b.len() == 4,
{
    (b[0] * 0x100_0000 + b[1] * 0x1_0000 + b[2] * 0x100 + b[3]) as nat
}

/// The length field written in front of a payload of `len` bytes: the length
/// reduced to 32 bits.
pub open spec fn length_field(len: nat) -> u32 {
    (len as int % length_modulus()) as u32
}

/// A payload behind its 4-byte big-endian length.
pub open spec fn length_prefixed(payload: Seq<u8>) -> Seq<u8> {
    be32(length_field(payload.len())) + payload
}

/// Reading back the bytes of a 32-bit number gives the number.
pub proof fn lemma_be32_roundtrip(x: u32)
    ensures
        be32(x).len() == 4,
        be32_value(be32(x)) == x,
{
    reveal(be32);
    reveal(be32_value);
    let v: int = x as int;
    let q2: int = v / 0x100;
    let q1: int = v / 0x1_0000;
    let q0: int = v / 0x100_0000;
    assert(v == q2 * 0x100 + v % 0x100);
    assert(q1 == q2 / 0x100);
    assert(q2 == q1 * 0x100 + q2 % 0x100);
    assert(q0 == q1 / 0x100);
    assert(q1 == q0 * 0x100 + q1 % 0x100);
    assert(0 <= q0 < 0x100);
    let b = be32(x);
    assert(b[0] == q0 as u8);
    assert(b[1] == (q1 % 0x100) as u8);
    assert(b[2] == (q2 % 0x100) as u8);
    assert(b[3] == (v % 0x100) as u8);
}

/// Appends the four big-endian bytes of `x` to `out`.
pub fn push_be32(out: &mut Vec<u8>, x: u32)
    ensures
        final(out)@ == old(out)@ + be32(x),
{
    proof {
        reveal(be32);
    }
    out.push((x / 0x100_0000) as u8);
    out.push((x / 0x1_0000 % 0x100) as u8);
    out.push((x / 0x100 % 0x100) as u8);
    out.push((x % 0x100) as u8);
    assert(out@ =~= old(out)@ + be32(x));
}

/// Appends every byte of `bytes` to `out`.
pub fn push_bytes(out: &mut Vec<u8>, bytes: &[u8])
    ensures
        final(out)@ == old(out)@ + bytes@,
{
    let n: usize = bytes.len();
    let mut i: usize = 0;
    while i < n
        invariant
            n == bytes@.len(),
            i <= n,
            out@ == old(out)@ + bytes@.subrange(0, i as int),
        decreases n - i,
    {
        out.push(bytes[i]);
        i = i + 1;
        assert(out@ =~= old(out)@ + bytes@.subrange(0, i as int));
    }
    assert(bytes@.subrange(0, n as int) =~= bytes@);
}

/// The reduction of a buffer length to the 32-bit length field.
pub fn length_field_of(len: usize) -> (field: u32)
    ensures
        field == length_field(len as nat),
{
    let wide: u64 = len as u64;
    (wide % 0x1_0000_0000) as u32
}

/// A text on the wire: its UTF-8 bytes behind their 4-byte big-endian length.
pub open spec fn string_wire(text: Seq<char>) -> Seq<u8> {
    length_prefixed(encode_utf8(text))
}

/// Appends `payload` behind its length field to `out`.
pub fn push_length_prefixed(out: &mut Vec<u8>, payload: &[u8])
    ensures
        final(out)@ == old(out)@ + length_prefixed(payload@),
{
    push_be32(out, length_field_of(payload.len()));
    push_bytes(out, payload);
    assert(out@ =~= old(out)@ + length_prefixed(payload@));
}

/// Encodes a text as a length-prefixed UTF-8 segment.
pub fn string_to_bytes(v: String) -> (answer: Vec<u8>)
    ensures
        answer@ == string_wire(v@),
{
    let mut answer: Vec<u8> = Vec::new();
    push_length_prefixed(&mut answer, v.as_str().as_bytes());
    assert(answer@ =~= string_wire(v@));
    answer
}

/// A run of segments, each behind its own length field, one after another.
pub open spec fn packed_segments(segments: Seq<Seq<u8>>) -> Seq<u8>
    decreases segments.len(),
{
    if segments.len() == 0 {
        Seq::empty()
    } else {
        length_prefixed(segments[0]) + packed_segments(segments.drop_first())
    }
}

/// What a reader recovers from a buffer of length-prefixed segments, or
/// `None` where the buffer ends inside a length field or inside a segment.
pub open spec fn parsed_segments(bytes: Seq<u8>) -> Option<Seq<Seq<u8>>>
    decreases bytes.len(),
{
    if bytes.len() == 0 {
        Some(Seq::empty())
    } else if bytes.len() < 4 {
        None
    } else {
        let n = be32_value(bytes.subrange(0, 4)) as int;
        if bytes.len() < 4 + n {
            None
        } else {
            match parsed_segments(bytes.subrange(4 + n, bytes.len() as int)) {
                Some(rest) => Some(seq![bytes.subrange(4, 4 + n)] + rest),
                None => None,
            }
        }
    }
}

/// Every segment is short enough for its length to fit the 32-bit field.
pub open spec fn segments_fit(segments: Seq<Seq<u8>>) -> bool {
    forall|i: int| 0 <= i < segments.len() ==> (#[trigger] segments[i]).len() < length_modulus()
}

/// Packing two runs one after the other is packing their concatenation.
pub proof fn lemma_packed_segments_concat(a: Seq<Seq<u8>>, b: Seq<Seq<u8>>)
    ensures
        packed_segments(a + b) == packed_segments(a) + packed_segments(b),
    decreases a.len(),
{
    if a.len() == 0 {
        assert(a + b =~= b);
        assert(packed_segments(a) + packed_segments(b) =~= packed_segments(b));
    } else {
        lemma_packed_segments_concat(a.drop_first(), b);
        assert((a + b).drop_first() =~= a.drop_first() + b);
        assert((a + b)[0] == a[0]);
        assert(packed_segments(a + b) =~= packed_segments(a) + packed_segments(b));
    }
}

/// A reader recovers exactly the segments that were packed, in order, as long
/// as each length fits its field.
pub proof fn lemma_parse_packed_segments(segments: Seq<Seq<u8>>)
    requires
        segments_fit(segments),
    ensures
        parsed_segments(packed_segments(segments)) == Some(segments),
    decreases segments.len(),
{
    if segments.len() > 0 {
        let head = segments[0];
        let tail = segments.drop_first();
        let bytes = packed_segments(segments);
        assert(segments_fit(tail)) by {
            assert forall|i: int| 0 <= i < tail.len() implies (#[trigger] tail[i]).len()
                < length_modulus() by {
                assert(tail[i] == segments[i + 1]);
            }
        }
        lemma_parse_packed_segments(tail);
        lemma_be32_roundtrip(length_field(head.len()));
        assert(be32(length_field(head.len())).len() == 4);
        assert(bytes =~= be32(length_field(head.len())) + head + packed_segments(tail));
        assert(bytes.subrange(0, 4) =~= be32(length_field(head.len())));
        let n = be32_value(bytes.subrange(0, 4)) as int;
        assert(n == head.len());
        assert(bytes.subrange(4, 4 + n) =~= head);
        assert(bytes.subrange(4 + n, bytes.len() as int) =~= packed_segments(tail));
        assert(seq![head] + tail =~= segments);
    }
}

/// Four bytes are the big-endian bytes of the number they stand for.
pub proof fn lemma_be32_of_value(b: Seq<u8>)
    requires
        b.len() == 4,
    ensures
        0 <= be32_value(b) < length_modulus(),
        be32(be32_value(b) as u32) == b,
{
    reveal(be32);
    reveal(be32_value);
    let b0: int = b[0] as int;
    let b1: int = b[1] as int;
    let b2: int = b[2] as int;
    let b3: int = b[3] as int;
    let v: int = b0 * 0x100_0000 + b1 * 0x1_0000 + b2 * 0x100 + b3;
    assert(be32_value(b) == v);
    assert(0 <= v < 0x1_0000_0000);
    let q1: int = b0 * 0x100 + b1;
    let q2: int = q1 * 0x100 + b2;
    lemma_fundamental_div_mod_converse(v, 0x100_0000, b0, b1 * 0x1_0000 + b2 * 0x100 + b3);
    lemma_fundamental_div_mod_converse(v, 0x1_0000, q1, b2 * 0x100 + b3);
    lemma_fundamental_div_mod_converse(q1, 0x100, b0, b1);
    lemma_fundamental_div_mod_converse(v, 0x100, q2, b3);
    lemma_fundamental_div_mod_converse(q2, 0x100, q1, b2);
    assert(v / 0x100_0000 == b0);
    assert(v / 0x1_0000 % 0x100 == b1);
    assert(v / 0x100 % 0x100 == b2);
    assert(v % 0x100 == b3);
    assert(be32(v as u32) =~= b);
}

/// Whatever a reader recovers from a buffer packs back to that buffer: no two
/// buffers read as the same run of segments.
pub proof fn lemma_pack_parsed_segments(bytes: Seq<u8>)
    requires
        parsed_segments(bytes) is Some,
    ensures
        packed_segments(parsed_segments(bytes)->Some_0) == bytes,
        segments_fit(parsed_segments(bytes)->Some_0),
    decreases bytes.len(),
{
    if bytes.len() > 0 {
        let field = bytes.subrange(0, 4);
        let n = be32_value(field) as int;
        lemma_be32_of_value(field);
        let rest_bytes = bytes.subrange(4 + n, bytes.len() as int);
        let head = bytes.subrange(4, 4 + n);
        lemma_pack_parsed_segments(rest_bytes);
        let rest = parsed_segments(rest_bytes)->Some_0;
        let segments = seq![head] + rest;
        assert(parsed_segments(bytes) == Some(segments));
        assert(segments.drop_first() =~= rest);
        assert(segments[0] == head);
        assert(head.len() == n);
        assert(length_field(head.len()) == n as u32);
        assert(length_prefixed(head) =~= field + head);
        assert(field + head + rest_bytes =~= bytes);
        assert(packed_segments(segments) == length_prefixed(head) + packed_segments(rest));
        assert forall|i: int| 0 <= i < segments.len() implies (#[trigger] segments[i]).len()
            < length_modulus() by {
            if i > 0 {
                assert(segments[i] == rest[i - 1]);
            }
        }
    }
}

/// Copies the bytes of `bytes` from index `from` up to, not including, `to`.
pub fn copy_range(bytes: &[u8], from: usize, to: usize) -> (copy: Vec<u8>)
    requires
        from <= to <= bytes@.len(),
    ensures
        copy@ == bytes@.subrange(from as int, to as int),
{
    let mut copy: Vec<u8> = Vec::new();
    let mut i: usize = from;
    while i < to
        invariant
            from <= i <= to <= bytes@.len(),
            copy@ == bytes@.subrange(from as int, i as int),
        decreases to - i,
    {
        copy.push(bytes[i]);
        i = i + 1;
        assert(copy@ =~= bytes@.subrange(from as int, i as int));
    }
    copy
}

/// The segments of a built list, each as its bytes.
pub open spec fn segment_views(segments: Seq<Vec<u8>>) -> Seq<Seq<u8>> {
    Seq::new(segments.len(), |i: int| segments[i]@)
}

/// Reads a buffer of length-prefixed segments back into its segments.
///
/// Returns `None` exactly where the buffer ends inside a length field or
/// inside a segment.
pub fn read_segments(bytes: &[u8]) -> (segments: Option<Vec<Vec<u8>>>)
    ensures
        segments is Some <==> parsed_segments(bytes@) is Some,
        segments matches Some(v) ==> segment_views(v@) == parsed_segments(bytes@)->Some_0,
{
    let len: usize = bytes.len();
    let mut found: Vec<Vec<u8>> = Vec::new();
    let mut pos: usize = 0;
    assert(bytes@.subrange(0, len as int) =~= bytes@);
    assert(segment_views(found@) + parsed_segments(bytes@)->Some_0 =~= parsed_segments(
        bytes@,
    )->Some_0);
    while pos < len
        invariant
            len == bytes@.len(),
            pos <= len,
            parsed_segments(bytes@.subrange(pos as int, len as int)) is Some <==> parsed_segments(
                bytes@,
            ) is Some,
            parsed_segments(bytes@) is Some ==> parsed_segments(bytes@)->Some_0 == segment_views(
                found@,
            ) + parsed_segments(bytes@.subrange(pos as int, len as int))->Some_0,
        decreases len - pos,
    {
        let ghost suffix = bytes@.subrange(pos as int, len as int);
        if len - pos < 4 {
            return None;
        }
        let b0: u64 = bytes[pos] as u64;
        let b1: u64 = bytes[pos + 1] as u64;
        let b2: u64 = bytes[pos + 2] as u64;
        let b3: u64 = bytes[pos + 3] as u64;
        let n: u64 = b0 * 0x100_0000 + b1 * 0x1_0000 + b2 * 0x100 + b3;
        let room: usize = len - pos - 4;
        assert(n == be32_value(suffix.subrange(0, 4))) by {
            reveal(be32_value);
        }
        if n > room as u64 {
            return None;
        }
        let start: usize = pos + 4;
        let end: usize = start + n as usize;
        let segment = copy_range(bytes, start, end);
        proof {
            let rest_bytes = suffix.subrange(4 + n, suffix.len() as int);
            assert(rest_bytes =~= bytes@.subrange(end as int, len as int));
            assert(suffix.subrange(4, 4 + n) =~= segment@);
            if parsed_segments(bytes@) is Some {
                let rest = parsed_segments(rest_bytes)->Some_0;
                assert(segment_views(found@.push(segment)) + rest =~= segment_views(found@) + (
                seq![segment@] + rest));
            }
        }
        found.push(segment);
        pos = end;
    }
    assert(bytes@.subrange(pos as int, len as int) =~= Seq::<u8>::empty());
    assert(segment_views(found@) + Seq::<Seq<u8>>::empty() =~= segment_views(found@));
    Some(found)
}

} // verus!
