//! Outgoing HTTP requests as the host receives them: method code, packed
//! headers and length-prefixed body.

use vstd::prelude::*;
use vstd::utf8::{decode_utf8, encode_utf8, valid_utf8};
use vstd::utf8::{encode_utf8_decode_utf8, encode_utf8_valid_utf8};
use crate::error::BridgeError;
use crate::text::decode_text;
use crate::wire::{
    copy_range, lemma_packed_segments_concat, lemma_parse_packed_segments, length_modulus,
    length_prefixed, packed_segments, parsed_segments, push_length_prefixed, read_segments,
    segment_views, segments_fit,
};

verus! {

/// The request methods the engine issues.
#[derive(Clone, Copy, Debug, PartialEq, Eq, Structural)]
pub enum Method {
    Get,
    Put,
    Delete,
    Post,
}

impl Method {
    /// The number that names the method to the host.
    pub open spec fn spec_code(self) -> i8 {
        match self {
            Method::Get => 0i8,
            Method::Put => 1i8,
            Method::Delete => 2i8,
            Method::Post => 3i8,
        }
    }

    /// The number that names the method to the host.
    pub fn code(&self) -> (code: i8)
        ensures
            code == self.spec_code(),
    {
        match self {
            Method::Get => 0,
            Method::Put => 1,
            Method::Delete => 2,
            Method::Post => 3,
        }
    }
}

/// One header of a request.
#[derive(Clone, Debug, PartialEq, Eq)]
pub struct Header {
    pub name: String,
    pub value: String,
}

/// A request that the engine asks the host to perform.
#[derive(Clone, Debug, PartialEq, Eq)]
pub struct Request {
    pub method: Method,
    pub url: String,
    /// The headers, in the order in which they are packed.
    pub headers: Vec<Header>,
    pub body: Option<Vec<u8>>,
}

/// The headers as ordered pairs of name and value.
pub open spec fn header_pairs(headers: Seq<Header>) -> Seq<(Seq<char>, Seq<char>)> {
    Seq::new(headers.len(), |i: int| (headers[i].name@, headers[i].value@))
}

/// The segments that carry the pairs: for each pair the UTF-8 bytes of the
/// name, then those of the value.
pub open spec fn pair_segments(pairs: Seq<(Seq<char>, Seq<char>)>) -> Seq<Seq<u8>>
    decreases pairs.len(),
{
    if pairs.len() == 0 {
        Seq::empty()
    } else {
        seq![encode_utf8(pairs[0].0), encode_utf8(pairs[0].1)] + pair_segments(pairs.drop_first())
    }
}

/// The header buffer handed to the host: every name and value as a
/// length-prefixed UTF-8 segment, pair after pair.
pub open spec fn packed_headers(pairs: Seq<(Seq<char>, Seq<char>)>) -> Seq<u8> {
    packed_segments(pair_segments(pairs))
}

/// The body buffer handed to the host: the body behind its length, or a zero
/// length alone where the request has no body.
pub open spec fn packed_body(body: Option<Seq<u8>>) -> Seq<u8> {
    match body {
        Some(bytes) => length_prefixed(bytes),
        None => length_prefixed(Seq::empty()),
    }
}

/// The pairs that a run of segments stands for, or `None` where a name has no
/// value or a segment is not UTF-8.
pub open spec fn paired_texts(segments: Seq<Seq<u8>>) -> Option<Seq<(Seq<char>, Seq<char>)>>
    decreases segments.len(),
{
    if segments.len() == 0 {
        Some(Seq::empty())
    } else if segments.len() == 1 {
        None
    } else if !valid_utf8(segments[0]) || !valid_utf8(segments[1]) {
        None
    } else {
        match paired_texts(segments.skip(2)) {
            Some(rest) => Some(
                seq![(decode_utf8(segments[0]), decode_utf8(segments[1]))] + rest,
            ),
            None => None,
        }
    }
}

/// What the receiving side reads from a header buffer.
pub open spec fn decoded_headers(bytes: Seq<u8>) -> Option<Seq<(Seq<char>, Seq<char>)>> {
    match parsed_segments(bytes) {
        Some(segments) => paired_texts(segments),
        None => None,
    }
}

/// Every name and value is short enough for its UTF-8 length to fit the
/// 32-bit length field.
pub open spec fn pairs_fit(pairs: Seq<(Seq<char>, Seq<char>)>) -> bool {
    forall|i: int|
        0 <= i < pairs.len() ==> encode_utf8((#[trigger] pairs[i]).0).len() < length_modulus()
            && encode_utf8(pairs[i].1).len() < length_modulus()
}

proof fn lemma_pair_segments_push(pairs: Seq<(Seq<char>, Seq<char>)>, last: (Seq<char>, Seq<char>))
    ensures
        pair_segments(pairs.push(last)) == pair_segments(pairs) + seq![
            encode_utf8(last.0),
            encode_utf8(last.1),
        ],
    decreases pairs.len(),
{
    let tail_segments = seq![encode_utf8(last.0), encode_utf8(last.1)];
    if pairs.len() == 0 {
        let one = pairs.push(last);
        assert(one.drop_first() =~= Seq::<(Seq<char>, Seq<char>)>::empty());
        assert(one[0] == last);
        assert(pair_segments(one.drop_first()) =~= Seq::<Seq<u8>>::empty());
        assert(pair_segments(pairs) =~= Seq::<Seq<u8>>::empty());
        assert(pair_segments(one) =~= tail_segments + pair_segments(one.drop_first()));
        assert(pair_segments(pairs.push(last)) =~= pair_segments(pairs) + tail_segments);
    } else {
        lemma_pair_segments_push(pairs.drop_first(), last);
        assert(pairs.push(last).drop_first() =~= pairs.drop_first().push(last));
        assert(pair_segments(pairs.push(last)) =~= pair_segments(pairs) + tail_segments);
    }
}

proof fn lemma_pair_segments_read_back(pairs: Seq<(Seq<char>, Seq<char>)>)
    requires
        pairs_fit(pairs),
    ensures
        segments_fit(pair_segments(pairs)),
        paired_texts(pair_segments(pairs)) == Some(pairs),
    decreases pairs.len(),
{
    let segments = pair_segments(pairs);
    if pairs.len() > 0 {
        let tail = pairs.drop_first();
        assert(pairs_fit(tail)) by {
            assert forall|i: int| 0 <= i < tail.len() implies encode_utf8(
                (#[trigger] tail[i]).0,
            ).len() < length_modulus() && encode_utf8(tail[i].1).len() < length_modulus() by {
                assert(tail[i] == pairs[i + 1]);
            }
        }
        lemma_pair_segments_read_back(tail);
        let rest = pair_segments(tail);
        assert(segments.skip(2) =~= rest);
        assert(segments[0] == encode_utf8(pairs[0].0));
        assert(segments[1] == encode_utf8(pairs[0].1));
        encode_utf8_valid_utf8(pairs[0].0);
        encode_utf8_valid_utf8(pairs[0].1);
        encode_utf8_decode_utf8(pairs[0].0);
        encode_utf8_decode_utf8(pairs[0].1);
        assert(seq![pairs[0]] + tail =~= pairs);
        assert forall|i: int| 0 <= i < segments.len() implies (#[trigger] segments[i]).len()
            < length_modulus() by {
            if i >= 2 {
                assert(segments[i] == rest[i - 2]);
            }
        }
    }
}

/// Packing headers and reading the buffer back gives the same pairs in the
/// same order.
pub proof fn lemma_headers_round_trip(pairs: Seq<(Seq<char>, Seq<char>)>)
    requires
        pairs_fit(pairs),
    ensures
        decoded_headers(packed_headers(pairs)) == Some(pairs),
{
    lemma_pair_segments_read_back(pairs);
    lemma_parse_packed_segments(pair_segments(pairs));
}

/// Packs the headers of a request into the one buffer the host parses.
pub fn pack_headers(headers: &Vec<Header>) -> (packed: Vec<u8>)
    ensures
        packed@ == packed_headers(header_pairs(headers@)),
{
    let mut packed: Vec<u8> = Vec::new();
    let n: usize = headers.len();
    let mut i: usize = 0;
    let ghost pairs = header_pairs(headers@);
    assert(pairs.take(0) =~= Seq::empty());
    while i < n
        invariant
            n == headers@.len(),
            i <= n,
            pairs == header_pairs(headers@),
            packed@ == packed_headers(pairs.take(i as int)),
        decreases n - i,
    {
        let header = &headers[i];
        let ghost before = packed@;
        push_length_prefixed(&mut packed, header.name.as_str().as_bytes());
        push_length_prefixed(&mut packed, header.value.as_str().as_bytes());
        proof {
            let done = pairs.take(i as int);
            let pair = pairs[i as int];
            let added = seq![encode_utf8(pair.0), encode_utf8(pair.1)];
            assert(pairs.take(i + 1) =~= done.push(pair));
            lemma_pair_segments_push(done, pair);
            lemma_packed_segments_concat(pair_segments(done), added);
            assert(added.drop_first() =~= seq![encode_utf8(pair.1)]);
            assert(added.drop_first().drop_first() =~= Seq::<Seq<u8>>::empty());
            assert(packed_segments(added) =~= length_prefixed(encode_utf8(pair.0))
                + length_prefixed(encode_utf8(pair.1))) by {
                reveal_with_fuel(packed_segments, 3);
            }
            assert(packed@ =~= before + packed_segments(added));
        }
        i = i + 1;
    }
    assert(pairs.take(n as int) =~= pairs);
    packed
}

/// Puts the 4-byte length of the body in front of it; a request without a
/// body gives a zero length alone.
pub fn pack_body(body: &Option<Vec<u8>>) -> (packed: Vec<u8>)
    ensures
        packed@ == packed_body(
            match *body {
                Some(bytes) => Some(bytes@),
                None => None,
            },
        ),
{
    let mut packed: Vec<u8> = Vec::new();
    match body {
        Some(bytes) => {
            push_length_prefixed(&mut packed, bytes.as_slice());
        },
        None => {
            let nothing: Vec<u8> = Vec::new();
            push_length_prefixed(&mut packed, nothing.as_slice());
        },
    }
    packed
}

/// Reads a header buffer back into its headers, as the receiving side does.
///
/// Fails with `MalformedHeaders` exactly where the buffer ends inside a
/// segment, holds a name without a value, or holds a segment that is not
/// UTF-8.
pub fn unpack_headers(bytes: &[u8]) -> (headers: Result<Vec<Header>, BridgeError>)
    ensures
        headers is Ok <==> decoded_headers(bytes@) is Some,
        headers matches Ok(list) ==> header_pairs(list@) == decoded_headers(bytes@)->Some_0,
        headers matches Err(e) ==> e == BridgeError::MalformedHeaders,
{
    let segments = match read_segments(bytes) {
        Some(segments) => segments,
        None => {
            return Err(BridgeError::MalformedHeaders);
        },
    };
    let ghost all = segment_views(segments@);
    let n: usize = segments.len();
    let mut list: Vec<Header> = Vec::new();
    let mut i: usize = 0;
    assert(all.skip(0) =~= all);
    assert(header_pairs(list@) + paired_texts(all)->Some_0 =~= paired_texts(all)->Some_0);
    while i < n
        invariant
            n == segments@.len(),
            i <= n,
            all == segment_views(segments@),
            parsed_segments(bytes@) == Some(all),
            paired_texts(all.skip(i as int)) is Some <==> paired_texts(all) is Some,
            paired_texts(all) is Some ==> paired_texts(all)->Some_0 == header_pairs(list@)
                + paired_texts(all.skip(i as int))->Some_0,
        decreases n - i,
    {
        let ghost rest = all.skip(i as int);
        if n - i < 2 {
            assert(rest.len() == 1);
            return Err(BridgeError::MalformedHeaders);
        }
        let name_bytes = copy_range(segments[i].as_slice(), 0, segments[i].len());
        let value_bytes = copy_range(segments[i + 1].as_slice(), 0, segments[i + 1].len());
        assert(name_bytes@ =~= rest[0]);
        assert(value_bytes@ =~= rest[1]);
        let name = match decode_text(name_bytes) {
            Some(name) => name,
            None => {
                return Err(BridgeError::MalformedHeaders);
            },
        };
        let value = match decode_text(value_bytes) {
            Some(value) => value,
            None => {
                return Err(BridgeError::MalformedHeaders);
            },
        };
        proof {
            assert(rest.skip(2) =~= all.skip(i + 2));
            if paired_texts(all) is Some {
                let tail = paired_texts(rest.skip(2))->Some_0;
                let header = Header { name, value };
                assert(header_pairs(list@.push(header)) + tail =~= header_pairs(list@) + (seq![
                    (name@, value@),
                ] + tail));
            }
        }
        list.push(Header { name, value });
        i = i + 2;
    }
    assert(all.skip(n as int) =~= Seq::<Seq<u8>>::empty());
    assert(header_pairs(list@) + Seq::<(Seq<char>, Seq<char>)>::empty() =~= header_pairs(list@));
    Ok(list)
}

} // verus!
