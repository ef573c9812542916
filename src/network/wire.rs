//! The canonical wire encoding of messages and its decoder.
//!
//! Integers are little-endian (four bytes for `u32`, eight for `u64`). A byte
//! string or a text is its length as a `u64` followed by its bytes (texts in
//! UTF-8). A list of texts is its count as a `u64` followed by the texts. A
//! variant is one tag byte followed by its fields in declaration order. A message
//! is its version, its variant, its timestamp, and its signature as a tag byte
//! (0 for none, 1 for some) followed, when present, by the byte string.

use sha2::Digest;
use vstd::prelude::*;
use vstd::utf8::*;

use crate::network::protocol::{Message, MessageModel, MessageType, MessageTypeModel, ResponseStatus};
use crate::network::{NetworkError, ProtocolFault};

verus! {

broadcast use {encode_utf8_valid_utf8, encode_utf8_decode_utf8};

// ---------------------------------------------------------------- integers

/// Little-endian bytes of a `u32`.
#[verifier::opaque]
pub open spec fn u32_le(x: u32) -> Seq<u8> {
    seq![x as u8, (x >> 8u32) as u8, (x >> 16u32) as u8, (x >> 24u32) as u8]
}

/// Little-endian bytes of a `u64`.
#[verifier::opaque]
pub open spec fn u64_le(x: u64) -> Seq<u8> {
    seq![
        x as u8,
        (x >> 8u64) as u8,
        (x >> 16u64) as u8,
        (x >> 24u64) as u8,
        (x >> 32u64) as u8,
        (x >> 40u64) as u8,
        (x >> 48u64) as u8,
        (x >> 56u64) as u8,
    ]
}

spec fn read_u32(b: Seq<u8>) -> u32 {
    (b[0] as u32) | ((b[1] as u32) << 8u32) | ((b[2] as u32) << 16u32) | ((b[3] as u32) << 24u32)
}

spec fn read_u64(b: Seq<u8>) -> u64 {
    (b[0] as u64) | ((b[1] as u64) << 8u64) | ((b[2] as u64) << 16u64) | ((b[3] as u64) << 24u64)
        | ((b[4] as u64) << 32u64) | ((b[5] as u64) << 40u64) | ((b[6] as u64) << 48u64) | ((
    b[7] as u64) << 56u64)
}

proof fn lemma_u32_round_trip(x: u32)
    ensures
        read_u32(u32_le(x)) == x,
{
    reveal(u32_le);
    let b = u32_le(x);
    assert(((x as u8) as u32) | ((((x >> 8u32) as u8) as u32) << 8u32) | ((((x >> 16u32) as u8)
        as u32) << 16u32) | ((((x >> 24u32) as u8) as u32) << 24u32) == x) by (bit_vector);
}

proof fn lemma_u32_canonical(b: Seq<u8>)
    requires
        b.len() == 4,
    ensures
        u32_le(read_u32(b)) == b,
{
    reveal(u32_le);
    let (b0, b1, b2, b3) = (b[0], b[1], b[2], b[3]);
    let x = read_u32(b);
    assert(x as u8 == b0 && (x >> 8u32) as u8 == b1 && (x >> 16u32) as u8 == b2 && (x >> 24u32)
        as u8 == b3) by (bit_vector)
        requires
            x == (b0 as u32) | ((b1 as u32) << 8u32) | ((b2 as u32) << 16u32) | ((b3 as u32)
                << 24u32),
    ;
    assert(u32_le(x) =~= b);
}

proof fn lemma_u64_round_trip(x: u64)
    ensures
        read_u64(u64_le(x)) == x,
{
    reveal(u64_le);
    assert(((x as u8) as u64) | ((((x >> 8u64) as u8) as u64) << 8u64) | ((((x >> 16u64) as u8)
        as u64) << 16u64) | ((((x >> 24u64) as u8) as u64) << 24u64) | ((((x >> 32u64) as u8)
        as u64) << 32u64) | ((((x >> 40u64) as u8) as u64) << 40u64) | ((((x >> 48u64) as u8)
        as u64) << 48u64) | ((((x >> 56u64) as u8) as u64) << 56u64) == x) by (bit_vector);
}

proof fn lemma_u64_canonical(b: Seq<u8>)
    requires
        b.len() == 8,
    ensures
        u64_le(read_u64(b)) == b,
{
    reveal(u64_le);
    let (b0, b1, b2, b3, b4, b5, b6, b7) = (b[0], b[1], b[2], b[3], b[4], b[5], b[6], b[7]);
    let x = read_u64(b);
    assert(x as u8 == b0 && (x >> 8u64) as u8 == b1 && (x >> 16u64) as u8 == b2 && (x >> 24u64)
        as u8 == b3 && (x >> 32u64) as u8 == b4 && (x >> 40u64) as u8 == b5 && (x >> 48u64) as u8
        == b6 && (x >> 56u64) as u8 == b7) by (bit_vector)
        requires
            x == (b0 as u64) | ((b1 as u64) << 8u64) | ((b2 as u64) << 16u64) | ((b3 as u64)
                << 24u64) | ((b4 as u64) << 32u64) | ((b5 as u64) << 40u64) | ((b6 as u64)
                << 48u64) | ((b7 as u64) << 56u64),
    ;
    assert(u64_le(x) =~= b);
}


// ---------------------------------------------------------------- encoding

/// A byte string: its length, then its bytes.
#[verifier::opaque]
pub open spec fn bytes_field(b: Seq<u8>) -> Seq<u8> {
    u64_le(b.len() as u64) + b
}

/// A text: the byte string of its UTF-8 encoding.
#[verifier::opaque]
pub open spec fn text_field(s: Seq<char>) -> Seq<u8> {
    bytes_field(encode_utf8(s))
}

/// The texts of `v`, one after the other.
pub open spec fn text_items(v: Seq<Seq<char>>) -> Seq<u8>
    decreases v.len(),
{
    if v.len() == 0 {
        Seq::empty()
    } else {
        text_field(v[0]) + text_items(v.drop_first())
    }
}

/// A list of texts: its count, then the texts.
pub open spec fn texts_field(v: Seq<Seq<char>>) -> Seq<u8> {
    u64_le(v.len() as u64) + text_items(v)
}

/// The tag byte of a response status.
pub open spec fn status_tag(s: ResponseStatus) -> u8 {
    match s {
        ResponseStatus::Success => 0,
        ResponseStatus::Error => 1,
        ResponseStatus::Pending => 2,
    }
}

/// The encoding of a message variant.
pub open spec fn type_bytes(t: MessageTypeModel) -> Seq<u8> {
    match t {
        MessageTypeModel::Handshake { version, timestamp, capabilities } => seq![0u8] + (u32_le(
            version,
        ) + (u64_le(timestamp) + texts_field(capabilities))),
        MessageTypeModel::Request { id, method, params } => seq![1u8] + (text_field(id) + (
        text_field(method) + bytes_field(params))),
        MessageTypeModel::Response { id, status, data } => seq![2u8] + (text_field(id) + (seq![
            status_tag(status),
        ] + bytes_field(data))),
        MessageTypeModel::Error { id, code, message } => seq![3u8] + (text_field(id) + (u32_le(
            code,
        ) + text_field(message))),
        MessageTypeModel::Ping(n) => seq![4u8] + u64_le(n),
        MessageTypeModel::Pong(n) => seq![5u8] + u64_le(n),
        MessageTypeModel::Notification { topic, data } => seq![6u8] + (text_field(topic)
            + bytes_field(data)),
    }
}

/// The encoding of an optional signature.
pub open spec fn signature_bytes(s: Option<Seq<u8>>) -> Seq<u8> {
    match s {
        None => seq![0u8],
        Some(b) => seq![1u8] + bytes_field(b),
    }
}

/// The canonical encoding of a message.
pub open spec fn message_bytes(m: MessageModel) -> Seq<u8> {
    u32_le(m.version) + (type_bytes(m.message_type) + (u64_le(m.timestamp) + signature_bytes(
        m.signature,
    )))
}

/// Every length in `b` can be written as a `u64`.
pub open spec fn bytes_fit(b: Seq<u8>) -> bool {
    b.len() <= u64::MAX
}

pub open spec fn text_fits(s: Seq<char>) -> bool {
    encode_utf8(s).len() <= u64::MAX
}

pub open spec fn texts_fit(v: Seq<Seq<char>>) -> bool {
    v.len() <= u64::MAX && forall|i: int| 0 <= i < v.len() ==> text_fits(#[trigger] v[i])
}

pub open spec fn type_fits(t: MessageTypeModel) -> bool {
    match t {
        MessageTypeModel::Handshake { capabilities, .. } => texts_fit(capabilities),
        MessageTypeModel::Request { id, method, params } => text_fits(id) && text_fits(method)
            && bytes_fit(params),
        MessageTypeModel::Response { id, data, .. } => text_fits(id) && bytes_fit(data),
        MessageTypeModel::Error { id, message, .. } => text_fits(id) && text_fits(message),
        MessageTypeModel::Notification { topic, data } => text_fits(topic) && bytes_fit(data),
        _ => true,
    }
}

/// Every length in `m` can be written as a `u64`: true of every message that
/// exists in memory.
pub open spec fn message_fits(m: MessageModel) -> bool {
    type_fits(m.message_type) && match m.signature {
        Some(b) => bytes_fit(b),
        None => true,
    }
}

/// `b` is the encoding of some message.
pub open spec fn is_message_encoding(b: Seq<u8>) -> bool {
    exists|m: MessageModel| message_fits(m) && message_bytes(m) == b
}


// ---------------------------------------------------------------- parsing

spec fn parse_u8(b: Seq<u8>) -> Option<(u8, Seq<u8>)> {
    if b.len() >= 1 {
        Some((b[0], b.skip(1)))
    } else {
        None
    }
}

#[verifier::opaque]
spec fn parse_u32(b: Seq<u8>) -> Option<(u32, Seq<u8>)> {
    if b.len() >= 4 {
        Some((read_u32(b.take(4)), b.skip(4)))
    } else {
        None
    }
}

#[verifier::opaque]
spec fn parse_u64(b: Seq<u8>) -> Option<(u64, Seq<u8>)> {
    if b.len() >= 8 {
        Some((read_u64(b.take(8)), b.skip(8)))
    } else {
        None
    }
}

#[verifier::opaque]
spec fn parse_bytes(b: Seq<u8>) -> Option<(Seq<u8>, Seq<u8>)> {
    match parse_u64(b) {
        Some((n, r)) => if n as int <= r.len() {
            Some((r.take(n as int), r.skip(n as int)))
        } else {
            None
        },
        None => None,
    }
}

#[verifier::opaque]
spec fn parse_text(b: Seq<u8>) -> Option<(Seq<char>, Seq<u8>)> {
    match parse_bytes(b) {
        Some((raw, r)) => if valid_utf8(raw) {
            Some((decode_utf8(raw), r))
        } else {
            None
        },
        None => None,
    }
}

spec fn parse_text_items(b: Seq<u8>, n: nat) -> Option<(Seq<Seq<char>>, Seq<u8>)>
    decreases n,
{
    if n == 0 {
        Some((Seq::empty(), b))
    } else {
        match parse_text(b) {
            Some((s, r)) => match parse_text_items(r, (n - 1) as nat) {
                Some((v, r2)) => Some((seq![s] + v, r2)),
                None => None,
            },
            None => None,
        }
    }
}

spec fn parse_texts(b: Seq<u8>) -> Option<(Seq<Seq<char>>, Seq<u8>)> {
    match parse_u64(b) {
        Some((n, r)) => parse_text_items(r, n as nat),
        None => None,
    }
}

spec fn status_of_tag(t: u8) -> Option<ResponseStatus> {
    if t == 0 {
        Some(ResponseStatus::Success)
    } else if t == 1 {
        Some(ResponseStatus::Error)
    } else if t == 2 {
        Some(ResponseStatus::Pending)
    } else {
        None
    }
}

spec fn parse_handshake(r: Seq<u8>) -> Option<(MessageTypeModel, Seq<u8>)> {
    match parse_u32(r) {
        Some((version, r1)) => match parse_u64(r1) {
            Some((timestamp, r2)) => match parse_texts(r2) {
                Some((capabilities, r3)) => Some(
                    (MessageTypeModel::Handshake { version, timestamp, capabilities }, r3),
                ),
                None => None,
            },
            None => None,
        },
        None => None,
    }
}

spec fn parse_request(r: Seq<u8>) -> Option<(MessageTypeModel, Seq<u8>)> {
    match parse_text(r) {
        Some((id, r1)) => match parse_text(r1) {
            Some((method, r2)) => match parse_bytes(r2) {
                Some((params, r3)) => Some((MessageTypeModel::Request { id, method, params }, r3)),
                None => None,
            },
            None => None,
        },
        None => None,
    }
}

spec fn parse_response(r: Seq<u8>) -> Option<(MessageTypeModel, Seq<u8>)> {
    match parse_text(r) {
        Some((id, r1)) => match parse_u8(r1) {
            Some((st, r2)) => match status_of_tag(st) {
                Some(status) => match parse_bytes(r2) {
                    Some((data, r3)) => Some((MessageTypeModel::Response { id, status, data }, r3)),
                    None => None,
                },
                None => None,
            },
            None => None,
        },
        None => None,
    }
}

spec fn parse_error(r: Seq<u8>) -> Option<(MessageTypeModel, Seq<u8>)> {
    match parse_text(r) {
        Some((id, r1)) => match parse_u32(r1) {
            Some((code, r2)) => match parse_text(r2) {
                Some((message, r3)) => Some((MessageTypeModel::Error { id, code, message }, r3)),
                None => None,
            },
            None => None,
        },
        None => None,
    }
}

spec fn parse_notification(r: Seq<u8>) -> Option<(MessageTypeModel, Seq<u8>)> {
    match parse_text(r) {
        Some((topic, r1)) => match parse_bytes(r1) {
            Some((data, r2)) => Some((MessageTypeModel::Notification { topic, data }, r2)),
            None => None,
        },
        None => None,
    }
}

spec fn parse_variant(tag: u8, r: Seq<u8>) -> Option<(MessageTypeModel, Seq<u8>)> {
    if tag == 0 {
        parse_handshake(r)
    } else if tag == 1 {
        parse_request(r)
    } else if tag == 2 {
        parse_response(r)
    } else if tag == 3 {
        parse_error(r)
    } else if tag == 4 {
        match parse_u64(r) {
            Some((n, r1)) => Some((MessageTypeModel::Ping(n), r1)),
            None => None,
        }
    } else if tag == 5 {
        match parse_u64(r) {
            Some((n, r1)) => Some((MessageTypeModel::Pong(n), r1)),
            None => None,
        }
    } else if tag == 6 {
        parse_notification(r)
    } else {
        None
    }
}

spec fn parse_type(b: Seq<u8>) -> Option<(MessageTypeModel, Seq<u8>)> {
    match parse_u8(b) {
        Some((tag, r)) => parse_variant(tag, r),
        None => None,
    }
}

spec fn parse_signature(b: Seq<u8>) -> Option<(Option<Seq<u8>>, Seq<u8>)> {
    match parse_u8(b) {
        Some((tag, r)) => if tag == 0 {
            Some((None, r))
        } else if tag == 1 {
            match parse_bytes(r) {
                Some((s, r1)) => Some((Some(s), r1)),
                None => None,
            }
        } else {
            None
        },
        None => None,
    }
}

spec fn parse_message(b: Seq<u8>) -> Option<MessageModel> {
    match parse_u32(b) {
        Some((version, r)) => match parse_type(r) {
            Some((message_type, r1)) => match parse_u64(r1) {
                Some((timestamp, r2)) => match parse_signature(r2) {
                    Some((signature, r3)) => if r3.len() == 0 {
                        Some(MessageModel { version, message_type, timestamp, signature })
                    } else {
                        None
                    },
                    None => None,
                },
                None => None,
            },
            None => None,
        },
        None => None,
    }
}

// ------------------------------------------------- parsing inverts encoding

proof fn lemma_u8(x: u8, rest: Seq<u8>)
    ensures
        parse_u8(seq![x] + rest) == Some((x, rest)),
{
    assert((seq![x] + rest).skip(1) =~= rest);
}

proof fn lemma_u8_canonical(b: Seq<u8>)
    requires
        parse_u8(b) is Some,
    ensures
        b =~= seq![parse_u8(b).unwrap().0] + parse_u8(b).unwrap().1,
{
}

proof fn lemma_u32(x: u32, rest: Seq<u8>)
    ensures
        parse_u32(u32_le(x) + rest) == Some((x, rest)),
{
    reveal(u32_le);
    reveal(parse_u32);
    assert((u32_le(x) + rest).take(4) =~= u32_le(x));
    assert((u32_le(x) + rest).skip(4) =~= rest);
    lemma_u32_round_trip(x);
}

proof fn lemma_u32_parse_canonical(b: Seq<u8>)
    requires
        parse_u32(b) is Some,
    ensures
        b =~= u32_le(parse_u32(b).unwrap().0) + parse_u32(b).unwrap().1,
{
    reveal(parse_u32);
    lemma_u32_canonical(b.take(4));
}

proof fn lemma_u64(x: u64, rest: Seq<u8>)
    ensures
        parse_u64(u64_le(x) + rest) == Some((x, rest)),
{
    reveal(u64_le);
    reveal(parse_u64);
    assert((u64_le(x) + rest).take(8) =~= u64_le(x));
    assert((u64_le(x) + rest).skip(8) =~= rest);
    lemma_u64_round_trip(x);
}

proof fn lemma_u64_parse_canonical(b: Seq<u8>)
    requires
        parse_u64(b) is Some,
    ensures
        b =~= u64_le(parse_u64(b).unwrap().0) + parse_u64(b).unwrap().1,
{
    reveal(parse_u64);
    lemma_u64_canonical(b.take(8));
}

proof fn lemma_bytes(x: Seq<u8>, rest: Seq<u8>)
    requires
        bytes_fit(x),
    ensures
        parse_bytes(bytes_field(x) + rest) == Some((x, rest)),
{
    reveal(bytes_field);
    reveal(parse_bytes);
    assert(bytes_field(x) + rest =~= u64_le(x.len() as u64) + (x + rest));
    lemma_u64(x.len() as u64, x + rest);
    assert((x + rest).take(x.len() as int) =~= x);
    assert((x + rest).skip(x.len() as int) =~= rest);
}

proof fn lemma_bytes_canonical(b: Seq<u8>)
    requires
        parse_bytes(b) is Some,
    ensures
        b =~= bytes_field(parse_bytes(b).unwrap().0) + parse_bytes(b).unwrap().1,
        bytes_fit(parse_bytes(b).unwrap().0),
{
    reveal(bytes_field);
    reveal(parse_bytes);
    lemma_u64_parse_canonical(b);
    let (n, r) = parse_u64(b)->0;
    assert(r =~= r.take(n as int) + r.skip(n as int));
}

proof fn lemma_text(s: Seq<char>, rest: Seq<u8>)
    requires
        text_fits(s),
    ensures
        parse_text(text_field(s) + rest) == Some((s, rest)),
{
    reveal(text_field);
    reveal(parse_text);
    lemma_bytes(encode_utf8(s), rest);
}

proof fn lemma_text_canonical(b: Seq<u8>)
    requires
        parse_text(b) is Some,
    ensures
        b =~= text_field(parse_text(b).unwrap().0) + parse_text(b).unwrap().1,
        text_fits(parse_text(b).unwrap().0),
{
    reveal(text_field);
    reveal(parse_text);
    lemma_bytes_canonical(b);
    decode_utf8_encode_utf8(parse_bytes(b).unwrap().0);
}

proof fn lemma_text_items(v: Seq<Seq<char>>, rest: Seq<u8>)
    requires
        forall|i: int| 0 <= i < v.len() ==> text_fits(#[trigger] v[i]),
    ensures
        parse_text_items(text_items(v) + rest, v.len()) == Some((v, rest)),
    decreases v.len(),
{
    if v.len() > 0 {
        let tail = v.drop_first();
        assert forall|i: int| 0 <= i < tail.len() implies text_fits(#[trigger] tail[i]) by {
            assert(tail[i] == v[i + 1]);
        }
        lemma_text_items(tail, rest);
        assert(text_items(v) + rest =~= text_field(v[0]) + (text_items(tail) + rest));
        assert(text_fits(v[0]));
        lemma_text(v[0], text_items(tail) + rest);
        assert(seq![v[0]] + tail =~= v);
    }
}

proof fn lemma_text_items_canonical(b: Seq<u8>, n: nat)
    requires
        parse_text_items(b, n) is Some,
    ensures
        b =~= text_items(parse_text_items(b, n).unwrap().0) + parse_text_items(b, n).unwrap().1,
        parse_text_items(b, n).unwrap().0.len() == n,
        forall|i: int|
            0 <= i < n ==> text_fits(#[trigger] parse_text_items(b, n).unwrap().0[i]),
    decreases n,
{
    if n > 0 {
        lemma_text_canonical(b);
        let (s, r) = parse_text(b)->0;
        lemma_text_items_canonical(r, (n - 1) as nat);
        let (v, r2) = parse_text_items(r, (n - 1) as nat)->0;
        let w = seq![s] + v;
        assert(w.drop_first() =~= v);
        assert forall|i: int| 0 <= i < n implies text_fits(#[trigger] w[i]) by {
            if i > 0 {
                assert(w[i] == v[i - 1]);
            }
        }
    }
}

proof fn lemma_texts(v: Seq<Seq<char>>, rest: Seq<u8>)
    requires
        texts_fit(v),
    ensures
        parse_texts(texts_field(v) + rest) == Some((v, rest)),
{
    assert(texts_field(v) + rest =~= u64_le(v.len() as u64) + (text_items(v) + rest));
    lemma_u64(v.len() as u64, text_items(v) + rest);
    lemma_text_items(v, rest);
}

proof fn lemma_texts_canonical(b: Seq<u8>)
    requires
        parse_texts(b) is Some,
    ensures
        b =~= texts_field(parse_texts(b).unwrap().0) + parse_texts(b).unwrap().1,
        texts_fit(parse_texts(b).unwrap().0),
{
    lemma_u64_parse_canonical(b);
    let (n, r) = parse_u64(b)->0;
    lemma_text_items_canonical(r, n as nat);
}


proof fn lemma_handshake(version: u32, timestamp: u64, capabilities: Seq<Seq<char>>, rest: Seq<u8>)
    requires
        texts_fit(capabilities),
    ensures
        parse_handshake((u32_le(version) + (u64_le(timestamp) + texts_field(capabilities))) + rest)
            == Some((MessageTypeModel::Handshake { version, timestamp, capabilities }, rest)),
{
    let (a, b, c) = (u32_le(version), u64_le(timestamp), texts_field(capabilities));
    assert((a + (b + c)) + rest =~= a + (b + (c + rest)));
    lemma_u32(version, b + (c + rest));
    lemma_u64(timestamp, c + rest);
    lemma_texts(capabilities, rest);
}

proof fn lemma_request(id: Seq<char>, method: Seq<char>, params: Seq<u8>, rest: Seq<u8>)
    requires
        text_fits(id),
        text_fits(method),
        bytes_fit(params),
    ensures
        parse_request((text_field(id) + (text_field(method) + bytes_field(params))) + rest)
            == Some((MessageTypeModel::Request { id, method, params }, rest)),
{
    let (a, b, c) = (text_field(id), text_field(method), bytes_field(params));
    assert((a + (b + c)) + rest =~= a + (b + (c + rest)));
    lemma_text(id, b + (c + rest));
    lemma_text(method, c + rest);
    lemma_bytes(params, rest);
}

proof fn lemma_response(id: Seq<char>, status: ResponseStatus, data: Seq<u8>, rest: Seq<u8>)
    requires
        text_fits(id),
        bytes_fit(data),
    ensures
        parse_response((text_field(id) + (seq![status_tag(status)] + bytes_field(data))) + rest)
            == Some((MessageTypeModel::Response { id, status, data }, rest)),
{
    let (a, b, c) = (text_field(id), seq![status_tag(status)], bytes_field(data));
    assert((a + (b + c)) + rest =~= a + (b + (c + rest)));
    lemma_text(id, b + (c + rest));
    lemma_u8(status_tag(status), c + rest);
    lemma_bytes(data, rest);
}

proof fn lemma_error(id: Seq<char>, code: u32, message: Seq<char>, rest: Seq<u8>)
    requires
        text_fits(id),
        text_fits(message),
    ensures
        parse_error((text_field(id) + (u32_le(code) + text_field(message))) + rest)
            == Some((MessageTypeModel::Error { id, code, message }, rest)),
{
    let (a, b, c) = (text_field(id), u32_le(code), text_field(message));
    assert((a + (b + c)) + rest =~= a + (b + (c + rest)));
    lemma_text(id, b + (c + rest));
    lemma_u32(code, c + rest);
    lemma_text(message, rest);
}

proof fn lemma_notification(topic: Seq<char>, data: Seq<u8>, rest: Seq<u8>)
    requires
        text_fits(topic),
        bytes_fit(data),
    ensures
        parse_notification((text_field(topic) + bytes_field(data)) + rest)
            == Some((MessageTypeModel::Notification { topic, data }, rest)),
{
    let (a, b) = (text_field(topic), bytes_field(data));
    assert((a + b) + rest =~= a + (b + rest));
    lemma_text(topic, b + rest);
    lemma_bytes(data, rest);
}

proof fn lemma_tagged(tag: u8, body: Seq<u8>, rest: Seq<u8>)
    ensures
        parse_u8((seq![tag] + body) + rest) == Some((tag, body + rest)),
{
    assert((seq![tag] + body) + rest =~= seq![tag] + (body + rest));
    lemma_u8(tag, body + rest);
}

proof fn lemma_type(t: MessageTypeModel, rest: Seq<u8>)
    requires
        type_fits(t),
    ensures
        parse_type(type_bytes(t) + rest) == Some((t, rest)),
{
    match t {
        MessageTypeModel::Handshake { version, timestamp, capabilities } => {
            let body = u32_le(version) + (u64_le(timestamp) + texts_field(capabilities));
            lemma_tagged(0u8, body, rest);
            lemma_handshake(version, timestamp, capabilities, rest);
        },
        MessageTypeModel::Request { id, method, params } => {
            let body = text_field(id) + (text_field(method) + bytes_field(params));
            lemma_tagged(1u8, body, rest);
            lemma_request(id, method, params, rest);
        },
        MessageTypeModel::Response { id, status, data } => {
            let body = text_field(id) + (seq![status_tag(status)] + bytes_field(data));
            lemma_tagged(2u8, body, rest);
            lemma_response(id, status, data, rest);
        },
        MessageTypeModel::Error { id, code, message } => {
            let body = text_field(id) + (u32_le(code) + text_field(message));
            lemma_tagged(3u8, body, rest);
            lemma_error(id, code, message, rest);
        },
        MessageTypeModel::Ping(n) => {
            lemma_tagged(4u8, u64_le(n), rest);
            lemma_u64(n, rest);
        },
        MessageTypeModel::Pong(n) => {
            lemma_tagged(5u8, u64_le(n), rest);
            lemma_u64(n, rest);
        },
        MessageTypeModel::Notification { topic, data } => {
            let body = text_field(topic) + bytes_field(data);
            lemma_tagged(6u8, body, rest);
            lemma_notification(topic, data, rest);
        },
    }
}

proof fn lemma_handshake_canonical(r: Seq<u8>)
    requires
        parse_handshake(r) is Some,
    ensures
        seq![0u8] + r =~= type_bytes(parse_handshake(r).unwrap().0) + parse_handshake(r).unwrap().1,
        type_fits(parse_handshake(r).unwrap().0),
{
    lemma_u32_parse_canonical(r);
    let r1 = parse_u32(r).unwrap().1;
    lemma_u64_parse_canonical(r1);
    let r2 = parse_u64(r1).unwrap().1;
    lemma_texts_canonical(r2);
}

proof fn lemma_request_canonical(r: Seq<u8>)
    requires
        parse_request(r) is Some,
    ensures
        seq![1u8] + r =~= type_bytes(parse_request(r).unwrap().0) + parse_request(r).unwrap().1,
        type_fits(parse_request(r).unwrap().0),
{
    lemma_text_canonical(r);
    let (id, r1) = parse_text(r).unwrap();
    lemma_text_canonical(r1);
    let (method, r2) = parse_text(r1).unwrap();
    lemma_bytes_canonical(r2);
    let (params, r3) = parse_bytes(r2).unwrap();
    let (a, b, c) = (text_field(id), text_field(method), bytes_field(params));
    assert(r =~= a + (b + (c + r3)));
    assert(seq![1u8] + r =~= (seq![1u8] + (a + (b + c))) + r3);
}

proof fn lemma_response_canonical(r: Seq<u8>)
    requires
        parse_response(r) is Some,
    ensures
        seq![2u8] + r =~= type_bytes(parse_response(r).unwrap().0) + parse_response(r).unwrap().1,
        type_fits(parse_response(r).unwrap().0),
{
    lemma_text_canonical(r);
    let r1 = parse_text(r).unwrap().1;
    lemma_u8_canonical(r1);
    let (st, r2) = parse_u8(r1).unwrap();
    lemma_bytes_canonical(r2);
    let status = status_of_tag(st).unwrap();
    assert(status_tag(status) == st);
}

proof fn lemma_error_canonical(r: Seq<u8>)
    requires
        parse_error(r) is Some,
    ensures
        seq![3u8] + r =~= type_bytes(parse_error(r).unwrap().0) + parse_error(r).unwrap().1,
        type_fits(parse_error(r).unwrap().0),
{
    lemma_text_canonical(r);
    let r1 = parse_text(r).unwrap().1;
    lemma_u32_parse_canonical(r1);
    let r2 = parse_u32(r1).unwrap().1;
    lemma_text_canonical(r2);
}

proof fn lemma_notification_canonical(r: Seq<u8>)
    requires
        parse_notification(r) is Some,
    ensures
        seq![6u8] + r =~= type_bytes(parse_notification(r).unwrap().0) + parse_notification(
            r,
        ).unwrap().1,
        type_fits(parse_notification(r).unwrap().0),
{
    lemma_text_canonical(r);
    let r1 = parse_text(r).unwrap().1;
    lemma_bytes_canonical(r1);
}

proof fn lemma_variant_canonical(tag: u8, r: Seq<u8>)
    requires
        parse_variant(tag, r) is Some,
    ensures
        seq![tag] + r =~= type_bytes(parse_variant(tag, r).unwrap().0) + parse_variant(
            tag,
            r,
        ).unwrap().1,
        type_fits(parse_variant(tag, r).unwrap().0),
{
    if tag == 0 {
        lemma_handshake_canonical(r);
    } else if tag == 1 {
        lemma_request_canonical(r);
    } else if tag == 2 {
        lemma_response_canonical(r);
    } else if tag == 3 {
        lemma_error_canonical(r);
    } else if tag == 4 || tag == 5 {
        lemma_u64_parse_canonical(r);
    } else {
        lemma_notification_canonical(r);
    }
}

proof fn lemma_type_canonical(b: Seq<u8>)
    requires
        parse_type(b) is Some,
    ensures
        b =~= type_bytes(parse_type(b).unwrap().0) + parse_type(b).unwrap().1,
        type_fits(parse_type(b).unwrap().0),
{
    lemma_u8_canonical(b);
    let (tag, r) = parse_u8(b).unwrap();
    lemma_variant_canonical(tag, r);
}

proof fn lemma_signature(s: Option<Seq<u8>>, rest: Seq<u8>)
    requires
        s matches Some(x) ==> bytes_fit(x),
    ensures
        parse_signature(signature_bytes(s) + rest) == Some((s, rest)),
{
    match s {
        None => lemma_u8(0u8, rest),
        Some(x) => {
            assert(signature_bytes(s) + rest =~= seq![1u8] + (bytes_field(x) + rest));
            lemma_u8(1u8, bytes_field(x) + rest);
            lemma_bytes(x, rest);
        },
    }
}

proof fn lemma_signature_canonical(b: Seq<u8>)
    requires
        parse_signature(b) is Some,
    ensures
        b =~= signature_bytes(parse_signature(b).unwrap().0) + parse_signature(b).unwrap().1,
        parse_signature(b).unwrap().0 matches Some(x) ==> bytes_fit(x),
{
    lemma_u8_canonical(b);
    let (tag, r) = parse_u8(b).unwrap();
    if tag == 1 {
        lemma_bytes_canonical(r);
    }
}

proof fn lemma_message(m: MessageModel)
    requires
        message_fits(m),
    ensures
        parse_message(message_bytes(m)) == Some(m),
{
    let e = Seq::<u8>::empty();
    let sig = signature_bytes(m.signature);
    assert(message_bytes(m) =~= u32_le(m.version) + (type_bytes(m.message_type) + (u64_le(
        m.timestamp,
    ) + (sig + e))));
    lemma_u32(m.version, type_bytes(m.message_type) + (u64_le(m.timestamp) + (sig + e)));
    lemma_type(m.message_type, u64_le(m.timestamp) + (sig + e));
    lemma_u64(m.timestamp, sig + e);
    lemma_signature(m.signature, e);
}

proof fn lemma_message_canonical(b: Seq<u8>)
    requires
        parse_message(b) is Some,
    ensures
        message_bytes(parse_message(b).unwrap()) == b,
        message_fits(parse_message(b).unwrap()),
{
    lemma_u32_parse_canonical(b);
    let r = parse_u32(b).unwrap().1;
    lemma_type_canonical(r);
    let r1 = parse_type(r).unwrap().1;
    lemma_u64_parse_canonical(r1);
    let r2 = parse_u64(r1).unwrap().1;
    lemma_signature_canonical(r2);
    let m = parse_message(b).unwrap();
    assert(message_bytes(m) =~= b);
}

/// Decoding inverts encoding: the encoding of a message decodes, and no other
/// message has the same encoding.
pub proof fn lemma_round_trip(m: MessageModel)
    requires
        message_fits(m),
    ensures
        is_message_encoding(message_bytes(m)),
        forall|w: MessageModel|
            message_fits(w) && #[trigger] message_bytes(w) == message_bytes(m) ==> w == m,
{
    lemma_message(m);
    assert forall|w: MessageModel|
        message_fits(w) && #[trigger] message_bytes(w) == message_bytes(m) implies w == m by {
        lemma_message(w);
    }
}


// ---------------------------------------------------------------- encoder

/// The model of a list of strings.
pub open spec fn texts_model(v: Seq<String>) -> Seq<Seq<char>> {
    v.map_values(|s: String| s@)
}

proof fn lemma_text_items_push(v: Seq<Seq<char>>, s: Seq<char>)
    ensures
        text_items(v.push(s)) == text_items(v) + text_field(s),
    decreases v.len(),
{
    if v.len() == 0 {
        assert(v.push(s).drop_first() =~= Seq::<Seq<char>>::empty());
        assert(v.push(s)[0] == s);
        assert(text_items(v.push(s).drop_first()) == Seq::<u8>::empty());
        assert(text_items(v.push(s)) =~= text_field(s) + Seq::<u8>::empty());
        assert(text_items(v) + text_field(s) =~= text_field(s));
    } else {
        lemma_text_items_push(v.drop_first(), s);
        assert(v.push(s).drop_first() =~= v.drop_first().push(s));
        assert(text_items(v.push(s)) =~= text_field(v[0]) + (text_items(v.drop_first())
            + text_field(s)));
    }
}

fn push_u32(out: &mut Vec<u8>, x: u32)
    ensures
        final(out)@ == old(out)@ + u32_le(x),
{
    out.push(x as u8);
    out.push((x >> 8u32) as u8);
    out.push((x >> 16u32) as u8);
    out.push((x >> 24u32) as u8);
    proof {
        reveal(u32_le);
        assert(out@ =~= old(out)@ + u32_le(x));
    }
}

fn push_u64(out: &mut Vec<u8>, x: u64)
    ensures
        final(out)@ == old(out)@ + u64_le(x),
{
    out.push(x as u8);
    out.push((x >> 8u64) as u8);
    out.push((x >> 16u64) as u8);
    out.push((x >> 24u64) as u8);
    out.push((x >> 32u64) as u8);
    out.push((x >> 40u64) as u8);
    out.push((x >> 48u64) as u8);
    out.push((x >> 56u64) as u8);
    proof {
        reveal(u64_le);
        assert(out@ =~= old(out)@ + u64_le(x));
    }
}

fn push_raw(out: &mut Vec<u8>, b: &[u8])
    ensures
        final(out)@ == old(out)@ + b@,
{
    let ghost start = out@;
    let mut i: usize = 0;
    while i < b.len()
        invariant
            i <= b@.len(),
            out@ == start + b@.take(i as int),
        decreases b@.len() - i,
    {
        out.push(b[i]);
        i = i + 1;
        proof {
            assert(b@.take(i as int) =~= b@.take(i - 1) .push(b@[i - 1]));
            assert(out@ =~= start + b@.take(i as int));
        }
    }
    proof {
        assert(b@.take(i as int) =~= b@);
    }
}

fn push_bytes(out: &mut Vec<u8>, b: &[u8])
    ensures
        final(out)@ == old(out)@ + bytes_field(b@),
        bytes_fit(b@),
{
    push_u64(out, b.len() as u64);
    push_raw(out, b);
    proof {
        reveal(bytes_field);
        assert(out@ =~= old(out)@ + bytes_field(b@));
    }
}

fn push_text(out: &mut Vec<u8>, s: &String)
    ensures
        final(out)@ == old(out)@ + text_field(s@),
        text_fits(s@),
{
    let raw = s.as_str().as_bytes();
    push_bytes(out, raw);
    proof {
        reveal(text_field);
    }
}

fn push_texts(out: &mut Vec<u8>, v: &Vec<String>)
    ensures
        final(out)@ == old(out)@ + texts_field(texts_model(v@)),
        texts_fit(texts_model(v@)),
{
    let ghost start = out@;
    push_u64(out, v.len() as u64);
    let ghost head = out@;
    let mut i: usize = 0;
    while i < v.len()
        invariant
            i <= v@.len(),
            head == start + u64_le(v@.len() as u64),
            out@ == head + text_items(texts_model(v@.take(i as int))),
            forall|k: int| 0 <= k < i ==> text_fits(#[trigger] texts_model(v@)[k]),
        decreases v@.len() - i,
    {
        let ghost before = out@;
        push_text(out, &v[i]);
        proof {
            assert(texts_model(v@.take(i + 1)) =~= texts_model(v@.take(i as int)).push(v@[i as int]@));
            lemma_text_items_push(texts_model(v@.take(i as int)), v@[i as int]@);
            assert(out@ =~= head + text_items(texts_model(v@.take(i + 1))));
        }
        i = i + 1;
    }
    proof {
        assert(v@.take(i as int) =~= v@);
        assert(out@ =~= start + texts_field(texts_model(v@)));
    }
}


fn status_byte(st: ResponseStatus) -> (r: u8)
    ensures
        r == status_tag(st),
{
    match st {
        ResponseStatus::Success => 0,
        ResponseStatus::Error => 1,
        ResponseStatus::Pending => 2,
    }
}

fn push_type(out: &mut Vec<u8>, t: &MessageType)
    ensures
        final(out)@ == old(out)@ + type_bytes(t@),
        type_fits(t@),
{
    let ghost start = out@;
    match t {
        MessageType::Handshake { version, timestamp, capabilities } => {
            out.push(0u8);
            push_u32(out, *version);
            push_u64(out, *timestamp);
            push_texts(out, capabilities);
        },
        MessageType::Request { id, method, params } => {
            out.push(1u8);
            push_text(out, id);
            push_text(out, method);
            push_bytes(out, params.as_slice());
        },
        MessageType::Response { id, status, data } => {
            out.push(2u8);
            push_text(out, id);
            out.push(status_byte(*status));
            push_bytes(out, data.as_slice());
        },
        MessageType::Error { id, code, message } => {
            out.push(3u8);
            push_text(out, id);
            push_u32(out, *code);
            push_text(out, message);
        },
        MessageType::Ping(n) => {
            out.push(4u8);
            push_u64(out, *n);
        },
        MessageType::Pong(n) => {
            out.push(5u8);
            push_u64(out, *n);
        },
        MessageType::Notification { topic, data } => {
            out.push(6u8);
            push_text(out, topic);
            push_bytes(out, data.as_slice());
        },
    }
    proof {
        assert(out@ =~= start + type_bytes(t@));
    }
}

impl Message {
    /// The canonical encoding of the message. Every message in memory fits the
    /// encoding's length fields.
    pub fn serialize(&self) -> (r: Vec<u8>)
        ensures
            r@ == message_bytes(self@),
            message_fits(self@),
    {
        let mut out: Vec<u8> = Vec::new();
        push_u32(&mut out, self.version);
        push_type(&mut out, &self.message_type);
        push_u64(&mut out, self.timestamp);
        match &self.signature {
            None => out.push(0u8),
            Some(sig) => {
                out.push(1u8);
                push_bytes(&mut out, sig.as_slice());
            },
        }
        proof {
            assert(out@ =~= message_bytes(self@));
        }
        out
    }
}


// ---------------------------------------------------------------- decoder

/// Relies on `String::from_utf8`: it accepts exactly the valid UTF-8 byte
/// strings and keeps the characters they encode.
#[verifier::external_body]
fn string_from_utf8(bytes: Vec<u8>) -> (r: Option<String>)
    ensures
        r is Some <==> valid_utf8(bytes@),
        r matches Some(s) ==> s@ == decode_utf8(bytes@),
{
    String::from_utf8(bytes).ok()
}

fn take_u8(b: &[u8], pos: usize) -> (r: Option<(u8, usize)>)
    requires
        pos <= b@.len(),
    ensures
        match r {
            Some((v, p)) => pos <= p <= b@.len() && parse_u8(b@.skip(pos as int)) == Some(
                (v, b@.skip(p as int)),
            ),
            None => parse_u8(b@.skip(pos as int)) is None,
        },
{
    if pos < b.len() {
        proof {
            assert(b@.skip(pos as int).skip(1) =~= b@.skip(pos + 1));
        }
        Some((b[pos], pos + 1))
    } else {
        None
    }
}

fn take_u32(b: &[u8], pos: usize) -> (r: Option<(u32, usize)>)
    requires
        pos <= b@.len(),
    ensures
        match r {
            Some((v, p)) => pos <= p <= b@.len() && parse_u32(b@.skip(pos as int)) == Some(
                (v, b@.skip(p as int)),
            ),
            None => parse_u32(b@.skip(pos as int)) is None,
        },
{
    proof {
        reveal(parse_u32);
    }
    if b.len() - pos >= 4 {
        let v = (b[pos] as u32) | ((b[pos + 1] as u32) << 8u32) | ((b[pos + 2] as u32) << 16u32)
            | ((b[pos + 3] as u32) << 24u32);
        proof {
            let w = b@.skip(pos as int).take(4);
            assert(w[0] == b@[pos as int] && w[1] == b@[pos + 1] && w[2] == b@[pos + 2] && w[3]
                == b@[pos + 3]);
            assert(b@.skip(pos as int).skip(4) =~= b@.skip(pos + 4));
        }
        Some((v, pos + 4))
    } else {
        None
    }
}

fn take_u64(b: &[u8], pos: usize) -> (r: Option<(u64, usize)>)
    requires
        pos <= b@.len(),
    ensures
        match r {
            Some((v, p)) => pos <= p <= b@.len() && parse_u64(b@.skip(pos as int)) == Some(
                (v, b@.skip(p as int)),
            ),
            None => parse_u64(b@.skip(pos as int)) is None,
        },
{
    proof {
        reveal(parse_u64);
    }
    if b.len() - pos >= 8 {
        let v = (b[pos] as u64) | ((b[pos + 1] as u64) << 8u64) | ((b[pos + 2] as u64) << 16u64)
            | ((b[pos + 3] as u64) << 24u64) | ((b[pos + 4] as u64) << 32u64) | ((b[pos + 5]
            as u64) << 40u64) | ((b[pos + 6] as u64) << 48u64) | ((b[pos + 7] as u64) << 56u64);
        proof {
            let w = b@.skip(pos as int).take(8);
            assert(w[0] == b@[pos as int] && w[1] == b@[pos + 1] && w[2] == b@[pos + 2] && w[3]
                == b@[pos + 3] && w[4] == b@[pos + 4] && w[5] == b@[pos + 5] && w[6] == b@[pos
                + 6] && w[7] == b@[pos + 7]);
            assert(b@.skip(pos as int).skip(8) =~= b@.skip(pos + 8));
        }
        Some((v, pos + 8))
    } else {
        None
    }
}

fn take_bytes(b: &[u8], pos: usize) -> (r: Option<(Vec<u8>, usize)>)
    requires
        pos <= b@.len(),
    ensures
        match r {
            Some((v, p)) => pos <= p <= b@.len() && parse_bytes(b@.skip(pos as int)) == Some(
                (v@, b@.skip(p as int)),
            ),
            None => parse_bytes(b@.skip(pos as int)) is None,
        },
{
    proof {
        reveal(parse_bytes);
    }
    match take_u64(b, pos) {
        None => None,
        Some((n, p)) => {
            if n > (b.len() - p) as u64 {
                None
            } else {
                let end = p + n as usize;
                let v = vstd::slice::slice_to_vec(vstd::slice::slice_subrange(b, p, end));
                proof {
                    let r = b@.skip(p as int);
                    assert(r.take(n as int) =~= v@);
                    assert(r.skip(n as int) =~= b@.skip(end as int));
                }
                Some((v, end))
            }
        },
    }
}

fn take_text(b: &[u8], pos: usize) -> (r: Option<(String, usize)>)
    requires
        pos <= b@.len(),
    ensures
        match r {
            Some((v, p)) => pos <= p <= b@.len() && parse_text(b@.skip(pos as int)) == Some(
                (v@, b@.skip(p as int)),
            ),
            None => parse_text(b@.skip(pos as int)) is None,
        },
{
    proof {
        reveal(parse_text);
    }
    match take_bytes(b, pos) {
        None => None,
        Some((raw, p)) => match string_from_utf8(raw) {
            None => None,
            Some(text) => Some((text, p)),
        },
    }
}

fn take_texts(b: &[u8], pos: usize) -> (r: Option<(Vec<String>, usize)>)
    requires
        pos <= b@.len(),
    ensures
        match r {
            Some((v, p)) => pos <= p <= b@.len() && parse_texts(b@.skip(pos as int)) == Some(
                (texts_model(v@), b@.skip(p as int)),
            ),
            None => parse_texts(b@.skip(pos as int)) is None,
        },
{
    let (n, p0) = match take_u64(b, pos) {
        None => return None,
        Some(x) => x,
    };
    let ghost whole = parse_text_items(b@.skip(p0 as int), n as nat);
    let mut acc: Vec<String> = Vec::new();
    let mut p = p0;
    let mut i: u64 = 0;
    while i < n
        invariant
            pos <= p0 <= p <= b@.len(),
            i <= n,
            parse_texts(b@.skip(pos as int)) == whole,
            whole == match parse_text_items(b@.skip(p as int), (n - i) as nat) {
                Some((v, r)) => Some((texts_model(acc@) + v, r)),
                None => None,
            },
        decreases n - i,
    {
        match take_text(b, p) {
            None => {
                return None;
            },
            Some((text, q)) => {
                let ghost before = acc@;
                proof {
                    let m = (n - i) as nat;
                    assert(parse_text_items(b@.skip(p as int), m) == match parse_text_items(
                        b@.skip(q as int),
                        (m - 1) as nat,
                    ) {
                        Some((v, r)) => Some((seq![text@] + v, r)),
                        None => None,
                    });
                }
                acc.push(text);
                proof {
                    assert(texts_model(acc@) =~= texts_model(before) + seq![acc@.last()@]);
                    match parse_text_items(b@.skip(q as int), (n - i - 1) as nat) {
                        Some((v, r)) => {
                            assert(texts_model(before) + (seq![acc@.last()@] + v) =~= texts_model(
                                acc@,
                            ) + v);
                        },
                        None => {},
                    }
                }
                p = q;
                i = i + 1;
            },
        }
    }
    proof {
        assert(texts_model(acc@) + Seq::<Seq<char>>::empty() =~= texts_model(acc@));
    }
    Some((acc, p))
}


fn take_handshake(b: &[u8], pos: usize) -> (r: Option<(MessageType, usize)>)
    requires
        pos <= b@.len(),
    ensures
        match r {
            Some((v, p)) => pos <= p <= b@.len() && parse_handshake(b@.skip(pos as int)) == Some(
                (v@, b@.skip(p as int)),
            ),
            None => parse_handshake(b@.skip(pos as int)) is None,
        },
{
    let (version, p1) = match take_u32(b, pos) {
        None => return None,
        Some(x) => x,
    };
    let (timestamp, p2) = match take_u64(b, p1) {
        None => return None,
        Some(x) => x,
    };
    let (capabilities, p3) = match take_texts(b, p2) {
        None => return None,
        Some(x) => x,
    };
    Some((MessageType::Handshake { version, timestamp, capabilities }, p3))
}

fn take_request(b: &[u8], pos: usize) -> (r: Option<(MessageType, usize)>)
    requires
        pos <= b@.len(),
    ensures
        match r {
            Some((v, p)) => pos <= p <= b@.len() && parse_request(b@.skip(pos as int)) == Some(
                (v@, b@.skip(p as int)),
            ),
            None => parse_request(b@.skip(pos as int)) is None,
        },
{
    let (id, p1) = match take_text(b, pos) {
        None => return None,
        Some(x) => x,
    };
    let (method, p2) = match take_text(b, p1) {
        None => return None,
        Some(x) => x,
    };
    let (params, p3) = match take_bytes(b, p2) {
        None => return None,
        Some(x) => x,
    };
    Some((MessageType::Request { id, method, params }, p3))
}

fn take_response(b: &[u8], pos: usize) -> (r: Option<(MessageType, usize)>)
    requires
        pos <= b@.len(),
    ensures
        match r {
            Some((v, p)) => pos <= p <= b@.len() && parse_response(b@.skip(pos as int)) == Some(
                (v@, b@.skip(p as int)),
            ),
            None => parse_response(b@.skip(pos as int)) is None,
        },
{
    let (id, p1) = match take_text(b, pos) {
        None => return None,
        Some(x) => x,
    };
    let (tag, p2) = match take_u8(b, p1) {
        None => return None,
        Some(x) => x,
    };
    let status = if tag == 0 {
        ResponseStatus::Success
    } else if tag == 1 {
        ResponseStatus::Error
    } else if tag == 2 {
        ResponseStatus::Pending
    } else {
        return None;
    };
    let (data, p3) = match take_bytes(b, p2) {
        None => return None,
        Some(x) => x,
    };
    Some((MessageType::Response { id, status, data }, p3))
}

fn take_error(b: &[u8], pos: usize) -> (r: Option<(MessageType, usize)>)
    requires
        pos <= b@.len(),
    ensures
        match r {
            Some((v, p)) => pos <= p <= b@.len() && parse_error(b@.skip(pos as int)) == Some(
                (v@, b@.skip(p as int)),
            ),
            None => parse_error(b@.skip(pos as int)) is None,
        },
{
    let (id, p1) = match take_text(b, pos) {
        None => return None,
        Some(x) => x,
    };
    let (code, p2) = match take_u32(b, p1) {
        None => return None,
        Some(x) => x,
    };
    let (message, p3) = match take_text(b, p2) {
        None => return None,
        Some(x) => x,
    };
    Some((MessageType::Error { id, code, message }, p3))
}

fn take_notification(b: &[u8], pos: usize) -> (r: Option<(MessageType, usize)>)
    requires
        pos <= b@.len(),
    ensures
        match r {
            Some((v, p)) => pos <= p <= b@.len() && parse_notification(b@.skip(pos as int)) == Some(
                (v@, b@.skip(p as int)),
            ),
            None => parse_notification(b@.skip(pos as int)) is None,
        },
{
    let (topic, p1) = match take_text(b, pos) {
        None => return None,
        Some(x) => x,
    };
    let (data, p2) = match take_bytes(b, p1) {
        None => return None,
        Some(x) => x,
    };
    Some((MessageType::Notification { topic, data }, p2))
}

fn take_type(b: &[u8], pos: usize) -> (r: Option<(MessageType, usize)>)
    requires
        pos <= b@.len(),
    ensures
        match r {
            Some((v, p)) => pos <= p <= b@.len() && parse_type(b@.skip(pos as int)) == Some(
                (v@, b@.skip(p as int)),
            ),
            None => parse_type(b@.skip(pos as int)) is None,
        },
{
    let (tag, p) = match take_u8(b, pos) {
        None => return None,
        Some(x) => x,
    };
    if tag == 0 {
        take_handshake(b, p)
    } else if tag == 1 {
        take_request(b, p)
    } else if tag == 2 {
        take_response(b, p)
    } else if tag == 3 {
        take_error(b, p)
    } else if tag == 4 {
        match take_u64(b, p) {
            None => None,
            Some((n, q)) => Some((MessageType::Ping(n), q)),
        }
    } else if tag == 5 {
        match take_u64(b, p) {
            None => None,
            Some((n, q)) => Some((MessageType::Pong(n), q)),
        }
    } else if tag == 6 {
        take_notification(b, p)
    } else {
        None
    }
}

fn take_signature(b: &[u8], pos: usize) -> (r: Option<(Option<Vec<u8>>, usize)>)
    requires
        pos <= b@.len(),
    ensures
        match r {
            Some((v, p)) => pos <= p <= b@.len() && parse_signature(b@.skip(pos as int)) == Some(
                (
                    match v {
                        Some(x) => Some(x@),
                        None => None,
                    },
                    b@.skip(p as int),
                ),
            ),
            None => parse_signature(b@.skip(pos as int)) is None,
        },
{
    let (tag, p) = match take_u8(b, pos) {
        None => return None,
        Some(x) => x,
    };
    if tag == 0 {
        Some((None, p))
    } else if tag == 1 {
        match take_bytes(b, p) {
            None => None,
            Some((sig, q)) => Some((Some(sig), q)),
        }
    } else {
        None
    }
}

fn decode(b: &[u8]) -> (r: Option<Message>)
    ensures
        match r {
            Some(m) => parse_message(b@) == Some(m@),
            None => parse_message(b@) is None,
        },
{
    proof {
        assert(b@.skip(0) =~= b@);
    }
    let (version, p1) = match take_u32(b, 0) {
        None => return None,
        Some(x) => x,
    };
    let (message_type, p2) = match take_type(b, p1) {
        None => return None,
        Some(x) => x,
    };
    let (timestamp, p3) = match take_u64(b, p2) {
        None => return None,
        Some(x) => x,
    };
    let (signature, p4) = match take_signature(b, p3) {
        None => return None,
        Some(x) => x,
    };
    if p4 == b.len() {
        Some(Message { version, message_type, timestamp, signature })
    } else {
        None
    }
}

impl Message {
    /// Reads a message from its canonical encoding. Succeeds exactly on the
    /// encodings of messages, and then returns the message encoded; every other
    /// byte string is a malformed frame.
    pub fn deserialize(bytes: &[u8]) -> (r: Result<Message, NetworkError>)
        ensures
            match r {
                Ok(m) => message_bytes(m@) == bytes@ && message_fits(m@),
                Err(e) => e == NetworkError::ProtocolError(ProtocolFault::MalformedFrame)
                    && !is_message_encoding(bytes@),
            },
    {
        match decode(bytes) {
            Some(m) => {
                proof {
                    lemma_message_canonical(bytes@);
                }
                Ok(m)
            },
            None => {
                proof {
                    if is_message_encoding(bytes@) {
                        let w = choose|w: MessageModel| message_fits(w) && message_bytes(w) == bytes@;
                        lemma_message(w);
                    }
                }
                Err(NetworkError::ProtocolError(ProtocolFault::MalformedFrame))
            },
        }
    }
}


// ---------------------------------------------------------------- hashing

/// The SHA-256 digest of a byte string.
pub uninterp spec fn sha256_of(data: Seq<u8>) -> Seq<u8>;

/// Relies on `sha2::Sha256::digest`: the SHA-256 digest of the bytes, which
/// depends on the bytes alone.
#[verifier::external_body]
fn sha256(data: &[u8]) -> (r: [u8; 32])
    ensures
        r@ == sha256_of(data@),
{
    sha2::Sha256::digest(data).into()
}

impl Message {
    /// Content hash: the SHA-256 digest of the canonical encoding.
    pub fn hash(&self) -> (r: [u8; 32])
        ensures
            r@ == sha256_of(message_bytes(self@)),
    {
        let bytes = self.serialize();
        sha256(bytes.as_slice())
    }
}

/// The hash of a message is determined by its content: equal messages hash the
/// same, and messages that differ in any field hand different bytes to the
/// digest.
pub proof fn lemma_hash_input_identifies_message(a: MessageModel, b: MessageModel)
    requires
        message_fits(a),
        message_fits(b),
    ensures
        a == b ==> sha256_of(message_bytes(a)) == sha256_of(message_bytes(b)),
        a != b ==> message_bytes(a) != message_bytes(b),
{
    lemma_round_trip(a);
}

} // verus!
