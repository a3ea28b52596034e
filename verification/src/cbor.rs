//! CBOR items, read and written by `minicbor`.
//!
//! The spec functions of this module say, over plain byte sequences, what an
//! item looks like on the wire. The functions at the end of the module call
//! `minicbor`; their contracts are stated, not proved.

use vstd::prelude::*;
use vstd::utf8::{decode_utf8, encode_utf8, valid_utf8};

verus! {

/// Major type of an unsigned integer.
pub const UNSIGNED: u8 = 0x00;
/// Major type of a byte string.
pub const BYTES: u8 = 0x40;
/// Major type of a text string.
pub const TEXT: u8 = 0x60;
/// Major type of a map.
pub const MAP: u8 = 0xa0;

/// The number that `bytes` spell in big-endian order.
pub open spec fn be_value(bytes: Seq<u8>) -> nat
    decreases bytes.len(),
{
    if bytes.len() == 0 {
        0
    } else {
        be_value(bytes.drop_last()) * 256 + bytes.last() as nat
    }
}

/// The `width` low-order bytes of `value`, in big-endian order.
pub open spec fn be_bytes(value: nat, width: nat) -> Seq<u8>
    decreases width,
{
    if width == 0 {
        Seq::empty()
    } else {
        be_bytes(value / 256, (width - 1) as nat).push((value % 256) as u8)
    }
}

/// The head of an item: the major type together with the shortest form of
/// its argument.
pub open spec fn head(major: u8, arg: u64) -> Seq<u8> {
    if arg < 24 {
        seq![(major + arg) as u8]
    } else if arg < 0x100 {
        seq![(major + 24) as u8, arg as u8]
    } else if arg < 0x1_0000 {
        seq![(major + 25) as u8] + be_bytes(arg as nat, 2)
    } else if arg < 0x1_0000_0000 {
        seq![(major + 26) as u8] + be_bytes(arg as nat, 4)
    } else {
        seq![(major + 27) as u8] + be_bytes(arg as nat, 8)
    }
}

/// An unsigned integer on the wire.
pub open spec fn uint_item(value: u64) -> Seq<u8> {
    head(UNSIGNED, value)
}

/// A boolean on the wire.
pub open spec fn bool_item(value: bool) -> Seq<u8> {
    seq![if value { 0xf5u8 } else { 0xf4u8 }]
}

/// A byte string on the wire.
pub open spec fn bytes_item(value: Seq<u8>) -> Seq<u8> {
    head(BYTES, value.len() as u64) + value
}

/// A text string on the wire.
pub open spec fn text_item(value: Seq<char>) -> Seq<u8> {
    head(TEXT, encode_utf8(value).len() as u64) + encode_utf8(value)
}

/// The head of a map of `entries` entries.
pub open spec fn map_head(entries: u64) -> Seq<u8> {
    head(MAP, entries)
}

/// The major type of an initial byte.
pub open spec fn major_of(b: u8) -> int {
    (b as int / 32) * 32
}

/// The additional information of an initial byte.
pub open spec fn info_of(b: u8) -> u8 {
    (b % 32) as u8
}

/// How many bytes follow an initial byte whose additional information is
/// `info`, for `24 <= info <= 27`.
pub open spec fn arg_width(info: u8) -> int {
    if info == 24 {
        1
    } else if info == 25 {
        2
    } else if info == 26 {
        4
    } else {
        8
    }
}

/// The argument of a head whose additional information is `info` and whose
/// initial byte ends just before `pos`, with the position after the head.
pub open spec fn arg_at(bytes: Seq<u8>, info: u8, pos: int) -> Option<(u64, int)> {
    if info < 24 {
        Some((info as u64, pos))
    } else if info <= 27 && 0 <= pos && pos + arg_width(info) <= bytes.len() {
        Some(
            (
                be_value(bytes.subrange(pos, pos + arg_width(info))) as u64,
                pos + arg_width(info),
            ),
        )
    } else {
        None
    }
}

/// The unsigned integer that starts at `pos`, in any of its widths, and the
/// position after it.
pub open spec fn uint_at(bytes: Seq<u8>, pos: int) -> Option<(u64, int)> {
    if 0 <= pos < bytes.len() && bytes[pos] <= 0x1b {
        arg_at(bytes, bytes[pos], pos + 1)
    } else {
        None
    }
}

/// The boolean at `pos`, and the position after it.
pub open spec fn bool_at(bytes: Seq<u8>, pos: int) -> Option<(bool, int)> {
    if 0 <= pos < bytes.len() && (bytes[pos] == 0xf4 || bytes[pos] == 0xf5) {
        Some((bytes[pos] == 0xf5, pos + 1))
    } else {
        None
    }
}

/// The position after the null at `pos`.
pub open spec fn null_at(bytes: Seq<u8>, pos: int) -> Option<int> {
    if 0 <= pos < bytes.len() && bytes[pos] == 0xf6 {
        Some(pos + 1)
    } else {
        None
    }
}

/// The content of the string of definite length and major type `major` that
/// starts at `pos`, and the position after it.
pub open spec fn sized_at(bytes: Seq<u8>, major: u8, pos: int) -> Option<(Seq<u8>, int)> {
    if 0 <= pos < bytes.len() && major_of(bytes[pos]) == major && info_of(bytes[pos]) != 31 {
        match arg_at(bytes, info_of(bytes[pos]), pos + 1) {
            Some((n, p)) => if p + n <= bytes.len() {
                Some((bytes.subrange(p, p + n), p + n))
            } else {
                None
            },
            None => None,
        }
    } else {
        None
    }
}

/// The byte string that starts at `pos`, and the position after it.
pub open spec fn bytes_at(bytes: Seq<u8>, pos: int) -> Option<(Seq<u8>, int)> {
    sized_at(bytes, BYTES, pos)
}

/// The text string that starts at `pos`, and the position after it. Text
/// that is not UTF-8 is no text.
pub open spec fn text_at(bytes: Seq<u8>, pos: int) -> Option<(Seq<char>, int)> {
    match sized_at(bytes, TEXT, pos) {
        Some((content, p)) => if valid_utf8(content) {
            Some((decode_utf8(content), p))
        } else {
            None
        },
        None => None,
    }
}

/// The map head at `pos`: the number of entries (`None` for a map of
/// indefinite length) and the position after the head.
pub open spec fn map_at(bytes: Seq<u8>, pos: int) -> Option<(Option<u64>, int)> {
    if 0 <= pos < bytes.len() && major_of(bytes[pos]) == MAP {
        if info_of(bytes[pos]) == 31 {
            Some((None, pos + 1))
        } else {
            match arg_at(bytes, info_of(bytes[pos]), pos + 1) {
                Some((n, p)) => Some((Some(n), p)),
                None => None,
            }
        }
    } else {
        None
    }
}

/// The position after the item that starts at `pos`, whatever the item is:
/// what `minicbor::Decoder::skip` leaves as the decoder's position, or `None`
/// where it fails.
pub uninterp spec fn skip_at(bytes: Seq<u8>, pos: int) -> Option<int>;

/// Does a decoding result `got` agree with what the wire holds, `want`?
pub open spec fn agrees<T>(got: Option<(T, usize)>, want: Option<(T, int)>) -> bool {
    match got {
        Some((v, p)) => want == Some((v, p as int)),
        None => want.is_none(),
    }
}

/// Calls `minicbor::Encoder::u64`, which appends the shortest form of
/// `value` to the buffer.
#[verifier::external_body]
pub(crate) fn put_uint(buf: &mut Vec<u8>, value: u64)
    ensures
        final(buf)@ == old(buf)@ + uint_item(value),
{
    let _ = minicbor::Encoder::new(buf).u64(value);
}

/// Calls `minicbor::Encoder::bool`, which appends one byte.
#[verifier::external_body]
pub(crate) fn put_bool(buf: &mut Vec<u8>, value: bool)
    ensures
        final(buf)@ == old(buf)@ + bool_item(value),
{
    let _ = minicbor::Encoder::new(buf).bool(value);
}

/// Calls `minicbor::Encoder::bytes`, which appends the length of `value` as
/// the head of a byte string, then `value`.
#[verifier::external_body]
pub(crate) fn put_bytes(buf: &mut Vec<u8>, value: &[u8])
    ensures
        final(buf)@ == old(buf)@ + bytes_item(value@),
{
    let _ = minicbor::Encoder::new(buf).bytes(value);
}

/// Calls `minicbor::Encoder::str`, which appends the length of the UTF-8
/// form of `value` as the head of a text string, then that form.
#[verifier::external_body]
pub(crate) fn put_text(buf: &mut Vec<u8>, value: &str)
    ensures
        final(buf)@ == old(buf)@ + text_item(value@),
{
    let _ = minicbor::Encoder::new(buf).str(value);
}

/// Calls `minicbor::Encoder::map`, which appends the head of a map of
/// `entries` entries.
#[verifier::external_body]
pub(crate) fn put_map(buf: &mut Vec<u8>, entries: u64)
    ensures
        final(buf)@ == old(buf)@ + map_head(entries),
{
    let _ = minicbor::Encoder::new(buf).map(entries);
}

/// Calls `minicbor::Decoder::u64` at `pos`. It accepts an unsigned integer
/// of any width and fails on everything else, the end of the input included.
#[verifier::external_body]
pub(crate) fn get_uint(data: &[u8], pos: usize) -> (r: Option<(u64, usize)>)
    ensures
        agrees(r, uint_at(data@, pos as int)),
{
    let mut d = minicbor::Decoder::new(data);
    d.set_position(pos);
    match d.u64() {
        Ok(v) => Some((v, d.position())),
        Err(_) => None,
    }
}

/// Calls `minicbor::Decoder::bool` at `pos`. It accepts the two bytes that
/// stand for `false` and `true`.
#[verifier::external_body]
pub(crate) fn get_bool(data: &[u8], pos: usize) -> (r: Option<(bool, usize)>)
    ensures
        agrees(r, bool_at(data@, pos as int)),
{
    let mut d = minicbor::Decoder::new(data);
    d.set_position(pos);
    match d.bool() {
        Ok(v) => Some((v, d.position())),
        Err(_) => None,
    }
}

/// Calls `minicbor::Decoder::null` at `pos`. It accepts the one byte that
/// stands for null.
#[verifier::external_body]
pub(crate) fn get_null(data: &[u8], pos: usize) -> (r: Option<usize>)
    ensures
        match r {
            Some(p) => null_at(data@, pos as int) == Some(p as int),
            None => null_at(data@, pos as int).is_none(),
        },
{
    let mut d = minicbor::Decoder::new(data);
    d.set_position(pos);
    match d.null() {
        Ok(()) => Some(d.position()),
        Err(_) => None,
    }
}

/// Calls `minicbor::Decoder::bytes` at `pos`. It accepts a byte string of
/// definite length that lies within the input, and hands out its content.
#[verifier::external_body]
pub(crate) fn get_bytes(data: &[u8], pos: usize) -> (r: Option<(Vec<u8>, usize)>)
    ensures
        match r {
            Some((v, p)) => bytes_at(data@, pos as int) == Some((v@, p as int)),
            None => bytes_at(data@, pos as int).is_none(),
        },
{
    let mut d = minicbor::Decoder::new(data);
    d.set_position(pos);
    match d.bytes() {
        Ok(v) => Some((v.to_vec(), d.position())),
        Err(_) => None,
    }
}

/// Calls `minicbor::Decoder::str` at `pos`. It accepts a text string of
/// definite length that lies within the input and is UTF-8.
#[verifier::external_body]
pub(crate) fn get_text(data: &[u8], pos: usize) -> (r: Option<(String, usize)>)
    ensures
        match r {
            Some((v, p)) => text_at(data@, pos as int) == Some((v@, p as int)),
            None => text_at(data@, pos as int).is_none(),
        },
{
    let mut d = minicbor::Decoder::new(data);
    d.set_position(pos);
    match d.str() {
        Ok(v) => Some((v.to_string(), d.position())),
        Err(_) => None,
    }
}

/// Calls `minicbor::Decoder::map` at `pos`. It accepts the head of a map and
/// hands out the number of entries, or `None` for a map of indefinite length.
#[verifier::external_body]
pub(crate) fn get_map(data: &[u8], pos: usize) -> (r: Option<(Option<u64>, usize)>)
    ensures
        agrees(r, map_at(data@, pos as int)),
{
    let mut d = minicbor::Decoder::new(data);
    d.set_position(pos);
    match d.map() {
        Ok(v) => Some((v, d.position())),
        Err(_) => None,
    }
}

/// Calls `minicbor::Decoder::skip` at `pos` and hands out the position it
/// reached. Nothing is claimed of that position but that it depends on the
/// bytes and on `pos` alone.
#[verifier::external_body]
pub(crate) fn skip_item(data: &[u8], pos: usize) -> (r: Option<usize>)
    ensures
        match r {
            Some(p) => skip_at(data@, pos as int) == Some(p as int),
            None => skip_at(data@, pos as int).is_none(),
        },
{
    let mut d = minicbor::Decoder::new(data);
    d.set_position(pos);
    match d.skip() {
        Ok(()) => Some(d.position()),
        Err(_) => None,
    }
}

} // verus!
