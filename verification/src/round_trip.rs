//! What is written is read back.
//!
//! The lemmas of this module relate the two halves of the codec: an item
//! that was written at some place of a buffer is the item that is read
//! there, and a structure that was written is the structure that is read.

use crate::cbor::{
    arg_at, be_bytes, be_value, bool_at, bool_item, bytes_at, bytes_item, head, info_of, major_of,
    map_at, map_head, sized_at, text_at, text_item, uint_at, uint_item, BYTES, MAP, TEXT,
    UNSIGNED,
};
use crate::envelope::{
    error_at, error_bytes, request_at, request_bytes, response_at, response_bytes,
};
use crate::model::{
    method_index, status_code, ErrorBodyView, RequestView, Response, Status,
};
use crate::history::{comparison_index, relation_to_known};
use crate::payload::{
    compare_request_at, compare_request_bytes, create_response_at, create_response_bytes,
    sign_request_at, sign_request_bytes, sign_response_at, sign_response_bytes,
    validate_request_at, validate_request_bytes, validate_response_at, validate_response_bytes,
    verify_request_at, verify_request_bytes, verify_response_at, verify_response_bytes,
};
use crate::route::{refusal_text, route_of, Operation, Refusal, Route};
use crate::service::{
    action_at, answer_of, failure_bytes, failure_reply, handling_of, outcome_body, refusal_reply,
    step_of, unreadable_reply, ActionView, OutcomeView, StepView,
};
use crate::wire::{entries_at, entry_at, lookup, record_at, value_at, DecodeError, ValueView};
use vstd::prelude::*;
use vstd::utf8::{
    encode_utf8, encode_utf8_decode_utf8, encode_utf8_valid_utf8, is_ascii_chars,
    is_ascii_chars_encode_utf8,
};

verus! {

/// Does `item` stand in `bytes` at `pos`?
pub open spec fn occurs(bytes: Seq<u8>, pos: int, item: Seq<u8>) -> bool {
    0 <= pos && pos + item.len() <= bytes.len() && bytes.subrange(pos, pos + item.len()) == item
}

/// 256 to the power of `width`.
pub open spec fn pow256(width: nat) -> nat
    decreases width,
{
    if width == 0 {
        1
    } else {
        256 * pow256((width - 1) as nat)
    }
}

/// The big-endian bytes of a number spell that number.
pub proof fn lemma_be_round_trip(value: nat, width: nat)
    requires
        value < pow256(width),
    ensures
        be_bytes(value, width).len() == width,
        be_value(be_bytes(value, width)) == value,
    decreases width,
{
    if width > 0 {
        lemma_be_round_trip(value / 256, (width - 1) as nat);
        assert(be_bytes(value, width).drop_last() =~= be_bytes(value / 256, (width - 1) as nat));
    }
}

/// The head that stands at `pos` is read there: its first byte gives the
/// major type back, and its argument is the one that was written.
pub proof fn lemma_head_is_read(bytes: Seq<u8>, pos: int, major: u8, arg: u64)
    requires
        occurs(bytes, pos, head(major, arg)),
        major % 32 == 0,
    ensures
        head(major, arg).len() >= 1,
        pos < bytes.len(),
        major_of(bytes[pos]) == major,
        info_of(bytes[pos]) <= 27,
        bytes[pos] == major + info_of(bytes[pos]),
        arg_at(bytes, info_of(bytes[pos]), pos + 1) == Some(
            (arg, pos + head(major, arg).len()),
        ),
{
    reveal_with_fuel(pow256, 9);
    let h = head(major, arg);
    assert(bytes[pos] == bytes.subrange(pos, pos + h.len())[0]);
    if arg < 24 {
    } else if arg < 0x100 {
        assert(bytes[pos + 1] == bytes.subrange(pos, pos + h.len())[1]);
        let one = bytes.subrange(pos + 1, pos + 2);
        assert(one.drop_last() =~= Seq::<u8>::empty());
        assert(be_value(one.drop_last()) == 0);
        assert(be_value(one) == arg);
    } else if arg < 0x1_0000 {
        lemma_be_round_trip(arg as nat, 2);
        assert(h.len() == 3);
        assert(h.subrange(1, 3) =~= be_bytes(arg as nat, 2));
        assert(bytes.subrange(pos + 1, pos + 3) =~= bytes.subrange(pos, pos + 3).subrange(1, 3));
    } else if arg < 0x1_0000_0000 {
        lemma_be_round_trip(arg as nat, 4);
        assert(h.len() == 5);
        assert(h.subrange(1, 5) =~= be_bytes(arg as nat, 4));
        assert(bytes.subrange(pos + 1, pos + 5) =~= bytes.subrange(pos, pos + 5).subrange(1, 5));
    } else {
        lemma_be_round_trip(arg as nat, 8);
        assert(h.len() == 9);
        assert(h.subrange(1, 9) =~= be_bytes(arg as nat, 8));
        assert(bytes.subrange(pos + 1, pos + 9) =~= bytes.subrange(pos, pos + 9).subrange(1, 9));
    }
}

/// A number that stands at `pos` is read there.
pub proof fn lemma_uint_is_read(bytes: Seq<u8>, pos: int, value: u64)
    requires
        occurs(bytes, pos, uint_item(value)),
    ensures
        uint_at(bytes, pos) == Some((value, pos + uint_item(value).len())),
        value_at(bytes, pos) == Some((ValueView::Uint(value), pos + uint_item(value).len())),
{
    lemma_head_is_read(bytes, pos, UNSIGNED, value);
}

/// A boolean that stands at `pos` is read there.
pub proof fn lemma_bool_is_read(bytes: Seq<u8>, pos: int, value: bool)
    requires
        occurs(bytes, pos, bool_item(value)),
    ensures
        bool_at(bytes, pos) == Some((value, pos + 1)),
        value_at(bytes, pos) == Some((ValueView::Bool(value), pos + 1)),
        bool_item(value).len() == 1,
{
    assert(bytes[pos] == bytes.subrange(pos, pos + 1)[0]);
}

/// The content of a string that stands at `pos` is read there.
pub proof fn lemma_sized_is_read(bytes: Seq<u8>, pos: int, major: u8, content: Seq<u8>)
    requires
        occurs(bytes, pos, head(major, content.len() as u64) + content),
        content.len() <= u64::MAX,
        major % 32 == 0,
    ensures
        sized_at(bytes, major, pos) == Some(
            (content, pos + head(major, content.len() as u64).len() + content.len()),
        ),
        pos < bytes.len(),
        bytes[pos] == major + info_of(bytes[pos]),
        info_of(bytes[pos]) <= 27,
{
    let h = head(major, content.len() as u64);
    let whole = h + content;
    assert(bytes.subrange(pos, pos + h.len()) =~= whole.subrange(0, h.len() as int));
    assert(whole.subrange(0, h.len() as int) =~= h);
    lemma_head_is_read(bytes, pos, major, content.len() as u64);
    assert(bytes.subrange(pos + h.len(), pos + h.len() + content.len()) =~= whole.subrange(
        h.len() as int,
        whole.len() as int,
    ));
    assert(whole.subrange(h.len() as int, whole.len() as int) =~= content);
}

/// A byte string that stands at `pos` is read there.
pub proof fn lemma_bytes_is_read(bytes: Seq<u8>, pos: int, value: Seq<u8>)
    requires
        occurs(bytes, pos, bytes_item(value)),
        value.len() <= u64::MAX,
    ensures
        bytes_at(bytes, pos) == Some((value, pos + bytes_item(value).len())),
        value_at(bytes, pos) == Some((ValueView::Bytes(value), pos + bytes_item(value).len())),
{
    lemma_sized_is_read(bytes, pos, BYTES, value);
}

/// A text that stands at `pos` is read there.
pub proof fn lemma_text_is_read(bytes: Seq<u8>, pos: int, value: Seq<char>)
    requires
        occurs(bytes, pos, text_item(value)),
        encode_utf8(value).len() <= u64::MAX,
    ensures
        text_at(bytes, pos) == Some((value, pos + text_item(value).len())),
        value_at(bytes, pos) == Some((ValueView::Text(value), pos + text_item(value).len())),
{
    lemma_sized_is_read(bytes, pos, TEXT, encode_utf8(value));
    encode_utf8_valid_utf8(value);
    encode_utf8_decode_utf8(value);
}

/// The head of a map that stands at `pos` is read there.
pub proof fn lemma_map_is_read(bytes: Seq<u8>, pos: int, entries: u64)
    requires
        occurs(bytes, pos, map_head(entries)),
    ensures
        map_at(bytes, pos) == Some((Some(entries), pos + map_head(entries).len())),
{
    lemma_head_is_read(bytes, pos, MAP, entries);
}

/// Is `item` read as `value` wherever it stands?
pub open spec fn reads_as(item: Seq<u8>, value: ValueView) -> bool {
    forall|bytes: Seq<u8>, pos: int| #[trigger]
        occurs(bytes, pos, item) ==> value_at(bytes, pos) == Some((value, pos + item.len()))
}

/// A field of a record: its number, its value on the wire, and its value.
pub ghost struct Field {
    pub key: u64,
    pub item: Seq<u8>,
    pub value: ValueView,
}

/// A field that holds a number.
pub open spec fn uint_field_of(key: u64, value: u64) -> Field {
    Field { key, item: uint_item(value), value: ValueView::Uint(value) }
}

/// A field that holds a boolean.
pub open spec fn bool_field_of(key: u64, value: bool) -> Field {
    Field { key, item: bool_item(value), value: ValueView::Bool(value) }
}

/// A field that holds text.
pub open spec fn text_field_of(key: u64, value: Seq<char>) -> Field {
    Field { key, item: text_item(value), value: ValueView::Text(value) }
}

/// A field that holds a byte string.
pub open spec fn bytes_field_of(key: u64, value: Seq<u8>) -> Field {
    Field { key, item: bytes_item(value), value: ValueView::Bytes(value) }
}

/// Is every field read as its value wherever it stands?
pub open spec fn readable(fields: Seq<Field>) -> bool {
    forall|i: int| 0 <= i < fields.len() ==> reads_as(#[trigger] fields[i].item, fields[i].value)
}

/// The fields on the wire, one after the other.
pub open spec fn fields_bytes(fields: Seq<Field>) -> Seq<u8>
    decreases fields.len(),
{
    if fields.len() == 0 {
        Seq::empty()
    } else {
        fields_bytes(fields.drop_last()) + uint_item(fields.last().key) + fields.last().item
    }
}

/// The entries that the fields are read as.
pub open spec fn fields_entries(fields: Seq<Field>) -> Seq<(u64, ValueView)> {
    Seq::new(fields.len(), |i: int| (fields[i].key, fields[i].value))
}

/// A record of these fields on the wire.
pub open spec fn record_bytes(fields: Seq<Field>) -> Seq<u8> {
    map_head(fields.len() as u64) + fields_bytes(fields)
}

/// Where two items stand one after the other, each of them stands.
pub proof fn lemma_occurs_parts(bytes: Seq<u8>, pos: int, a: Seq<u8>, b: Seq<u8>)
    requires
        occurs(bytes, pos, a + b),
    ensures
        occurs(bytes, pos, a),
        occurs(bytes, pos + a.len(), b),
{
    let whole = bytes.subrange(pos, pos + (a + b).len());
    assert(bytes.subrange(pos, pos + a.len()) =~= whole.subrange(0, a.len() as int));
    assert(whole.subrange(0, a.len() as int) =~= a);
    assert(bytes.subrange(pos + a.len(), pos + a.len() + b.len()) =~= whole.subrange(
        a.len() as int,
        whole.len() as int,
    ));
    assert(whole.subrange(a.len() as int, whole.len() as int) =~= b);
}

/// Numbers, booleans, texts and byte strings are read as what they are.
pub proof fn lemma_fields_are_readable(key: u64, n: u64, b: bool, t: Seq<char>, s: Seq<u8>)
    ensures
        reads_as(uint_field_of(key, n).item, uint_field_of(key, n).value),
        reads_as(bool_field_of(key, b).item, bool_field_of(key, b).value),
        encode_utf8(t).len() <= u64::MAX ==> reads_as(
            text_field_of(key, t).item,
            text_field_of(key, t).value,
        ),
        s.len() <= u64::MAX ==> reads_as(bytes_field_of(key, s).item, bytes_field_of(key, s).value),
{
    assert forall|bytes: Seq<u8>, pos: int| #[trigger]
        occurs(bytes, pos, uint_item(n)) implies value_at(bytes, pos) == Some(
        (ValueView::Uint(n), pos + uint_item(n).len()),
    ) by {
        lemma_uint_is_read(bytes, pos, n);
    }
    assert forall|bytes: Seq<u8>, pos: int| #[trigger]
        occurs(bytes, pos, bool_item(b)) implies value_at(bytes, pos) == Some(
        (ValueView::Bool(b), pos + bool_item(b).len()),
    ) by {
        lemma_bool_is_read(bytes, pos, b);
    }
    if encode_utf8(t).len() <= u64::MAX {
        assert forall|bytes: Seq<u8>, pos: int| #[trigger]
            occurs(bytes, pos, text_item(t)) implies value_at(bytes, pos) == Some(
            (ValueView::Text(t), pos + text_item(t).len()),
        ) by {
            lemma_text_is_read(bytes, pos, t);
        }
    }
    if s.len() <= u64::MAX {
        assert forall|bytes: Seq<u8>, pos: int| #[trigger]
            occurs(bytes, pos, bytes_item(s)) implies value_at(bytes, pos) == Some(
            (ValueView::Bytes(s), pos + bytes_item(s).len()),
        ) by {
            lemma_bytes_is_read(bytes, pos, s);
        }
    }
}

/// Fields that stand at `pos` are read there, in their order.
pub proof fn lemma_fields_are_read(bytes: Seq<u8>, pos: int, fields: Seq<Field>)
    requires
        occurs(bytes, pos, fields_bytes(fields)),
        readable(fields),
    ensures
        entries_at(bytes, pos, fields.len()) == Some(
            (fields_entries(fields), pos + fields_bytes(fields).len()),
        ),
    decreases fields.len(),
{
    if fields.len() == 0 {
        assert(fields_entries(fields) =~= Seq::empty());
    } else {
        let before = fields.drop_last();
        let last = fields.last();
        let key = uint_item(last.key);
        assert(fields_bytes(fields) == (fields_bytes(before) + key) + last.item);
        assert(fields_bytes(fields) =~= fields_bytes(before) + (key + last.item));
        lemma_occurs_parts(bytes, pos, fields_bytes(before), key + last.item);
        assert forall|i: int| 0 <= i < before.len() implies reads_as(
            #[trigger] before[i].item,
            before[i].value,
        ) by {
            assert(before[i] == fields[i]);
        }
        lemma_fields_are_read(bytes, pos, before);
        let p = pos + fields_bytes(before).len();
        lemma_occurs_parts(bytes, p, key, last.item);
        lemma_uint_is_read(bytes, p, last.key);
        assert(reads_as(fields[fields.len() - 1].item, fields[fields.len() - 1].value));
        assert(occurs(bytes, p + key.len(), last.item));
        assert(entry_at(bytes, p) == Some(
            ((last.key, last.value), p + key.len() + last.item.len()),
        ));
        assert(fields_entries(fields) =~= fields_entries(before).push((last.key, last.value)));
    }
}

/// A record that stands at `pos` is read there.
pub proof fn lemma_record_is_read(bytes: Seq<u8>, pos: int, fields: Seq<Field>)
    requires
        occurs(bytes, pos, record_bytes(fields)),
        readable(fields),
        fields.len() <= u64::MAX,
    ensures
        record_at(bytes, pos) == Some((fields_entries(fields), pos + record_bytes(fields).len())),
{
    let n = fields.len() as u64;
    lemma_occurs_parts(bytes, pos, map_head(n), fields_bytes(fields));
    lemma_map_is_read(bytes, pos, n);
    lemma_fields_are_read(bytes, pos + map_head(n).len(), fields);
}

/// A sequence stands at the start of whatever it is the start of.
pub proof fn lemma_occurs_at_start(item: Seq<u8>, rest: Seq<u8>)
    ensures
        occurs(item + rest, 0, item),
{
    assert((item + rest).subrange(0, item.len() as int) =~= item);
}

/// What one more field adds: to the bytes, to the entries, and to what is
/// looked up in them.
pub proof fn lemma_one_more_field(fields: Seq<Field>, field: Field)
    requires
        readable(fields),
        reads_as(field.item, field.value),
    ensures
        readable(fields.push(field)),
        fields.push(field).len() == fields.len() + 1,
        fields_bytes(fields.push(field)) == fields_bytes(fields) + uint_item(field.key)
            + field.item,
        forall|key: u64| #[trigger]
            lookup(fields_entries(fields.push(field)), key) == if field.key == key {
                Some(field.value)
            } else {
                lookup(fields_entries(fields), key)
            },
{
    let more = fields.push(field);
    assert(more.drop_last() =~= fields);
    assert(fields_entries(more) =~= fields_entries(fields).push((field.key, field.value)));
    assert(fields_entries(more).drop_last() =~= fields_entries(fields));
    assert forall|i: int| 0 <= i < more.len() implies reads_as(
        #[trigger] more[i].item,
        more[i].value,
    ) by {
        if i < fields.len() {
            assert(more[i] == fields[i]);
        }
    }
}

/// No field is found among no fields.
pub proof fn lemma_no_fields()
    ensures
        readable(Seq::<Field>::empty()),
        fields_bytes(Seq::<Field>::empty()) == Seq::<u8>::empty(),
        forall|key: u64| (#[trigger] lookup(fields_entries(Seq::<Field>::empty()), key)).is_none(),
{
}

/// A sequence stands where it was put.
pub proof fn lemma_occurs_between(before: Seq<u8>, item: Seq<u8>, after: Seq<u8>)
    ensures
        occurs(before + item + after, before.len() as int, item),
{
    assert((before + item + after).subrange(
        before.len() as int,
        before.len() as int + item.len(),
    ) =~= item);
}

/// The fields of a response header.
pub open spec fn response_fields(r: Response) -> Seq<Field> {
    let start = Seq::<Field>::empty().push(uint_field_of(1, r.id as u64)).push(
        uint_field_of(2, r.re as u64),
    );
    match r.status {
        Some(s) => start.push(uint_field_of(3, status_code(s))).push(bool_field_of(4, r.has_body)),
        None => start.push(bool_field_of(4, r.has_body)),
    }
}

/// A response header that was written is the one that is read, and the
/// body is found right after it.
pub proof fn lemma_response_round_trip(r: Response, rest: Seq<u8>)
    ensures
        response_at(response_bytes(r) + rest) == Ok::<(Response, int), DecodeError>(
            (r, response_bytes(r).len() as int),
        ),
{
    let none = Seq::<Field>::empty();
    let f1 = uint_field_of(1, r.id as u64);
    let f2 = uint_field_of(2, r.re as u64);
    let f4 = bool_field_of(4, r.has_body);
    lemma_fields_are_readable(0, r.id as u64, r.has_body, Seq::empty(), Seq::empty());
    lemma_fields_are_readable(0, r.re as u64, r.has_body, Seq::empty(), Seq::empty());
    lemma_no_fields();
    lemma_one_more_field(none, f1);
    lemma_one_more_field(none.push(f1), f2);
    let s2 = none.push(f1).push(f2);
    let fields = response_fields(r);
    match r.status {
        Some(s) => {
            let f3 = uint_field_of(3, status_code(s));
            lemma_fields_are_readable(0, status_code(s), r.has_body, Seq::empty(), Seq::empty());
            lemma_one_more_field(s2, f3);
            lemma_one_more_field(s2.push(f3), f4);
            assert(response_bytes(r) =~= record_bytes(fields));
        },
        None => {
            lemma_one_more_field(s2, f4);
            assert(response_bytes(r) =~= record_bytes(fields));
        },
    }
    lemma_occurs_at_start(response_bytes(r), rest);
    lemma_record_is_read(response_bytes(r) + rest, 0, fields);
}

/// The fields of a request header.
pub open spec fn request_fields(r: RequestView) -> Seq<Field> {
    let start = Seq::<Field>::empty().push(uint_field_of(1, r.id as u64)).push(
        text_field_of(2, r.path),
    );
    match r.method {
        Some(m) => start.push(uint_field_of(3, method_index(m))).push(
            bool_field_of(4, r.has_body),
        ),
        None => start.push(bool_field_of(4, r.has_body)),
    }
}

/// A request header that was written is the one that is read, and the body
/// is found right after it.
pub proof fn lemma_request_round_trip(r: RequestView, rest: Seq<u8>)
    requires
        encode_utf8(r.path).len() <= u64::MAX,
    ensures
        request_at(request_bytes(r) + rest) == Ok::<(RequestView, int), DecodeError>(
            (r, request_bytes(r).len() as int),
        ),
{
    let none = Seq::<Field>::empty();
    let f1 = uint_field_of(1, r.id as u64);
    let f2 = text_field_of(2, r.path);
    let f4 = bool_field_of(4, r.has_body);
    lemma_fields_are_readable(0, r.id as u64, r.has_body, r.path, Seq::empty());
    lemma_no_fields();
    lemma_one_more_field(none, f1);
    lemma_one_more_field(none.push(f1), f2);
    let s2 = none.push(f1).push(f2);
    let fields = request_fields(r);
    match r.method {
        Some(m) => {
            let f3 = uint_field_of(3, method_index(m));
            lemma_fields_are_readable(0, method_index(m), r.has_body, r.path, Seq::empty());
            lemma_one_more_field(s2, f3);
            lemma_one_more_field(s2.push(f3), f4);
            assert(request_bytes(r) =~= record_bytes(fields));
        },
        None => {
            lemma_one_more_field(s2, f4);
            assert(request_bytes(r) =~= record_bytes(fields));
        },
    }
    lemma_occurs_at_start(request_bytes(r), rest);
    lemma_record_is_read(request_bytes(r) + rest, 0, fields);
}

/// The fields of an error body.
pub open spec fn error_fields(e: ErrorBodyView) -> Seq<Field> {
    let start = Seq::<Field>::empty().push(text_field_of(1, e.path));
    match e.method {
        Some(m) => start.push(uint_field_of(2, method_index(m))).push(
            text_field_of(3, e.message),
        ),
        None => start.push(text_field_of(3, e.message)),
    }
}

/// An error body that was written is the one that is read, wherever it
/// stands.
pub proof fn lemma_error_round_trip(e: ErrorBodyView, before: Seq<u8>, after: Seq<u8>)
    requires
        encode_utf8(e.path).len() <= u64::MAX,
        encode_utf8(e.message).len() <= u64::MAX,
    ensures
        error_at(before + error_bytes(e) + after, before.len() as int) == Ok::<
            ErrorBodyView,
            DecodeError,
        >(e),
{
    let none = Seq::<Field>::empty();
    let f1 = text_field_of(1, e.path);
    let f3 = text_field_of(3, e.message);
    lemma_fields_are_readable(0, 0, true, e.path, Seq::empty());
    lemma_fields_are_readable(0, 0, true, e.message, Seq::empty());
    lemma_no_fields();
    lemma_one_more_field(none, f1);
    let s1 = none.push(f1);
    let fields = error_fields(e);
    match e.method {
        Some(m) => {
            let f2 = uint_field_of(2, method_index(m));
            lemma_fields_are_readable(0, method_index(m), true, e.path, Seq::empty());
            lemma_one_more_field(s1, f2);
            lemma_one_more_field(s1.push(f2), f3);
            assert(error_bytes(e) =~= record_bytes(fields));
        },
        None => {
            lemma_one_more_field(s1, f3);
            assert(error_bytes(e) =~= record_bytes(fields));
        },
    }
    lemma_occurs_between(before, error_bytes(e), after);
    lemma_record_is_read(before + error_bytes(e) + after, before.len() as int, fields);
}

/// Can a byte string be written: does its length fit the head of an item?
pub open spec fn fits(value: Seq<u8>) -> bool {
    value.len() <= u64::MAX
}

/// Can a text be written: does the length of its UTF-8 form fit the head of
/// an item?
pub open spec fn text_fits(value: Seq<char>) -> bool {
    encode_utf8(value).len() <= u64::MAX
}

/// An exported identity that was written is the one that is read.
pub proof fn lemma_create_response_round_trip(
    identity: Seq<u8>,
    identifier: Seq<char>,
    before: Seq<u8>,
    after: Seq<u8>,
)
    requires
        fits(identity),
        text_fits(identifier),
    ensures
        create_response_at(
            before + create_response_bytes(identity, identifier) + after,
            before.len() as int,
        ) == Ok::<(Seq<u8>, Seq<char>), DecodeError>((identity, identifier)),
{
    let none = Seq::<Field>::empty();
    let f1 = bytes_field_of(1, identity);
    let f2 = text_field_of(2, identifier);
    lemma_fields_are_readable(0, 0, true, identifier, identity);
    lemma_no_fields();
    lemma_one_more_field(none, f1);
    lemma_one_more_field(none.push(f1), f2);
    let fields = none.push(f1).push(f2);
    let item = create_response_bytes(identity, identifier);
    assert(item =~= record_bytes(fields));
    lemma_occurs_between(before, item, after);
    lemma_record_is_read(before + item + after, before.len() as int, fields);
}

/// A request to validate a history is read as it was written.
pub proof fn lemma_validate_request_round_trip(
    identity: Seq<u8>,
    before: Seq<u8>,
    after: Seq<u8>,
)
    requires
        fits(identity),
    ensures
        validate_request_at(
            before + validate_request_bytes(identity) + after,
            before.len() as int,
        ) == Ok::<Seq<u8>, DecodeError>(identity),
{
    let none = Seq::<Field>::empty();
    let f1 = bytes_field_of(1, identity);
    lemma_fields_are_readable(0, 0, true, Seq::empty(), identity);
    lemma_no_fields();
    lemma_one_more_field(none, f1);
    let fields = none.push(f1);
    let item = validate_request_bytes(identity);
    assert(item =~= record_bytes(fields));
    lemma_occurs_between(before, item, after);
    lemma_record_is_read(before + item + after, before.len() as int, fields);
}

/// The identifier of a validated history is read as it was written.
pub proof fn lemma_validate_response_round_trip(
    identifier: Seq<char>,
    before: Seq<u8>,
    after: Seq<u8>,
)
    requires
        text_fits(identifier),
    ensures
        validate_response_at(
            before + validate_response_bytes(identifier) + after,
            before.len() as int,
        ) == Ok::<Seq<char>, DecodeError>(identifier),
{
    let none = Seq::<Field>::empty();
    let f1 = text_field_of(1, identifier);
    lemma_fields_are_readable(0, 0, true, identifier, Seq::empty());
    lemma_no_fields();
    lemma_one_more_field(none, f1);
    let fields = none.push(f1);
    let item = validate_response_bytes(identifier);
    assert(item =~= record_bytes(fields));
    lemma_occurs_between(before, item, after);
    lemma_record_is_read(before + item + after, before.len() as int, fields);
}

/// A request to sign is read as it was written; a vault name that was left
/// out is read as absent, one that was written, be it empty, as present.
pub proof fn lemma_sign_request_round_trip(
    identity: Seq<u8>,
    data: Seq<u8>,
    vault_name: Option<Seq<char>>,
    before: Seq<u8>,
    after: Seq<u8>,
)
    requires
        fits(identity),
        fits(data),
        vault_name matches Some(name) ==> text_fits(name),
    ensures
        sign_request_at(
            before + sign_request_bytes(identity, data, vault_name) + after,
            before.len() as int,
        ) == Ok::<(Seq<u8>, Seq<u8>, Option<Seq<char>>), DecodeError>(
            (identity, data, vault_name),
        ),
{
    let none = Seq::<Field>::empty();
    let f1 = bytes_field_of(1, identity);
    let f2 = bytes_field_of(2, data);
    lemma_fields_are_readable(0, 0, true, Seq::empty(), identity);
    lemma_fields_are_readable(0, 0, true, Seq::empty(), data);
    lemma_no_fields();
    lemma_one_more_field(none, f1);
    lemma_one_more_field(none.push(f1), f2);
    let s2 = none.push(f1).push(f2);
    let item = sign_request_bytes(identity, data, vault_name);
    lemma_occurs_between(before, item, after);
    match vault_name {
        Some(name) => {
            let f3 = text_field_of(3, name);
            lemma_fields_are_readable(0, 0, true, name, Seq::empty());
            lemma_one_more_field(s2, f3);
            assert(item =~= record_bytes(s2.push(f3)));
            lemma_record_is_read(before + item + after, before.len() as int, s2.push(f3));
        },
        None => {
            assert(item =~= record_bytes(s2));
            lemma_record_is_read(before + item + after, before.len() as int, s2);
        },
    }
}

/// A signature is read as it was written.
pub proof fn lemma_sign_response_round_trip(signature: Seq<u8>, before: Seq<u8>, after: Seq<u8>)
    requires
        fits(signature),
    ensures
        sign_response_at(before + sign_response_bytes(signature) + after, before.len() as int)
            == Ok::<Seq<u8>, DecodeError>(signature),
{
    let none = Seq::<Field>::empty();
    let f1 = bytes_field_of(1, signature);
    lemma_fields_are_readable(0, 0, true, Seq::empty(), signature);
    lemma_no_fields();
    lemma_one_more_field(none, f1);
    let fields = none.push(f1);
    let item = sign_response_bytes(signature);
    assert(item =~= record_bytes(fields));
    lemma_occurs_between(before, item, after);
    lemma_record_is_read(before + item + after, before.len() as int, fields);
}

/// A request to verify a signature is read as it was written.
pub proof fn lemma_verify_request_round_trip(
    signer: Seq<u8>,
    data: Seq<u8>,
    signature: Seq<u8>,
    before: Seq<u8>,
    after: Seq<u8>,
)
    requires
        fits(signer),
        fits(data),
        fits(signature),
    ensures
        verify_request_at(
            before + verify_request_bytes(signer, data, signature) + after,
            before.len() as int,
        ) == Ok::<(Seq<u8>, Seq<u8>, Seq<u8>), DecodeError>((signer, data, signature)),
{
    let none = Seq::<Field>::empty();
    let f1 = bytes_field_of(1, signer);
    let f2 = bytes_field_of(2, data);
    let f3 = bytes_field_of(3, signature);
    lemma_fields_are_readable(0, 0, true, Seq::empty(), signer);
    lemma_fields_are_readable(0, 0, true, Seq::empty(), data);
    lemma_fields_are_readable(0, 0, true, Seq::empty(), signature);
    lemma_no_fields();
    lemma_one_more_field(none, f1);
    lemma_one_more_field(none.push(f1), f2);
    lemma_one_more_field(none.push(f1).push(f2), f3);
    let fields = none.push(f1).push(f2).push(f3);
    let item = verify_request_bytes(signer, data, signature);
    assert(item =~= record_bytes(fields));
    lemma_occurs_between(before, item, after);
    lemma_record_is_read(before + item + after, before.len() as int, fields);
}

/// A verdict on a signature is read as it was written.
pub proof fn lemma_verify_response_round_trip(verified: bool, before: Seq<u8>, after: Seq<u8>)
    ensures
        verify_response_at(before + verify_response_bytes(verified) + after, before.len() as int)
            == Ok::<bool, DecodeError>(verified),
{
    let none = Seq::<Field>::empty();
    let f1 = bool_field_of(1, verified);
    lemma_fields_are_readable(0, 0, verified, Seq::empty(), Seq::empty());
    lemma_no_fields();
    lemma_one_more_field(none, f1);
    let fields = none.push(f1);
    let item = verify_response_bytes(verified);
    assert(item =~= record_bytes(fields));
    lemma_occurs_between(before, item, after);
    lemma_record_is_read(before + item + after, before.len() as int, fields);
}

/// A request to compare two histories is read as it was written.
pub proof fn lemma_compare_request_round_trip(
    current: Seq<u8>,
    known: Seq<u8>,
    before: Seq<u8>,
    after: Seq<u8>,
)
    requires
        fits(current),
        fits(known),
    ensures
        compare_request_at(
            before + compare_request_bytes(current, known) + after,
            before.len() as int,
        ) == Ok::<(Seq<u8>, Seq<u8>), DecodeError>((current, known)),
{
    let none = Seq::<Field>::empty();
    let f1 = bytes_field_of(1, current);
    let f2 = bytes_field_of(2, known);
    lemma_fields_are_readable(0, 0, true, Seq::empty(), current);
    lemma_fields_are_readable(0, 0, true, Seq::empty(), known);
    lemma_no_fields();
    lemma_one_more_field(none, f1);
    lemma_one_more_field(none.push(f1), f2);
    let fields = none.push(f1).push(f2);
    let item = compare_request_bytes(current, known);
    assert(item =~= record_bytes(fields));
    lemma_occurs_between(before, item, after);
    lemma_record_is_read(before + item + after, before.len() as int, fields);
}

/// A response that reports a failure is read as a header with the status
/// that was given, followed by the error body that was given.
pub proof fn lemma_failure_is_read(id: u32, re: u32, status: Status, error: ErrorBodyView)
    requires
        text_fits(error.path),
        text_fits(error.message),
    ensures
        response_at(failure_bytes(id, re, status, error)) == Ok::<(Response, int), DecodeError>(
            (
                Response { id, re, status: Some(status), has_body: true },
                response_bytes(
                    Response { id, re, status: Some(status), has_body: true },
                ).len() as int,
            ),
        ),
        error_at(
            failure_bytes(id, re, status, error),
            response_bytes(Response { id, re, status: Some(status), has_body: true }).len() as int,
        ) == Ok::<ErrorBodyView, DecodeError>(error),
{
    let header = Response { id, re, status: Some(status), has_body: true };
    lemma_response_round_trip(header, error_bytes(error));
    lemma_error_round_trip(error, response_bytes(header), Seq::empty());
    assert(response_bytes(header) + error_bytes(error) + Seq::<u8>::empty() =~= failure_bytes(
        id,
        re,
        status,
        error,
    ));
}

/// The answer to a request whose work succeeded is read as a success that
/// refers to the request. Where an identity was looked up or created, the
/// body is read as exactly that identity; where a signature was verified,
/// as the verdict, whichever it is; where histories were compared, as the
/// number of their relation.
pub proof fn lemma_answer_is_read(request: RequestView, outcome: OutcomeView, reply_id: u32)
    requires
        !(outcome is Failed),
        outcome matches OutcomeView::Identity(identity, identifier) ==> fits(identity)
            && text_fits(identifier),
    ensures
        ({
            let header = Response {
                id: reply_id,
                re: request.id,
                status: Some(Status::Success),
                has_body: true,
            };
            let answer = answer_of(request, outcome, reply_id);
            let body = response_bytes(header).len() as int;
            &&& response_at(answer) == Ok::<(Response, int), DecodeError>((header, body))
            &&& outcome matches OutcomeView::Identity(identity, identifier)
                ==> create_response_at(answer, body) == Ok::<(Seq<u8>, Seq<char>), DecodeError>(
                (identity, identifier),
            )
            &&& outcome matches OutcomeView::Verified(verified) ==> verify_response_at(
                answer,
                body,
            ) == Ok::<bool, DecodeError>(verified)
            &&& outcome matches OutcomeView::Histories { current, known } ==> uint_at(answer, body)
                == Some(
                (
                    comparison_index(relation_to_known(current, known)),
                    answer.len() as int,
                ),
            )
        }),
{
    let header = Response {
        id: reply_id,
        re: request.id,
        status: Some(Status::Success),
        has_body: true,
    };
    let answer = answer_of(request, outcome, reply_id);
    let head_bytes = response_bytes(header);
    lemma_response_round_trip(header, outcome_body(outcome));
    assert(answer =~= head_bytes + outcome_body(outcome) + Seq::<u8>::empty());
    match outcome {
        OutcomeView::Identity(identity, identifier) => {
            lemma_create_response_round_trip(identity, identifier, head_bytes, Seq::empty());
        },
        OutcomeView::Verified(verified) => {
            lemma_verify_response_round_trip(verified, head_bytes, Seq::empty());
        },
        OutcomeView::Histories { current, known } => {
            let number = comparison_index(relation_to_known(current, known));
            lemma_occurs_between(head_bytes, uint_item(number), Seq::empty());
            lemma_uint_is_read(answer, head_bytes.len() as int, number);
        },
        _ => {},
    }
}

/// The words with which the service refuses a request can be written.
pub proof fn lemma_refusal_texts_fit(refusal: Refusal)
    ensures
        text_fits(refusal_text(refusal)),
        text_fits("invalid Request structure"@),
        text_fits(Seq::empty()),
{
    reveal_strlit("empty method");
    reveal_strlit("unknown method");
    reveal_strlit("unknown path");
    reveal_strlit("empty body");
    reveal_strlit("invalid Request structure");
    assert(is_ascii_chars("empty method"@));
    assert(is_ascii_chars("unknown method"@));
    assert(is_ascii_chars("unknown path"@));
    assert(is_ascii_chars("empty body"@));
    assert(is_ascii_chars("invalid Request structure"@));
    assert(is_ascii_chars(Seq::empty()));
    is_ascii_chars_encode_utf8("empty method"@);
    is_ascii_chars_encode_utf8("unknown method"@);
    is_ascii_chars_encode_utf8("unknown path"@);
    is_ascii_chars_encode_utf8("empty body"@);
    is_ascii_chars_encode_utf8("invalid Request structure"@);
    is_ascii_chars_encode_utf8(Seq::empty());
}

/// Bytes that hold no request header are answered at once, and the answer
/// is read as a bad request with an empty path, no method and the words
/// "invalid Request structure", referring to the id that was made up.
pub proof fn lemma_unreadable_is_bad_request(bytes: Seq<u8>, reply_id: u32, made_up_id: u32)
    requires
        request_at(bytes).is_err(),
    ensures
        ({
            let header = Response {
                id: reply_id,
                re: made_up_id,
                status: Some(Status::BadRequest),
                has_body: true,
            };
            let reply = unreadable_reply(reply_id, made_up_id);
            &&& step_of(bytes, reply_id, made_up_id) == StepView::Reply(reply)
            &&& response_at(reply) == Ok::<(Response, int), DecodeError>(
                (header, response_bytes(header).len() as int),
            )
            &&& error_at(reply, response_bytes(header).len() as int) == Ok::<
                ErrorBodyView,
                DecodeError,
            >(
                ErrorBodyView {
                    path: Seq::empty(),
                    method: None,
                    message: "invalid Request structure"@,
                },
            )
        }),
{
    lemma_refusal_texts_fit(Refusal::EmptyMethod);
    lemma_failure_is_read(
        reply_id,
        made_up_id,
        Status::BadRequest,
        ErrorBodyView { path: Seq::empty(), method: None, message: "invalid Request structure"@ },
    );
}

/// The answer to a request that is refused is read as a bad request that
/// refers to the request, names its path and method and says why in the
/// words of the refusal.
pub proof fn lemma_refusal_is_bad_request(request: RequestView, refusal: Refusal, reply_id: u32)
    requires
        text_fits(request.path),
    ensures
        ({
            let header = Response {
                id: reply_id,
                re: request.id,
                status: Some(Status::BadRequest),
                has_body: true,
            };
            let reply = refusal_reply(reply_id, request, refusal);
            &&& response_at(reply) == Ok::<(Response, int), DecodeError>(
                (header, response_bytes(header).len() as int),
            )
            &&& error_at(reply, response_bytes(header).len() as int) == Ok::<
                ErrorBodyView,
                DecodeError,
            >(
                ErrorBodyView {
                    path: request.path,
                    method: request.method,
                    message: refusal_text(refusal),
                },
            )
        }),
{
    lemma_refusal_texts_fit(refusal);
    lemma_failure_is_read(
        reply_id,
        request.id,
        Status::BadRequest,
        ErrorBodyView {
            path: request.path,
            method: request.method,
            message: refusal_text(refusal),
        },
    );
}

/// The answer to a request whose work failed is read as an internal error
/// that refers to the request, names its path and carries the reason.
pub proof fn lemma_failed_work_is_an_internal_error(
    request: RequestView,
    reason: Seq<char>,
    reply_id: u32,
)
    requires
        text_fits(request.path),
        text_fits(reason),
    ensures
        ({
            let header = Response {
                id: reply_id,
                re: request.id,
                status: Some(Status::InternalServerError),
                has_body: true,
            };
            let answer = answer_of(request, OutcomeView::Failed(reason), reply_id);
            &&& answer == failure_reply(reply_id, request, reason)
            &&& response_at(answer) == Ok::<(Response, int), DecodeError>(
                (header, response_bytes(header).len() as int),
            )
            &&& error_at(answer, response_bytes(header).len() as int) == Ok::<
                ErrorBodyView,
                DecodeError,
            >(ErrorBodyView { path: request.path, method: None, message: reason })
        }),
{
    lemma_failure_is_read(
        reply_id,
        request.id,
        Status::InternalServerError,
        ErrorBodyView { path: request.path, method: None, message: reason },
    );
}

/// A request that was written, header and body, is handled as that request:
/// refused where its method, path and body flag say so, and else performed
/// with the arguments that its body holds.
pub proof fn lemma_written_request_is_handled(
    request: RequestView,
    body: Seq<u8>,
    reply_id: u32,
    made_up_id: u32,
)
    requires
        text_fits(request.path),
    ensures
        step_of(request_bytes(request) + body, reply_id, made_up_id) == handling_of(
            request,
            request_bytes(request) + body,
            request_bytes(request).len() as int,
            reply_id,
        ),
        route_of(request.method, request.path, request.has_body) matches Route::Refused(refusal)
            ==> step_of(request_bytes(request) + body, reply_id, made_up_id) == StepView::Reply(
            refusal_reply(reply_id, request, refusal),
        ),
{
    lemma_request_round_trip(request, body);
}

/// The arguments of an action that were written after a header are the
/// arguments that are read for it; a known identity that was written empty
/// is read as none.
pub proof fn lemma_written_arguments_are_read(
    path: Seq<char>,
    header: Seq<u8>,
    a: Seq<u8>,
    b: Seq<u8>,
    c: Seq<u8>,
    name: Option<Seq<char>>,
)
    requires
        fits(a),
        fits(b),
        fits(c),
        name matches Some(n) ==> text_fits(n),
    ensures
        action_at(
            Operation::Validate,
            path,
            header + validate_request_bytes(a),
            header.len() as int,
        ) == Ok::<ActionView, DecodeError>(ActionView::Validate { identity: a }),
        action_at(
            Operation::Sign,
            path,
            header + sign_request_bytes(a, b, name),
            header.len() as int,
        ) == Ok::<ActionView, DecodeError>(
            ActionView::Sign { identity: a, data: b, vault_name: name },
        ),
        action_at(
            Operation::Verify,
            path,
            header + verify_request_bytes(a, b, c),
            header.len() as int,
        ) == Ok::<ActionView, DecodeError>(
            ActionView::Verify { signer_identity: a, data: b, signature: c },
        ),
        action_at(
            Operation::Compare,
            path,
            header + compare_request_bytes(a, b),
            header.len() as int,
        ) == Ok::<ActionView, DecodeError>(
            ActionView::Compare {
                current_identity: a,
                known_identity: if b.len() == 0 {
                    None
                } else {
                    Some(b)
                },
            },
        ),
{
    let none = Seq::<u8>::empty();
    lemma_validate_request_round_trip(a, header, none);
    assert(header + validate_request_bytes(a) + none =~= header + validate_request_bytes(a));
    lemma_sign_request_round_trip(a, b, name, header, none);
    assert(header + sign_request_bytes(a, b, name) + none =~= header + sign_request_bytes(
        a,
        b,
        name,
    ));
    lemma_verify_request_round_trip(a, b, c, header, none);
    assert(header + verify_request_bytes(a, b, c) + none =~= header + verify_request_bytes(
        a,
        b,
        c,
    ));
    lemma_compare_request_round_trip(a, b, header, none);
    assert(header + compare_request_bytes(a, b) + none =~= header + compare_request_bytes(a, b));
}

} // verus!
