//! Records on the wire.
//!
//! Every structure of the protocol travels as a map from small numbers to
//! values. Reading one yields its entries in the order of the wire; a field
//! is then looked up by its number, and the entry that comes last decides.
//! Entries under numbers that a reader does not know are passed over, so a
//! structure can grow by optional fields.

use crate::cbor::{
    bool_at, bytes_at, get_bool, get_bytes, get_map, get_null, get_text, get_uint, map_at, null_at,
    skip_at, skip_item, text_at, uint_at,
};
use vstd::prelude::*;
use vstd::slice::slice_to_vec;

verus! {

/// A value of a record, as far as the protocol reads it.
#[derive(Clone, Debug)]
pub enum Value {
    Uint(u64),
    Bool(bool),
    Null,
    Text(String),
    Bytes(Vec<u8>),
    /// Any other item; it was passed over.
    Other,
}

/// What a `Value` holds.
pub ghost enum ValueView {
    Uint(u64),
    Bool(bool),
    Null,
    Text(Seq<char>),
    Bytes(Seq<u8>),
    Other,
}

impl View for Value {
    type V = ValueView;

    open spec fn view(&self) -> ValueView {
        match self {
            Value::Uint(v) => ValueView::Uint(*v),
            Value::Bool(v) => ValueView::Bool(*v),
            Value::Null => ValueView::Null,
            Value::Text(v) => ValueView::Text(v@),
            Value::Bytes(v) => ValueView::Bytes(v@),
            Value::Other => ValueView::Other,
        }
    }
}

/// One entry of a record: the number of a field, and its value.
#[derive(Clone, Debug)]
pub struct Entry {
    pub key: u64,
    pub value: Value,
}

impl View for Entry {
    type V = (u64, ValueView);

    open spec fn view(&self) -> (u64, ValueView) {
        (self.key, self.value@)
    }
}

/// Why a structure could not be read.
#[derive(Clone, Copy, Debug, PartialEq, Eq, Structural)]
pub enum DecodeError {
    /// The bytes are no map of definite length whose keys are numbers.
    Malformed,
    /// A field that the structure needs is not there.
    MissingField,
    /// A field holds a value of another type, or a number out of range.
    WrongType,
}

/// The words that describe a decoding error.
pub open spec fn decode_error_text(e: DecodeError) -> Seq<char> {
    match e {
        DecodeError::Malformed => "malformed record"@,
        DecodeError::MissingField => "missing field"@,
        DecodeError::WrongType => "unexpected type"@,
    }
}

impl DecodeError {
    /// The words that describe this error.
    pub fn message(self) -> (text: String)
        ensures
            text@ == decode_error_text(self),
    {
        match self {
            DecodeError::Malformed => "malformed record".to_owned(),
            DecodeError::MissingField => "missing field".to_owned(),
            DecodeError::WrongType => "unexpected type".to_owned(),
        }
    }
}

/// The views of a sequence of entries.
pub open spec fn views(entries: Seq<Entry>) -> Seq<(u64, ValueView)> {
    Seq::new(entries.len(), |i: int| entries[i]@)
}

/// The value at `pos` and the position after it. An item that is neither a
/// number, a boolean, null, text nor a byte string is passed over.
pub open spec fn value_at(bytes: Seq<u8>, pos: int) -> Option<(ValueView, int)> {
    if let Some((v, p)) = uint_at(bytes, pos) {
        Some((ValueView::Uint(v), p))
    } else if let Some((v, p)) = bool_at(bytes, pos) {
        Some((ValueView::Bool(v), p))
    } else if let Some(p) = null_at(bytes, pos) {
        Some((ValueView::Null, p))
    } else if let Some((v, p)) = text_at(bytes, pos) {
        Some((ValueView::Text(v), p))
    } else if let Some((v, p)) = bytes_at(bytes, pos) {
        Some((ValueView::Bytes(v), p))
    } else if let Some(p) = skip_at(bytes, pos) {
        Some((ValueView::Other, p))
    } else {
        None
    }
}

/// The entry at `pos`: a number, then a value.
pub open spec fn entry_at(bytes: Seq<u8>, pos: int) -> Option<((u64, ValueView), int)> {
    match uint_at(bytes, pos) {
        Some((key, p)) => match value_at(bytes, p) {
            Some((value, q)) => Some(((key, value), q)),
            None => None,
        },
        None => None,
    }
}

/// The first `count` entries from `pos` on, and the position after them.
pub open spec fn entries_at(bytes: Seq<u8>, pos: int, count: nat) -> Option<
    (Seq<(u64, ValueView)>, int),
>
    decreases count,
{
    if count == 0 {
        Some((Seq::empty(), pos))
    } else {
        match entries_at(bytes, pos, (count - 1) as nat) {
            Some((before, p)) => match entry_at(bytes, p) {
                Some((entry, q)) => Some((before.push(entry), q)),
                None => None,
            },
            None => None,
        }
    }
}

/// The record at `pos`: the entries of a map of definite length, and the
/// position after the map.
pub open spec fn record_at(bytes: Seq<u8>, pos: int) -> Option<(Seq<(u64, ValueView)>, int)> {
    match map_at(bytes, pos) {
        Some((Some(count), p)) => entries_at(bytes, p, count as nat),
        _ => None,
    }
}

/// The value of the field `key`: that of the last entry under that number.
pub open spec fn lookup(entries: Seq<(u64, ValueView)>, key: u64) -> Option<ValueView>
    decreases entries.len(),
{
    if entries.len() == 0 {
        None
    } else if entries.last().0 == key {
        Some(entries.last().1)
    } else {
        lookup(entries.drop_last(), key)
    }
}

/// A field that must be there and hold a number.
pub open spec fn uint_field(entries: Seq<(u64, ValueView)>, key: u64) -> Result<
    u64,
    DecodeError,
> {
    match lookup(entries, key) {
        None => Err(DecodeError::MissingField),
        Some(ValueView::Uint(v)) => Ok(v),
        Some(_) => Err(DecodeError::WrongType),
    }
}

/// A field that holds a number, or is left out or null.
pub open spec fn optional_uint_field(entries: Seq<(u64, ValueView)>, key: u64) -> Result<
    Option<u64>,
    DecodeError,
> {
    match lookup(entries, key) {
        None => Ok(None),
        Some(ValueView::Null) => Ok(None),
        Some(ValueView::Uint(v)) => Ok(Some(v)),
        Some(_) => Err(DecodeError::WrongType),
    }
}

/// A field that must be there and hold a boolean.
pub open spec fn bool_field(entries: Seq<(u64, ValueView)>, key: u64) -> Result<
    bool,
    DecodeError,
> {
    match lookup(entries, key) {
        None => Err(DecodeError::MissingField),
        Some(ValueView::Bool(v)) => Ok(v),
        Some(_) => Err(DecodeError::WrongType),
    }
}

/// A field that must be there and hold text.
pub open spec fn text_field(entries: Seq<(u64, ValueView)>, key: u64) -> Result<
    Seq<char>,
    DecodeError,
> {
    match lookup(entries, key) {
        None => Err(DecodeError::MissingField),
        Some(ValueView::Text(v)) => Ok(v),
        Some(_) => Err(DecodeError::WrongType),
    }
}

/// A field that holds text, or is left out or null.
pub open spec fn optional_text_field(entries: Seq<(u64, ValueView)>, key: u64) -> Result<
    Option<Seq<char>>,
    DecodeError,
> {
    match lookup(entries, key) {
        None => Ok(None),
        Some(ValueView::Null) => Ok(None),
        Some(ValueView::Text(v)) => Ok(Some(v)),
        Some(_) => Err(DecodeError::WrongType),
    }
}

/// A field that must be there and hold a byte string.
pub open spec fn bytes_field(entries: Seq<(u64, ValueView)>, key: u64) -> Result<
    Seq<u8>,
    DecodeError,
> {
    match lookup(entries, key) {
        None => Err(DecodeError::MissingField),
        Some(ValueView::Bytes(v)) => Ok(v),
        Some(_) => Err(DecodeError::WrongType),
    }
}

/// Once the entries cannot be read up to some count, they cannot be read up
/// to a greater one.
pub proof fn lemma_failure_stays(bytes: Seq<u8>, pos: int, count: nat, more: nat)
    requires
        count <= more,
        entries_at(bytes, pos, count).is_none(),
    ensures
        entries_at(bytes, pos, more).is_none(),
    decreases more,
{
    if count < more {
        lemma_failure_stays(bytes, pos, count, (more - 1) as nat);
    }
}

/// Reads the value at `pos`.
pub fn read_value(data: &[u8], pos: usize) -> (r: Option<(Value, usize)>)
    ensures
        match r {
            Some((v, p)) => value_at(data@, pos as int) == Some((v@, p as int)),
            None => value_at(data@, pos as int).is_none(),
        },
{
    if let Some((v, p)) = get_uint(data, pos) {
        return Some((Value::Uint(v), p));
    }
    if let Some((v, p)) = get_bool(data, pos) {
        return Some((Value::Bool(v), p));
    }
    if let Some(p) = get_null(data, pos) {
        return Some((Value::Null, p));
    }
    if let Some((v, p)) = get_text(data, pos) {
        return Some((Value::Text(v), p));
    }
    if let Some((v, p)) = get_bytes(data, pos) {
        return Some((Value::Bytes(v), p));
    }
    match skip_item(data, pos) {
        Some(p) => Some((Value::Other, p)),
        None => None,
    }
}

/// Reads the record at `pos`: every entry of the map, in the order of the
/// wire, and the position after the map.
pub fn read_record(data: &[u8], pos: usize) -> (r: Option<(Vec<Entry>, usize)>)
    ensures
        match r {
            Some((entries, p)) => record_at(data@, pos as int) == Some(
                (views(entries@), p as int),
            ),
            None => record_at(data@, pos as int).is_none(),
        },
{
    let (count, start): (u64, usize) = match get_map(data, pos) {
        Some((Some(n), p)) => (n, p),
        _ => {
            return None;
        },
    };
    let mut entries: Vec<Entry> = Vec::new();
    let mut cur: usize = start;
    let mut i: u64 = 0;
    assert(views(entries@) =~= Seq::empty());
    while i < count
        invariant
            i <= count,
            map_at(data@, pos as int) == Some((Some(count), start as int)),
            entries_at(data@, start as int, i as nat) == Some((views(entries@), cur as int)),
        decreases count - i,
    {
        let (key, p): (u64, usize) = match get_uint(data, cur) {
            Some(x) => x,
            None => {
                proof {
                    assert(entries_at(data@, start as int, (i + 1) as nat).is_none());
                    lemma_failure_stays(data@, start as int, (i + 1) as nat, count as nat);
                }
                return None;
            },
        };
        let (value, q): (Value, usize) = match read_value(data, p) {
            Some(x) => x,
            None => {
                proof {
                    assert(entries_at(data@, start as int, (i + 1) as nat).is_none());
                    lemma_failure_stays(data@, start as int, (i + 1) as nat, count as nat);
                }
                return None;
            },
        };
        let ghost before = views(entries@);
        let entry = Entry { key, value };
        entries.push(entry);
        assert(views(entries@) =~= before.push((key, entry.value@)));
        cur = q;
        i += 1;
    }
    Some((entries, cur))
}

/// Looks a field up by its number.
pub fn find(entries: &Vec<Entry>, key: u64) -> (r: Option<&Value>)
    ensures
        match r {
            Some(v) => lookup(views(entries@), key) == Some(v@),
            None => lookup(views(entries@), key).is_none(),
        },
{
    let mut i: usize = entries.len();
    assert(views(entries@).subrange(0, i as int) =~= views(entries@));
    while i > 0
        invariant
            i <= entries@.len(),
            lookup(views(entries@), key) == lookup(views(entries@).subrange(0, i as int), key),
        decreases i,
    {
        let ghost part = views(entries@).subrange(0, i as int);
        assert(part.last() == entries@[i - 1]@);
        assert(part.drop_last() =~= views(entries@).subrange(0, i - 1));
        if entries[i - 1].key == key {
            return Some(&entries[i - 1].value);
        }
        i -= 1;
    }
    None
}

/// The number under `key`.
pub fn take_uint(entries: &Vec<Entry>, key: u64) -> (r: Result<u64, DecodeError>)
    ensures
        r == uint_field(views(entries@), key),
{
    match find(entries, key) {
        None => Err(DecodeError::MissingField),
        Some(Value::Uint(v)) => Ok(*v),
        Some(_) => Err(DecodeError::WrongType),
    }
}

/// The number under `key`, if the field is there.
pub fn take_optional_uint(entries: &Vec<Entry>, key: u64) -> (r: Result<
    Option<u64>,
    DecodeError,
>)
    ensures
        r == optional_uint_field(views(entries@), key),
{
    match find(entries, key) {
        None => Ok(None),
        Some(Value::Null) => Ok(None),
        Some(Value::Uint(v)) => Ok(Some(*v)),
        Some(_) => Err(DecodeError::WrongType),
    }
}

/// The boolean under `key`.
pub fn take_bool(entries: &Vec<Entry>, key: u64) -> (r: Result<bool, DecodeError>)
    ensures
        r == bool_field(views(entries@), key),
{
    match find(entries, key) {
        None => Err(DecodeError::MissingField),
        Some(Value::Bool(v)) => Ok(*v),
        Some(_) => Err(DecodeError::WrongType),
    }
}

/// The text under `key`.
pub fn take_text(entries: &Vec<Entry>, key: u64) -> (r: Result<String, DecodeError>)
    ensures
        match r {
            Ok(v) => text_field(views(entries@), key) == Ok::<Seq<char>, DecodeError>(v@),
            Err(e) => text_field(views(entries@), key) == Err::<Seq<char>, DecodeError>(e),
        },
{
    match find(entries, key) {
        None => Err(DecodeError::MissingField),
        Some(Value::Text(v)) => Ok(v.clone()),
        Some(_) => Err(DecodeError::WrongType),
    }
}

/// The text under `key`, if the field is there.
pub fn take_optional_text(entries: &Vec<Entry>, key: u64) -> (r: Result<
    Option<String>,
    DecodeError,
>)
    ensures
        match r {
            Ok(Some(v)) => optional_text_field(views(entries@), key) == Ok::<
                Option<Seq<char>>,
                DecodeError,
            >(Some(v@)),
            Ok(None) => optional_text_field(views(entries@), key) == Ok::<
                Option<Seq<char>>,
                DecodeError,
            >(None),
            Err(e) => optional_text_field(views(entries@), key) == Err::<
                Option<Seq<char>>,
                DecodeError,
            >(e),
        },
{
    match find(entries, key) {
        None => Ok(None),
        Some(Value::Null) => Ok(None),
        Some(Value::Text(v)) => Ok(Some(v.clone())),
        Some(_) => Err(DecodeError::WrongType),
    }
}

/// The byte string under `key`.
pub fn take_bytes(entries: &Vec<Entry>, key: u64) -> (r: Result<Vec<u8>, DecodeError>)
    ensures
        match r {
            Ok(v) => bytes_field(views(entries@), key) == Ok::<Seq<u8>, DecodeError>(v@),
            Err(e) => bytes_field(views(entries@), key) == Err::<Seq<u8>, DecodeError>(e),
        },
{
    match find(entries, key) {
        None => Err(DecodeError::MissingField),
        Some(Value::Bytes(v)) => Ok(slice_to_vec(v.as_slice())),
        Some(_) => Err(DecodeError::WrongType),
    }
}

} // verus!
