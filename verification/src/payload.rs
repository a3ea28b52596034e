//! The bodies of the operations, each a record of its own.

use crate::cbor::{
    bool_item, bytes_item, map_head, put_bool, put_bytes, put_map, put_text, put_uint, text_item,
    uint_item,
};
use crate::envelope::entry_count;
use crate::wire::{
    bool_field, bytes_field, optional_text_field, read_record, record_at, take_bool, take_bytes,
    take_optional_text, take_text, text_field, DecodeError, Entry, ValueView,
};
use vstd::prelude::*;

verus! {

/// An identity as it leaves the service: its exported change history and
/// its identifier.
#[derive(Clone, Debug)]
pub struct CreateResponse {
    pub identity: Vec<u8>,
    pub identifier: String,
}

/// Asks whether an exported change history is valid.
#[derive(Clone, Debug)]
pub struct ValidateIdentityChangeHistoryRequest {
    pub identity: Vec<u8>,
}

/// The identifier of the identity whose history was found valid.
#[derive(Clone, Debug)]
pub struct ValidateIdentityChangeHistoryResponse {
    pub identifier: String,
}

/// Asks for a signature over `data` by the identity, with the keys of the
/// named vault, or of the service's own where none is named.
#[derive(Clone, Debug)]
pub struct CreateSignatureRequest {
    pub identity: Vec<u8>,
    pub data: Vec<u8>,
    pub vault_name: Option<String>,
}

/// A signature.
#[derive(Clone, Debug)]
pub struct CreateSignatureResponse {
    pub signature: Vec<u8>,
}

/// Asks whether `signature` is the signer's signature over `data`.
#[derive(Clone, Debug)]
pub struct VerifySignatureRequest {
    pub signer_identity: Vec<u8>,
    pub data: Vec<u8>,
    pub signature: Vec<u8>,
}

/// Whether a signature was found good.
#[derive(Clone, Copy, Debug, PartialEq, Eq, Structural)]
pub struct VerifySignatureResponse {
    pub verified: bool,
}

/// Asks how a history relates to the known one, which may be empty.
#[derive(Clone, Debug)]
pub struct CompareIdentityChangeHistoryRequest {
    pub current_identity: Vec<u8>,
    pub known_identity: Vec<u8>,
}

impl View for CreateResponse {
    type V = (Seq<u8>, Seq<char>);

    open spec fn view(&self) -> (Seq<u8>, Seq<char>) {
        (self.identity@, self.identifier@)
    }
}

impl View for ValidateIdentityChangeHistoryRequest {
    type V = Seq<u8>;

    open spec fn view(&self) -> Seq<u8> {
        self.identity@
    }
}

impl View for ValidateIdentityChangeHistoryResponse {
    type V = Seq<char>;

    open spec fn view(&self) -> Seq<char> {
        self.identifier@
    }
}

impl View for CreateSignatureRequest {
    type V = (Seq<u8>, Seq<u8>, Option<Seq<char>>);

    open spec fn view(&self) -> (Seq<u8>, Seq<u8>, Option<Seq<char>>) {
        (
            self.identity@,
            self.data@,
            match self.vault_name {
                Some(name) => Some(name@),
                None => None,
            },
        )
    }
}

impl View for CreateSignatureResponse {
    type V = Seq<u8>;

    open spec fn view(&self) -> Seq<u8> {
        self.signature@
    }
}

impl View for VerifySignatureRequest {
    type V = (Seq<u8>, Seq<u8>, Seq<u8>);

    open spec fn view(&self) -> (Seq<u8>, Seq<u8>, Seq<u8>) {
        (self.signer_identity@, self.data@, self.signature@)
    }
}

impl View for CompareIdentityChangeHistoryRequest {
    type V = (Seq<u8>, Seq<u8>);

    open spec fn view(&self) -> (Seq<u8>, Seq<u8>) {
        (self.current_identity@, self.known_identity@)
    }
}

/// The fields of the record at `pos`, where there is one.
pub open spec fn fields_at(bytes: Seq<u8>, pos: int) -> Result<Seq<(u64, ValueView)>, DecodeError> {
    match record_at(bytes, pos) {
        Some((fields, _)) => Ok(fields),
        None => Err(DecodeError::Malformed),
    }
}

/// `{1: identity, 2: identifier}`
pub open spec fn create_response_at(bytes: Seq<u8>, pos: int) -> Result<
    (Seq<u8>, Seq<char>),
    DecodeError,
> {
    match fields_at(bytes, pos) {
        Err(e) => Err(e),
        Ok(f) => match (bytes_field(f, 1), text_field(f, 2)) {
            (Err(e), _) => Err(e),
            (_, Err(e)) => Err(e),
            (Ok(identity), Ok(identifier)) => Ok((identity, identifier)),
        },
    }
}

/// `{1: identity}`
pub open spec fn validate_request_at(bytes: Seq<u8>, pos: int) -> Result<Seq<u8>, DecodeError> {
    match fields_at(bytes, pos) {
        Err(e) => Err(e),
        Ok(f) => bytes_field(f, 1),
    }
}

/// `{1: identifier}`
pub open spec fn validate_response_at(bytes: Seq<u8>, pos: int) -> Result<Seq<char>, DecodeError> {
    match fields_at(bytes, pos) {
        Err(e) => Err(e),
        Ok(f) => text_field(f, 1),
    }
}

/// `{1: identity, 2: data, 3: vault_name}`, the last one optional.
pub open spec fn sign_request_at(bytes: Seq<u8>, pos: int) -> Result<
    (Seq<u8>, Seq<u8>, Option<Seq<char>>),
    DecodeError,
> {
    match fields_at(bytes, pos) {
        Err(e) => Err(e),
        Ok(f) => match (bytes_field(f, 1), bytes_field(f, 2), optional_text_field(f, 3)) {
            (Err(e), _, _) => Err(e),
            (_, Err(e), _) => Err(e),
            (_, _, Err(e)) => Err(e),
            (Ok(identity), Ok(data), Ok(vault_name)) => Ok((identity, data, vault_name)),
        },
    }
}

/// `{1: signature}`
pub open spec fn sign_response_at(bytes: Seq<u8>, pos: int) -> Result<Seq<u8>, DecodeError> {
    match fields_at(bytes, pos) {
        Err(e) => Err(e),
        Ok(f) => bytes_field(f, 1),
    }
}

/// `{1: signer_identity, 2: data, 3: signature}`
pub open spec fn verify_request_at(bytes: Seq<u8>, pos: int) -> Result<
    (Seq<u8>, Seq<u8>, Seq<u8>),
    DecodeError,
> {
    match fields_at(bytes, pos) {
        Err(e) => Err(e),
        Ok(f) => match (bytes_field(f, 1), bytes_field(f, 2), bytes_field(f, 3)) {
            (Err(e), _, _) => Err(e),
            (_, Err(e), _) => Err(e),
            (_, _, Err(e)) => Err(e),
            (Ok(signer), Ok(data), Ok(signature)) => Ok((signer, data, signature)),
        },
    }
}

/// `{1: verified}`
pub open spec fn verify_response_at(bytes: Seq<u8>, pos: int) -> Result<bool, DecodeError> {
    match fields_at(bytes, pos) {
        Err(e) => Err(e),
        Ok(f) => bool_field(f, 1),
    }
}

/// `{1: current_identity, 2: known_identity}`
pub open spec fn compare_request_at(bytes: Seq<u8>, pos: int) -> Result<
    (Seq<u8>, Seq<u8>),
    DecodeError,
> {
    match fields_at(bytes, pos) {
        Err(e) => Err(e),
        Ok(f) => match (bytes_field(f, 1), bytes_field(f, 2)) {
            (Err(e), _) => Err(e),
            (_, Err(e)) => Err(e),
            (Ok(current), Ok(known)) => Ok((current, known)),
        },
    }
}

/// Does a decoding result agree with what the wire holds?
pub open spec fn decoded<T: View>(got: Result<T, DecodeError>, want: Result<T::V, DecodeError>)
    -> bool {
    match got {
        Ok(v) => want == Ok::<T::V, DecodeError>(v@),
        Err(e) => want == Err::<T::V, DecodeError>(e),
    }
}

/// An exported identity on the wire.
pub open spec fn create_response_bytes(identity: Seq<u8>, identifier: Seq<char>) -> Seq<u8> {
    map_head(2) + uint_item(1) + bytes_item(identity) + uint_item(2) + text_item(identifier)
}

/// A request to validate a history on the wire.
pub open spec fn validate_request_bytes(identity: Seq<u8>) -> Seq<u8> {
    map_head(1) + uint_item(1) + bytes_item(identity)
}

/// The identifier of a validated history on the wire.
pub open spec fn validate_response_bytes(identifier: Seq<char>) -> Seq<u8> {
    map_head(1) + uint_item(1) + text_item(identifier)
}

/// A request to sign on the wire; a vault name that is absent is left out.
pub open spec fn sign_request_bytes(
    identity: Seq<u8>,
    data: Seq<u8>,
    vault_name: Option<Seq<char>>,
) -> Seq<u8> {
    map_head(entry_count(2, vault_name.is_some())) + uint_item(1) + bytes_item(identity)
        + uint_item(2) + bytes_item(data) + (match vault_name {
        Some(name) => uint_item(3) + text_item(name),
        None => Seq::empty(),
    })
}

/// A signature on the wire.
pub open spec fn sign_response_bytes(signature: Seq<u8>) -> Seq<u8> {
    map_head(1) + uint_item(1) + bytes_item(signature)
}

/// A request to verify a signature on the wire.
pub open spec fn verify_request_bytes(signer: Seq<u8>, data: Seq<u8>, signature: Seq<u8>) -> Seq<
    u8,
> {
    map_head(3) + uint_item(1) + bytes_item(signer) + uint_item(2) + bytes_item(data) + uint_item(
        3,
    ) + bytes_item(signature)
}

/// A verdict on a signature on the wire.
pub open spec fn verify_response_bytes(verified: bool) -> Seq<u8> {
    map_head(1) + uint_item(1) + bool_item(verified)
}

/// A request to compare two histories on the wire.
pub open spec fn compare_request_bytes(current: Seq<u8>, known: Seq<u8>) -> Seq<u8> {
    map_head(2) + uint_item(1) + bytes_item(current) + uint_item(2) + bytes_item(known)
}

/// Reads the entries of the record at `pos`.
fn read_fields(data: &[u8], pos: usize) -> (r: Result<Vec<Entry>, DecodeError>)
    ensures
        match r {
            Ok(f) => fields_at(data@, pos as int) == Ok::<Seq<(u64, ValueView)>, DecodeError>(
                crate::wire::views(f@),
            ),
            Err(e) => fields_at(data@, pos as int) == Err::<Seq<(u64, ValueView)>, DecodeError>(e),
        },
{
    match read_record(data, pos) {
        Some((fields, _)) => Ok(fields),
        None => Err(DecodeError::Malformed),
    }
}

impl CreateResponse {
    /// Reads the structure from the record at `pos`.
    pub fn decode(data: &[u8], pos: usize) -> (r: Result<Self, DecodeError>)
        ensures
            decoded(r, create_response_at(data@, pos as int)),
    {
        let f: Vec<Entry> = match read_fields(data, pos) {
            Ok(f) => f,
            Err(e) => {
                return Err(e);
            },
        };
        let identity: Vec<u8> = match take_bytes(&f, 1) {
            Ok(v) => v,
            Err(e) => {
                return Err(e);
            },
        };
        let identifier: String = match take_text(&f, 2) {
            Ok(v) => v,
            Err(e) => {
                return Err(e);
            },
        };
        Ok(CreateResponse { identity, identifier })
    }

    /// Appends the structure to `buf`.
    pub fn encode(&self, buf: &mut Vec<u8>)
        ensures
            final(buf)@ == old(buf)@ + create_response_bytes(self.identity@, self.identifier@),
    {
        put_map(buf, 2);
        put_uint(buf, 1);
        put_bytes(buf, self.identity.as_slice());
        put_uint(buf, 2);
        put_text(buf, self.identifier.as_str());
        assert(buf@ =~= old(buf)@ + create_response_bytes(self.identity@, self.identifier@));
    }
}

impl ValidateIdentityChangeHistoryRequest {
    /// Reads the structure from the record at `pos`.
    pub fn decode(data: &[u8], pos: usize) -> (r: Result<Self, DecodeError>)
        ensures
            decoded(r, validate_request_at(data@, pos as int)),
    {
        let f: Vec<Entry> = match read_fields(data, pos) {
            Ok(f) => f,
            Err(e) => {
                return Err(e);
            },
        };
        match take_bytes(&f, 1) {
            Ok(identity) => Ok(ValidateIdentityChangeHistoryRequest { identity }),
            Err(e) => Err(e),
        }
    }

    /// Appends the structure to `buf`.
    pub fn encode(&self, buf: &mut Vec<u8>)
        ensures
            final(buf)@ == old(buf)@ + validate_request_bytes(self.identity@),
    {
        put_map(buf, 1);
        put_uint(buf, 1);
        put_bytes(buf, self.identity.as_slice());
        assert(buf@ =~= old(buf)@ + validate_request_bytes(self.identity@));
    }
}

impl ValidateIdentityChangeHistoryResponse {
    /// Reads the structure from the record at `pos`.
    pub fn decode(data: &[u8], pos: usize) -> (r: Result<Self, DecodeError>)
        ensures
            decoded(r, validate_response_at(data@, pos as int)),
    {
        let f: Vec<Entry> = match read_fields(data, pos) {
            Ok(f) => f,
            Err(e) => {
                return Err(e);
            },
        };
        match take_text(&f, 1) {
            Ok(identifier) => Ok(ValidateIdentityChangeHistoryResponse { identifier }),
            Err(e) => Err(e),
        }
    }

    /// Appends the structure to `buf`.
    pub fn encode(&self, buf: &mut Vec<u8>)
        ensures
            final(buf)@ == old(buf)@ + validate_response_bytes(self.identifier@),
    {
        put_map(buf, 1);
        put_uint(buf, 1);
        put_text(buf, self.identifier.as_str());
        assert(buf@ =~= old(buf)@ + validate_response_bytes(self.identifier@));
    }
}

impl CreateSignatureRequest {
    /// Reads the structure from the record at `pos`.
    pub fn decode(data: &[u8], pos: usize) -> (r: Result<Self, DecodeError>)
        ensures
            decoded(r, sign_request_at(data@, pos as int)),
    {
        let f: Vec<Entry> = match read_fields(data, pos) {
            Ok(f) => f,
            Err(e) => {
                return Err(e);
            },
        };
        let identity: Vec<u8> = match take_bytes(&f, 1) {
            Ok(v) => v,
            Err(e) => {
                return Err(e);
            },
        };
        let data_field: Vec<u8> = match take_bytes(&f, 2) {
            Ok(v) => v,
            Err(e) => {
                return Err(e);
            },
        };
        let vault_name: Option<String> = match take_optional_text(&f, 3) {
            Ok(v) => v,
            Err(e) => {
                return Err(e);
            },
        };
        Ok(CreateSignatureRequest { identity, data: data_field, vault_name })
    }

    /// Appends the structure to `buf`.
    pub fn encode(&self, buf: &mut Vec<u8>)
        ensures
            final(buf)@ == old(buf)@ + sign_request_bytes(self@.0, self@.1, self@.2),
    {
        put_map(buf, if self.vault_name.is_some() { 3 } else { 2 });
        put_uint(buf, 1);
        put_bytes(buf, self.identity.as_slice());
        put_uint(buf, 2);
        put_bytes(buf, self.data.as_slice());
        match &self.vault_name {
            Some(name) => {
                put_uint(buf, 3);
                put_text(buf, name.as_str());
            },
            None => {},
        }
        assert(buf@ =~= old(buf)@ + sign_request_bytes(self@.0, self@.1, self@.2));
    }
}

impl CreateSignatureResponse {
    /// Reads the structure from the record at `pos`.
    pub fn decode(data: &[u8], pos: usize) -> (r: Result<Self, DecodeError>)
        ensures
            decoded(r, sign_response_at(data@, pos as int)),
    {
        let f: Vec<Entry> = match read_fields(data, pos) {
            Ok(f) => f,
            Err(e) => {
                return Err(e);
            },
        };
        match take_bytes(&f, 1) {
            Ok(signature) => Ok(CreateSignatureResponse { signature }),
            Err(e) => Err(e),
        }
    }

    /// Appends the structure to `buf`.
    pub fn encode(&self, buf: &mut Vec<u8>)
        ensures
            final(buf)@ == old(buf)@ + sign_response_bytes(self.signature@),
    {
        put_map(buf, 1);
        put_uint(buf, 1);
        put_bytes(buf, self.signature.as_slice());
        assert(buf@ =~= old(buf)@ + sign_response_bytes(self.signature@));
    }
}

impl VerifySignatureRequest {
    /// Reads the structure from the record at `pos`.
    pub fn decode(data: &[u8], pos: usize) -> (r: Result<Self, DecodeError>)
        ensures
            decoded(r, verify_request_at(data@, pos as int)),
    {
        let f: Vec<Entry> = match read_fields(data, pos) {
            Ok(f) => f,
            Err(e) => {
                return Err(e);
            },
        };
        let signer_identity: Vec<u8> = match take_bytes(&f, 1) {
            Ok(v) => v,
            Err(e) => {
                return Err(e);
            },
        };
        let data_field: Vec<u8> = match take_bytes(&f, 2) {
            Ok(v) => v,
            Err(e) => {
                return Err(e);
            },
        };
        let signature: Vec<u8> = match take_bytes(&f, 3) {
            Ok(v) => v,
            Err(e) => {
                return Err(e);
            },
        };
        Ok(VerifySignatureRequest { signer_identity, data: data_field, signature })
    }

    /// Appends the structure to `buf`.
    pub fn encode(&self, buf: &mut Vec<u8>)
        ensures
            final(buf)@ == old(buf)@ + verify_request_bytes(
                self.signer_identity@,
                self.data@,
                self.signature@,
            ),
    {
        put_map(buf, 3);
        put_uint(buf, 1);
        put_bytes(buf, self.signer_identity.as_slice());
        put_uint(buf, 2);
        put_bytes(buf, self.data.as_slice());
        put_uint(buf, 3);
        put_bytes(buf, self.signature.as_slice());
        assert(buf@ =~= old(buf)@ + verify_request_bytes(
            self.signer_identity@,
            self.data@,
            self.signature@,
        ));
    }
}

impl VerifySignatureResponse {
    /// Reads the structure from the record at `pos`.
    pub fn decode(data: &[u8], pos: usize) -> (r: Result<Self, DecodeError>)
        ensures
            match r {
                Ok(v) => verify_response_at(data@, pos as int) == Ok::<bool, DecodeError>(
                    v.verified,
                ),
                Err(e) => verify_response_at(data@, pos as int) == Err::<bool, DecodeError>(e),
            },
    {
        let f: Vec<Entry> = match read_fields(data, pos) {
            Ok(f) => f,
            Err(e) => {
                return Err(e);
            },
        };
        match take_bool(&f, 1) {
            Ok(verified) => Ok(VerifySignatureResponse { verified }),
            Err(e) => Err(e),
        }
    }

    /// Appends the structure to `buf`.
    pub fn encode(&self, buf: &mut Vec<u8>)
        ensures
            final(buf)@ == old(buf)@ + verify_response_bytes(self.verified),
    {
        put_map(buf, 1);
        put_uint(buf, 1);
        put_bool(buf, self.verified);
        assert(buf@ =~= old(buf)@ + verify_response_bytes(self.verified));
    }
}

impl CompareIdentityChangeHistoryRequest {
    /// Reads the structure from the record at `pos`.
    pub fn decode(data: &[u8], pos: usize) -> (r: Result<Self, DecodeError>)
        ensures
            decoded(r, compare_request_at(data@, pos as int)),
    {
        let f: Vec<Entry> = match read_fields(data, pos) {
            Ok(f) => f,
            Err(e) => {
                return Err(e);
            },
        };
        let current_identity: Vec<u8> = match take_bytes(&f, 1) {
            Ok(v) => v,
            Err(e) => {
                return Err(e);
            },
        };
        let known_identity: Vec<u8> = match take_bytes(&f, 2) {
            Ok(v) => v,
            Err(e) => {
                return Err(e);
            },
        };
        Ok(CompareIdentityChangeHistoryRequest { current_identity, known_identity })
    }

    /// Appends the structure to `buf`.
    pub fn encode(&self, buf: &mut Vec<u8>)
        ensures
            final(buf)@ == old(buf)@ + compare_request_bytes(
                self.current_identity@,
                self.known_identity@,
            ),
    {
        put_map(buf, 2);
        put_uint(buf, 1);
        put_bytes(buf, self.current_identity.as_slice());
        put_uint(buf, 2);
        put_bytes(buf, self.known_identity.as_slice());
        assert(buf@ =~= old(buf)@ + compare_request_bytes(
            self.current_identity@,
            self.known_identity@,
        ));
    }
}

} // verus!
