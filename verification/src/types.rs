//! Basic value types of the protocol that the security layer handles.

use vstd::prelude::*;
use vstd::slice::slice_to_vec;

verus! {

/// The outcome of an operation that failed.
#[derive(Debug, Clone, Copy, PartialEq, Eq, Structural)]
pub enum StatusCode {
    /// An argument does not have the form the operation needs.
    BadInvalidArgument,
    /// The peer's nonce is absent or has the wrong length for the policy.
    BadNonceInvalid,
    /// The signature of a chunk does not match its content.
    BadApplicationSignatureInvalid,
    /// The cipher could not encrypt.
    BadEncodingError,
    /// The cipher could not decrypt, or an encrypted range is not a whole
    /// number of blocks.
    BadDecodingError,
}

/// How the traffic of a channel is protected.
#[derive(Debug, Clone, Copy, PartialEq, Eq, Structural)]
pub enum MessageSecurityMode {
    /// No valid mode. A channel in this mode cannot carry traffic.
    Invalid,
    /// Chunks are sent as they are.
    NoSecurity,
    /// Chunks are signed.
    Sign,
    /// Chunks are signed and encrypted.
    SignAndEncrypt,
}

/// A byte string that may be absent.
#[derive(Debug, Clone)]
pub struct ByteString {
    pub value: Option<Vec<u8>>,
}

impl ByteString {
    /// The absent byte string.
    pub fn null() -> (b: ByteString)
        ensures
            b.value is None,
    {
        ByteString { value: None }
    }

    /// The byte string that holds a copy of `bytes`.
    pub fn from_bytes(bytes: &[u8]) -> (b: ByteString)
        ensures
            b.value is Some,
            b.value->0@ == bytes@,
    {
        ByteString { value: Some(slice_to_vec(bytes)) }
    }

    /// Whether the byte string is absent.
    pub fn is_null(&self) -> (b: bool)
        ensures
            b == (self.value is None),
    {
        self.value.is_none()
    }

    /// The encoded length of the byte string: a length field of four bytes,
    /// then the bytes themselves, if there are any.
    pub open spec fn spec_byte_len(&self) -> nat {
        match self.value {
            Some(v) => 4 + v@.len(),
            None => 4,
        }
    }

    /// The encoded length of the byte string.
    pub fn byte_len(&self) -> (n: usize)
        requires
            self.spec_byte_len() <= usize::MAX,
        ensures
            n == self.spec_byte_len(),
    {
        match &self.value {
            Some(v) => 4 + v.len(),
            None => 4,
        }
    }
}

/// A string that may be absent.
#[derive(Debug, Clone)]
pub struct UAString {
    pub value: Option<String>,
}

impl UAString {
    /// The absent string.
    pub fn null() -> (s: UAString)
        ensures
            s.value is None,
    {
        UAString { value: None }
    }

    /// The string that holds a copy of `text`.
    pub fn from_str(text: &str) -> (s: UAString)
        ensures
            s.value is Some,
            s.value->0@ == text@,
    {
        UAString { value: Some(text.to_owned()) }
    }

    /// The encoded length of the string: a length field of four bytes, then
    /// the text in UTF-8, if there is any.
    pub open spec fn spec_byte_len(&self) -> nat {
        match self.value {
            Some(text) => 4 + vstd::utf8::encode_utf8(text@).len(),
            None => 4,
        }
    }

    /// The encoded length of the string.
    pub fn byte_len(&self) -> (n: usize)
        requires
            self.spec_byte_len() <= usize::MAX,
        ensures
            n == self.spec_byte_len(),
    {
        match &self.value {
            Some(text) => 4 + text.as_str().len(),
            None => 4,
        }
    }
}

/// A point in time: whole seconds since the start of 1970 in UTC, and the
/// nanoseconds into that second.
#[derive(Debug, Clone, Copy, PartialEq, Eq, Structural)]
pub struct DateTime {
    pub seconds: i64,
    pub nanos: u32,
}

/// Reads the clock with `chrono::Utc::now`, and takes the time apart with
/// `timestamp` and `timestamp_subsec_nanos`.
///
/// Believed, not proved: the nanoseconds are fewer than two thousand million,
/// as they are in every time that the crate holds. Nothing is claimed of the
/// time that is read: it is whatever the clock says.
#[verifier::external_body]
fn utc_now() -> (now: DateTime)
    ensures
        now.is_well_formed(),
{
    let now = chrono::Utc::now();
    DateTime { seconds: now.timestamp(), nanos: now.timestamp_subsec_nanos() }
}

impl DateTime {
    /// Whether the time is well formed: the nanoseconds do not reach into the
    /// second after next. From one thousand million on they say that the time
    /// lies in a leap second.
    pub open spec fn is_well_formed(&self) -> bool {
        self.nanos < 2_000_000_000
    }

    /// The current time, as the clock shows it. It is well formed; which time
    /// it is, no contract can say.
    pub fn now() -> (now: DateTime)
        ensures
            now.is_well_formed(),
    {
        utc_now()
    }

    /// The time as nanoseconds since the start of 1970.
    pub open spec fn spec_nanos_since_epoch(&self) -> int {
        self.seconds * 1_000_000_000 + self.nanos
    }

    /// The time as nanoseconds since the start of 1970.
    pub fn nanos_since_epoch(&self) -> (n: i128)
        ensures
            n == self.spec_nanos_since_epoch(),
    {
        (self.seconds as i128) * 1_000_000_000 + (self.nanos as i128)
    }
}

} // verus!
