//! Security headers, as values and by their encoded length.

use vstd::prelude::*;
use crate::types::ByteString;
use crate::types::UAString;

verus! {

/// The security header of the chunks on an open channel.
#[derive(Debug)]
pub struct SymmetricSecurityHeader {
    /// The token under which the chunk is secured.
    pub token_id: u32,
}

impl SymmetricSecurityHeader {
    /// The encoded length of the header: the four bytes of the token id.
    pub open spec fn spec_byte_len(&self) -> nat {
        4
    }

    /// The encoded length of the header.
    pub fn byte_len(&self) -> (n: usize)
        ensures
            n == self.spec_byte_len(),
    {
        4
    }
}

/// The security header of the chunks that open a channel.
#[derive(Debug)]
pub struct AsymmetricSecurityHeader {
    pub security_policy_uri: UAString,
    pub sender_certificate: ByteString,
    pub receiver_certificate_thumbprint: ByteString,
}

impl AsymmetricSecurityHeader {
    /// The header of a channel without security: the URI of the policy
    /// without security, no certificate and no thumbprint.
    pub fn none() -> (header: AsymmetricSecurityHeader)
        ensures
            header.security_policy_uri.value is Some,
            header.security_policy_uri.value->0@
                == "http://opcfoundation.org/UA/SecurityPolicy#None"@,
            header.sender_certificate.value is None,
            header.receiver_certificate_thumbprint.value is None,
            header.spec_byte_len() == 59,
    {
        let uri = "http://opcfoundation.org/UA/SecurityPolicy#None";
        proof {
            reveal_strlit("http://opcfoundation.org/UA/SecurityPolicy#None");
            assert(vstd::utf8::is_ascii_chars(uri@));
            vstd::utf8::is_ascii_chars_encode_utf8(uri@);
        }
        AsymmetricSecurityHeader {
            security_policy_uri: UAString::from_str(uri),
            sender_certificate: ByteString::null(),
            receiver_certificate_thumbprint: ByteString::null(),
        }
    }

    /// The encoded length of the header: its three fields, one after another.
    pub open spec fn spec_byte_len(&self) -> nat {
        self.security_policy_uri.spec_byte_len() + self.sender_certificate.spec_byte_len()
            + self.receiver_certificate_thumbprint.spec_byte_len()
    }

    /// The encoded length of the header.
    pub fn byte_len(&self) -> (n: usize)
        requires
            self.spec_byte_len() <= usize::MAX,
        ensures
            n == self.spec_byte_len(),
    {
        let uri: usize = self.security_policy_uri.byte_len();
        let certificate: usize = self.sender_certificate.byte_len();
        let thumbprint: usize = self.receiver_certificate_thumbprint.byte_len();
        uri + certificate + thumbprint
    }
}

/// The security header of a chunk.
#[derive(Debug)]
pub enum SecurityHeader {
    Asymmetric(AsymmetricSecurityHeader),
    Symmetric(SymmetricSecurityHeader),
}

impl SecurityHeader {
    /// The encoded length of the header.
    pub open spec fn spec_byte_len(&self) -> nat {
        match self {
            SecurityHeader::Asymmetric(header) => header.spec_byte_len(),
            SecurityHeader::Symmetric(header) => header.spec_byte_len(),
        }
    }

    /// The encoded length of the header.
    pub fn byte_len(&self) -> (n: usize)
        requires
            self.spec_byte_len() <= usize::MAX,
        ensures
            n == self.spec_byte_len(),
    {
        match self {
            SecurityHeader::Asymmetric(header) => header.byte_len(),
            SecurityHeader::Symmetric(header) => header.byte_len(),
        }
    }
}

} // verus!
