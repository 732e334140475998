//! Caller identities: opaque byte tokens of at most 29 bytes.

use candid::types::principal::PrincipalError;
use vstd::prelude::*;
use vstd::std_specs::cmp::PartialEqSpecImpl;

verus! {

/// The longest identity, in bytes.
pub const MAX_IDENTITY_BYTES: usize = 29;

/// Why a value is not an identity.
#[derive(Clone, Copy, Debug, PartialEq, Eq, Structural)]
pub enum IdentityError {
    /// More than [`MAX_IDENTITY_BYTES`] bytes.
    TooLong,
    /// The text is not the textual form of any identity.
    InvalidText,
}

/// An opaque token that names a caller or a service.
#[derive(Debug)]
pub struct Identity {
    bytes: Vec<u8>,
}

impl View for Identity {
    type V = Seq<u8>;

    closed spec fn view(&self) -> Seq<u8> {
        self.bytes@
    }
}

/// The bytes of an optional identity.
pub open spec fn identity_view(identity: Option<Identity>) -> Option<Seq<u8>> {
    match identity {
        Some(i) => Some(i@),
        None => None,
    }
}

impl Identity {
    #[verifier::type_invariant]
    spec fn within_limit(self) -> bool {
        self.bytes@.len() <= MAX_IDENTITY_BYTES
    }

    /// The identity made of `bytes`, if there are at most 29 of them.
    pub fn from_bytes(bytes: Vec<u8>) -> (r: Result<Identity, IdentityError>)
        ensures
            bytes@.len() <= MAX_IDENTITY_BYTES ==> r is Ok && r->Ok_0@ == bytes@,
            bytes@.len() > MAX_IDENTITY_BYTES ==> r == Err::<Identity, IdentityError>(
                IdentityError::TooLong,
            ),
    {
        if bytes.len() <= MAX_IDENTITY_BYTES {
            Ok(Identity { bytes })
        } else {
            Err(IdentityError::TooLong)
        }
    }

    /// The identity that a decoded text stands for: the decoded bytes, or
    /// the reason why there is none.
    pub fn from_decoded(decoded: Result<Vec<u8>, PrincipalError>) -> (r: Result<
        Identity,
        IdentityError,
    >)
        ensures
            match decoded {
                Ok(bytes) => if bytes@.len() <= MAX_IDENTITY_BYTES {
                    r is Ok && r->Ok_0@ == bytes@
                } else {
                    r == Err::<Identity, IdentityError>(IdentityError::TooLong)
                },
                Err(_) => r == Err::<Identity, IdentityError>(IdentityError::InvalidText),
            },
    {
        match decoded {
            Ok(bytes) => Identity::from_bytes(bytes),
            Err(_) => Err(IdentityError::InvalidText),
        }
    }

    /// Reads an identity from its textual form, the dash-separated base32
    /// text that `candid::Principal::from_text` accepts.
    pub fn from_text(text: &str) -> (r: Result<Identity, IdentityError>)
        ensures
            match principal_text_bytes(text@) {
                Some(bytes) => r is Ok && r->Ok_0@ == bytes,
                None => r == Err::<Identity, IdentityError>(IdentityError::InvalidText),
            },
    {
        Identity::from_decoded(principal_from_text(text))
    }

    /// The bytes of this identity.
    pub fn as_slice(&self) -> (r: &[u8])
        ensures
            r@ == self@,
            r@.len() <= MAX_IDENTITY_BYTES,
    {
        proof {
            use_type_invariant(self);
        }
        self.bytes.as_slice()
    }

    /// Whether two identities are the same token.
    pub fn same_as(&self, other: &Identity) -> (r: bool)
        ensures
            r == (self@ == other@),
    {
        if self.bytes.len() != other.bytes.len() {
            return false;
        }
        let n: usize = self.bytes.len();
        let mut i: usize = 0;
        while i < n
            invariant
                n == self.bytes@.len(),
                n == other.bytes@.len(),
                i <= n,
                forall|j: int| 0 <= j < i ==> self.bytes@[j] == other.bytes@[j],
            decreases n - i,
        {
            if self.bytes[i] != other.bytes[i] {
                return false;
            }
            i = i + 1;
        }
        assert(self.bytes@ =~= other.bytes@);
        true
    }
}

/// `candid::types::principal::PrincipalError`, the reason why a text is not
/// a principal. Opaque here: it is only ever taken for "no identity".
#[verifier::external_type_specification]
#[verifier::external_body]
pub struct ExPrincipalError(PrincipalError);

/// The bytes that `candid::Principal::from_text` reads out of `text`, or
/// `None` where it rejects the text.
pub uninterp spec fn principal_text_bytes(text: Seq<char>) -> Option<Seq<u8>>;

/// Calls `candid::Principal::from_text` and hands out the bytes of the
/// principal it returns. Trusted: the outcome depends on the text alone, and
/// a principal never holds more than 29 bytes.
#[verifier::external_body]
fn principal_from_text(text: &str) -> (r: Result<Vec<u8>, PrincipalError>)
    ensures
        match r {
            Ok(bytes) => principal_text_bytes(text@) == Some(bytes@) && bytes@.len()
                <= MAX_IDENTITY_BYTES,
            Err(_) => principal_text_bytes(text@) is None,
        },
{
    match candid::Principal::from_text(text) {
        Ok(principal) => Ok(principal.as_slice().to_vec()),
        Err(e) => Err(e),
    }
}

impl Clone for Identity {
    fn clone(&self) -> (r: Identity)
        ensures
            r@ == self@,
    {
        proof {
            use_type_invariant(self);
        }
        Identity { bytes: self.bytes.clone() }
    }
}

impl PartialEq for Identity {
    fn eq(&self, other: &Identity) -> (r: bool) {
        self.same_as(other)
    }
}

impl Eq for Identity {

}

impl PartialEqSpecImpl for Identity {
    open spec fn obeys_eq_spec() -> bool {
        true
    }

    open spec fn eq_spec(&self, other: &Identity) -> bool {
        self@ == other@
    }
}

} // verus!
