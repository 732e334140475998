//! The remote call forwarder: what one call to a peer service looks like,
//! and how what came back becomes the caller's result.
//!
//! The call itself is made by the host. The forwarder names the call and
//! turns its outcome into a result; it never retries and never makes a
//! second call.

use crate::identity::{principal_text_bytes, Identity, IdentityError};
use candid::Nat;
use vstd::prelude::*;

verus! {

/// The textual address of the wallets service.
pub const WALLETS_CANISTER: &'static str = "ucwa4-rx777-77774-qaada-cai";

/// The textual address of the establishment service.
pub const ESTABLISHMENT_CANISTER: &'static str = "uzt4z-lp777-77774-qaabq-cai";

/// Why the transport refused a call or gave it up.
#[derive(Clone, Copy, Debug, PartialEq, Eq, Structural)]
pub enum RejectionCode {
    NoError,
    SysFatal,
    SysTransient,
    DestinationInvalid,
    CanisterReject,
    CanisterError,
    Unknown,
}

/// The text that `{:?}` prints for the pair of a rejection code of `ic_cdk`
/// and a message.
pub uninterp spec fn rejection_debug(code: RejectionCode, message: Seq<char>) -> Seq<char>;

/// Turns `code` into the `ic_cdk::api::call::RejectionCode` of the same name
/// and formats the pair of that code and `message` with `{:?}`, as `Debug`
/// of that enum and of std's tuples and strings prints it. Trusted: the
/// text depends on the code and the message alone.
#[verifier::external_body]
fn debug_rejection(code: RejectionCode, message: &str) -> (r: String)
    ensures
        r@ == rejection_debug(code, message@),
{
    let code = match code {
        RejectionCode::NoError => ic_cdk::api::call::RejectionCode::NoError,
        RejectionCode::SysFatal => ic_cdk::api::call::RejectionCode::SysFatal,
        RejectionCode::SysTransient => ic_cdk::api::call::RejectionCode::SysTransient,
        RejectionCode::DestinationInvalid => ic_cdk::api::call::RejectionCode::DestinationInvalid,
        RejectionCode::CanisterReject => ic_cdk::api::call::RejectionCode::CanisterReject,
        RejectionCode::CanisterError => ic_cdk::api::call::RejectionCode::CanisterError,
        RejectionCode::Unknown => ic_cdk::api::call::RejectionCode::Unknown,
    };
    format!("{:?}", (code, message))
}

/// What every transport failure begins with.
pub const CALL_FAILED_PREFIX: &'static str = "Call failed: ";

/// The error string for a transport failure with the given diagnostic.
pub open spec fn call_failed_message(diagnostic: Seq<char>) -> Seq<char> {
    CALL_FAILED_PREFIX@ + diagnostic
}

/// The addresses of the two peer services.
#[derive(Debug, PartialEq, Eq)]
pub struct PeerDirectory {
    pub wallets: Identity,
    pub establishment: Identity,
}

impl PeerDirectory {
    /// The directory of the two well-known addresses, if both texts are
    /// textual forms of identities.
    pub fn well_known() -> (r: Result<PeerDirectory, IdentityError>)
        ensures
            match (
                principal_text_bytes(WALLETS_CANISTER@),
                principal_text_bytes(ESTABLISHMENT_CANISTER@),
            ) {
                (Some(wallets), Some(establishment)) => r is Ok && r->Ok_0.wallets@ == wallets
                    && r->Ok_0.establishment@ == establishment,
                _ => r == Err::<PeerDirectory, IdentityError>(IdentityError::InvalidText),
            },
    {
        match Identity::from_text(WALLETS_CANISTER) {
            Ok(wallets) => match Identity::from_text(ESTABLISHMENT_CANISTER) {
                Ok(establishment) => Ok(PeerDirectory { wallets, establishment }),
                Err(e) => Err(e),
            },
            Err(e) => Err(e),
        }
    }
}

/// One call to a peer service: where it goes, which operation it asks for,
/// and the arguments, in order.
#[derive(Debug, PartialEq, Eq)]
pub struct PeerCall {
    pub canister: Identity,
    pub method: String,
    pub arguments: (Identity, Option<Nat>),
}

/// What one call to a peer service brought back.
#[derive(Debug, PartialEq, Eq)]
pub enum CallOutcome<T> {
    /// The peer answered, with its records or with an error of its own.
    Reply(Result<Vec<T>, String>),
    /// The call did not go through, or its reply could not be read.
    Rejected(RejectionCode, String),
}

/// The error string for a transport failure with the given diagnostic.
pub fn call_failed(diagnostic: &str) -> (r: String)
    ensures
        r@ == call_failed_message(diagnostic@),
{
    let mut message = CALL_FAILED_PREFIX.to_owned();
    message.append(diagnostic);
    message
}

impl<T> CallOutcome<T> {
    /// The caller's result: what the peer answered, unchanged, or the
    /// transport's rejection, printed behind a fixed prefix.
    pub fn into_result(self) -> (r: Result<Vec<T>, String>)
        ensures
            match self {
                CallOutcome::Reply(reply) => r == reply,
                CallOutcome::Rejected(code, message) => r matches Err(error) && error@
                    == call_failed_message(rejection_debug(code, message@)),
            },
    {
        match self {
            CallOutcome::Reply(reply) => reply,
            CallOutcome::Rejected(code, message) => {
                let diagnostic = debug_rejection(code, message.as_str());
                Err(call_failed(diagnostic.as_str()))
            },
        }
    }
}

/// A transport failure always begins with the fixed prefix, so an error
/// string that does not begin with it is never the result of one.
pub proof fn lemma_call_failure_is_marked(diagnostic: Seq<char>, other: Seq<char>)
    ensures
        CALL_FAILED_PREFIX@.is_prefix_of(call_failed_message(diagnostic)),
        !CALL_FAILED_PREFIX@.is_prefix_of(other) ==> other != call_failed_message(diagnostic),
{
    assert(call_failed_message(diagnostic).subrange(0, CALL_FAILED_PREFIX@.len() as int)
        =~= CALL_FAILED_PREFIX@);
}

} // verus!
