//! The two report queries. Each one is an authorization check followed by one
//! call to a peer service, which the host makes; what the call brings back
//! becomes the query's result through [`CallOutcome::into_result`].
//!
//! [`CallOutcome::into_result`]: crate::forward::CallOutcome::into_result

use crate::forward::{call_failed_message, PeerCall, PeerDirectory, CALL_FAILED_PREFIX};
use crate::gate::{authorizes, check_outcome, AuthorizationGate, NOT_AUTHORIZED, NO_AUTHORITY};
use crate::identity::Identity;
use candid::Nat;
use vstd::prelude::*;

verus! {

/// The operation that both peer services offer to this service.
pub const REPORTING_METHOD: &'static str = "getTransactionsForReporting";

/// `call` asks `canister` for the records of `subject`, at most `limit` of
/// them where a limit is given.
pub open spec fn is_report_call(
    call: PeerCall,
    canister: Seq<u8>,
    subject: Seq<u8>,
    limit: Option<Nat>,
) -> bool {
    &&& call.canister@ == canister
    &&& call.method@ == REPORTING_METHOD@
    &&& call.arguments.0@ == subject
    &&& call.arguments.1 == limit
}

/// The authorization check, then the call to `canister`: a caller that does
/// not pass is answered at once, and no call is named.
fn report_query(
    gate: &AuthorizationGate,
    caller: &Identity,
    canister: &Identity,
    subject: Identity,
    limit: Option<Nat>,
) -> (r: Result<PeerCall, String>)
    ensures
        r is Ok <==> authorizes(gate@, caller@),
        match r {
            Ok(call) => is_report_call(call, canister@, subject@, limit),
            Err(message) => check_outcome(gate@, caller@) == Err::<(), Seq<char>>(message@),
        },
{
    match gate.assert_authorized(caller) {
        Ok(_) => Ok(
            PeerCall {
                canister: canister.clone(),
                method: REPORTING_METHOD.to_owned(),
                arguments: (subject, limit),
            },
        ),
        Err(message) => Err(message),
    }
}

/// The movements on the wallet of `worker_id`. A caller that holds the
/// authority gets the one call to make, to the wallets service; any other
/// caller gets the denial, and no call is made.
pub fn get_all_worker_transactions(
    gate: &AuthorizationGate,
    peers: &PeerDirectory,
    caller: &Identity,
    worker_id: Identity,
    limit: Option<Nat>,
) -> (r: Result<PeerCall, String>)
    ensures
        r is Ok <==> authorizes(gate@, caller@),
        match r {
            Ok(call) => is_report_call(call, peers.wallets@, worker_id@, limit),
            Err(message) => check_outcome(gate@, caller@) == Err::<(), Seq<char>>(message@),
        },
{
    report_query(gate, caller, &peers.wallets, worker_id, limit)
}

/// The payments taken by `establishment_id`. A caller that holds the
/// authority gets the one call to make, to the establishment service; any
/// other caller gets the denial, and no call is made.
pub fn get_all_establishment_transactions(
    gate: &AuthorizationGate,
    peers: &PeerDirectory,
    caller: &Identity,
    establishment_id: Identity,
    limit: Option<Nat>,
) -> (r: Result<PeerCall, String>)
    ensures
        r is Ok <==> authorizes(gate@, caller@),
        match r {
            Ok(call) => is_report_call(call, peers.establishment@, establishment_id@, limit),
            Err(message) => check_outcome(gate@, caller@) == Err::<(), Seq<char>>(message@),
        },
{
    report_query(gate, caller, &peers.establishment, establishment_id, limit)
}

/// A denial of the authorization check never reads like a transport
/// failure: a caller can tell the two apart by the fixed prefix.
pub proof fn lemma_denial_is_no_call_failure(
    slot: Option<Seq<u8>>,
    caller: Seq<u8>,
    diagnostic: Seq<char>,
)
    ensures
        check_outcome(slot, caller) matches Err(message) ==> !CALL_FAILED_PREFIX@.is_prefix_of(
            message,
        ) && message != call_failed_message(diagnostic),
{
    reveal_strlit("Call failed: ");
    reveal_strlit("Unauthorized access: Caller is not the authorized entity.");
    reveal_strlit("Unauthorized access: No authorized caller set.");
    assert(CALL_FAILED_PREFIX@[0] == 'C');
    assert(NOT_AUTHORIZED@[0] == 'U');
    assert(NO_AUTHORITY@[0] == 'U');
    assert(call_failed_message(diagnostic)[0] == 'C');
}

} // verus!
