//! The authorization gate: a single slot that names the one identity allowed
//! to ask for reports and to hand that right on.
//!
//! A gate is modelled by its slot, an `Option<Seq<u8>>`: `None` while no
//! authority is configured, otherwise the bytes of the authorized identity.

use crate::identity::{identity_view, Identity};
use vstd::prelude::*;

verus! {

/// What a caller is told when another identity holds the authority.
pub const NOT_AUTHORIZED: &'static str =
    "Unauthorized access: Caller is not the authorized entity.";

/// What a caller is told while no authority is configured.
pub const NO_AUTHORITY: &'static str = "Unauthorized access: No authorized caller set.";

/// Why a refused transfer ends the invocation.
pub const TRANSFER_REFUSED: &'static str =
    "Unauthorized: Only current authorized caller can set a new one.";

/// The slot of a service that `caller` has just started.
pub open spec fn after_init(caller: Seq<u8>) -> Option<Seq<u8>> {
    Some(caller)
}

/// `caller` holds the authority.
pub open spec fn authorizes(slot: Option<Seq<u8>>, caller: Seq<u8>) -> bool {
    slot == Some(caller)
}

/// The answer of an authorization check: `Ok`, or the message of the denial.
pub open spec fn check_outcome(slot: Option<Seq<u8>>, caller: Seq<u8>) -> Result<(), Seq<char>> {
    match slot {
        None => Err(NO_AUTHORITY@),
        Some(authorized) => if authorized == caller {
            Ok(())
        } else {
            Err(NOT_AUTHORIZED@)
        },
    }
}

/// `caller` may hand the authority on: it holds it, or nobody does yet.
pub open spec fn may_transfer(slot: Option<Seq<u8>>, caller: Seq<u8>) -> bool {
    slot is None || slot == Some(caller)
}

/// The slot after `caller` asked to hand the authority to `new_caller`:
/// a refused request leaves it as it was.
pub open spec fn after_transfer(
    slot: Option<Seq<u8>>,
    caller: Seq<u8>,
    new_caller: Seq<u8>,
) -> Option<Seq<u8>> {
    if may_transfer(slot, caller) {
        Some(new_caller)
    } else {
        slot
    }
}

/// The signal that an invocation must end at once, without a result.
#[derive(Debug, PartialEq, Eq)]
pub struct Abort {
    pub reason: String,
}

/// The owner of the authorized-caller slot.
#[derive(Debug)]
pub struct AuthorizationGate {
    authorized_caller: Option<Identity>,
}

impl View for AuthorizationGate {
    type V = Option<Seq<u8>>;

    closed spec fn view(&self) -> Option<Seq<u8>> {
        identity_view(self.authorized_caller)
    }
}

impl AuthorizationGate {
    /// A gate with no authority configured.
    pub fn new() -> (gate: AuthorizationGate)
        ensures
            gate@ is None,
    {
        AuthorizationGate { authorized_caller: None }
    }

    /// A gate for the service that `caller` starts: `caller` holds the
    /// authority. The three service references are accepted and not kept.
    pub fn init(
        caller: Identity,
        _auth_canister_id: &Identity,
        _wallets_canister_id: &Identity,
        _establishment_canister_id: &Identity,
    ) -> (gate: AuthorizationGate)
        ensures
            gate@ == after_init(caller@),
    {
        AuthorizationGate { authorized_caller: Some(caller) }
    }

    /// The identity that holds the authority, if any.
    pub fn authorized_caller(&self) -> (r: Option<&Identity>)
        ensures
            match r {
                Some(identity) => self@ == Some(identity@),
                None => self@ is None,
            },
    {
        self.authorized_caller.as_ref()
    }

    /// Whether `caller` may hand the authority on.
    pub fn can_set_authorized_caller(&self, caller: &Identity) -> (r: bool)
        ensures
            r == may_transfer(self@, caller@),
    {
        match &self.authorized_caller {
            Some(authorized) => authorized.same_as(caller),
            None => true,
        }
    }

    /// Hands the authority to `new_authorized_caller`. On an unset gate the
    /// caller first claims the authority for itself and then hands it on.
    pub fn set_authorized_caller(&mut self, caller: &Identity, new_authorized_caller: Identity)
        requires
            may_transfer(old(self)@, caller@),
        ensures
            final(self)@ == Some(new_authorized_caller@),
            final(self)@ == after_transfer(old(self)@, caller@, new_authorized_caller@),
    {
        if self.authorized_caller.is_none() {
            self.authorized_caller = Some(caller.clone());
        }
        self.authorized_caller = Some(new_authorized_caller);
    }

    /// Hands the authority to `new_authorized_caller` if `caller` may do so.
    /// Otherwise nothing changes and the invocation must be aborted.
    pub fn try_set_authorized_caller(
        &mut self,
        caller: &Identity,
        new_authorized_caller: Identity,
    ) -> (r: Result<(), Abort>)
        ensures
            final(self)@ == after_transfer(old(self)@, caller@, new_authorized_caller@),
            r is Ok <==> may_transfer(old(self)@, caller@),
            r matches Err(abort) ==> abort.reason@ == TRANSFER_REFUSED@,
    {
        if self.can_set_authorized_caller(caller) {
            self.set_authorized_caller(caller, new_authorized_caller);
            Ok(())
        } else {
            Err(Abort { reason: TRANSFER_REFUSED.to_owned() })
        }
    }

    /// Lets `caller` pass if it holds the authority, and says why not
    /// otherwise. Nothing is changed.
    pub fn assert_authorized(&self, caller: &Identity) -> (r: Result<(), String>)
        ensures
            r is Ok <==> authorizes(self@, caller@),
            match r {
                Ok(_) => check_outcome(self@, caller@) is Ok,
                Err(message) => check_outcome(self@, caller@) == Err::<(), Seq<char>>(message@),
            },
    {
        match &self.authorized_caller {
            Some(authorized) => {
                if authorized.same_as(caller) {
                    Ok(())
                } else {
                    Err(NOT_AUTHORIZED.to_owned())
                }
            },
            None => Err(NO_AUTHORITY.to_owned()),
        }
    }
}

/// One request to a gate, as the model sees it.
pub enum GateRequest {
    /// An authorization check on behalf of `caller`.
    Check { caller: Seq<u8> },
    /// A request by `caller` to hand the authority to `new_caller`.
    Transfer { caller: Seq<u8>, new_caller: Seq<u8> },
}

/// The slot after one request: only a transfer can change it.
pub open spec fn after_request(slot: Option<Seq<u8>>, request: GateRequest) -> Option<Seq<u8>> {
    match request {
        GateRequest::Check { .. } => slot,
        GateRequest::Transfer { caller, new_caller } => after_transfer(slot, caller, new_caller),
    }
}

/// The slot after a run of requests, taken in order.
pub open spec fn after_requests(slot: Option<Seq<u8>>, requests: Seq<GateRequest>) -> Option<
    Seq<u8>,
>
    decreases requests.len(),
{
    if requests.len() == 0 {
        slot
    } else {
        after_request(after_requests(slot, requests.drop_last()), requests.last())
    }
}

/// The two denials of a check are different messages, and neither is the
/// reason given for a refused transfer.
pub proof fn lemma_messages_differ()
    ensures
        NOT_AUTHORIZED@ != NO_AUTHORITY@,
        NOT_AUTHORIZED@ != TRANSFER_REFUSED@,
        NO_AUTHORITY@ != TRANSFER_REFUSED@,
{
    reveal_strlit("Unauthorized access: Caller is not the authorized entity.");
    reveal_strlit("Unauthorized access: No authorized caller set.");
    reveal_strlit("Unauthorized: Only current authorized caller can set a new one.");
    assert(NOT_AUTHORIZED@.len() == 57);
    assert(NO_AUTHORITY@.len() == 46);
    assert(TRANSFER_REFUSED@.len() == 63);
}

/// Right after `caller` started the service, a check passes for `caller`;
/// any other identity is told that it is not the authorized one, which is
/// not what it would hear from an unset gate.
pub proof fn lemma_init_authorizes_initializer_only(caller: Seq<u8>, other: Seq<u8>)
    requires
        other != caller,
    ensures
        check_outcome(after_init(caller), caller) is Ok,
        check_outcome(after_init(caller), other) == Err::<(), Seq<char>>(NOT_AUTHORIZED@),
        check_outcome(after_init(caller), other) != check_outcome(None, other),
{
    lemma_messages_differ();
}

/// When the holder of the authority hands it to `new_caller`, a check then
/// passes for `new_caller`, and fails for the previous holder unless the two
/// are the same identity.
pub proof fn lemma_transfer_by_authority(
    slot: Option<Seq<u8>>,
    previous: Seq<u8>,
    new_caller: Seq<u8>,
)
    requires
        authorizes(slot, previous),
    ensures
        may_transfer(slot, previous),
        check_outcome(after_transfer(slot, previous, new_caller), new_caller) is Ok,
        new_caller != previous ==> check_outcome(
            after_transfer(slot, previous, new_caller),
            previous,
        ) == Err::<(), Seq<char>>(NOT_AUTHORIZED@),
{
}

/// A transfer asked for by anyone but the holder of the authority is
/// refused and leaves the slot as it was: a check still passes for the
/// holder.
pub proof fn lemma_refused_transfer_changes_nothing(
    slot: Option<Seq<u8>>,
    authority: Seq<u8>,
    caller: Seq<u8>,
    new_caller: Seq<u8>,
)
    requires
        authorizes(slot, authority),
        caller != authority,
    ensures
        !may_transfer(slot, caller),
        after_transfer(slot, caller, new_caller) == slot,
        check_outcome(after_transfer(slot, caller, new_caller), authority) is Ok,
{
}

/// On an unset gate any caller may ask for a transfer, and the slot ends as
/// the target, not as the caller: a check then passes for the target, and
/// fails for the caller unless the two are the same identity.
pub proof fn lemma_transfer_on_unset_gate(caller: Seq<u8>, new_caller: Seq<u8>)
    ensures
        may_transfer(None, caller),
        after_transfer(None, caller, new_caller) == Some(new_caller),
        check_outcome(after_transfer(None, caller, new_caller), new_caller) is Ok,
        caller != new_caller ==> check_outcome(
            after_transfer(None, caller, new_caller),
            caller,
        ) == Err::<(), Seq<char>>(NOT_AUTHORIZED@),
{
}

/// However many checks are made, the slot keeps its value as long as no
/// transfer comes between them.
pub proof fn lemma_checks_keep_slot(slot: Option<Seq<u8>>, requests: Seq<GateRequest>)
    requires
        forall|i: int| 0 <= i < requests.len() ==> requests[i] is Check,
    ensures
        after_requests(slot, requests) == slot,
    decreases requests.len(),
{
    if requests.len() > 0 {
        lemma_checks_keep_slot(slot, requests.drop_last());
    }
}

} // verus!
