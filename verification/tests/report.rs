use candid::Nat;
use reporting::{
    get_all_establishment_transactions, get_all_worker_transactions, AuthorizationGate,
    BenefitType, CallOutcome, Identity, PaymentStatus, PaymentTransaction, PeerCall,
    PeerDirectory, RejectionCode, Transaction, TransactionType, UserProfile, UserRole,
};

const NOT_AUTHORIZED: &str = "Unauthorized access: Caller is not the authorized entity.";
const NO_AUTHORITY: &str = "Unauthorized access: No authorized caller set.";

fn who(bytes: &[u8]) -> Identity {
    Identity::from_bytes(bytes.to_vec()).unwrap()
}

fn peers() -> PeerDirectory {
    PeerDirectory { wallets: who(&[201]), establishment: who(&[202]) }
}

fn started_by(caller: &Identity) -> AuthorizationGate {
    AuthorizationGate::init(caller.clone(), &who(&[200]), &who(&[201]), &who(&[202]))
}

fn big_amount() -> Nat {
    Nat::parse(b"340282366920938463463374607431768211456000000000000000001").unwrap()
}

fn movement(id: &str, worker: &Identity, amount: Nat) -> Transaction {
    Transaction {
        id: id.to_string(),
        worker_id: worker.clone(),
        benefit_type: BenefitType::Food,
        transaction_type: TransactionType::Debit,
        amount,
        establishment_id: Some(who(&[77])),
        establishment_name: Some("Corner Bakery".to_string()),
        program_id: None,
        timestamp: 1_700_000_000_000_000_000,
        description: "lunch".to_string(),
    }
}

fn payment(id: &str, establishment: &Identity, amount: Nat) -> PaymentTransaction {
    PaymentTransaction {
        id: id.to_string(),
        status: PaymentStatus::Completed,
        benefit_type: BenefitType::Culture,
        establishment_id: establishment.clone(),
        description: "tickets".to_string(),
        created_at: 1_700_000_000_000_000_000,
        worker_id: who(&[5]),
        processed_at: Some(1_700_000_000_000_000_500),
        amount,
    }
}

/// A peer that counts the calls it gets and always answers the same.
struct FakePeer<T> {
    calls: Vec<PeerCall>,
    reply: Result<Result<Vec<T>, String>, (RejectionCode, String)>,
}

impl<T: Clone> FakePeer<T> {
    fn answering(reply: Result<Result<Vec<T>, String>, (RejectionCode, String)>) -> Self {
        FakePeer { calls: Vec::new(), reply }
    }

    fn call(&mut self, call: PeerCall) -> CallOutcome<T> {
        self.calls.push(call);
        match self.reply.clone() {
            Ok(reply) => CallOutcome::Reply(reply),
            Err((code, message)) => CallOutcome::Rejected(code, message),
        }
    }
}

fn serve_worker_query(
    gate: &AuthorizationGate,
    caller: &Identity,
    worker_id: Identity,
    limit: Option<Nat>,
    peer: &mut FakePeer<Transaction>,
) -> Result<Vec<Transaction>, String> {
    let call = get_all_worker_transactions(gate, &peers(), caller, worker_id, limit)?;
    peer.call(call).into_result()
}

fn serve_establishment_query(
    gate: &AuthorizationGate,
    caller: &Identity,
    establishment_id: Identity,
    limit: Option<Nat>,
    peer: &mut FakePeer<PaymentTransaction>,
) -> Result<Vec<PaymentTransaction>, String> {
    let call = get_all_establishment_transactions(gate, &peers(), caller, establishment_id, limit)?;
    peer.call(call).into_result()
}

#[test]
fn an_unauthorized_worker_query_reaches_no_peer() {
    let gate = started_by(&who(&[1]));
    let mut peer = FakePeer::answering(Ok(Ok(vec![movement("t", &who(&[9]), Nat::from(1u32))])));
    let result = serve_worker_query(&gate, &who(&[2]), who(&[9]), None, &mut peer);
    assert_eq!(result, Err(NOT_AUTHORIZED.to_string()));
    assert_eq!(peer.calls.len(), 0);
}

#[test]
fn a_worker_query_on_an_unset_slot_reaches_no_peer() {
    let gate = AuthorizationGate::new();
    let mut peer = FakePeer::answering(Ok(Ok(Vec::new())));
    let result = serve_worker_query(&gate, &who(&[2]), who(&[9]), None, &mut peer);
    assert_eq!(result, Err(NO_AUTHORITY.to_string()));
    assert_eq!(peer.calls.len(), 0);
}

#[test]
fn an_authorized_worker_query_makes_one_call_and_returns_its_records() {
    let alice = who(&[1]);
    let worker = who(&[9, 9, 9]);
    let gate = started_by(&alice);
    let records = vec![
        movement("t-7", &worker, Nat::from(123456789012345u64)),
        movement("t-3", &worker, Nat::from(2u32)),
    ];
    let mut peer = FakePeer::answering(Ok(Ok(records.clone())));
    let result =
        serve_worker_query(&gate, &alice, worker.clone(), Some(Nat::from(5u32)), &mut peer);
    assert_eq!(peer.calls.len(), 1);
    assert_eq!(peer.calls[0].canister, who(&[201]));
    assert_eq!(peer.calls[0].method, "getTransactionsForReporting");
    assert_eq!(peer.calls[0].arguments, (worker, Some(Nat::from(5u32))));
    let kept = result.unwrap();
    assert_eq!(kept, records);
    assert_eq!(kept[0].id, "t-7");
    assert_eq!(kept[0].amount, Nat::from(123456789012345u64));
    assert_eq!(kept[1].id, "t-3");
}

#[test]
fn a_business_error_of_the_wallets_peer_comes_back_unchanged() {
    let alice = who(&[1]);
    let gate = started_by(&alice);
    let mut peer = FakePeer::answering(Ok(Err("Worker not found".to_string())));
    let result = serve_worker_query(&gate, &alice, who(&[9]), None, &mut peer);
    assert_eq!(result, Err("Worker not found".to_string()));
    assert_eq!(peer.calls.len(), 1);
}

#[test]
fn an_unreachable_establishment_peer_gives_a_marked_error() {
    let alice = who(&[1]);
    let gate = started_by(&alice);
    let mut unreachable: FakePeer<PaymentTransaction> =
        FakePeer::answering(Err((RejectionCode::DestinationInvalid, "Canister not found".to_string())));
    let failure =
        serve_establishment_query(&gate, &alice, who(&[8]), None, &mut unreachable).unwrap_err();
    assert_eq!(failure, "Call failed: (DestinationInvalid, \"Canister not found\")");
    assert_eq!(unreachable.calls.len(), 1);
    assert_eq!(unreachable.calls[0].canister, who(&[202]));
    let mut refusing: FakePeer<PaymentTransaction> =
        FakePeer::answering(Ok(Err("Establishment not found".to_string())));
    let refusal =
        serve_establishment_query(&gate, &alice, who(&[8]), None, &mut refusing).unwrap_err();
    assert_eq!(refusal, "Establishment not found");
    assert!(failure.starts_with("Call failed: "));
    assert!(!refusal.starts_with("Call failed: "));
}

#[test]
fn an_unauthorized_establishment_query_reaches_no_peer() {
    let gate = started_by(&who(&[1]));
    let mut peer: FakePeer<PaymentTransaction> = FakePeer::answering(Ok(Ok(Vec::new())));
    let result = serve_establishment_query(&gate, &who(&[2]), who(&[8]), None, &mut peer);
    assert_eq!(result, Err(NOT_AUTHORIZED.to_string()));
    assert_eq!(peer.calls.len(), 0);
}

#[test]
fn a_denial_does_not_read_like_a_transport_failure() {
    assert!(!NOT_AUTHORIZED.starts_with("Call failed: "));
    assert!(!NO_AUTHORITY.starts_with("Call failed: "));
}

#[test]
fn worker_query_by_a_stranger_names_no_call() {
    let gate = started_by(&who(&[1]));
    let step = get_all_worker_transactions(&gate, &peers(), &who(&[2]), who(&[9]), None);
    assert_eq!(step, Err(NOT_AUTHORIZED.to_string()));
}

#[test]
fn worker_query_on_an_unset_gate_names_no_call() {
    let gate = AuthorizationGate::new();
    let step =
        get_all_worker_transactions(&gate, &peers(), &who(&[1]), who(&[9]), Some(Nat::from(5u32)));
    assert_eq!(step, Err(NO_AUTHORITY.to_string()));
}

#[test]
fn worker_query_by_the_authority_names_the_wallets_call() {
    let alice = who(&[1]);
    let worker = who(&[9, 9]);
    let gate = started_by(&alice);
    let step =
        get_all_worker_transactions(&gate, &peers(), &alice, worker.clone(), Some(Nat::from(5u32)));
    assert_eq!(
        step,
        Ok(PeerCall {
            canister: who(&[201]),
            method: "getTransactionsForReporting".to_string(),
            arguments: (worker, Some(Nat::from(5u32))),
        })
    );
}

#[test]
fn worker_query_passes_an_absent_limit_on() {
    let alice = who(&[1]);
    let gate = started_by(&alice);
    let call = get_all_worker_transactions(&gate, &peers(), &alice, who(&[9]), None).unwrap();
    assert_eq!(call.arguments, (who(&[9]), None));
}

#[test]
fn worker_query_passes_a_huge_limit_on() {
    let alice = who(&[1]);
    let gate = started_by(&alice);
    let call =
        get_all_worker_transactions(&gate, &peers(), &alice, who(&[9]), Some(big_amount()))
            .unwrap();
    assert_eq!(call.arguments.1, Some(big_amount()));
}

#[test]
fn worker_query_returns_the_peers_records_verbatim() {
    let alice = who(&[1]);
    let worker = who(&[9]);
    let gate = started_by(&alice);
    let call =
        get_all_worker_transactions(&gate, &peers(), &alice, worker.clone(), Some(Nat::from(5u32)))
            .unwrap();
    assert_eq!(call.canister, who(&[201]));
    let records = vec![
        movement("t-2", &worker, Nat::from(123456789012345u64)),
        movement("t-1", &worker, Nat::from(0u32)),
        movement("t-3", &worker, big_amount()),
    ];
    let result = CallOutcome::Reply(Ok(records.clone())).into_result();
    assert_eq!(result, Ok(records));
    let kept = result.unwrap();
    assert_eq!(kept[0].id, "t-2");
    assert_eq!(kept[0].amount, Nat::from(123456789012345u64));
    assert_eq!(kept[0].amount.to_string().replace('_', ""), "123456789012345");
    assert_eq!(kept[1].id, "t-1");
    assert_eq!(kept[2].amount, big_amount());
}

#[test]
fn establishment_query_by_a_stranger_names_no_call() {
    let gate = started_by(&who(&[1]));
    let step = get_all_establishment_transactions(&gate, &peers(), &who(&[2]), who(&[8]), None);
    assert_eq!(step, Err(NOT_AUTHORIZED.to_string()));
}

#[test]
fn establishment_query_on_an_unset_gate_names_no_call() {
    let gate = AuthorizationGate::new();
    let step = get_all_establishment_transactions(&gate, &peers(), &who(&[2]), who(&[8]), None);
    assert_eq!(step, Err(NO_AUTHORITY.to_string()));
}

#[test]
fn establishment_query_by_the_authority_names_the_establishment_call() {
    let alice = who(&[1]);
    let shop = who(&[8, 8]);
    let gate = started_by(&alice);
    let step = get_all_establishment_transactions(
        &gate,
        &peers(),
        &alice,
        shop.clone(),
        Some(Nat::from(20u32)),
    );
    assert_eq!(
        step,
        Ok(PeerCall {
            canister: who(&[202]),
            method: "getTransactionsForReporting".to_string(),
            arguments: (shop, Some(Nat::from(20u32))),
        })
    );
}

#[test]
fn establishment_query_returns_the_peers_records_verbatim() {
    let shop = who(&[8]);
    let records =
        vec![payment("p-1", &shop, Nat::from(1u32)), payment("p-2", &shop, big_amount())];
    let result = CallOutcome::Reply(Ok(records.clone())).into_result();
    assert_eq!(result, Ok(records));
}

#[test]
fn establishment_query_marks_a_transport_failure() {
    let alice = who(&[1]);
    let gate = started_by(&alice);
    assert!(get_all_establishment_transactions(&gate, &peers(), &alice, who(&[8]), None).is_ok());
    let unreachable: CallOutcome<PaymentTransaction> = CallOutcome::Rejected(
        RejectionCode::DestinationInvalid,
        "Canister not found".to_string(),
    );
    let failure = unreachable.into_result().unwrap_err();
    assert_eq!(failure, "Call failed: (DestinationInvalid, \"Canister not found\")");
    let business: CallOutcome<PaymentTransaction> =
        CallOutcome::Reply(Err("Establishment not found".to_string()));
    let refusal = business.into_result().unwrap_err();
    assert_eq!(refusal, "Establishment not found");
    assert!(failure.starts_with("Call failed: "));
    assert!(!refusal.starts_with("Call failed: "));
}

#[test]
fn a_query_follows_the_authority() {
    let alice = who(&[1]);
    let bob = who(&[2]);
    let mut gate = started_by(&alice);
    assert!(get_all_worker_transactions(&gate, &peers(), &bob, who(&[9]), None).is_err());
    assert_eq!(gate.try_set_authorized_caller(&alice, bob.clone()), Ok(()));
    assert!(get_all_worker_transactions(&gate, &peers(), &bob, who(&[9]), None).is_ok());
    assert!(get_all_worker_transactions(&gate, &peers(), &alice, who(&[9]), None).is_err());
}

#[test]
fn a_query_leaves_the_authority_where_it_was() {
    let alice = who(&[1]);
    let gate = started_by(&alice);
    let _ = get_all_worker_transactions(&gate, &peers(), &alice, who(&[9]), None);
    let _ = get_all_establishment_transactions(&gate, &peers(), &who(&[3]), who(&[9]), None);
    assert_eq!(gate.authorized_caller(), Some(&alice));
}

#[test]
fn records_are_plain_values() {
    let profile = UserProfile {
        principal: who(&[1, 2, 3]),
        name: "Ana".to_string(),
        role: UserRole::Worker,
        company_id: Some("c-1".to_string()),
        created_at: -5,
        is_active: true,
    };
    let copy = profile.clone();
    assert_eq!(copy, profile);
    assert_ne!(UserRole::HR, UserRole::Establishment);
    assert_ne!(BenefitType::Health, BenefitType::Transport);
    assert_ne!(BenefitType::Education, BenefitType::Food);
    assert_ne!(TransactionType::Credit, TransactionType::Debit);
    assert_ne!(PaymentStatus::Pending, PaymentStatus::Failed);
    assert_ne!(PaymentStatus::Cancelled, PaymentStatus::Completed);
    let first = movement("t", &who(&[9]), Nat::from(10u32));
    let second = movement("t", &who(&[9]), Nat::from(11u32));
    assert_ne!(first, second);
    assert_eq!(first.clone(), first);
}
