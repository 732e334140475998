//! The records that travel between callers, this service and its peers.
//! They are values: built once, handed on, never changed.
//!
//! Each record has a view that shows its texts as `Seq<char>` and its
//! identities as `Seq<u8>`. Amounts are `candid::Nat`, a natural number of
//! any size, which the service hands on without looking inside.

use crate::identity::{identity_view, Identity};
use candid::Nat;
use vstd::prelude::*;

verus! {

/// `candid::Nat`, a natural number of any size. Opaque here: amounts and
/// limits are carried, never computed with.
#[verifier::external_type_specification]
#[verifier::external_body]
pub struct ExNat(Nat);

/// `Clone::clone` of `candid::Nat`. Trusted: the copy is the same number.
pub assume_specification[ <Nat as Clone>::clone ](n: &Nat) -> (r: Nat)
    ensures
        r == *n,
;

/// The characters of an optional text.
pub open spec fn text_view(text: Option<String>) -> Option<Seq<char>> {
    match text {
        Some(t) => Some(t@),
        None => None,
    }
}

fn clone_text(text: &Option<String>) -> (r: Option<String>)
    ensures
        text_view(r) == text_view(*text),
{
    match text {
        Some(t) => Some(t.clone()),
        None => None,
    }
}

fn clone_identity(identity: &Option<Identity>) -> (r: Option<Identity>)
    ensures
        identity_view(r) == identity_view(*identity),
{
    match identity {
        Some(i) => Some(i.clone()),
        None => None,
    }
}

/// What a user is to the benefits programme.
#[derive(Clone, Copy, Debug, PartialEq, Eq, Structural)]
pub enum UserRole {
    HR,
    Worker,
    Establishment,
}

/// A registered user.
#[derive(Debug, PartialEq, Eq)]
pub struct UserProfile {
    pub principal: Identity,
    pub name: String,
    pub role: UserRole,
    pub company_id: Option<String>,
    pub created_at: i64,
    pub is_active: bool,
}

/// A [`UserProfile`] as contracts see it.
pub struct UserProfileView {
    pub principal: Seq<u8>,
    pub name: Seq<char>,
    pub role: UserRole,
    pub company_id: Option<Seq<char>>,
    pub created_at: i64,
    pub is_active: bool,
}

impl View for UserProfile {
    type V = UserProfileView;

    open spec fn view(&self) -> UserProfileView {
        UserProfileView {
            principal: self.principal@,
            name: self.name@,
            role: self.role,
            company_id: text_view(self.company_id),
            created_at: self.created_at,
            is_active: self.is_active,
        }
    }
}

impl Clone for UserProfile {
    fn clone(&self) -> (r: UserProfile)
        ensures
            r@ == self@,
    {
        UserProfile {
            principal: self.principal.clone(),
            name: self.name.clone(),
            role: self.role,
            company_id: clone_text(&self.company_id),
            created_at: self.created_at,
            is_active: self.is_active,
        }
    }
}

/// The kind of benefit that an amount belongs to.
#[derive(Clone, Copy, Debug, PartialEq, Eq, Structural)]
pub enum BenefitType {
    Food,
    Culture,
    Health,
    Transport,
    Education,
}

/// The direction of a wallet movement.
#[derive(Clone, Copy, Debug, PartialEq, Eq, Structural)]
pub enum TransactionType {
    Credit,
    Debit,
}

/// One movement on a worker's wallet.
#[derive(Debug, PartialEq, Eq)]
pub struct Transaction {
    pub id: String,
    pub worker_id: Identity,
    pub benefit_type: BenefitType,
    pub transaction_type: TransactionType,
    pub amount: Nat,
    pub establishment_id: Option<Identity>,
    pub establishment_name: Option<String>,
    pub program_id: Option<String>,
    pub timestamp: i64,
    pub description: String,
}

/// A [`Transaction`] as contracts see it.
pub struct TransactionView {
    pub id: Seq<char>,
    pub worker_id: Seq<u8>,
    pub benefit_type: BenefitType,
    pub transaction_type: TransactionType,
    pub amount: Nat,
    pub establishment_id: Option<Seq<u8>>,
    pub establishment_name: Option<Seq<char>>,
    pub program_id: Option<Seq<char>>,
    pub timestamp: i64,
    pub description: Seq<char>,
}

impl View for Transaction {
    type V = TransactionView;

    open spec fn view(&self) -> TransactionView {
        TransactionView {
            id: self.id@,
            worker_id: self.worker_id@,
            benefit_type: self.benefit_type,
            transaction_type: self.transaction_type,
            amount: self.amount,
            establishment_id: identity_view(self.establishment_id),
            establishment_name: text_view(self.establishment_name),
            program_id: text_view(self.program_id),
            timestamp: self.timestamp,
            description: self.description@,
        }
    }
}

impl Clone for Transaction {
    fn clone(&self) -> (r: Transaction)
        ensures
            r@ == self@,
    {
        Transaction {
            id: self.id.clone(),
            worker_id: self.worker_id.clone(),
            benefit_type: self.benefit_type,
            transaction_type: self.transaction_type,
            amount: self.amount.clone(),
            establishment_id: clone_identity(&self.establishment_id),
            establishment_name: clone_text(&self.establishment_name),
            program_id: clone_text(&self.program_id),
            timestamp: self.timestamp,
            description: self.description.clone(),
        }
    }
}

/// How far a payment has come.
#[derive(Clone, Copy, Debug, PartialEq, Eq, Structural)]
pub enum PaymentStatus {
    Pending,
    Completed,
    Failed,
    Cancelled,
}

/// One payment taken by an establishment.
#[derive(Debug, PartialEq, Eq)]
pub struct PaymentTransaction {
    pub id: String,
    pub status: PaymentStatus,
    pub benefit_type: BenefitType,
    pub establishment_id: Identity,
    pub description: String,
    pub created_at: i64,
    pub worker_id: Identity,
    pub processed_at: Option<i64>,
    pub amount: Nat,
}

/// A [`PaymentTransaction`] as contracts see it.
pub struct PaymentTransactionView {
    pub id: Seq<char>,
    pub status: PaymentStatus,
    pub benefit_type: BenefitType,
    pub establishment_id: Seq<u8>,
    pub description: Seq<char>,
    pub created_at: i64,
    pub worker_id: Seq<u8>,
    pub processed_at: Option<i64>,
    pub amount: Nat,
}

impl View for PaymentTransaction {
    type V = PaymentTransactionView;

    open spec fn view(&self) -> PaymentTransactionView {
        PaymentTransactionView {
            id: self.id@,
            status: self.status,
            benefit_type: self.benefit_type,
            establishment_id: self.establishment_id@,
            description: self.description@,
            created_at: self.created_at,
            worker_id: self.worker_id@,
            processed_at: self.processed_at,
            amount: self.amount,
        }
    }
}

impl Clone for PaymentTransaction {
    fn clone(&self) -> (r: PaymentTransaction)
        ensures
            r@ == self@,
    {
        PaymentTransaction {
            id: self.id.clone(),
            status: self.status,
            benefit_type: self.benefit_type,
            establishment_id: self.establishment_id.clone(),
            description: self.description.clone(),
            created_at: self.created_at,
            worker_id: self.worker_id.clone(),
            processed_at: self.processed_at,
            amount: self.amount.clone(),
        }
    }
}

} // verus!
