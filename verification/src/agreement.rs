//! The agreement record: the unit of truth for one bilateral purchase.

use vstd::prelude::*;

verus! {

/// Identity of a ledger account: the address under which the hosting runtime
/// stores it. The escrow logic never looks inside an identity; it only
/// compares identities for equality.
pub type AccountId = u64;

/// Exact size in bytes of a serialized agreement record. Storage offered for
/// a record at initialization must cover at least this much; it is not
/// resizable afterwards.
pub const RECORD_SPACE: u64 = 51;

/// Lifecycle of one purchase agreement. The only legal path is
/// `ItemNotTransferred -> PaymentDone -> PurchaseCompleted`; no transition
/// ever moves the status backward, and `PurchaseCompleted` is terminal.
#[derive(Clone, Copy, PartialEq, Eq, Structural, Debug)]
pub enum AgreementStatus {
    ItemNotTransferred,
    PaymentDone,
    PurchaseCompleted,
}

/// Market state of the traded asset, tracked beside the payment state.
#[derive(Clone, Copy, PartialEq, Eq, Structural, Debug)]
pub enum NftStatus {
    Active,
    Sold,
    NotAvailable,
}

/// Every way an operation on an agreement can be refused. Each refusal is
/// detected before any state mutation, so a failed operation leaves the
/// record and every balance exactly as they were.
#[derive(Clone, Copy, PartialEq, Eq, Structural, Debug)]
pub enum PurchaseErrors {
    /// The account being debited cannot cover what must move: the buyer's
    /// balance or declared amount is below the price, or an asset account
    /// lacks the unit a transfer asks for.
    BuyerDoNotHaveEnoughLamports,
    /// Completion (or a second payment) attempted on a record that has
    /// already advanced past the state the operation needs.
    PurchaseAlreadyCompleted,
    /// Completion attempted before any payment settled.
    PaymentNotReceived,
    /// The caller lacks the signature or capability the operation needs.
    Unauthorized,
    /// The storage offered for the record is smaller than the record's
    /// serialized form; the record cannot be created.
    AllocationFailure,
}

/// The persistent record of one bilateral purchase agreement: created once by
/// the seller, mutated in place by the transitions, never deleted.
#[derive(Clone, Copy, PartialEq, Eq, Debug)]
pub struct PurchaseAgreement {
    /// Amount of native currency the buyer must pay. Immutable after creation.
    pub price: u64,
    /// The asset owner at initialization. Immutable after creation.
    pub seller: AccountId,
    /// The paying party; absent until a payment settles, then set exactly once.
    pub buyer: Option<AccountId>,
    /// Position in the forward-only lifecycle.
    pub status: AgreementStatus,
    /// Identifier of the traded asset. Immutable after creation.
    pub nft_id: u64,
    /// Start of the agreement's validity window. Recorded, not enforced.
    pub start_time: u64,
    /// End of the agreement's validity window. Recorded, not enforced.
    pub end_time: u64,
    /// Market state of the asset.
    pub nft_status: NftStatus,
}

impl AgreementStatus {
    /// Position of a status on the one legal path, used to state that the
    /// status only ever moves forward.
    pub open spec fn rank(self) -> int {
        match self {
            AgreementStatus::ItemNotTransferred => 0,
            AgreementStatus::PaymentDone => 1,
            AgreementStatus::PurchaseCompleted => 2,
        }
    }
}

impl PurchaseAgreement {
    /// A record is well formed when the buyer is recorded exactly from the
    /// payment onward: set if and only if the status has left
    /// `ItemNotTransferred`.
    pub open spec fn wf(self) -> bool {
        self.buyer is Some <==> self.status != AgreementStatus::ItemNotTransferred
    }

    /// Whether a ledger-supplied time falls inside the agreement's validity
    /// window. This is the hook a deployment that enforces the window would
    /// check as a precondition of payment; the transitions themselves record
    /// the window but deliberately do not consult it.
    pub open spec fn within_window(self, now: u64) -> bool {
        self.start_time <= now <= self.end_time
    }
}

} // verus!
