//! The guarantees of the protocol, proved once over the transition
//! functions: the happy path delivers payment and custody exactly once, every
//! refusal leaves the world untouched, the status only moves forward, and a
//! completed agreement's custody path is dead.

use vstd::prelude::*;

use crate::agreement::AgreementStatus;
use crate::agreement::PurchaseErrors;
use crate::agreement::RECORD_SPACE;
use crate::escrow::CompletePurchase;
use crate::escrow::Escrow;
use crate::escrow::InitializePurchase;
use crate::escrow::MakePayment;
use crate::escrow::SettlementStrategy;
use crate::escrow::spec_complete_purchase;
use crate::escrow::spec_initialize_purchase;
use crate::escrow::spec_make_payment;
use crate::token::TokenAccount;
use crate::token::spec_transfer;

verus! {

/// The happy path, under any pair of strategies: with a positive price, a
/// buyer distinct from the seller whose declared amount and balance cover
/// it, initialization, payment and completion all succeed, and at the end
/// the status is terminal, the seller holds exactly the price more, the
/// buyer exactly the price less, and the buyer holds the asset unit.
pub proof fn lemma_full_purchase(
    w: Escrow,
    init: InitializePurchase,
    pay: MakePayment,
    done: CompletePurchase,
)
    requires
        w.wf(),
        w.agreement is None,
        init.seller == w.nft_account.owner,
        init.space >= RECORD_SPACE,
        init.price > 0,
        pay.buyer != init.seller,
        pay.amount >= init.price,
        w.buyer_lamports >= init.price,
        w.seller_lamports + init.price <= u64::MAX,
        w.settlement == SettlementStrategy::DirectSettlement ==> done.caller == init.seller,
    ensures
        ({
            let i = spec_initialize_purchase(w, init);
            let p = spec_make_payment(i.0, pay);
            let c = spec_complete_purchase(p.0, done);
            &&& i.1 is Ok
            &&& p.1 is Ok
            &&& c.1 is Ok
            &&& c.0.status() == AgreementStatus::PurchaseCompleted
            &&& c.0.seller_lamports == w.seller_lamports + init.price
            &&& c.0.buyer_lamports == w.buyer_lamports - init.price
            &&& c.0.buyer_nft_account.amount == 1
            &&& (c.0.agreement matches Some(a) && a.buyer == Some(pay.buyer) && a.price
                == init.price && a.seller == init.seller && a.nft_id == init.nft_id)
        }),
{
}

/// A buyer whose balance does not cover the price is refused with the
/// insufficient-funds error, and neither the record nor any balance or
/// custody leg changes.
pub proof fn lemma_insufficient_funds_rejected(w: Escrow, ix: MakePayment)
    requires
        w.wf(),
        (w.agreement matches Some(a) && a.status == AgreementStatus::ItemNotTransferred
            && ix.buyer != a.seller && w.buyer_lamports < a.price),
    ensures
        spec_make_payment(w, ix).1 == Err::<(), PurchaseErrors>(
            PurchaseErrors::BuyerDoNotHaveEnoughLamports,
        ),
        spec_make_payment(w, ix).0 == w,
{
}

/// Completion before any payment is refused as `PaymentNotReceived`, and
/// the world is left exactly as it was.
pub proof fn lemma_complete_before_payment_rejected(w: Escrow, ix: CompletePurchase)
    requires
        w.wf(),
        (w.agreement matches Some(a) && a.status == AgreementStatus::ItemNotTransferred && (
        w.settlement == SettlementStrategy::DirectSettlement ==> ix.caller == a.seller)),
    ensures
        spec_complete_purchase(w, ix).1 == Err::<(), PurchaseErrors>(
            PurchaseErrors::PaymentNotReceived,
        ),
        spec_complete_purchase(w, ix).0 == w,
{
}

/// Completing twice: the first completion succeeds, the second is refused
/// as `PurchaseAlreadyCompleted`, and the state after the second attempt is
/// identical to the state after the first.
pub proof fn lemma_complete_twice_rejected(w: Escrow, ix1: CompletePurchase, ix2: CompletePurchase)
    requires
        w.wf(),
        w.seller_lamports + w.escrow_lamports <= u64::MAX,
        (w.agreement matches Some(a) && a.status == AgreementStatus::PaymentDone && (w.settlement
            == SettlementStrategy::DirectSettlement ==> ix1.caller == a.seller
            && ix2.caller == a.seller)),
    ensures
        ({
            let c1 = spec_complete_purchase(w, ix1);
            let c2 = spec_complete_purchase(c1.0, ix2);
            &&& c1.1 is Ok
            &&& c2.1 == Err::<(), PurchaseErrors>(PurchaseErrors::PurchaseAlreadyCompleted)
            &&& c2.0 == c1.0
        }),
{
}

/// Paying twice: the first payment succeeds, the second is refused because
/// the status has already advanced, and the state after the second attempt —
/// balances included — is identical to the state after the first.
pub proof fn lemma_pay_twice_rejected(w: Escrow, ix1: MakePayment, ix2: MakePayment)
    requires
        w.wf(),
        w.seller_lamports + w.escrow_lamports <= u64::MAX,
        (w.agreement matches Some(a) && {
            &&& a.status == AgreementStatus::ItemNotTransferred
            &&& ix1.buyer != a.seller
            &&& ix2.buyer != a.seller
            &&& ix1.amount >= a.price
            &&& w.buyer_lamports >= a.price
            &&& w.seller_lamports + a.price <= u64::MAX
            &&& w.escrow_lamports + a.price <= u64::MAX
        }),
    ensures
        ({
            let p1 = spec_make_payment(w, ix1);
            let p2 = spec_make_payment(p1.0, ix2);
            &&& p1.1 is Ok
            &&& p2.1 == Err::<(), PurchaseErrors>(PurchaseErrors::PurchaseAlreadyCompleted)
            &&& p2.0 == p1.0
        }),
{
}

/// No double custody: once completion has succeeded, the delegate path and
/// the holding path are both dead — no delegation stands on the seller's
/// asset account, the holding account is empty, and the record's own
/// authority can move nothing out of either, wherever it aims.
pub proof fn lemma_no_double_custody(w: Escrow, ix: CompletePurchase, dest: TokenAccount)
    requires
        w.wf(),
        w.seller_lamports + w.escrow_lamports <= u64::MAX,
        (w.agreement matches Some(a) && a.status == AgreementStatus::PaymentDone && (w.settlement
            == SettlementStrategy::DirectSettlement ==> ix.caller == a.seller)),
    ensures
        ({
            let c = spec_complete_purchase(w, ix);
            &&& c.1 is Ok
            &&& c.0.nft_account.delegate is None
            &&& c.0.nft_holding_account.amount == 0
            &&& spec_transfer(c.0.nft_account, dest, c.0.authority, 1).2 is Err
            &&& spec_transfer(c.0.nft_holding_account, dest, c.0.authority, 1).2 is Err
        }),
{
}

/// The status never moves backward: whatever a payment or completion
/// attempt does — succeed or refuse — the status after it sits no earlier
/// on the lifecycle than before.
pub proof fn lemma_status_forward(w: Escrow, pay: MakePayment, done: CompletePurchase)
    ensures
        spec_make_payment(w, pay).0.status().rank() >= w.status().rank(),
        spec_complete_purchase(w, done).0.status().rank() >= w.status().rank(),
{
}

/// What is immutable stays immutable: no payment or completion attempt
/// changes the price, the parties' identities, the asset identifier or the
/// validity window; completion also never changes the recorded buyer.
pub proof fn lemma_immutable_fields(w: Escrow, pay: MakePayment, done: CompletePurchase)
    requires
        w.agreement is Some,
    ensures
        (w.agreement matches Some(a) && spec_make_payment(w, pay).0.agreement matches Some(b) ==> {
            &&& b.price == a.price
            &&& b.seller == a.seller
            &&& b.nft_id == a.nft_id
            &&& b.start_time == a.start_time
            &&& b.end_time == a.end_time
        }),
        (w.agreement matches Some(a) && spec_complete_purchase(w, done).0.agreement matches Some(b)
            ==> {
            &&& b.price == a.price
            &&& b.seller == a.seller
            &&& b.buyer == a.buyer
            &&& b.nft_id == a.nft_id
            &&& b.start_time == a.start_time
            &&& b.end_time == a.end_time
        }),
{
}

} // verus!
