use purchase::agreement::AgreementStatus;
use purchase::agreement::NftStatus;
use purchase::agreement::PurchaseErrors;
use purchase::escrow::CompletePurchase;
use purchase::escrow::CustodyStrategy;
use purchase::escrow::Escrow;
use purchase::escrow::InitializePurchase;
use purchase::escrow::MakePayment;
use purchase::escrow::SettlementStrategy;

const SELLER: u64 = 1;
const BUYER: u64 = 2;
const AUTHORITY: u64 = 99;

fn fresh_world(settlement: SettlementStrategy, custody: CustodyStrategy) -> Escrow {
    Escrow::new(SELLER, BUYER, AUTHORITY, 100, 50, settlement, custody)
}

fn init_ix(price: u64) -> InitializePurchase {
    InitializePurchase {
        seller: SELLER,
        price,
        nft_id: 7,
        start_time: 0,
        end_time: 10,
        space: 51,
    }
}

#[test]
fn full_purchase_direct_delegated() {
    let mut w = fresh_world(
        SettlementStrategy::DirectSettlement,
        CustodyStrategy::DelegatedApproval,
    );
    assert_eq!(w.initialize_purchase(init_ix(30)), Ok(()));
    let a = w.agreement.unwrap();
    assert_eq!(a.status, AgreementStatus::ItemNotTransferred);
    assert_eq!(a.buyer, None);
    assert_eq!(a.nft_status, NftStatus::Active);
    assert_eq!(w.nft_account.delegate, Some(AUTHORITY));
    assert_eq!(w.nft_account.delegated_amount, 1);

    assert_eq!(w.make_payment(MakePayment { buyer: BUYER, amount: 30 }), Ok(()));
    assert_eq!(w.seller_lamports, 130);
    assert_eq!(w.buyer_lamports, 20);
    assert_eq!(w.buyer_nft_account.amount, 1);
    let a = w.agreement.unwrap();
    assert_eq!(a.status, AgreementStatus::PaymentDone);
    assert_eq!(a.buyer, Some(BUYER));
    assert_eq!(a.nft_status, NftStatus::Sold);

    assert_eq!(w.complete_purchase(CompletePurchase { caller: SELLER }), Ok(()));
    let a = w.agreement.unwrap();
    assert_eq!(a.status, AgreementStatus::PurchaseCompleted);
    assert_eq!(w.seller_lamports, 130);
    assert_eq!(w.buyer_lamports, 20);
    assert_eq!(w.buyer_nft_account.amount, 1);
}

#[test]
fn full_purchase_escrow_custodial() {
    let mut w = fresh_world(
        SettlementStrategy::EscrowSettlement,
        CustodyStrategy::CustodialHolding,
    );
    assert_eq!(w.initialize_purchase(init_ix(30)), Ok(()));
    assert_eq!(w.nft_holding_account.amount, 1);
    assert_eq!(w.nft_account.amount, 0);

    assert_eq!(w.make_payment(MakePayment { buyer: BUYER, amount: 45 }), Ok(()));
    assert_eq!(w.seller_lamports, 100);
    assert_eq!(w.buyer_lamports, 20);
    assert_eq!(w.escrow_lamports, 30);
    assert_eq!(w.nft_holding_account.amount, 1);
    assert_eq!(w.buyer_nft_account.amount, 0);

    assert_eq!(w.complete_purchase(CompletePurchase { caller: 12345 }), Ok(()));
    assert_eq!(w.seller_lamports, 130);
    assert_eq!(w.buyer_lamports, 20);
    assert_eq!(w.escrow_lamports, 0);
    assert_eq!(w.nft_holding_account.amount, 0);
    assert_eq!(w.buyer_nft_account.amount, 1);
    assert_eq!(w.agreement.unwrap().status, AgreementStatus::PurchaseCompleted);
}

#[test]
fn full_purchase_direct_custodial() {
    let mut w = fresh_world(
        SettlementStrategy::DirectSettlement,
        CustodyStrategy::CustodialHolding,
    );
    assert_eq!(w.initialize_purchase(init_ix(25)), Ok(()));
    assert_eq!(w.make_payment(MakePayment { buyer: BUYER, amount: 25 }), Ok(()));
    assert_eq!(w.seller_lamports, 125);
    assert_eq!(w.buyer_nft_account.amount, 0);
    assert_eq!(w.complete_purchase(CompletePurchase { caller: SELLER }), Ok(()));
    assert_eq!(w.seller_lamports, 125);
    assert_eq!(w.buyer_lamports, 25);
    assert_eq!(w.buyer_nft_account.amount, 1);
}

#[test]
fn full_purchase_escrow_delegated() {
    let mut w = fresh_world(
        SettlementStrategy::EscrowSettlement,
        CustodyStrategy::DelegatedApproval,
    );
    assert_eq!(w.initialize_purchase(init_ix(50)), Ok(()));
    assert_eq!(w.make_payment(MakePayment { buyer: BUYER, amount: 50 }), Ok(()));
    assert_eq!(w.escrow_lamports, 50);
    assert_eq!(w.buyer_nft_account.amount, 1);
    assert_eq!(w.complete_purchase(CompletePurchase { caller: 0 }), Ok(()));
    assert_eq!(w.seller_lamports, 150);
    assert_eq!(w.buyer_lamports, 0);
    assert_eq!(w.escrow_lamports, 0);
}

#[test]
fn insufficient_balance_rejected() {
    let mut w = fresh_world(
        SettlementStrategy::DirectSettlement,
        CustodyStrategy::DelegatedApproval,
    );
    assert_eq!(w.initialize_purchase(init_ix(60)), Ok(()));
    let before = w;
    assert_eq!(
        w.make_payment(MakePayment { buyer: BUYER, amount: 60 }),
        Err(PurchaseErrors::BuyerDoNotHaveEnoughLamports)
    );
    assert_eq!(w, before);
    assert_eq!(w.agreement.unwrap().status, AgreementStatus::ItemNotTransferred);
    assert_eq!(w.agreement.unwrap().buyer, None);
}

#[test]
fn declared_amount_below_price_rejected() {
    let mut w = fresh_world(
        SettlementStrategy::DirectSettlement,
        CustodyStrategy::DelegatedApproval,
    );
    assert_eq!(w.initialize_purchase(init_ix(30)), Ok(()));
    let before = w;
    assert_eq!(
        w.make_payment(MakePayment { buyer: BUYER, amount: 29 }),
        Err(PurchaseErrors::BuyerDoNotHaveEnoughLamports)
    );
    assert_eq!(w, before);
}

#[test]
fn only_the_price_moves_when_more_is_declared() {
    let mut w = fresh_world(
        SettlementStrategy::DirectSettlement,
        CustodyStrategy::DelegatedApproval,
    );
    assert_eq!(w.initialize_purchase(init_ix(30)), Ok(()));
    assert_eq!(w.make_payment(MakePayment { buyer: BUYER, amount: 50 }), Ok(()));
    assert_eq!(w.seller_lamports, 130);
    assert_eq!(w.buyer_lamports, 20);
}

#[test]
fn complete_before_payment_rejected() {
    let mut w = fresh_world(
        SettlementStrategy::DirectSettlement,
        CustodyStrategy::DelegatedApproval,
    );
    assert_eq!(w.initialize_purchase(init_ix(30)), Ok(()));
    let before = w;
    assert_eq!(
        w.complete_purchase(CompletePurchase { caller: SELLER }),
        Err(PurchaseErrors::PaymentNotReceived)
    );
    assert_eq!(w, before);
    assert_eq!(w.agreement.unwrap().status, AgreementStatus::ItemNotTransferred);
}

#[test]
fn complete_twice_rejected() {
    let mut w = fresh_world(
        SettlementStrategy::EscrowSettlement,
        CustodyStrategy::CustodialHolding,
    );
    assert_eq!(w.initialize_purchase(init_ix(30)), Ok(()));
    assert_eq!(w.make_payment(MakePayment { buyer: BUYER, amount: 30 }), Ok(()));
    assert_eq!(w.complete_purchase(CompletePurchase { caller: SELLER }), Ok(()));
    let after_first = w;
    assert_eq!(
        w.complete_purchase(CompletePurchase { caller: SELLER }),
        Err(PurchaseErrors::PurchaseAlreadyCompleted)
    );
    assert_eq!(w, after_first);
}

#[test]
fn pay_twice_rejected() {
    let mut w = fresh_world(
        SettlementStrategy::DirectSettlement,
        CustodyStrategy::DelegatedApproval,
    );
    assert_eq!(w.initialize_purchase(init_ix(30)), Ok(()));
    assert_eq!(w.make_payment(MakePayment { buyer: BUYER, amount: 30 }), Ok(()));
    let after_first = w;
    assert_eq!(
        w.make_payment(MakePayment { buyer: BUYER, amount: 30 }),
        Err(PurchaseErrors::PurchaseAlreadyCompleted)
    );
    assert_eq!(w, after_first);
    assert_eq!(w.seller_lamports, 130);
    assert_eq!(w.buyer_lamports, 20);
}

#[test]
fn unauthorized_completion_rejected_under_direct_settlement() {
    let mut w = fresh_world(
        SettlementStrategy::DirectSettlement,
        CustodyStrategy::CustodialHolding,
    );
    assert_eq!(w.initialize_purchase(init_ix(30)), Ok(()));
    assert_eq!(w.make_payment(MakePayment { buyer: BUYER, amount: 30 }), Ok(()));
    let before = w;
    assert_eq!(
        w.complete_purchase(CompletePurchase { caller: BUYER }),
        Err(PurchaseErrors::Unauthorized)
    );
    assert_eq!(w, before);
    assert_eq!(w.complete_purchase(CompletePurchase { caller: SELLER }), Ok(()));
}

#[test]
fn buyer_equal_to_seller_rejected() {
    let mut w = fresh_world(
        SettlementStrategy::DirectSettlement,
        CustodyStrategy::DelegatedApproval,
    );
    assert_eq!(w.initialize_purchase(init_ix(30)), Ok(()));
    let before = w;
    assert_eq!(
        w.make_payment(MakePayment { buyer: SELLER, amount: 30 }),
        Err(PurchaseErrors::Unauthorized)
    );
    assert_eq!(w, before);
}

#[test]
fn custody_path_is_dead_after_completion() {
    for (settlement, custody) in [
        (SettlementStrategy::DirectSettlement, CustodyStrategy::DelegatedApproval),
        (SettlementStrategy::EscrowSettlement, CustodyStrategy::CustodialHolding),
    ] {
        let mut w = fresh_world(settlement, custody);
        assert_eq!(w.initialize_purchase(init_ix(30)), Ok(()));
        assert_eq!(w.make_payment(MakePayment { buyer: BUYER, amount: 30 }), Ok(()));
        assert_eq!(w.complete_purchase(CompletePurchase { caller: SELLER }), Ok(()));

        assert_eq!(w.nft_account.delegate, None);
        assert_eq!(w.nft_holding_account.amount, 0);
        let elsewhere = purchase::token::TokenAccount {
            owner: 1234,
            amount: 0,
            delegate: None,
            delegated_amount: 0,
        };
        let via_delegate = purchase::token::transfer(w.nft_account, elsewhere, AUTHORITY, 1);
        assert!(via_delegate.2.is_err());
        let via_holding =
            purchase::token::transfer(w.nft_holding_account, elsewhere, AUTHORITY, 1);
        assert!(via_holding.2.is_err());
        assert_eq!(w.buyer_nft_account.amount, 1);
    }
}

#[test]
fn too_little_space_is_an_allocation_failure() {
    let mut w = fresh_world(
        SettlementStrategy::DirectSettlement,
        CustodyStrategy::DelegatedApproval,
    );
    let before = w;
    let mut ix = init_ix(30);
    ix.space = 50;
    assert_eq!(w.initialize_purchase(ix), Err(PurchaseErrors::AllocationFailure));
    assert_eq!(w, before);
    assert_eq!(w.agreement, None);
}
