//! The state machine driver: the three operations of the escrow protocol,
//! each an atomic transition on the world one agreement touches.
//!
//! The world is an [`Escrow`] value: the agreement record (once created), the
//! native-currency balances of the parties and of the record's own custody
//! account, and the three asset accounts the custody strategies move the
//! traded unit between. Each operation is specified by a total transition
//! function; the executable operation returns exactly the state and result
//! that function gives, so every property of the protocol can be stated and
//! proved over the transition functions alone.

use vstd::prelude::*;

use crate::agreement::AccountId;
use crate::agreement::AgreementStatus;
use crate::agreement::NftStatus;
use crate::agreement::PurchaseAgreement;
use crate::agreement::PurchaseErrors;
use crate::agreement::RECORD_SPACE;
use crate::token::TokenAccount;
use crate::token::spec_approve;
use crate::token::spec_transfer;
use crate::token::approve;
use crate::token::transfer;

verus! {

/// How the buyer's payment reaches the seller: straight away at payment
/// time, or held by the record's own custody account until completion.
#[derive(Clone, Copy, PartialEq, Eq, Structural, Debug)]
pub enum SettlementStrategy {
    DirectSettlement,
    EscrowSettlement,
}

/// How custody of the asset unit moves: the record pulls it from the
/// seller's account under a delegated allowance at payment time, or the unit
/// is parked in a record-controlled holding account at initialization and
/// released to the buyer at completion.
#[derive(Clone, Copy, PartialEq, Eq, Structural, Debug)]
pub enum CustodyStrategy {
    DelegatedApproval,
    CustodialHolding,
}

/// The signed instruction that creates an agreement.
#[derive(Clone, Copy, PartialEq, Eq, Debug)]
pub struct InitializePurchase {
    /// The asset owner creating the agreement; the runtime has verified this
    /// party's signature.
    pub seller: AccountId,
    /// Amount of native currency the buyer will have to pay.
    pub price: u64,
    /// Identifier of the traded asset.
    pub nft_id: u64,
    /// Start of the agreement's validity window.
    pub start_time: u64,
    /// End of the agreement's validity window.
    pub end_time: u64,
    /// Bytes of storage the seller funds for the record.
    pub space: u64,
}

/// The signed instruction that pays for the item.
#[derive(Clone, Copy, PartialEq, Eq, Debug)]
pub struct MakePayment {
    /// The paying party; the runtime has verified this party's signature.
    pub buyer: AccountId,
    /// The amount the buyer declares. What moves is exactly the price, and
    /// only when both this declaration and the buyer's actual balance cover
    /// it.
    pub amount: u64,
}

/// The instruction that closes the agreement.
#[derive(Clone, Copy, PartialEq, Eq, Debug)]
pub struct CompletePurchase {
    /// The invoking party. Under direct settlement only the seller may
    /// complete; under escrow settlement the record's own authority drives
    /// the release, so no particular caller is demanded.
    pub caller: AccountId,
}

/// Everything one agreement touches, the unit on which each transition is
/// atomic: the record, the balances of the three money legs, and the three
/// asset accounts.
#[derive(Clone, Copy, PartialEq, Eq, Debug)]
pub struct Escrow {
    /// Payment strategy, chosen once at deployment.
    pub settlement: SettlementStrategy,
    /// Custody strategy, chosen once at deployment.
    pub custody: CustodyStrategy,
    /// The record's own address: the authority it exercises over its custody
    /// and holding accounts, without any human signature.
    pub authority: AccountId,
    /// The agreement record; absent until initialization.
    pub agreement: Option<PurchaseAgreement>,
    /// Native-currency balance of the seller.
    pub seller_lamports: u64,
    /// Native-currency balance of the paying party.
    pub buyer_lamports: u64,
    /// Native currency held by the record's custody account.
    pub escrow_lamports: u64,
    /// The seller's own asset account, where the unit starts.
    pub nft_account: TokenAccount,
    /// The record-controlled holding account.
    pub nft_holding_account: TokenAccount,
    /// The buyer's asset account, where the unit must end up.
    pub buyer_nft_account: TokenAccount,
}

impl Escrow {
    /// Total asset units across the three accounts; the protocol trades
    /// exactly one.
    pub open spec fn units(self) -> int {
        self.nft_account.amount + self.nft_holding_account.amount + self.buyer_nft_account.amount
    }

    /// The world invariant: every operation both relies on it and preserves
    /// it. Beside structural facts (one asset unit in play, the holding
    /// account under the record's authority) it ties each status to where
    /// the unit and the payment must sit under the chosen strategies.
    pub open spec fn wf(self) -> bool {
        &&& self.nft_account.wf()
        &&& self.nft_holding_account.wf()
        &&& self.buyer_nft_account.wf()
        &&& self.units() == 1
        &&& self.nft_holding_account.owner == self.authority
        &&& self.nft_account.owner != self.authority
        &&& match self.agreement {
            None => {
                &&& self.nft_account.amount == 1
                &&& self.nft_account.delegate is None
                &&& self.escrow_lamports == 0
            },
            Some(a) => {
                &&& a.wf()
                &&& a.seller == self.nft_account.owner
                &&& match a.status {
                    AgreementStatus::ItemNotTransferred => {
                        &&& self.escrow_lamports == 0
                        &&& match self.custody {
                            CustodyStrategy::DelegatedApproval => {
                                &&& self.nft_account.amount == 1
                                &&& self.nft_account.delegate == Some(self.authority)
                                &&& self.nft_account.delegated_amount == 1
                            },
                            CustodyStrategy::CustodialHolding => {
                                &&& self.nft_holding_account.amount == 1
                                &&& self.nft_account.delegate is None
                            },
                        }
                    },
                    AgreementStatus::PaymentDone => {
                        &&& (self.settlement == SettlementStrategy::EscrowSettlement
                            ==> self.escrow_lamports == a.price)
                        &&& (self.settlement == SettlementStrategy::DirectSettlement
                            ==> self.escrow_lamports == 0)
                        &&& match self.custody {
                            CustodyStrategy::DelegatedApproval => {
                                &&& self.buyer_nft_account.amount == 1
                                &&& self.nft_account.delegate is None
                            },
                            CustodyStrategy::CustodialHolding => {
                                &&& self.nft_holding_account.amount == 1
                                &&& self.nft_account.delegate is None
                            },
                        }
                    },
                    AgreementStatus::PurchaseCompleted => {
                        &&& self.escrow_lamports == 0
                        &&& self.buyer_nft_account.amount == 1
                        &&& self.nft_account.delegate is None
                    },
                }
            },
        }
    }

    /// The status recorded for this world, `ItemNotTransferred` while no
    /// record exists yet.
    pub open spec fn status(self) -> AgreementStatus {
        match self.agreement {
            None => AgreementStatus::ItemNotTransferred,
            Some(a) => a.status,
        }
    }

    /// A fresh world for one agreement: no record yet, the asset unit in the
    /// seller's account, the holding and buyer accounts empty, nothing in
    /// escrow custody.
    pub fn new(
        seller: AccountId,
        buyer: AccountId,
        authority: AccountId,
        seller_lamports: u64,
        buyer_lamports: u64,
        settlement: SettlementStrategy,
        custody: CustodyStrategy,
    ) -> (r: Escrow)
        requires
            seller != authority,
        ensures
            r == (Escrow {
                settlement,
                custody,
                authority,
                agreement: None,
                seller_lamports,
                buyer_lamports,
                escrow_lamports: 0,
                nft_account: TokenAccount {
                    owner: seller,
                    amount: 1,
                    delegate: None,
                    delegated_amount: 0,
                },
                nft_holding_account: TokenAccount {
                    owner: authority,
                    amount: 0,
                    delegate: None,
                    delegated_amount: 0,
                },
                buyer_nft_account: TokenAccount {
                    owner: buyer,
                    amount: 0,
                    delegate: None,
                    delegated_amount: 0,
                },
            }),
            r.wf(),
    {
        Escrow {
            settlement,
            custody,
            authority,
            agreement: None,
            seller_lamports,
            buyer_lamports,
            escrow_lamports: 0,
            nft_account: TokenAccount { owner: seller, amount: 1, delegate: None, delegated_amount: 0 },
            nft_holding_account: TokenAccount {
                owner: authority,
                amount: 0,
                delegate: None,
                delegated_amount: 0,
            },
            buyer_nft_account: TokenAccount {
                owner: buyer,
                amount: 0,
                delegate: None,
                delegated_amount: 0,
            },
        }
    }
}

/// What initialization does, as a transition: refuse storage smaller than
/// the record, else write a fresh record and establish the custody path the
/// configured strategy needs — a delegated allowance of one unit for the
/// record, or the unit parked in the record's holding account.
pub open spec fn spec_initialize_purchase(w: Escrow, ix: InitializePurchase) -> (Escrow, Result<
    (),
    PurchaseErrors,
>) {
    if ix.space < RECORD_SPACE {
        (w, Err(PurchaseErrors::AllocationFailure))
    } else {
        let a = PurchaseAgreement {
            price: ix.price,
            seller: ix.seller,
            buyer: None,
            status: AgreementStatus::ItemNotTransferred,
            nft_id: ix.nft_id,
            start_time: ix.start_time,
            end_time: ix.end_time,
            nft_status: NftStatus::Active,
        };
        match w.custody {
            CustodyStrategy::DelegatedApproval => {
                let approved = spec_approve(w.nft_account, ix.seller, w.authority, 1);
                (Escrow { agreement: Some(a), nft_account: approved.0, ..w }, Ok(()))
            },
            CustodyStrategy::CustodialHolding => {
                let moved = spec_transfer(w.nft_account, w.nft_holding_account, ix.seller, 1);
                (
                    Escrow {
                        agreement: Some(a),
                        nft_account: moved.0,
                        nft_holding_account: moved.1,
                        ..w
                    },
                    Ok(()),
                )
            },
        }
    }
}

/// What payment does, as a transition: refuse a buyer who is the seller, a
/// record past `ItemNotTransferred`, or funds that do not cover the price;
/// else move exactly the price along the configured settlement leg, pull the
/// unit to the buyer when custody is delegated, and record buyer and
/// `PaymentDone`.
pub open spec fn spec_make_payment(w: Escrow, ix: MakePayment) -> (Escrow, Result<
    (),
    PurchaseErrors,
>) {
    match w.agreement {
        None => (w, Err(PurchaseErrors::Unauthorized)),
        Some(a) => {
            if ix.buyer == a.seller {
                (w, Err(PurchaseErrors::Unauthorized))
            } else if a.status != AgreementStatus::ItemNotTransferred {
                (w, Err(PurchaseErrors::PurchaseAlreadyCompleted))
            } else if ix.amount < a.price || w.buyer_lamports < a.price {
                (w, Err(PurchaseErrors::BuyerDoNotHaveEnoughLamports))
            } else {
                let paid = Escrow {
                    buyer_lamports: (w.buyer_lamports - a.price) as u64,
                    seller_lamports: if w.settlement == SettlementStrategy::DirectSettlement {
                        (w.seller_lamports + a.price) as u64
                    } else {
                        w.seller_lamports
                    },
                    escrow_lamports: if w.settlement == SettlementStrategy::EscrowSettlement {
                        (w.escrow_lamports + a.price) as u64
                    } else {
                        w.escrow_lamports
                    },
                    ..w
                };
                let pulled = if w.custody == CustodyStrategy::DelegatedApproval {
                    let moved = spec_transfer(
                        paid.nft_account,
                        paid.buyer_nft_account,
                        paid.authority,
                        1,
                    );
                    Escrow { nft_account: moved.0, buyer_nft_account: moved.1, ..paid }
                } else {
                    paid
                };
                (
                    Escrow {
                        agreement: Some(PurchaseAgreement {
                            buyer: Some(ix.buyer),
                            status: AgreementStatus::PaymentDone,
                            nft_status: NftStatus::Sold,
                            ..a
                        }),
                        ..pulled
                    },
                    Ok(()),
                )
            }
        },
    }
}

/// What completion does, as a transition: under direct settlement only the
/// seller may invoke it; a record still at `ItemNotTransferred` is refused
/// as unpaid, a terminal record as already completed; else the remaining
/// legs are released — escrowed funds to the seller, the held unit to the
/// buyer — and the record becomes `PurchaseCompleted`.
pub open spec fn spec_complete_purchase(w: Escrow, ix: CompletePurchase) -> (Escrow, Result<
    (),
    PurchaseErrors,
>) {
    match w.agreement {
        None => (w, Err(PurchaseErrors::Unauthorized)),
        Some(a) => {
            if w.settlement == SettlementStrategy::DirectSettlement && ix.caller != a.seller {
                (w, Err(PurchaseErrors::Unauthorized))
            } else {
                match a.status {
                    AgreementStatus::ItemNotTransferred => (
                        w,
                        Err(PurchaseErrors::PaymentNotReceived),
                    ),
                    AgreementStatus::PurchaseCompleted => (
                        w,
                        Err(PurchaseErrors::PurchaseAlreadyCompleted),
                    ),
                    AgreementStatus::PaymentDone => {
                        let released = Escrow {
                            seller_lamports: (w.seller_lamports + w.escrow_lamports) as u64,
                            escrow_lamports: 0,
                            ..w
                        };
                        let settled = if w.settlement == SettlementStrategy::EscrowSettlement {
                            released
                        } else {
                            w
                        };
                        let handed = if w.custody == CustodyStrategy::CustodialHolding {
                            let moved = spec_transfer(
                                settled.nft_holding_account,
                                settled.buyer_nft_account,
                                settled.authority,
                                1,
                            );
                            Escrow {
                                nft_holding_account: moved.0,
                                buyer_nft_account: moved.1,
                                ..settled
                            }
                        } else {
                            settled
                        };
                        (
                            Escrow {
                                agreement: Some(PurchaseAgreement {
                                    status: AgreementStatus::PurchaseCompleted,
                                    ..a
                                }),
                                ..handed
                            },
                            Ok(()),
                        )
                    },
                }
            }
        },
    }
}

impl Escrow {
    /// Create the agreement record and establish the custody path. Succeeds
    /// if and only if the offered storage covers the record; any refusal
    /// leaves the world untouched.
    pub fn initialize_purchase(&mut self, ix: InitializePurchase) -> (r: Result<
        (),
        PurchaseErrors,
    >)
        requires
            old(self).wf(),
            old(self).agreement is None,
            ix.seller == old(self).nft_account.owner,
        ensures
            ({
                let t = spec_initialize_purchase(*old(self), ix);
                *final(self) == t.0 && r == t.1
            }),
            final(self).wf(),
            r is Err ==> *final(self) == *old(self),
            r is Ok <==> ix.space >= RECORD_SPACE,
            r is Err ==> r == Err::<(), PurchaseErrors>(PurchaseErrors::AllocationFailure),
            r is Ok ==> (final(self).agreement matches Some(a)
                && a == (PurchaseAgreement {
                price: ix.price,
                seller: ix.seller,
                buyer: None,
                status: AgreementStatus::ItemNotTransferred,
                nft_id: ix.nft_id,
                start_time: ix.start_time,
                end_time: ix.end_time,
                nft_status: NftStatus::Active,
            })),
            final(self).seller_lamports == old(self).seller_lamports,
            final(self).buyer_lamports == old(self).buyer_lamports,
            final(self).escrow_lamports == old(self).escrow_lamports,
    {
        if ix.space < RECORD_SPACE {
            return Err(PurchaseErrors::AllocationFailure);
        }
        let a = PurchaseAgreement {
            price: ix.price,
            seller: ix.seller,
            buyer: None,
            status: AgreementStatus::ItemNotTransferred,
            nft_id: ix.nft_id,
            start_time: ix.start_time,
            end_time: ix.end_time,
            nft_status: NftStatus::Active,
        };
        match self.custody {
            CustodyStrategy::DelegatedApproval => {
                let (acct, _approved) = approve(self.nft_account, ix.seller, self.authority, 1);
                self.nft_account = acct;
            },
            CustodyStrategy::CustodialHolding => {
                let (from, to, _moved) = transfer(
                    self.nft_account,
                    self.nft_holding_account,
                    ix.seller,
                    1,
                );
                self.nft_account = from;
                self.nft_holding_account = to;
            },
        }
        self.agreement = Some(a);
        Ok(())
    }

    /// Pay for the item. Succeeds if and only if the record still awaits a
    /// payment, the paying party is not the seller, and both the declared
    /// amount and the buyer's actual balance cover the price. Exactly the
    /// price moves — to the seller directly or into escrow custody — the
    /// buyer is recorded, and under delegated custody the unit is pulled
    /// into the buyer's account at once. Any refusal leaves the world
    /// untouched.
    pub fn make_payment(&mut self, ix: MakePayment) -> (r: Result<(), PurchaseErrors>)
        requires
            old(self).wf(),
            old(self).agreement is Some,
            (old(self).agreement matches Some(a) ==> old(self).seller_lamports + a.price
                <= u64::MAX && old(self).escrow_lamports + a.price <= u64::MAX),
        ensures
            ({
                let t = spec_make_payment(*old(self), ix);
                *final(self) == t.0 && r == t.1
            }),
            final(self).wf(),
            r is Err ==> *final(self) == *old(self),
            old(self).status().rank() <= final(self).status().rank(),
            (r is Ok <==> (old(self).agreement matches Some(a)
                && a.status == AgreementStatus::ItemNotTransferred && ix.buyer != a.seller
                && ix.amount >= a.price && old(self).buyer_lamports >= a.price)),
            r is Ok ==> (old(self).agreement matches Some(a) && {
                &&& final(self).buyer_lamports == old(self).buyer_lamports - a.price
                &&& (old(self).settlement == SettlementStrategy::DirectSettlement
                    ==> final(self).seller_lamports == old(self).seller_lamports + a.price)
                &&& (old(self).settlement == SettlementStrategy::EscrowSettlement
                    ==> final(self).seller_lamports == old(self).seller_lamports
                        && final(self).escrow_lamports == old(self).escrow_lamports + a.price)
                &&& final(self).agreement == Some(PurchaseAgreement {
                    buyer: Some(ix.buyer),
                    status: AgreementStatus::PaymentDone,
                    nft_status: NftStatus::Sold,
                    ..a
                })
                &&& (old(self).custody == CustodyStrategy::DelegatedApproval
                    ==> final(self).buyer_nft_account.amount == 1)
            }),
    {
        let a = match self.agreement {
            Some(a) => a,
            None => {
                return Err(PurchaseErrors::Unauthorized);
            },
        };
        if ix.buyer == a.seller {
            return Err(PurchaseErrors::Unauthorized);
        }
        if a.status != AgreementStatus::ItemNotTransferred {
            return Err(PurchaseErrors::PurchaseAlreadyCompleted);
        }
        if ix.amount < a.price || self.buyer_lamports < a.price {
            return Err(PurchaseErrors::BuyerDoNotHaveEnoughLamports);
        }
        self.buyer_lamports = self.buyer_lamports - a.price;
        match self.settlement {
            SettlementStrategy::DirectSettlement => {
                self.seller_lamports = self.seller_lamports + a.price;
            },
            SettlementStrategy::EscrowSettlement => {
                self.escrow_lamports = self.escrow_lamports + a.price;
            },
        }
        match self.custody {
            CustodyStrategy::DelegatedApproval => {
                let (from, to, _moved) = transfer(
                    self.nft_account,
                    self.buyer_nft_account,
                    self.authority,
                    1,
                );
                self.nft_account = from;
                self.buyer_nft_account = to;
            },
            CustodyStrategy::CustodialHolding => {},
        }
        self.agreement = Some(
            PurchaseAgreement {
                buyer: Some(ix.buyer),
                status: AgreementStatus::PaymentDone,
                nft_status: NftStatus::Sold,
                ..a
            },
        );
        Ok(())
    }

    /// Close the agreement. Succeeds if and only if the record stands at
    /// `PaymentDone` and, under direct settlement, the seller invokes it;
    /// a record never paid is refused as `PaymentNotReceived`, a terminal
    /// one as `PurchaseAlreadyCompleted` — never accepted silently, so
    /// custody can never be released twice. On success the remaining legs
    /// are released and the record becomes terminal. Any refusal leaves the
    /// world untouched.
    pub fn complete_purchase(&mut self, ix: CompletePurchase) -> (r: Result<(), PurchaseErrors>)
        requires
            old(self).wf(),
            old(self).agreement is Some,
            old(self).seller_lamports + old(self).escrow_lamports <= u64::MAX,
        ensures
            ({
                let t = spec_complete_purchase(*old(self), ix);
                *final(self) == t.0 && r == t.1
            }),
            final(self).wf(),
            r is Err ==> *final(self) == *old(self),
            old(self).status().rank() <= final(self).status().rank(),
            (r is Ok <==> (old(self).agreement matches Some(a)
                && a.status == AgreementStatus::PaymentDone
                && (old(self).settlement == SettlementStrategy::DirectSettlement
                ==> ix.caller == a.seller))),
            r is Ok ==> (old(self).agreement matches Some(a) && {
                &&& final(self).agreement == Some(PurchaseAgreement {
                    status: AgreementStatus::PurchaseCompleted,
                    ..a
                })
                &&& final(self).buyer_nft_account.amount == 1
                &&& final(self).escrow_lamports == 0
                &&& final(self).seller_lamports == old(self).seller_lamports
                    + old(self).escrow_lamports
                &&& final(self).buyer_lamports == old(self).buyer_lamports
            }),
    {
        let a = match self.agreement {
            Some(a) => a,
            None => {
                return Err(PurchaseErrors::Unauthorized);
            },
        };
        if self.settlement == SettlementStrategy::DirectSettlement && ix.caller != a.seller {
            return Err(PurchaseErrors::Unauthorized);
        }
        match a.status {
            AgreementStatus::ItemNotTransferred => {
                return Err(PurchaseErrors::PaymentNotReceived);
            },
            AgreementStatus::PurchaseCompleted => {
                return Err(PurchaseErrors::PurchaseAlreadyCompleted);
            },
            AgreementStatus::PaymentDone => {},
        }
        if self.settlement == SettlementStrategy::EscrowSettlement {
            self.seller_lamports = self.seller_lamports + self.escrow_lamports;
            self.escrow_lamports = 0;
        }
        if self.custody == CustodyStrategy::CustodialHolding {
            let (from, to, _moved) = transfer(
                self.nft_holding_account,
                self.buyer_nft_account,
                self.authority,
                1,
            );
            self.nft_holding_account = from;
            self.buyer_nft_account = to;
        }
        self.agreement = Some(PurchaseAgreement { status: AgreementStatus::PurchaseCompleted, ..a });
        Ok(())
    }
}

} // verus!
