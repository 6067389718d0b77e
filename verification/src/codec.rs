//! The persisted form of an agreement record: a fixed layout of
//! [`crate::agreement::RECORD_SPACE`] bytes, written when a transition
//! commits and read back when the record is loaded. Serializing a record and
//! reading it back reproduces every field exactly.

use vstd::prelude::*;
use vstd::bytes::*;
use vstd::slice::slice_index_get;
use vstd::slice::slice_subrange;

use crate::agreement::AccountId;
use crate::agreement::AgreementStatus;
use crate::agreement::NftStatus;
use crate::agreement::PurchaseAgreement;
use crate::agreement::RECORD_SPACE;

verus! {

/// The byte that stands for each status in the persisted record.
pub open spec fn spec_status_tag(s: AgreementStatus) -> u8 {
    match s {
        AgreementStatus::ItemNotTransferred => 0,
        AgreementStatus::PaymentDone => 1,
        AgreementStatus::PurchaseCompleted => 2,
    }
}

/// The byte that stands for each market state in the persisted record.
pub open spec fn spec_nft_status_tag(s: NftStatus) -> u8 {
    match s {
        NftStatus::Active => 0,
        NftStatus::Sold => 1,
        NftStatus::NotAvailable => 2,
    }
}

/// The nine bytes that stand for the optional buyer: a presence tag, then
/// the identity, zero when absent.
pub open spec fn spec_buyer_bytes(b: Option<AccountId>) -> Seq<u8> {
    match b {
        None => seq![0u8] + spec_u64_to_le_bytes(0),
        Some(x) => seq![1u8] + spec_u64_to_le_bytes(x),
    }
}

/// The persisted form of a record: every field in order, integers as
/// little-endian bytes, always exactly `RECORD_SPACE` bytes.
pub open spec fn spec_encode(a: PurchaseAgreement) -> Seq<u8> {
    spec_u64_to_le_bytes(a.price) + spec_u64_to_le_bytes(a.seller) + spec_buyer_bytes(a.buyer)
        + seq![spec_status_tag(a.status)] + spec_u64_to_le_bytes(a.nft_id) + spec_u64_to_le_bytes(
        a.start_time,
    ) + spec_u64_to_le_bytes(a.end_time) + seq![spec_nft_status_tag(a.nft_status)]
}

/// What reading a persisted record back gives: the record the bytes spell,
/// or nothing when the length, a tag, or the buyer encoding is not one the
/// writer produces.
pub open spec fn spec_decode(s: Seq<u8>) -> Option<PurchaseAgreement> {
    if s.len() != RECORD_SPACE {
        None
    } else {
        let btag = s[16];
        let bval = spec_u64_from_le_bytes(s.subrange(17, 25));
        let stag = s[25];
        let ntag = s[50];
        if !((btag == 0 && bval == 0) || btag == 1) || stag > 2 || ntag > 2 {
            None
        } else {
            Some(
                PurchaseAgreement {
                    price: spec_u64_from_le_bytes(s.subrange(0, 8)),
                    seller: spec_u64_from_le_bytes(s.subrange(8, 16)),
                    buyer: if btag == 0 {
                        None
                    } else {
                        Some(bval)
                    },
                    status: if stag == 0 {
                        AgreementStatus::ItemNotTransferred
                    } else if stag == 1 {
                        AgreementStatus::PaymentDone
                    } else {
                        AgreementStatus::PurchaseCompleted
                    },
                    nft_id: spec_u64_from_le_bytes(s.subrange(26, 34)),
                    start_time: spec_u64_from_le_bytes(s.subrange(34, 42)),
                    end_time: spec_u64_from_le_bytes(s.subrange(42, 50)),
                    nft_status: if ntag == 0 {
                        NftStatus::Active
                    } else if ntag == 1 {
                        NftStatus::Sold
                    } else {
                        NftStatus::NotAvailable
                    },
                },
            )
        }
    }
}

/// Reading a serialized record back reproduces the exact field values
/// written, whatever state the record is in.
pub proof fn lemma_record_round_trip(a: PurchaseAgreement)
    ensures
        spec_encode(a).len() == RECORD_SPACE,
        spec_decode(spec_encode(a)) == Some(a),
{
    lemma_auto_spec_u64_to_from_le_bytes();
    let s = spec_encode(a);
    assert(s.len() == RECORD_SPACE);
    assert(s.subrange(0, 8) =~= spec_u64_to_le_bytes(a.price));
    assert(s.subrange(8, 16) =~= spec_u64_to_le_bytes(a.seller));
    assert(s.subrange(16, 25) =~= spec_buyer_bytes(a.buyer));
    match a.buyer {
        None => {
            assert(s[16] == 0);
            assert(s.subrange(17, 25) =~= spec_u64_to_le_bytes(0));
        },
        Some(x) => {
            assert(s[16] == 1);
            assert(s.subrange(17, 25) =~= spec_u64_to_le_bytes(x));
        },
    }
    assert(s[25] == spec_status_tag(a.status));
    assert(s.subrange(26, 34) =~= spec_u64_to_le_bytes(a.nft_id));
    assert(s.subrange(34, 42) =~= spec_u64_to_le_bytes(a.start_time));
    assert(s.subrange(42, 50) =~= spec_u64_to_le_bytes(a.end_time));
    assert(s[50] == spec_nft_status_tag(a.nft_status));
}

/// Write a record in its persisted form.
pub fn serialize_agreement(a: &PurchaseAgreement) -> (out: Vec<u8>)
    ensures
        out@ == spec_encode(*a),
        out@.len() == RECORD_SPACE,
{
    let mut out: Vec<u8> = Vec::new();
    let mut piece = u64_to_le_bytes(a.price);
    out.append(&mut piece);
    let mut piece = u64_to_le_bytes(a.seller);
    out.append(&mut piece);
    match a.buyer {
        None => {
            out.push(0u8);
            let mut piece = u64_to_le_bytes(0);
            out.append(&mut piece);
        },
        Some(b) => {
            out.push(1u8);
            let mut piece = u64_to_le_bytes(b);
            out.append(&mut piece);
        },
    }
    let stag: u8 = match a.status {
        AgreementStatus::ItemNotTransferred => 0,
        AgreementStatus::PaymentDone => 1,
        AgreementStatus::PurchaseCompleted => 2,
    };
    out.push(stag);
    let mut piece = u64_to_le_bytes(a.nft_id);
    out.append(&mut piece);
    let mut piece = u64_to_le_bytes(a.start_time);
    out.append(&mut piece);
    let mut piece = u64_to_le_bytes(a.end_time);
    out.append(&mut piece);
    let ntag: u8 = match a.nft_status {
        NftStatus::Active => 0,
        NftStatus::Sold => 1,
        NftStatus::NotAvailable => 2,
    };
    out.push(ntag);
    proof {
        assert(out@ =~= spec_encode(*a));
    }
    out
}

/// Bytes shorter or longer than a record decode to nothing: the reader
/// accepts no truncated or padded form of the layout.
pub proof fn lemma_decode_rejects_foreign_lengths(s: Seq<u8>)
    requires
        s.len() != RECORD_SPACE,
    ensures
        spec_decode(s) is None,
{
}

/// Read a record back from its persisted form; refuse bytes the writer
/// cannot have produced.
pub fn deserialize_agreement(bytes: &[u8]) -> (r: Option<PurchaseAgreement>)
    ensures
        r == spec_decode(bytes@),
{
    if bytes.len() != 51 {
        return None;
    }
    let price = u64_from_le_bytes(slice_subrange(bytes, 0, 8));
    let seller = u64_from_le_bytes(slice_subrange(bytes, 8, 16));
    let btag = *slice_index_get(bytes, 16);
    let bval = u64_from_le_bytes(slice_subrange(bytes, 17, 25));
    let stag = *slice_index_get(bytes, 25);
    let nft_id = u64_from_le_bytes(slice_subrange(bytes, 26, 34));
    let start_time = u64_from_le_bytes(slice_subrange(bytes, 34, 42));
    let end_time = u64_from_le_bytes(slice_subrange(bytes, 42, 50));
    let ntag = *slice_index_get(bytes, 50);
    if !((btag == 0 && bval == 0) || btag == 1) || stag > 2 || ntag > 2 {
        return None;
    }
    Some(
        PurchaseAgreement {
            price,
            seller,
            buyer: if btag == 0 {
                None
            } else {
                Some(bval)
            },
            status: if stag == 0 {
                AgreementStatus::ItemNotTransferred
            } else if stag == 1 {
                AgreementStatus::PaymentDone
            } else {
                AgreementStatus::PurchaseCompleted
            },
            nft_id,
            start_time,
            end_time,
            nft_status: if ntag == 0 {
                NftStatus::Active
            } else if ntag == 1 {
                NftStatus::Sold
            } else {
                NftStatus::NotAvailable
            },
        },
    )
}

} // verus!
