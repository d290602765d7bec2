use vstd::prelude::*;

use vstd::bytes::lemma_auto_spec_u64_to_from_le_bytes;
use vstd::bytes::spec_u64_from_le_bytes;
use vstd::bytes::spec_u64_to_le_bytes;
use vstd::bytes::u64_from_le_bytes;
use vstd::bytes::u64_to_le_bytes;

use crate::keys::Pubkey;
use crate::verification::bytes_match_at;

verus! {

/// Number of bytes of a persisted record: an 8-byte type tag, two 32-byte
/// identities, the 8-byte amount and the 1-byte derivation salt.
pub const RECORD_LEN: usize = 81;

/// The persisted terms of one pending swap: who deposited, which counter
/// asset they expect, exactly how much of it, and the derivation salt that
/// fixes the record's control authority over the vault. Created whole by
/// `make` and deleted whole at the end of a successful take; a failed take
/// leaves it untouched.
#[derive(Clone, Copy, Debug)]
pub struct Escrow {
    /// Identity of the depositing party.
    pub maker: Pubkey,
    /// Identifier of the asset the maker expects to receive.
    pub mint_b: Pubkey,
    /// Exact quantity of `mint_b` the maker must receive.
    pub take_amount: u64,
    /// Derivation salt for the record's control authority over the vault.
    pub bump: u8,
}

/// The persisted layout of a record, fixed-width and without padding: the
/// 8-byte type tag, the maker, the counter asset, the amount little-endian,
/// the salt.
pub open spec fn record_bytes(rec: Escrow, tag: Seq<u8>) -> Seq<u8> {
    tag + rec.maker@ + rec.mint_b@ + spec_u64_to_le_bytes(rec.take_amount) + seq![rec.bump]
}

/// Writes a record in its persisted layout under the given 8-byte type tag.
pub fn serialize_record(rec: &Escrow, tag: &Vec<u8>) -> (d: Vec<u8>)
    requires
        tag@.len() == 8,
    ensures
        d@ == record_bytes(*rec, tag@),
        d@.len() == RECORD_LEN,
{
    proof {
        lemma_auto_spec_u64_to_from_le_bytes();
    }
    let mut d: Vec<u8> = Vec::new();
    let mut i: usize = 0;
    while i < tag.len()
        invariant
            i <= tag@.len(),
            d@ == tag@.subrange(0, i as int),
        decreases tag@.len() - i,
    {
        d.push(tag[i]);
        proof {
            assert(d@ =~= tag@.subrange(0, i + 1));
        }
        i += 1;
    }
    proof {
        assert(d@ =~= tag@);
    }
    let mut i: usize = 0;
    while i < 32
        invariant
            i <= 32,
            d@ == tag@ + rec.maker@.subrange(0, i as int),
        decreases 32 - i,
    {
        d.push(rec.maker.bytes[i]);
        proof {
            assert(d@ =~= tag@ + rec.maker@.subrange(0, i + 1));
        }
        i += 1;
    }
    proof {
        assert(d@ =~= tag@ + rec.maker@);
    }
    let mut i: usize = 0;
    while i < 32
        invariant
            i <= 32,
            d@ == tag@ + rec.maker@ + rec.mint_b@.subrange(0, i as int),
        decreases 32 - i,
    {
        d.push(rec.mint_b.bytes[i]);
        proof {
            assert(d@ =~= tag@ + rec.maker@ + rec.mint_b@.subrange(0, i + 1));
        }
        i += 1;
    }
    proof {
        assert(d@ =~= tag@ + rec.maker@ + rec.mint_b@);
    }
    let amount_bytes = u64_to_le_bytes(rec.take_amount);
    let mut i: usize = 0;
    while i < amount_bytes.len()
        invariant
            i <= amount_bytes@.len(),
            d@ == tag@ + rec.maker@ + rec.mint_b@ + amount_bytes@.subrange(0, i as int),
        decreases amount_bytes@.len() - i,
    {
        d.push(amount_bytes[i]);
        proof {
            assert(d@ =~= tag@ + rec.maker@ + rec.mint_b@ + amount_bytes@.subrange(0, i + 1));
        }
        i += 1;
    }
    proof {
        assert(amount_bytes@.subrange(0, amount_bytes@.len() as int) =~= amount_bytes@);
    }
    d.push(rec.bump);
    proof {
        assert(d@ =~= record_bytes(*rec, tag@));
    }
    d
}

/// Reads a record back from its persisted layout. Returns the record exactly
/// when the buffer has the record's fixed width and opens with the expected
/// type tag; any other buffer is refused whole — there are no partial reads.
pub fn deserialize_record(d: &Vec<u8>, tag: &Vec<u8>) -> (r: Option<Escrow>)
    requires
        tag@.len() == 8,
    ensures
        r is Some <==> (d@.len() == RECORD_LEN && d@.subrange(0, 8) == tag@),
        r matches Some(rec) ==> d@ == record_bytes(rec, tag@),
{
    if d.len() != RECORD_LEN {
        return None;
    }
    if !bytes_match_at(d, 0, tag) {
        return None;
    }
    let mut maker_bytes: [u8; 32] = [0u8; 32];
    let mut i: usize = 0;
    while i < 32
        invariant
            i <= 32,
            d@.len() == 81,
            forall|j: int| 0 <= j < i ==> maker_bytes@[j] == d@[8 + j],
        decreases 32 - i,
    {
        maker_bytes[i] = d[8 + i];
        i += 1;
    }
    let mut mint_bytes: [u8; 32] = [0u8; 32];
    let mut i: usize = 0;
    while i < 32
        invariant
            i <= 32,
            d@.len() == 81,
            forall|j: int| 0 <= j < i ==> mint_bytes@[j] == d@[40 + j],
        decreases 32 - i,
    {
        mint_bytes[i] = d[40 + i];
        i += 1;
    }
    let amount_slice = vstd::slice::slice_subrange(d.as_slice(), 72, 80);
    let take_amount = u64_from_le_bytes(amount_slice);
    let rec = Escrow {
        maker: Pubkey { bytes: maker_bytes },
        mint_b: Pubkey { bytes: mint_bytes },
        take_amount,
        bump: d[80],
    };
    proof {
        lemma_auto_spec_u64_to_from_le_bytes();
        assert(rec.maker@ =~= d@.subrange(8, 40));
        assert(rec.mint_b@ =~= d@.subrange(40, 72));
        assert(spec_u64_to_le_bytes(spec_u64_from_le_bytes(d@.subrange(72, 80))) == d@.subrange(
            72,
            80,
        ));
        assert(d@ =~= record_bytes(rec, tag@));
    }
    Some(rec)
}

/// A record's persisted image has the record's fixed width and opens with
/// its type tag — exactly the two conditions under which `deserialize_record`
/// accepts a buffer, so every written record reads back.
pub proof fn lemma_record_image_parses(rec: Escrow, tag: Seq<u8>)
    requires
        tag.len() == 8,
    ensures
        record_bytes(rec, tag).len() == RECORD_LEN,
        record_bytes(rec, tag).subrange(0, 8) == tag,
{
    lemma_auto_spec_u64_to_from_le_bytes();
    assert(record_bytes(rec, tag).subrange(0, 8) =~= tag);
}

/// No two different records share a persisted image under one tag: what a
/// buffer reads back as is the very record that was written.
pub proof fn lemma_record_bytes_injective(r1: Escrow, r2: Escrow, tag: Seq<u8>)
    requires
        tag.len() == 8,
        record_bytes(r1, tag) == record_bytes(r2, tag),
    ensures
        r1 == r2,
{
    broadcast use vstd::array::axiom_array_ext_equal;

    lemma_auto_spec_u64_to_from_le_bytes();
    let b1 = record_bytes(r1, tag);
    let b2 = record_bytes(r2, tag);
    assert(r1.maker@ =~= b1.subrange(8, 40));
    assert(r2.maker@ =~= b2.subrange(8, 40));
    assert(r1.maker.bytes =~= r2.maker.bytes);
    assert(r1.mint_b@ =~= b1.subrange(40, 72));
    assert(r2.mint_b@ =~= b2.subrange(40, 72));
    assert(r1.mint_b.bytes =~= r2.mint_b.bytes);
    assert(spec_u64_to_le_bytes(r1.take_amount) =~= b1.subrange(72, 80));
    assert(spec_u64_to_le_bytes(r2.take_amount) =~= b2.subrange(72, 80));
    assert(r1.take_amount == spec_u64_from_le_bytes(spec_u64_to_le_bytes(r1.take_amount)));
    assert(r1.bump == b1[80]);
    assert(r2.bump == b2[80]);
}

} // verus!
