use escrow_introspection::controller::make;
use escrow_introspection::controller::take_end;
use escrow_introspection::controller::take_sol;
use escrow_introspection::controller::take_start;
use escrow_introspection::controller::take_token;
use escrow_introspection::controller::Authority;
use escrow_introspection::controller::Make;
use escrow_introspection::controller::Take;
use escrow_introspection::controller::TakeShape;
use escrow_introspection::controller::NATIVE_TRANSFER_OPCODE;
use escrow_introspection::controller::TOKEN_TRANSFER_OPCODE;
use escrow_introspection::error::EscrowError;
use escrow_introspection::introspect::instruction_at;
use escrow_introspection::introspect::InstructionRecord;
use escrow_introspection::keys::Pubkey;
use escrow_introspection::record::deserialize_record;
use escrow_introspection::record::serialize_record;
use escrow_introspection::record::Escrow;
use escrow_introspection::record::RECORD_LEN;
use escrow_introspection::settlement::fund;
use escrow_introspection::settlement::settle;
use escrow_introspection::settlement::LedgerState;
use escrow_introspection::verification::encode_payment_payload;

use anchor_lang::prelude::Pubkey as ChainKey;
use anchor_spl::associated_token::get_associated_token_address;

fn pk(tag: u8) -> Pubkey {
    Pubkey::new([tag; 32])
}

/// The maker's real derived receiving account for `mint`, computed by the
/// same outside derivation the library relies on.
fn derived_ata(wallet: &Pubkey, mint: &Pubkey) -> Pubkey {
    let w = ChainKey::new_from_array(wallet.bytes);
    let m = ChainKey::new_from_array(mint.bytes);
    Pubkey::new(get_associated_token_address(&w, &m).to_bytes())
}

fn token_transfer_ix(program: Pubkey, amount: u64, destination: Pubkey) -> InstructionRecord {
    InstructionRecord {
        program_id: program,
        accounts: vec![pk(40), destination, pk(41)],
        data: encode_payment_payload(&vec![TOKEN_TRANSFER_OPCODE], amount),
    }
}

fn funded_escrow(maker: Pubkey, mint_b: Pubkey, take_amount: u64) -> Escrow {
    Escrow { maker, mint_b, take_amount, bump: 254 }
}

/// A take attempt at position 0 whose sibling is `sibling`.
fn take_ctx(escrow: Option<Escrow>, maker: Pubkey, sibling: InstructionRecord) -> Take {
    let leading = InstructionRecord {
        program_id: pk(9),
        accounts: vec![],
        data: vec![],
    };
    Take {
        taker: pk(20),
        maker,
        sending_ata: pk(21),
        sending_ata_amount: 100,
        destination_ata: pk(22),
        escrow,
        instructions: vec![leading, sibling],
        current_index: 0,
        token_program: pk(30),
        system_program: pk(31),
        escrow_program: pk(32),
        take_end_opcode: vec![11, 22, 33, 44, 55, 66, 77, 88],
    }
}

#[test]
fn make_initializes_record_and_deposit() {
    let ctx = Make {
        maker: pk(1),
        mint_a: pk(2),
        mint_b: pk(3),
        maker_ata: pk(4),
        vault: pk(5),
        escrow_bump: 253,
    };
    let (escrow, deposit) = make(&ctx, 100, 50);
    assert!(escrow.maker == pk(1));
    assert!(escrow.mint_b == pk(3));
    assert_eq!(escrow.take_amount, 50);
    assert_eq!(escrow.bump, 253);
    assert!(deposit.from == pk(4));
    assert!(deposit.to == pk(5));
    assert_eq!(deposit.amount, 100);
    assert_eq!(deposit.authority, Authority::Maker);
}

#[test]
fn take_token_accepts_genuine_transfer() {
    let maker = pk(1);
    let mint_b = pk(3);
    let maker_ata = derived_ata(&maker, &mint_b);
    let escrow = funded_escrow(maker, mint_b, 50);
    let ctx = take_ctx(
        Some(escrow),
        maker,
        token_transfer_ix(pk(30), 50, maker_ata),
    );
    let plan = take_token(&ctx).expect("a genuine transfer must be accepted");
    assert!(plan.release.from == pk(21));
    assert!(plan.release.to == pk(22));
    assert_eq!(plan.release.amount, 100);
    assert_eq!(plan.release.authority, Authority::Record);
    assert!(plan.close.account == pk(21));
    // The direct shape closes the vault to the taker, residual rent included.
    assert!(plan.close.rent_destination == pk(20));
    assert_eq!(plan.close.authority, Authority::Record);
}

#[test]
fn take_token_rejects_amount_off_by_one() {
    let maker = pk(1);
    let mint_b = pk(3);
    let maker_ata = derived_ata(&maker, &mint_b);
    let escrow = funded_escrow(maker, mint_b, 50);
    for wrong in [49u64, 51u64] {
        let ctx = take_ctx(
            Some(escrow),
            maker,
            token_transfer_ix(pk(30), wrong, maker_ata),
        );
        assert_eq!(take_token(&ctx).err(), Some(EscrowError::InvalidAmount));
    }
}

#[test]
fn take_token_rejects_wrong_opcode() {
    let maker = pk(1);
    let mint_b = pk(3);
    let maker_ata = derived_ata(&maker, &mint_b);
    let escrow = funded_escrow(maker, mint_b, 50);
    let sibling = InstructionRecord {
        program_id: pk(30),
        accounts: vec![pk(40), maker_ata, pk(41)],
        data: encode_payment_payload(&vec![4u8], 50),
    };
    let ctx = take_ctx(Some(escrow), maker, sibling);
    assert_eq!(take_token(&ctx).err(), Some(EscrowError::InvalidIx));
}

#[test]
fn take_token_rejects_wrong_destination() {
    let maker = pk(1);
    let mint_b = pk(3);
    let escrow = funded_escrow(maker, mint_b, 50);
    let ctx = take_ctx(
        Some(escrow),
        maker,
        token_transfer_ix(pk(30), 50, pk(99)),
    );
    assert_eq!(take_token(&ctx).err(), Some(EscrowError::InvalidMakerATA));
}

#[test]
fn take_token_rejects_wrong_program() {
    let maker = pk(1);
    let mint_b = pk(3);
    let maker_ata = derived_ata(&maker, &mint_b);
    let escrow = funded_escrow(maker, mint_b, 50);
    let ctx = take_ctx(
        Some(escrow),
        maker,
        token_transfer_ix(pk(66), 50, maker_ata),
    );
    assert_eq!(take_token(&ctx).err(), Some(EscrowError::InvalidProgram));
}

#[test]
fn take_token_fails_without_sibling() {
    let maker = pk(1);
    let escrow = funded_escrow(maker, pk(3), 50);
    let mut ctx = take_ctx(Some(escrow), maker, token_transfer_ix(pk(30), 50, pk(44)));
    ctx.instructions.pop();
    assert_eq!(take_token(&ctx).err(), Some(EscrowError::IntrospectionError));
}

#[test]
fn take_token_fails_without_record() {
    let maker = pk(1);
    let maker_ata = derived_ata(&maker, &pk(3));
    let ctx = take_ctx(None, maker, token_transfer_ix(pk(30), 50, maker_ata));
    assert_eq!(take_token(&ctx).err(), Some(EscrowError::RecordNotFound));
}

#[test]
fn take_start_accepts_custom_follow_up() {
    let maker = pk(1);
    let mint_b = pk(3);
    let maker_ata = derived_ata(&maker, &mint_b);
    let escrow = funded_escrow(maker, mint_b, 50);
    let opcode = vec![11u8, 22, 33, 44, 55, 66, 77, 88];
    let sibling = InstructionRecord {
        program_id: pk(32),
        accounts: vec![pk(40), pk(41), pk(42), maker_ata],
        data: encode_payment_payload(&opcode, 50),
    };
    let ctx = take_ctx(Some(escrow), maker, sibling);
    let plan = take_start(&ctx).expect("a matching follow-up call must be accepted");
    assert_eq!(plan.release.amount, 100);
    // The split shape closes the vault to the maker.
    assert!(plan.close.rent_destination == maker);
}

#[test]
fn take_start_rejects_generic_transfer_presented_as_follow_up() {
    let maker = pk(1);
    let mint_b = pk(3);
    let maker_ata = derived_ata(&maker, &mint_b);
    let escrow = funded_escrow(maker, mint_b, 50);
    let mut sibling = token_transfer_ix(pk(32), 50, maker_ata);
    sibling.accounts = vec![pk(40), pk(41), pk(42), maker_ata];
    let ctx = take_ctx(Some(escrow), maker, sibling);
    assert_eq!(take_start(&ctx).err(), Some(EscrowError::InvalidIx));
}

#[test]
fn take_sol_accepts_native_transfer() {
    let maker = pk(1);
    let escrow = funded_escrow(maker, pk(3), 50);
    let sibling = InstructionRecord {
        program_id: pk(31),
        accounts: vec![pk(40), maker],
        data: encode_payment_payload(&vec![NATIVE_TRANSFER_OPCODE, 0, 0, 0], 50),
    };
    let ctx = take_ctx(Some(escrow), maker, sibling);
    let plan = take_sol(&ctx).expect("a matching native transfer must be accepted");
    assert_eq!(plan.release.amount, 100);
    // The native shape closes the vault to the taker, like the direct one.
    assert!(plan.close.rent_destination == pk(20));
}

#[test]
fn take_sol_rejects_tag_with_nonzero_high_bytes() {
    let maker = pk(1);
    let escrow = funded_escrow(maker, pk(3), 50);
    let sibling = InstructionRecord {
        program_id: pk(31),
        accounts: vec![pk(40), maker],
        data: encode_payment_payload(&vec![NATIVE_TRANSFER_OPCODE, 1, 0, 0], 50),
    };
    let ctx = take_ctx(Some(escrow), maker, sibling);
    assert_eq!(take_sol(&ctx).err(), Some(EscrowError::InvalidIx));
}

#[test]
fn take_sol_pays_the_maker_raw_identity_not_an_ata() {
    let maker = pk(1);
    let escrow = funded_escrow(maker, pk(3), 50);
    let maker_ata = derived_ata(&maker, &pk(3));
    let sibling = InstructionRecord {
        program_id: pk(31),
        accounts: vec![pk(40), maker_ata],
        data: encode_payment_payload(&vec![NATIVE_TRANSFER_OPCODE, 0, 0, 0], 50),
    };
    let ctx = take_ctx(Some(escrow), maker, sibling);
    assert_eq!(take_sol(&ctx).err(), Some(EscrowError::InvalidMakerATA));
}

#[test]
fn take_end_authorizes_the_payment_leg() {
    let ctx = take_ctx(None, pk(1), token_transfer_ix(pk(30), 50, pk(44)));
    let action = take_end(&ctx, 50);
    assert!(action.from == pk(21));
    assert!(action.to == pk(22));
    assert_eq!(action.amount, 50);
    assert_eq!(action.authority, Authority::Taker);
}

#[test]
fn settle_end_to_end_swap() {
    let maker = pk(1);
    let mint_b = pk(3);
    let maker_ata = derived_ata(&maker, &mint_b);
    let make_ctx = Make {
        maker,
        mint_a: pk(2),
        mint_b,
        maker_ata: pk(4),
        vault: pk(21),
        escrow_bump: 254,
    };
    let empty = LedgerState { record: None, vault_balance: 0 };
    let (funded, deposit) = fund(&empty, &make_ctx, 100, 50);
    assert_eq!(deposit.amount, 100);
    assert_eq!(funded.vault_balance, 100);

    let ctx = take_ctx(
        funded.record,
        maker,
        token_transfer_ix(pk(30), 50, maker_ata),
    );
    let (after, outcome) =
        settle(&funded, &ctx, TakeShape::Token).expect("the genuine swap must settle");
    assert_eq!(outcome.asset_a_to_taker, 100);
    assert_eq!(outcome.asset_b_to_maker, 50);
    assert!(outcome.paid_to == maker_ata);
    assert!(after.record.is_none());
    assert_eq!(after.vault_balance, 0);

    // The record was consumed: a second attempt finds no swap to take.
    let ctx2 = take_ctx(
        after.record,
        maker,
        token_transfer_ix(pk(30), 50, maker_ata),
    );
    assert_eq!(
        settle(&after, &ctx2, TakeShape::Token).err(),
        Some(EscrowError::RecordNotFound)
    );
}

#[test]
fn settle_rejects_underpayment_and_leaves_state_alone() {
    let maker = pk(1);
    let mint_b = pk(3);
    let maker_ata = derived_ata(&maker, &mint_b);
    let escrow = funded_escrow(maker, mint_b, 50);
    let funded = LedgerState { record: Some(escrow), vault_balance: 100 };
    let ctx = take_ctx(
        funded.record,
        maker,
        token_transfer_ix(pk(30), 49, maker_ata),
    );
    assert_eq!(
        settle(&funded, &ctx, TakeShape::Token).err(),
        Some(EscrowError::InvalidAmount)
    );
    // No new state was produced; the funded state stands untouched.
    assert_eq!(funded.vault_balance, 100);
    assert!(funded.record.is_some());
}

#[test]
fn instruction_at_bounds() {
    let ixs = vec![token_transfer_ix(pk(30), 50, pk(44))];
    let ix = instruction_at(&ixs, 0).expect("position 0 exists");
    assert!(ix.program_id == pk(30));
    assert_eq!(
        instruction_at(&ixs, 1).err(),
        Some(EscrowError::IntrospectionError)
    );
}

#[test]
fn encode_payment_payload_exact_bytes() {
    let d = encode_payment_payload(&vec![TOKEN_TRANSFER_OPCODE], 50);
    assert_eq!(d, vec![3, 50, 0, 0, 0, 0, 0, 0, 0]);
    let d2 = encode_payment_payload(&vec![TOKEN_TRANSFER_OPCODE], u64::MAX);
    assert_eq!(d2, vec![3, 255, 255, 255, 255, 255, 255, 255, 255]);
}

#[test]
fn pubkey_equality_is_byte_equality() {
    assert!(pk(1) == pk(1));
    assert!(!(pk(1) == pk(2)));
    let mut bytes = [7u8; 32];
    bytes[31] = 8;
    assert!(!(Pubkey::new([7u8; 32]) == Pubkey::new(bytes)));
}

#[test]
fn error_descriptions() {
    assert_eq!(EscrowError::InvalidIx.describe(), "Invalid instruction");
    assert_eq!(EscrowError::InvalidAmount.describe(), "Invalid amount");
    assert_eq!(EscrowError::InvalidProgram.describe(), "Invalid program");
    assert_eq!(EscrowError::InvalidMakerATA.describe(), "Invalid Maker ATA");
}

#[test]
fn record_round_trip() {
    let rec = funded_escrow(pk(1), pk(3), 50);
    let tag = vec![8u8, 7, 6, 5, 4, 3, 2, 1];
    let d = serialize_record(&rec, &tag);
    assert_eq!(d.len(), RECORD_LEN);
    assert_eq!(&d[0..8], &tag[..]);
    assert_eq!(&d[8..40], &[1u8; 32]);
    assert_eq!(&d[40..72], &[3u8; 32]);
    assert_eq!(&d[72..80], &[50, 0, 0, 0, 0, 0, 0, 0]);
    assert_eq!(d[80], 254);
    let back = deserialize_record(&d, &tag).expect("a written record must read back");
    assert!(back.maker == rec.maker);
    assert!(back.mint_b == rec.mint_b);
    assert_eq!(back.take_amount, 50);
    assert_eq!(back.bump, 254);
}

#[test]
fn record_rejects_wrong_tag_or_length() {
    let rec = funded_escrow(pk(1), pk(3), 50);
    let tag = vec![8u8, 7, 6, 5, 4, 3, 2, 1];
    let other_tag = vec![9u8, 7, 6, 5, 4, 3, 2, 1];
    let mut d = serialize_record(&rec, &tag);
    assert!(deserialize_record(&d, &other_tag).is_none());
    d.pop();
    assert!(deserialize_record(&d, &tag).is_none());
}

#[test]
fn take_token_checks_the_instruction_after_the_current_one() {
    let maker = pk(1);
    let mint_b = pk(3);
    let maker_ata = derived_ata(&maker, &mint_b);
    let escrow = funded_escrow(maker, mint_b, 50);
    let mut ctx = take_ctx(
        Some(escrow),
        maker,
        token_transfer_ix(pk(30), 50, maker_ata),
    );
    let leading = InstructionRecord {
        program_id: pk(9),
        accounts: vec![],
        data: vec![],
    };
    ctx.instructions.insert(0, leading);
    // Still pointing at position 0, the sibling at position 1 does not even
    // target the token program.
    assert_eq!(take_token(&ctx).err(), Some(EscrowError::InvalidProgram));
    // Pointing at the release instruction's real position finds the genuine
    // transfer right after it.
    ctx.current_index = 1;
    assert!(take_token(&ctx).is_ok());
}

#[test]
fn settle_native_swap_pays_the_maker_directly() {
    let maker = pk(1);
    let escrow = funded_escrow(maker, pk(3), 50);
    let funded = LedgerState { record: Some(escrow), vault_balance: 100 };
    let sibling = InstructionRecord {
        program_id: pk(31),
        accounts: vec![pk(40), maker],
        data: encode_payment_payload(&vec![NATIVE_TRANSFER_OPCODE, 0, 0, 0], 50),
    };
    let ctx = take_ctx(funded.record, maker, sibling);
    let (after, outcome) =
        settle(&funded, &ctx, TakeShape::Sol).expect("the native swap must settle");
    assert_eq!(outcome.asset_a_to_taker, 100);
    assert_eq!(outcome.asset_b_to_maker, 50);
    assert!(outcome.paid_to == maker);
    assert!(after.record.is_none());
}
