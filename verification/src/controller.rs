use vstd::prelude::*;

use crate::error::EscrowError;
use crate::introspect::instruction_at;
use crate::introspect::InstructionRecord;
use crate::keys::associated_token_address;
use crate::keys::ata_of;
use crate::keys::Pubkey;
use crate::record::Escrow;
use crate::verification::verify_instruction;
use crate::verification::verify_spec;

verus! {

/// Opcode of a generic token-transfer instruction: a single byte.
pub const TOKEN_TRANSFER_OPCODE: u8 = 3;

/// Low byte of a native-asset transfer's four-byte instruction tag.
pub const NATIVE_TRANSFER_OPCODE: u8 = 2;

/// Who authorizes a transfer: the maker's own signature (funding the vault),
/// the taker's own signature (the payment leg), or the escrow record's
/// derived authority, which no human party holds (releasing the vault).
#[derive(Clone, Copy, Debug, PartialEq, Eq, Structural)]
pub enum Authority {
    Maker,
    Taker,
    Record,
}

/// One asset movement the controller authorizes. The transfer itself is
/// performed by the asset-custody collaborator; this records exactly what
/// was authorized.
#[derive(Clone, Copy, Debug)]
pub struct TransferAction {
    pub from: Pubkey,
    pub to: Pubkey,
    pub amount: u64,
    pub authority: Authority,
}

/// Closing of an emptied custody account, returning its residual rent.
#[derive(Clone, Copy, Debug)]
pub struct CloseAction {
    pub account: Pubkey,
    pub rent_destination: Pubkey,
    pub authority: Authority,
}

/// Everything a successful take authorizes: drain the vault to the taker,
/// then close the vault and return its rent.
#[derive(Clone, Copy, Debug)]
pub struct ReleasePlan {
    pub release: TransferAction,
    pub close: CloseAction,
}

/// The accounts a deposit runs against.
#[derive(Clone, Copy, Debug)]
pub struct Make {
    /// The depositing party; authorizes the deposit itself.
    pub maker: Pubkey,
    /// The asset being deposited.
    pub mint_a: Pubkey,
    /// The asset the maker expects in return.
    pub mint_b: Pubkey,
    /// The maker's account holding the deposited asset.
    pub maker_ata: Pubkey,
    /// The custody account the deposit moves into.
    pub vault: Pubkey,
    /// Derivation salt of the escrow record's authority over the vault.
    pub escrow_bump: u8,
}

/// The accounts and transaction-scoped state a release attempt runs
/// against. The instruction list and current position are the ledger's
/// read-only introspection capability over the enclosing transaction; the
/// program identities are injected configuration, never compiled-in.
#[derive(Clone, Debug)]
pub struct Take {
    /// The party triggering the release; receives the vault's contents,
    /// and its residual rent in the direct and native shapes.
    pub taker: Pubkey,
    /// The depositing party; receives the counter-payment, and the vault's
    /// residual rent in the split shape.
    pub maker: Pubkey,
    /// The account drained by the release: the vault.
    pub sending_ata: Pubkey,
    /// Balance held by `sending_ata` at the time of the attempt.
    pub sending_ata_amount: u64,
    /// The taker's account that receives the vault's contents.
    pub destination_ata: Pubkey,
    /// The funded escrow record, if one exists for this swap.
    pub escrow: Option<Escrow>,
    /// The enclosing transaction's instruction list, in execution order.
    pub instructions: Vec<InstructionRecord>,
    /// Zero-based position of the instruction currently executing.
    pub current_index: usize,
    /// Identity of the token-asset custody program.
    pub token_program: Pubkey,
    /// Identity of the native-asset transfer program.
    pub system_program: Pubkey,
    /// This escrow program's own identity.
    pub escrow_program: Pubkey,
    /// Eight-byte discriminator of the follow-up payment instruction.
    pub take_end_opcode: Vec<u8>,
}

/// Which verification target a release attempt expects as its sibling: a
/// custom follow-up instruction of this program, a generic token transfer,
/// or a native-asset transfer.
#[derive(Clone, Copy, Debug, PartialEq, Eq, Structural)]
pub enum TakeShape {
    Custom,
    Token,
    Sol,
}

/// The program the sibling instruction must target for a given shape.
pub open spec fn expected_program(ctx: Take, shape: TakeShape) -> Seq<u8> {
    match shape {
        TakeShape::Custom => ctx.escrow_program@,
        TakeShape::Token => ctx.token_program@,
        TakeShape::Sol => ctx.system_program@,
    }
}

/// The opcode the sibling's payload must open with: an eight-byte
/// discriminator for a custom follow-up, one byte for a token transfer,
/// four bytes (tag in the low byte) for a native transfer.
pub open spec fn expected_opcode(ctx: Take, shape: TakeShape) -> Seq<u8> {
    match shape {
        TakeShape::Custom => ctx.take_end_opcode@,
        TakeShape::Token => seq![TOKEN_TRANSFER_OPCODE],
        TakeShape::Sol => seq![NATIVE_TRANSFER_OPCODE, 0u8, 0u8, 0u8],
    }
}

/// Where the paying account stands in the sibling's referenced-account list.
pub open spec fn expected_account_index(shape: TakeShape) -> int {
    match shape {
        TakeShape::Custom => 3,
        TakeShape::Token => 1,
        TakeShape::Sol => 1,
    }
}

/// The account the sibling must pay: the maker's derived receiving account
/// for the expected asset, or the maker's raw identity for native assets.
pub open spec fn expected_destination(ctx: Take, rec: Escrow, shape: TakeShape) -> Seq<u8> {
    match shape {
        TakeShape::Custom => ata_of(ctx.maker@, rec.mint_b@),
        TakeShape::Token => ata_of(ctx.maker@, rec.mint_b@),
        TakeShape::Sol => rec.maker@,
    }
}

/// The whole decision of a release attempt: which error it fails with, or
/// that the sibling instruction was verified and release is authorized.
pub open spec fn take_check(ctx: Take, shape: TakeShape) -> Result<(), EscrowError> {
    match ctx.escrow {
        None => Err(EscrowError::RecordNotFound),
        Some(rec) => if !(ctx.current_index + 1 < ctx.instructions@.len()) {
            Err(EscrowError::IntrospectionError)
        } else {
            verify_spec(
                ctx.instructions@[ctx.current_index + 1]@,
                expected_program(ctx, shape),
                expected_opcode(ctx, shape),
                rec.take_amount,
                expected_account_index(shape),
                expected_destination(ctx, rec, shape),
            )
        },
    }
}

/// Where the vault's residual rent goes when it is closed: to the taker
/// for the direct and native shapes, to the maker for the split shape,
/// where the follow-up payment instruction settles with the maker anyway.
pub open spec fn vault_rent_destination(ctx: Take, shape: TakeShape) -> Pubkey {
    match shape {
        TakeShape::Custom => ctx.maker,
        TakeShape::Token => ctx.taker,
        TakeShape::Sol => ctx.taker,
    }
}

/// What a successful release authorizes, given the accounts of the attempt.
pub open spec fn release_plan(ctx: Take, shape: TakeShape) -> ReleasePlan {
    ReleasePlan {
        release: TransferAction {
            from: ctx.sending_ata,
            to: ctx.destination_ata,
            amount: ctx.sending_ata_amount,
            authority: Authority::Record,
        },
        close: CloseAction {
            account: ctx.sending_ata,
            rent_destination: vault_rent_destination(ctx, shape),
            authority: Authority::Record,
        },
    }
}

/// The full outcome of a release attempt for a given shape.
pub open spec fn take_spec(ctx: Take, shape: TakeShape) -> Result<ReleasePlan, EscrowError> {
    match take_check(ctx, shape) {
        Err(e) => Err(e),
        Ok(()) => Ok(release_plan(ctx, shape)),
    }
}

/// Deposits the maker's asset and persists the swap terms: transitions the
/// swap from uninitialized to funded. No verification happens here — the
/// maker funds the vault under their own authority.
pub fn make(ctx: &Make, deposit_amount: u64, take_amount: u64) -> (r: (Escrow, TransferAction))
    ensures
        r.0 == (Escrow {
            maker: ctx.maker,
            mint_b: ctx.mint_b,
            take_amount,
            bump: ctx.escrow_bump,
        }),
        r.1 == (TransferAction {
            from: ctx.maker_ata,
            to: ctx.vault,
            amount: deposit_amount,
            authority: Authority::Maker,
        }),
{
    let escrow = Escrow {
        maker: ctx.maker,
        mint_b: ctx.mint_b,
        take_amount,
        bump: ctx.escrow_bump,
    };
    let deposit = TransferAction {
        from: ctx.maker_ata,
        to: ctx.vault,
        amount: deposit_amount,
        authority: Authority::Maker,
    };
    (escrow, deposit)
}

/// Shared body of the three release entry points: introspect the next
/// sibling instruction, verify it against the expected shape, and only on
/// success authorize draining and closing the vault.
pub(crate) fn take_with_shape(ctx: &Take, shape: TakeShape) -> (r: Result<
    ReleasePlan,
    EscrowError,
>)
    requires
        shape is Custom ==> ctx.take_end_opcode@.len() == 8,
    ensures
        r == take_spec(*ctx, shape),
{
    let escrow = match &ctx.escrow {
        None => {
            return Err(EscrowError::RecordNotFound);
        },
        Some(e) => e,
    };
    if ctx.current_index >= ctx.instructions.len() {
        return Err(EscrowError::IntrospectionError);
    }
    let ix = match instruction_at(&ctx.instructions, ctx.current_index + 1) {
        Err(e) => {
            return Err(e);
        },
        Ok(ix) => ix,
    };
    let token_opcode = vec![TOKEN_TRANSFER_OPCODE];
    let native_opcode = vec![NATIVE_TRANSFER_OPCODE, 0u8, 0u8, 0u8];
    let opcode: &Vec<u8> = match shape {
        TakeShape::Custom => &ctx.take_end_opcode,
        TakeShape::Token => &token_opcode,
        TakeShape::Sol => &native_opcode,
    };
    let program: &Pubkey = match shape {
        TakeShape::Custom => &ctx.escrow_program,
        TakeShape::Token => &ctx.token_program,
        TakeShape::Sol => &ctx.system_program,
    };
    let account_index: usize = match shape {
        TakeShape::Custom => 3,
        TakeShape::Token => 1,
        TakeShape::Sol => 1,
    };
    let destination: Pubkey = match shape {
        TakeShape::Custom => associated_token_address(&ctx.maker, &escrow.mint_b),
        TakeShape::Token => associated_token_address(&ctx.maker, &escrow.mint_b),
        TakeShape::Sol => escrow.maker,
    };
    proof {
        assert(token_opcode@ =~= seq![TOKEN_TRANSFER_OPCODE]);
        assert(native_opcode@ =~= seq![NATIVE_TRANSFER_OPCODE, 0u8, 0u8, 0u8]);
    }
    match verify_instruction(ix, program, opcode, escrow.take_amount, account_index, &destination) {
        Err(e) => {
            return Err(e);
        },
        Ok(()) => {},
    }
    let rent_to: Pubkey = match shape {
        TakeShape::Custom => ctx.maker,
        TakeShape::Token => ctx.taker,
        TakeShape::Sol => ctx.taker,
    };
    Ok(
        ReleasePlan {
            release: TransferAction {
                from: ctx.sending_ata,
                to: ctx.destination_ata,
                amount: ctx.sending_ata_amount,
                authority: Authority::Record,
            },
            close: CloseAction {
                account: ctx.sending_ata,
                rent_destination: rent_to,
                authority: Authority::Record,
            },
        },
    )
}

/// Release against a custom follow-up instruction: the sibling must be a
/// call of `take_end` on this very program, carrying the exact amount after
/// its eight-byte discriminator and paying the maker's derived receiving
/// account for the expected asset. On success the vault closes to the
/// maker, who funded it alongside the record.
pub fn take_start(ctx: &Take) -> (r: Result<ReleasePlan, EscrowError>)
    requires
        ctx.take_end_opcode@.len() == 8,
    ensures
        r == take_spec(*ctx, TakeShape::Custom),
{
    take_with_shape(ctx, TakeShape::Custom)
}

/// Release against a generic token transfer: the sibling must be a transfer
/// instruction of the token program, carrying the exact amount after its
/// one-byte opcode and paying the maker's derived receiving account. On
/// success the vault closes to the taker, residual rent included.
pub fn take_token(ctx: &Take) -> (r: Result<ReleasePlan, EscrowError>)
    ensures
        r == take_spec(*ctx, TakeShape::Token),
{
    take_with_shape(ctx, TakeShape::Token)
}

/// Release against a native-asset transfer: the sibling must be a transfer
/// instruction of the native-asset program, carrying the exact amount after
/// its four-byte tag and paying the maker's raw identity. On success the
/// vault closes to the taker, residual rent included.
pub fn take_sol(ctx: &Take) -> (r: Result<ReleasePlan, EscrowError>)
    ensures
        r == take_spec(*ctx, TakeShape::Sol),
{
    take_with_shape(ctx, TakeShape::Sol)
}

/// The unconditional payment leg of the split take: transfers `amount` from
/// the taker to the maker. It verifies nothing itself — its shape was
/// already certified by `take_start`'s introspection of it, in the same
/// atomic transaction.
pub fn take_end(ctx: &Take, amount: u64) -> (r: TransferAction)
    ensures
        r == (TransferAction {
            from: ctx.sending_ata,
            to: ctx.destination_ata,
            amount,
            authority: Authority::Taker,
        }),
{
    TransferAction {
        from: ctx.sending_ata,
        to: ctx.destination_ata,
        amount,
        authority: Authority::Taker,
    }
}

} // verus!
