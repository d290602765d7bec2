use vstd::prelude::*;

use vstd::bytes::lemma_auto_spec_u64_to_from_le_bytes;
use vstd::bytes::spec_u64_from_le_bytes;

use crate::controller::expected_account_index;
use crate::controller::expected_destination;
use crate::controller::expected_opcode;
use crate::controller::expected_program;
use crate::controller::take_check;
use crate::controller::take_with_shape;
use crate::controller::Make;
use crate::controller::Take;
use crate::controller::TakeShape;
use crate::controller::TransferAction;
use crate::controller::Authority;
use crate::error::EscrowError;
use crate::introspect::InstructionModel;
use crate::keys::associated_token_address;
use crate::keys::Pubkey;
use crate::record::Escrow;
use crate::verification::bytes_at;
use crate::verification::verify_spec;

verus! {

/// The persistent face of one swap: the escrow record, if it is still
/// funded, and the vault's balance. A record that is `None` is either not
/// yet created or already consumed; either way no release can succeed.
#[derive(Clone, Copy, Debug)]
pub struct LedgerState {
    pub record: Option<Escrow>,
    pub vault_balance: u64,
}

/// Both legs of a settled swap: what the vault released to the taker, and
/// what the verified sibling instruction pays the maker, with its receiver.
#[derive(Clone, Copy, Debug)]
pub struct SwapOutcome {
    pub asset_a_to_taker: u64,
    pub asset_b_to_maker: u64,
    pub paid_to: Pubkey,
}

/// What executing a transfer-shaped instruction does: if the instruction
/// targets `program`, opens with `opcode` and has room for an amount and the
/// paying account, it moves the encoded amount to the referenced account at
/// `account_index`; anything else is not a transfer of this shape at all.
pub open spec fn transfer_effect(
    ix: InstructionModel,
    program: Seq<u8>,
    opcode: Seq<u8>,
    account_index: int,
) -> Option<(u64, Seq<u8>)> {
    if ix.program_id == program && bytes_at(ix.data, 0, opcode) && ix.data.len() >= opcode.len()
        + 8 && 0 <= account_index < ix.accounts.len() {
        Some(
            (
                spec_u64_from_le_bytes(
                    ix.data.subrange(opcode.len() as int, opcode.len() as int + 8),
                ),
                ix.accounts[account_index],
            ),
        )
    } else {
        None
    }
}

/// Transitions one swap from uninitialized to funded: persists the terms
/// and authorizes moving the deposit from the maker into the vault.
pub fn fund(state: &LedgerState, ctx: &Make, deposit_amount: u64, take_amount: u64) -> (r: (
    LedgerState,
    TransferAction,
))
    requires
        state.record is None,
    ensures
        r.0.record == Some(
            Escrow { maker: ctx.maker, mint_b: ctx.mint_b, take_amount, bump: ctx.escrow_bump },
        ),
        r.0.vault_balance == deposit_amount,
        r.1 == (TransferAction {
            from: ctx.maker_ata,
            to: ctx.vault,
            amount: deposit_amount,
            authority: Authority::Maker,
        }),
{
    let (escrow, deposit) = crate::controller::make(ctx, deposit_amount, take_amount);
    (LedgerState { record: Some(escrow), vault_balance: deposit_amount }, deposit)
}

/// Settles one take attempt against the ledger. On success the record is
/// consumed, the vault is emptied, and the outcome carries both legs of the
/// swap; on failure nothing is returned, so the state handed in stands
/// untouched — the enclosing transaction's atomicity.
///
/// The `requires` clauses are the ledger's account-resolution guarantees —
/// the record the attempt runs against is the one the ledger holds, the
/// vault balance named in the attempt is the vault's real balance, and the
/// maker account handed in is the one the record was derived from — plus
/// the protocol's fixed width for the follow-up discriminator.
pub fn settle(state: &LedgerState, ctx: &Take, shape: TakeShape) -> (r: Result<
    (LedgerState, SwapOutcome),
    EscrowError,
>)
    requires
        ctx.escrow == state.record,
        ctx.sending_ata_amount == state.vault_balance,
        state.record matches Some(rec) ==> ctx.maker == rec.maker,
        shape is Custom ==> ctx.take_end_opcode@.len() == 8,
    ensures
        (r is Ok) == (take_check(*ctx, shape) is Ok),
        r matches Err(e) ==> Err::<(), EscrowError>(e) == take_check(*ctx, shape),
        r matches Ok(p) ==> {
            &&& p.0.record is None
            &&& p.0.vault_balance == 0
            &&& p.1.asset_a_to_taker == state.vault_balance
            &&& p.1.asset_b_to_maker == state.record.unwrap().take_amount
            &&& p.1.paid_to@ == expected_destination(*ctx, state.record.unwrap(), shape)
        },
{
    let rec = match &ctx.escrow {
        None => {
            return Err(EscrowError::RecordNotFound);
        },
        Some(r) => r,
    };
    match take_with_shape(ctx, shape) {
        Err(e) => Err(e),
        Ok(_plan) => {
            let paid_to: Pubkey = match shape {
                TakeShape::Custom => associated_token_address(&ctx.maker, &rec.mint_b),
                TakeShape::Token => associated_token_address(&ctx.maker, &rec.mint_b),
                TakeShape::Sol => rec.maker,
            };
            Ok(
                (
                    LedgerState { record: None, vault_balance: 0 },
                    SwapOutcome {
                        asset_a_to_taker: ctx.sending_ata_amount,
                        asset_b_to_maker: rec.take_amount,
                        paid_to,
                    },
                ),
            )
        },
    }
}

/// Atomicity law, the paying half: whenever the verifier authorizes a
/// release, the sibling instruction it inspected is a transfer of exactly
/// the expected amount to exactly the expected account — so the leg that
/// pays the maker is pinned down before the leg that drains the vault runs.
pub proof fn lemma_release_implies_payment(
    ix: InstructionModel,
    program: Seq<u8>,
    opcode: Seq<u8>,
    amount: u64,
    account_index: int,
    destination: Seq<u8>,
)
    requires
        verify_spec(ix, program, opcode, amount, account_index, destination) is Ok,
    ensures
        transfer_effect(ix, program, opcode, account_index) == Some((amount, destination)),
{
    lemma_auto_spec_u64_to_from_le_bytes();
}

/// Atomicity law at the level of a whole take attempt: a release that went
/// through means the inspected sibling pays the record's exact amount to
/// the expected destination.
pub proof fn lemma_take_atomicity(ctx: Take, shape: TakeShape)
    requires
        take_check(ctx, shape) is Ok,
    ensures
        ctx.escrow is Some,
        ctx.current_index + 1 < ctx.instructions@.len(),
        transfer_effect(
            ctx.instructions@[ctx.current_index + 1]@,
            expected_program(ctx, shape),
            expected_opcode(ctx, shape),
            expected_account_index(shape),
        ) == Some(
            (
                ctx.escrow.unwrap().take_amount,
                expected_destination(ctx, ctx.escrow.unwrap(), shape),
            ),
        ),
{
    lemma_release_implies_payment(
        ctx.instructions@[ctx.current_index + 1]@,
        expected_program(ctx, shape),
        expected_opcode(ctx, shape),
        ctx.escrow.unwrap().take_amount,
        expected_account_index(shape),
        expected_destination(ctx, ctx.escrow.unwrap(), shape),
    );
}

/// Single-consumption law: once no funded record exists — in particular
/// right after a successful settlement deleted it — every further take
/// attempt on this swap fails with `RecordNotFound`, whatever its sibling
/// instruction encodes.
pub proof fn lemma_single_consumption(state: LedgerState, ctx: Take, shape: TakeShape)
    requires
        state.record is None,
        ctx.escrow == state.record,
    ensures
        take_check(ctx, shape) == Err::<(), EscrowError>(EscrowError::RecordNotFound),
{
}

} // verus!
