use vstd::prelude::*;

use vstd::bytes::lemma_auto_spec_u64_to_from_le_bytes;
use vstd::bytes::spec_u64_to_le_bytes;
use vstd::bytes::u64_to_le_bytes;

use crate::error::EscrowError;
use crate::introspect::InstructionModel;
use crate::introspect::InstructionRecord;
use crate::keys::Pubkey;

verus! {

/// `expected` occurs in `data` starting at `offset`.
pub open spec fn bytes_at(data: Seq<u8>, offset: int, expected: Seq<u8>) -> bool {
    &&& 0 <= offset
    &&& offset + expected.len() <= data.len()
    &&& data.subrange(offset, offset + expected.len()) == expected
}

/// The verifier's whole decision, in order: origin, opcode, amount,
/// destination. The first check that fails names the error; only an
/// instruction that passes all four is accepted.
pub open spec fn verify_spec(
    ix: InstructionModel,
    expected_program: Seq<u8>,
    opcode: Seq<u8>,
    amount: u64,
    account_index: int,
    expected_account: Seq<u8>,
) -> Result<(), EscrowError> {
    if ix.program_id != expected_program {
        Err(EscrowError::InvalidProgram)
    } else if !bytes_at(ix.data, 0, opcode) {
        Err(EscrowError::InvalidIx)
    } else if !bytes_at(ix.data, opcode.len() as int, spec_u64_to_le_bytes(amount)) {
        Err(EscrowError::InvalidAmount)
    } else if !(0 <= account_index < ix.accounts.len() && ix.accounts[account_index]
        == expected_account) {
        Err(EscrowError::InvalidMakerATA)
    } else {
        Ok(())
    }
}

/// Whether `expected` occurs in `data` starting at `offset`; false whenever
/// the window does not fit, so any input may be handed in.
pub fn bytes_match_at(data: &Vec<u8>, offset: usize, expected: &Vec<u8>) -> (r: bool)
    ensures
        r == bytes_at(data@, offset as int, expected@),
{
    let dlen: usize = data.len();
    if dlen < offset {
        return false;
    }
    if dlen - offset < expected.len() {
        return false;
    }
    let mut i: usize = 0;
    while i < expected.len()
        invariant
            i <= expected@.len(),
            offset + expected@.len() <= data@.len(),
            dlen == data@.len(),
            forall|j: int| 0 <= j < i ==> data@[offset + j] == expected@[j],
        decreases expected@.len() - i,
    {
        if data[offset + i] != expected[i] {
            proof {
                if bytes_at(data@, offset as int, expected@) {
                    assert(data@.subrange(offset as int, offset + expected@.len())[i as int]
                        == expected@[i as int]);
                }
            }
            return false;
        }
        i += 1;
    }
    proof {
        assert(data@.subrange(offset as int, offset + expected@.len()) =~= expected@);
    }
    true
}

/// Decides whether a raw sibling instruction has exactly the expected shape:
/// it targets `expected_program`, its payload opens with `opcode`, the eight
/// bytes immediately after the opcode encode `amount` little-endian, and the
/// referenced account at `account_index` is `expected_account`. This check is
/// the swap's entire trust boundary; it moves no value itself.
pub fn verify_instruction(
    ix: &InstructionRecord,
    expected_program: &Pubkey,
    opcode: &Vec<u8>,
    amount: u64,
    account_index: usize,
    expected_account: &Pubkey,
) -> (r: Result<(), EscrowError>)
    ensures
        r == verify_spec(
            ix@,
            expected_program@,
            opcode@,
            amount,
            account_index as int,
            expected_account@,
        ),
{
    if !(ix.program_id == *expected_program) {
        return Err(EscrowError::InvalidProgram);
    }
    if !bytes_match_at(&ix.data, 0, opcode) {
        return Err(EscrowError::InvalidIx);
    }
    let amount_bytes = u64_to_le_bytes(amount);
    if !bytes_match_at(&ix.data, opcode.len(), &amount_bytes) {
        return Err(EscrowError::InvalidAmount);
    }
    if account_index >= ix.accounts.len() {
        return Err(EscrowError::InvalidMakerATA);
    }
    if !(ix.accounts[account_index] == *expected_account) {
        return Err(EscrowError::InvalidMakerATA);
    }
    Ok(())
}

/// Builds the canonical payload of a payment instruction: the opcode,
/// followed immediately by the amount as eight little-endian bytes.
pub fn encode_payment_payload(opcode: &Vec<u8>, amount: u64) -> (d: Vec<u8>)
    ensures
        d@ == opcode@ + spec_u64_to_le_bytes(amount),
{
    let mut d: Vec<u8> = Vec::new();
    let mut i: usize = 0;
    while i < opcode.len()
        invariant
            i <= opcode@.len(),
            d@ == opcode@.subrange(0, i as int),
        decreases opcode@.len() - i,
    {
        d.push(opcode[i]);
        proof {
            assert(d@ =~= opcode@.subrange(0, i + 1));
        }
        i += 1;
    }
    proof {
        assert(d@ =~= opcode@);
    }
    let amount_bytes = u64_to_le_bytes(amount);
    let mut j: usize = 0;
    while j < amount_bytes.len()
        invariant
            j <= amount_bytes@.len(),
            d@ == opcode@ + amount_bytes@.subrange(0, j as int),
        decreases amount_bytes@.len() - j,
    {
        d.push(amount_bytes[j]);
        proof {
            assert(d@ =~= opcode@ + amount_bytes@.subrange(0, j + 1));
        }
        j += 1;
    }
    proof {
        assert(amount_bytes@.subrange(0, amount_bytes@.len() as int) =~= amount_bytes@);
    }
    d
}

/// Exact-match amount law: a sibling whose payload is the canonical encoding
/// of `encoded`, with the right origin, opcode and destination, is accepted
/// exactly when `encoded` equals the expected amount; any other encoded
/// amount — one unit more or less included — is rejected as `InvalidAmount`.
pub proof fn lemma_exact_amount(
    ix: InstructionModel,
    expected_program: Seq<u8>,
    opcode: Seq<u8>,
    encoded: u64,
    amount: u64,
    account_index: int,
    expected_account: Seq<u8>,
)
    requires
        ix.program_id == expected_program,
        ix.data == opcode + spec_u64_to_le_bytes(encoded),
        0 <= account_index < ix.accounts.len(),
        ix.accounts[account_index] == expected_account,
    ensures
        verify_spec(ix, expected_program, opcode, amount, account_index, expected_account) == (
        if encoded == amount {
            Ok::<(), EscrowError>(())
        } else {
            Err::<(), EscrowError>(EscrowError::InvalidAmount)
        }),
{
    lemma_auto_spec_u64_to_from_le_bytes();
    assert(ix.data.subrange(0, opcode.len() as int) =~= opcode);
    assert(ix.data.subrange(opcode.len() as int, opcode.len() as int + 8) =~= spec_u64_to_le_bytes(
        encoded,
    ));
    if encoded == amount {
        assert(bytes_at(ix.data, opcode.len() as int, spec_u64_to_le_bytes(amount)));
    } else {
        if ix.data.subrange(opcode.len() as int, opcode.len() as int + 8) == spec_u64_to_le_bytes(
            amount,
        ) {
            assert(spec_u64_to_le_bytes(encoded) == spec_u64_to_le_bytes(amount));
            assert(false);
        }
    }
}

/// Opcode discrimination law: whatever amount and destination a sibling
/// carries, if its payload does not open with the expected opcode it is
/// rejected as `InvalidIx`.
pub proof fn lemma_opcode_discrimination(
    ix: InstructionModel,
    expected_program: Seq<u8>,
    opcode: Seq<u8>,
    amount: u64,
    account_index: int,
    expected_account: Seq<u8>,
)
    requires
        ix.program_id == expected_program,
        !bytes_at(ix.data, 0, opcode),
    ensures
        verify_spec(ix, expected_program, opcode, amount, account_index, expected_account) == Err::<
            (),
            EscrowError,
        >(EscrowError::InvalidIx),
{
}

/// Destination binding law: a sibling that passes the origin, opcode and
/// amount checks but pays any account other than the expected one is
/// rejected as `InvalidMakerATA`.
pub proof fn lemma_destination_binding(
    ix: InstructionModel,
    expected_program: Seq<u8>,
    opcode: Seq<u8>,
    amount: u64,
    account_index: int,
    expected_account: Seq<u8>,
)
    requires
        ix.program_id == expected_program,
        bytes_at(ix.data, 0, opcode),
        bytes_at(ix.data, opcode.len() as int, spec_u64_to_le_bytes(amount)),
        !(0 <= account_index < ix.accounts.len() && ix.accounts[account_index]
            == expected_account),
    ensures
        verify_spec(ix, expected_program, opcode, amount, account_index, expected_account) == Err::<
            (),
            EscrowError,
        >(EscrowError::InvalidMakerATA),
{
}

/// Program spoofing law: a sibling issued against any program other than the
/// expected one is rejected as `InvalidProgram`, whatever its bytes say.
pub proof fn lemma_program_spoofing(
    ix: InstructionModel,
    expected_program: Seq<u8>,
    opcode: Seq<u8>,
    amount: u64,
    account_index: int,
    expected_account: Seq<u8>,
)
    requires
        ix.program_id != expected_program,
    ensures
        verify_spec(ix, expected_program, opcode, amount, account_index, expected_account) == Err::<
            (),
            EscrowError,
        >(EscrowError::InvalidProgram),
{
}

} // verus!
