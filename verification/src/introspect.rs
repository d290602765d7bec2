use vstd::prelude::*;

use crate::error::EscrowError;
use crate::keys::Pubkey;

verus! {

/// One instruction of the enclosing transaction, as the introspector hands
/// it out: an opaque, attacker-supplied payload together with the program it
/// targets and the accounts it references. Nothing here is trusted until the
/// verifier has checked it.
#[derive(Clone, Debug)]
pub struct InstructionRecord {
    /// Identity of the program this instruction targets.
    pub program_id: Pubkey,
    /// Identities of the accounts the instruction references, in order.
    pub accounts: Vec<Pubkey>,
    /// The raw instruction payload.
    pub data: Vec<u8>,
}

/// The mathematical shape of an instruction: all three parts as sequences.
pub struct InstructionModel {
    pub program_id: Seq<u8>,
    pub accounts: Seq<Seq<u8>>,
    pub data: Seq<u8>,
}

impl View for InstructionRecord {
    type V = InstructionModel;

    open spec fn view(&self) -> InstructionModel {
        InstructionModel {
            program_id: self.program_id@,
            accounts: self.accounts@.map_values(|p: Pubkey| p@),
            data: self.data@,
        }
    }
}

/// Returns the instruction at `position` in the enclosing transaction's
/// instruction list. This is the system's only read capability over
/// transaction-scoped state: it never mutates, and it fails exactly when the
/// requested position is out of range.
pub fn instruction_at(instructions: &Vec<InstructionRecord>, position: usize) -> (r: Result<
    &InstructionRecord,
    EscrowError,
>)
    ensures
        r is Ok <==> position < instructions@.len(),
        r matches Ok(ix) ==> *ix == instructions@[position as int],
        r is Err ==> r == Err::<&InstructionRecord, EscrowError>(EscrowError::IntrospectionError),
{
    if position < instructions.len() {
        Ok(&instructions[position])
    } else {
        Err(EscrowError::IntrospectionError)
    }
}

} // verus!
