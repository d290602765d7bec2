use vstd::prelude::*;

verus! {

/// Every way a release attempt can be refused. Each error is terminal for
/// the enclosing transaction: a failed check never falls back to a weaker
/// check or a partial release.
#[derive(Clone, Copy, Debug, PartialEq, Eq, Structural)]
pub enum EscrowError {
    /// The sibling instruction carries the wrong opcode or discriminator.
    InvalidIx,
    /// The sibling instruction's encoded amount differs from the swap terms.
    InvalidAmount,
    /// The sibling instruction targets the wrong program.
    InvalidProgram,
    /// The sibling instruction pays the wrong receiving account.
    InvalidMakerATA,
    /// The requested sibling position is out of range of the transaction's
    /// instruction list.
    IntrospectionError,
    /// No funded escrow record exists for this swap.
    RecordNotFound,
}

impl EscrowError {
    /// A short human-readable description of the error.
    pub fn describe(&self) -> (r: &'static str)
        ensures
            self is InvalidIx ==> r@ == "Invalid instruction"@,
            self is InvalidAmount ==> r@ == "Invalid amount"@,
            self is InvalidProgram ==> r@ == "Invalid program"@,
            self is InvalidMakerATA ==> r@ == "Invalid Maker ATA"@,
            self is IntrospectionError ==> r@ == "Sibling instruction unavailable"@,
            self is RecordNotFound ==> r@ == "Record not found"@,
    {
        match self {
            EscrowError::InvalidIx => "Invalid instruction",
            EscrowError::InvalidAmount => "Invalid amount",
            EscrowError::InvalidProgram => "Invalid program",
            EscrowError::InvalidMakerATA => "Invalid Maker ATA",
            EscrowError::IntrospectionError => "Sibling instruction unavailable",
            EscrowError::RecordNotFound => "Record not found",
        }
    }
}

} // verus!
