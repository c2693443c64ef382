use vstd::prelude::*;
use crate::address::Address;

verus! {

/// The programs that the account schemas name.
#[derive(Clone, Copy, Debug, PartialEq, Eq)]
pub enum ProgramKind {
    /// The system program.
    System,
    /// The associated token account program.
    AssociatedToken,
    /// The market maker that the relay calls into.
    Amm,
}

/// The bytes of the system program's address, `11111111111111111111111111111111`
/// in base 58: thirty-two zeros.
pub open spec fn system_program_address() -> Seq<u8> {
    seq![
        0u8, 0, 0, 0, 0, 0, 0, 0, 0, 0, 0, 0, 0, 0, 0, 0,
        0, 0, 0, 0, 0, 0, 0, 0, 0, 0, 0, 0, 0, 0, 0, 0,
    ]
}

/// The bytes of the token program's address,
/// `TokenkegQfeZyiNwAJbNbGKPFXCWuBvf9Ss623VQ5DA` in base 58.
pub open spec fn token_program_address() -> Seq<u8> {
    seq![
        6u8, 221, 246, 225, 215, 101, 161, 147, 217, 203, 225, 70, 206, 235, 121, 172,
        28, 180, 133, 237, 95, 91, 55, 145, 58, 140, 245, 133, 126, 255, 0, 169,
    ]
}

/// The bytes of the associated token account program's address,
/// `ATokenGPvbdGVxr1b2hvZbsiqW5xWH25efTNsLJA8knL` in base 58.
pub open spec fn associated_token_program_address() -> Seq<u8> {
    seq![
        140u8, 151, 37, 143, 78, 36, 137, 241, 187, 61, 16, 41, 20, 142, 13, 131,
        11, 90, 19, 153, 218, 255, 16, 132, 4, 142, 123, 216, 219, 233, 248, 89,
    ]
}

/// The address at which a program of the given kind must live, where `amm` is
/// the address of the market maker.
pub open spec fn program_address(kind: ProgramKind, amm: Seq<u8>) -> Seq<u8> {
    match kind {
        ProgramKind::System => system_program_address(),
        ProgramKind::AssociatedToken => associated_token_program_address(),
        ProgramKind::Amm => amm,
    }
}

/// Trusted: reads `anchor_lang::system_program::ID`. The contract claims that
/// this constant is the address written out in `system_program_address`.
#[verifier::external_body]
pub(crate) fn system_program() -> (id: Address)
    ensures
        id@ == system_program_address(),
{
    Address { bytes: anchor_lang::system_program::ID.to_bytes() }
}

/// Trusted: reads `anchor_spl::token::ID`, the address that owns every mint and
/// token account. The contract claims that this constant is the address
/// written out in `token_program_address`.
#[verifier::external_body]
pub(crate) fn token_program() -> (id: Address)
    ensures
        id@ == token_program_address(),
{
    Address { bytes: anchor_spl::token::ID.to_bytes() }
}

/// Trusted: reads `anchor_spl::associated_token::ID`. The contract claims that
/// this constant is the address written out in
/// `associated_token_program_address`.
#[verifier::external_body]
pub(crate) fn associated_token_program() -> (id: Address)
    ensures
        id@ == associated_token_program_address(),
{
    Address { bytes: anchor_spl::associated_token::ID.to_bytes() }
}

/// The address at which a program of the given kind must live.
pub fn expected_program(kind: ProgramKind, amm: &Address) -> (id: Address)
    ensures
        id@ == program_address(kind, amm@),
{
    match kind {
        ProgramKind::System => system_program(),
        ProgramKind::AssociatedToken => associated_token_program(),
        ProgramKind::Amm => *amm,
    }
}

} // verus!
