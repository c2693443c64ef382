use vstd::prelude::*;
use crate::account::AccountSnapshot;
use crate::address::Address;
use crate::programs::{
    expected_program, program_address, system_program, system_program_address, token_program,
    token_program_address, ProgramKind,
};
use crate::token::{decodes_as_mint, decodes_as_token_account, is_mint, is_token_account};

verus! {

/// What a schema expects an account to be.
#[derive(Clone, Copy, Debug, PartialEq, Eq)]
pub enum AccountKind {
    /// Anything: the relay does not look at the account.
    Unchecked,
    /// An account that signed the transaction.
    Signer,
    /// A mint of the token program.
    Mint,
    /// A token account of the token program.
    TokenAccount,
    /// The named program itself.
    Program(ProgramKind),
}

/// One entry of a schema: what the account at that position must be, and
/// whether the transaction must be allowed to write to it.
#[derive(Clone, Copy, Debug, PartialEq, Eq)]
pub struct Requirement {
    /// What the account must be.
    pub kind: AccountKind,
    /// Whether the transaction must be allowed to write to the account.
    pub writable: bool,
}

/// The ways in which a list of accounts can fail a schema.
#[derive(Clone, Copy, Debug, PartialEq, Eq)]
pub enum ViolationKind {
    /// The list ends before this position.
    MissingAccount,
    /// The account had to sign and did not.
    NotSigner,
    /// The account is still owned by the system program and holds no balance.
    NotInitialized,
    /// The account is not owned by the token program.
    WrongOwner,
    /// The account's state does not decode as what the schema expects.
    InvalidData,
    /// The account is not the program that the schema names.
    WrongProgram,
    /// The account is the named program's address but holds no program.
    NotExecutable,
    /// The transaction may not write to an account that must be writable.
    NotWritable,
}

/// The first way in which a list of accounts fails a schema, and where.
#[derive(Clone, Copy, Debug, PartialEq, Eq)]
pub struct Violation {
    /// The position of the offending account in the schema.
    pub position: usize,
    /// The check that failed there.
    pub kind: ViolationKind,
}

/// The verdict on an account that must hold state of the token program, where
/// `decodes` says whether its bytes decode as the expected state.
pub open spec fn token_state_check(a: AccountSnapshot, decodes: bool) -> Option<ViolationKind> {
    if a.owner@ == system_program_address() && a.lamports == 0 {
        Some(ViolationKind::NotInitialized)
    } else if a.owner@ != token_program_address() {
        Some(ViolationKind::WrongOwner)
    } else if !decodes {
        Some(ViolationKind::InvalidData)
    } else {
        None
    }
}

/// The verdict on an account that must be the program living at `expected`.
pub open spec fn program_check(a: AccountSnapshot, expected: Seq<u8>) -> Option<ViolationKind> {
    if a.key@ != expected {
        Some(ViolationKind::WrongProgram)
    } else if !a.executable {
        Some(ViolationKind::NotExecutable)
    } else {
        None
    }
}

/// The verdict of the type check on one account: `None` where the account is
/// what `kind` expects, else the reason why it is not. `amm` is the address of
/// the market maker.
pub open spec fn type_check(a: AccountSnapshot, kind: AccountKind, amm: Seq<u8>) -> Option<
    ViolationKind,
> {
    match kind {
        AccountKind::Unchecked => None,
        AccountKind::Signer => if a.is_signer {
            None
        } else {
            Some(ViolationKind::NotSigner)
        },
        AccountKind::Mint => token_state_check(a, decodes_as_mint(a.data@)),
        AccountKind::TokenAccount => token_state_check(a, decodes_as_token_account(a.data@)),
        AccountKind::Program(p) => program_check(a, program_address(p, amm)),
    }
}

/// Decides `token_state_check`.
pub fn check_token_state(a: &AccountSnapshot, decodes: bool) -> (r: Option<ViolationKind>)
    ensures
        r == token_state_check(*a, decodes),
{
    let system = system_program();
    let token = token_program();
    if a.owner.same(&system) && a.lamports == 0 {
        Some(ViolationKind::NotInitialized)
    } else if !a.owner.same(&token) {
        Some(ViolationKind::WrongOwner)
    } else if !decodes {
        Some(ViolationKind::InvalidData)
    } else {
        None
    }
}

/// Decides `program_check`.
pub fn check_program(a: &AccountSnapshot, expected: &Address) -> (r: Option<ViolationKind>)
    ensures
        r == program_check(*a, expected@),
{
    if !a.key.same(expected) {
        Some(ViolationKind::WrongProgram)
    } else if !a.executable {
        Some(ViolationKind::NotExecutable)
    } else {
        None
    }
}

/// Decides `type_check`: runs the type check of `kind` on one account.
pub fn check_type(a: &AccountSnapshot, kind: AccountKind, amm: &Address) -> (r: Option<
    ViolationKind,
>)
    ensures
        r == type_check(*a, kind, amm@),
{
    match kind {
        AccountKind::Unchecked => None,
        AccountKind::Signer => {
            if a.is_signer {
                None
            } else {
                Some(ViolationKind::NotSigner)
            }
        },
        AccountKind::Mint => check_token_state(a, is_mint(&a.data)),
        AccountKind::TokenAccount => check_token_state(a, is_token_account(&a.data)),
        AccountKind::Program(p) => {
            let expected = expected_program(p, amm);
            check_program(a, &expected)
        },
    }
}

/// The verdict of the type check at one position of a schema: that of
/// `type_check` on the account there, and `MissingAccount` past the end of the
/// list.
pub open spec fn type_check_at(
    accounts: Seq<AccountSnapshot>,
    schema: Seq<Requirement>,
    amm: Seq<u8>,
    i: int,
) -> Option<ViolationKind> {
    if i < accounts.len() {
        type_check(accounts[i], schema[i].kind, amm)
    } else {
        Some(ViolationKind::MissingAccount)
    }
}

/// The verdict of the write check at one position of a schema.
pub open spec fn write_check_at(
    accounts: Seq<AccountSnapshot>,
    schema: Seq<Requirement>,
    i: int,
) -> Option<ViolationKind> {
    if i < accounts.len() && schema[i].writable && !accounts[i].is_writable {
        Some(ViolationKind::NotWritable)
    } else {
        None
    }
}

/// Whether the accounts meet the schema, position by position: each one passes
/// its type check and, where the schema asks for it, is writable. Accounts
/// beyond the schema's length are not looked at.
pub open spec fn conforms(
    accounts: Seq<AccountSnapshot>,
    schema: Seq<Requirement>,
    amm: Seq<u8>,
) -> bool {
    forall|i: int|
        0 <= i < schema.len() ==> {
            &&& (#[trigger] type_check_at(accounts, schema, amm, i)) is None
            &&& write_check_at(accounts, schema, i) is None
        }
}

/// Whether `v` is the violation that the validation pass reports. The pass
/// runs every type check in the schema's order before any write check, and
/// stops at the first check that fails. So `v` is either the first failing
/// type check, or, where all type checks pass, the first failing write check.
pub open spec fn is_first_violation(
    accounts: Seq<AccountSnapshot>,
    schema: Seq<Requirement>,
    amm: Seq<u8>,
    v: Violation,
) -> bool {
    &&& v.position < schema.len()
    &&& {
        ||| {
            &&& type_check_at(accounts, schema, amm, v.position as int) == Some(v.kind)
            &&& forall|j: int|
                0 <= j < v.position ==> (#[trigger] type_check_at(accounts, schema, amm, j)) is None
        }
        ||| {
            &&& forall|j: int|
                0 <= j < schema.len() ==> (#[trigger] type_check_at(accounts, schema, amm, j)) is None
            &&& write_check_at(accounts, schema, v.position as int) == Some(v.kind)
            &&& forall|j: int|
                0 <= j < v.position ==> (#[trigger] write_check_at(accounts, schema, j)) is None
        }
    }
}

/// The validation pass: holds the accounts against the schema and reports the
/// first violation, if there is one.
pub fn validate(accounts: &Vec<AccountSnapshot>, schema: &Vec<Requirement>, amm: &Address) -> (r:
    Result<(), Violation>)
    ensures
        r is Ok <==> conforms(accounts@, schema@, amm@),
        r matches Err(v) ==> is_first_violation(accounts@, schema@, amm@, v),
{
    let n = schema.len();
    let mut i: usize = 0;
    while i < n
        invariant
            n == schema.len(),
            i <= n,
            forall|j: int|
                0 <= j < i ==> (#[trigger] type_check_at(accounts@, schema@, amm@, j)) is None,
        decreases n - i,
    {
        if i >= accounts.len() {
            return Err(Violation { position: i, kind: ViolationKind::MissingAccount });
        }
        match check_type(&accounts[i], schema[i].kind, amm) {
            Some(kind) => {
                assert(type_check_at(accounts@, schema@, amm@, i as int) == Some(kind));
                return Err(Violation { position: i, kind });
            },
            None => {},
        }
        i += 1;
    }
    let mut k: usize = 0;
    while k < n
        invariant
            n == schema.len(),
            k <= n,
            forall|j: int|
                0 <= j < n ==> (#[trigger] type_check_at(accounts@, schema@, amm@, j)) is None,
            forall|j: int| 0 <= j < k ==> (#[trigger] write_check_at(accounts@, schema@, j)) is None,
        decreases n - k,
    {
        assert(type_check_at(accounts@, schema@, amm@, k as int) is None);
        if schema[k].writable && !accounts[k].is_writable {
            let v = Violation { position: k, kind: ViolationKind::NotWritable };
            assert(write_check_at(accounts@, schema@, k as int) == Some(v.kind));
            return Err(v);
        }
        k += 1;
    }
    Ok(())
}

/// The validation pass reports one violation and no other: two violations that
/// are both the first of the same accounts against the same schema are equal.
pub proof fn lemma_first_violation_unique(
    accounts: Seq<AccountSnapshot>,
    schema: Seq<Requirement>,
    amm: Seq<u8>,
    v: Violation,
    w: Violation,
)
    requires
        is_first_violation(accounts, schema, amm, v),
        is_first_violation(accounts, schema, amm, w),
    ensures
        v == w,
{
    let tv = type_check_at(accounts, schema, amm, v.position as int);
    let tw = type_check_at(accounts, schema, amm, w.position as int);
    let wv = write_check_at(accounts, schema, v.position as int);
    let ww = write_check_at(accounts, schema, w.position as int);
    if v.position < w.position {
        assert(tv is None || wv is None);
    } else if w.position < v.position {
        assert(tw is None || ww is None);
    }
}

/// A list that has a violation does not conform, and one that conforms has
/// none.
pub proof fn lemma_violation_excludes_conformance(
    accounts: Seq<AccountSnapshot>,
    schema: Seq<Requirement>,
    amm: Seq<u8>,
    v: Violation,
)
    requires
        is_first_violation(accounts, schema, amm, v),
    ensures
        !conforms(accounts, schema, amm),
{
    assert(type_check_at(accounts, schema, amm, v.position as int) is Some || write_check_at(
        accounts,
        schema,
        v.position as int,
    ) is Some);
}

} // verus!
