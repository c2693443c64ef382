use vstd::prelude::*;
use crate::account::AccountSnapshot;
use crate::address::Address;
use crate::call::{AmmInstruction, Invocation};
use crate::programs::ProgramKind;
use crate::schema::{
    conforms, is_first_violation, type_check, type_check_at, validate, AccountKind, Requirement,
    Violation,
};

verus! {

/// The accounts of one `sell`, in the order in which the market maker binds them.
#[derive(Clone, Debug, PartialEq, Eq)]
pub struct Sell {
    /// The liquidity pool to trade against.
    pub pool: AccountSnapshot,
    /// The trader, who signs and pays.
    pub user: AccountSnapshot,
    /// The market maker's global configuration.
    pub global_config: AccountSnapshot,
    /// The mint of the pool's base token.
    pub base_mint: AccountSnapshot,
    /// The mint of the pool's quote token.
    pub quote_mint: AccountSnapshot,
    /// The trader's base token account.
    pub user_base_token_account: AccountSnapshot,
    /// The trader's quote token account.
    pub user_quote_token_account: AccountSnapshot,
    /// The pool's base token account.
    pub pool_base_token_account: AccountSnapshot,
    /// The pool's quote token account.
    pub pool_quote_token_account: AccountSnapshot,
    /// The recipient of the protocol fee.
    pub protocol_fee_recipient: AccountSnapshot,
    /// The token account that receives the protocol fee.
    pub protocol_fee_recipient_token_account: AccountSnapshot,
    /// The token program of the base token.
    pub base_token_program: AccountSnapshot,
    /// The token program of the quote token.
    pub quote_token_program: AccountSnapshot,
    /// The system program.
    pub system_program: AccountSnapshot,
    /// The associated token account program.
    pub associated_token_program: AccountSnapshot,
    /// The market maker's event authority.
    pub event_authority: AccountSnapshot,
    /// The market maker itself, which the relay calls.
    pub program: AccountSnapshot,
    /// The token account of the coin creator's vault.
    pub coin_creator_vault_ata: AccountSnapshot,
    /// The authority over the coin creator's vault.
    pub coin_creator_vault_authority: AccountSnapshot,
    /// The fee configuration.
    pub fee_config: AccountSnapshot,
    /// The fee program.
    pub fee_program: AccountSnapshot,
}

impl Sell {
    /// The accounts as one list, in the declared order.
    pub open spec fn accounts(self) -> Seq<AccountSnapshot> {
        seq![
            self.pool,
            self.user,
            self.global_config,
            self.base_mint,
            self.quote_mint,
            self.user_base_token_account,
            self.user_quote_token_account,
            self.pool_base_token_account,
            self.pool_quote_token_account,
            self.protocol_fee_recipient,
            self.protocol_fee_recipient_token_account,
            self.base_token_program,
            self.quote_token_program,
            self.system_program,
            self.associated_token_program,
            self.event_authority,
            self.program,
            self.coin_creator_vault_ata,
            self.coin_creator_vault_authority,
            self.fee_config,
            self.fee_program,
        ]
    }

    /// What each account must be, position by position: the trader signs, the
    /// mints and token accounts hold state of the token program, the three
    /// programs are the programs they are named after, and every account that a
    /// trade writes to is writable. Nothing is asked of the others.
    pub open spec fn spec_schema() -> Seq<Requirement> {
        seq![
            Requirement { kind: AccountKind::Unchecked, writable: false },
            Requirement { kind: AccountKind::Signer, writable: true },
            Requirement { kind: AccountKind::Unchecked, writable: false },
            Requirement { kind: AccountKind::Mint, writable: false },
            Requirement { kind: AccountKind::Mint, writable: false },
            Requirement { kind: AccountKind::TokenAccount, writable: true },
            Requirement { kind: AccountKind::TokenAccount, writable: true },
            Requirement { kind: AccountKind::TokenAccount, writable: true },
            Requirement { kind: AccountKind::TokenAccount, writable: true },
            Requirement { kind: AccountKind::Unchecked, writable: false },
            Requirement { kind: AccountKind::TokenAccount, writable: true },
            Requirement { kind: AccountKind::Unchecked, writable: false },
            Requirement { kind: AccountKind::Unchecked, writable: false },
            Requirement { kind: AccountKind::Program(ProgramKind::System), writable: false },
            Requirement { kind: AccountKind::Program(ProgramKind::AssociatedToken), writable: false },
            Requirement { kind: AccountKind::Unchecked, writable: false },
            Requirement { kind: AccountKind::Program(ProgramKind::Amm), writable: false },
            Requirement { kind: AccountKind::TokenAccount, writable: true },
            Requirement { kind: AccountKind::Unchecked, writable: false },
            Requirement { kind: AccountKind::Unchecked, writable: false },
            Requirement { kind: AccountKind::Unchecked, writable: false },
        ]
    }

    /// Whether these accounts meet the schema, where `amm` is the address of
    /// the market maker.
    pub open spec fn conforms(self, amm: Seq<u8>) -> bool {
        conforms(self.accounts(), Self::spec_schema(), amm)
    }

    /// The schema, one requirement for each account.
    pub fn schema() -> (r: Vec<Requirement>)
        ensures
            r@ == Self::spec_schema(),
    {
        let r = vec![
            Requirement { kind: AccountKind::Unchecked, writable: false },
            Requirement { kind: AccountKind::Signer, writable: true },
            Requirement { kind: AccountKind::Unchecked, writable: false },
            Requirement { kind: AccountKind::Mint, writable: false },
            Requirement { kind: AccountKind::Mint, writable: false },
            Requirement { kind: AccountKind::TokenAccount, writable: true },
            Requirement { kind: AccountKind::TokenAccount, writable: true },
            Requirement { kind: AccountKind::TokenAccount, writable: true },
            Requirement { kind: AccountKind::TokenAccount, writable: true },
            Requirement { kind: AccountKind::Unchecked, writable: false },
            Requirement { kind: AccountKind::TokenAccount, writable: true },
            Requirement { kind: AccountKind::Unchecked, writable: false },
            Requirement { kind: AccountKind::Unchecked, writable: false },
            Requirement { kind: AccountKind::Program(ProgramKind::System), writable: false },
            Requirement { kind: AccountKind::Program(ProgramKind::AssociatedToken), writable: false },
            Requirement { kind: AccountKind::Unchecked, writable: false },
            Requirement { kind: AccountKind::Program(ProgramKind::Amm), writable: false },
            Requirement { kind: AccountKind::TokenAccount, writable: true },
            Requirement { kind: AccountKind::Unchecked, writable: false },
            Requirement { kind: AccountKind::Unchecked, writable: false },
            Requirement { kind: AccountKind::Unchecked, writable: false },
        ];
        assert(r@ =~= Self::spec_schema());
        r
    }

    /// Undoes the grouping by name: the accounts as one list, in the declared
    /// order.
    pub fn into_accounts(self) -> (r: Vec<AccountSnapshot>)
        ensures
            r@ == self.accounts(),
    {
        let r = vec![
            self.pool,
            self.user,
            self.global_config,
            self.base_mint,
            self.quote_mint,
            self.user_base_token_account,
            self.user_quote_token_account,
            self.pool_base_token_account,
            self.pool_quote_token_account,
            self.protocol_fee_recipient,
            self.protocol_fee_recipient_token_account,
            self.base_token_program,
            self.quote_token_program,
            self.system_program,
            self.associated_token_program,
            self.event_authority,
            self.program,
            self.coin_creator_vault_ata,
            self.coin_creator_vault_authority,
            self.fee_config,
            self.fee_program,
        ];
        assert(r@ =~= self.accounts());
        r
    }
}

/// Relays a sale: checks the accounts against the schema of `Sell` and, where
/// they conform, describes the one call that hands all of them, and the two
/// arguments, on to the market maker at `amm`, unchanged.
///
/// Where an account fails the schema there is no call: the result is the first
/// violation. In particular nothing is called for a trader who did not sign, nor
/// for a mint, token account or program that fails its type check.
pub fn sell(
    ctx: Sell,
    base_amount_in: u64,
    min_quote_amount_out: u64,
    amm: &Address,
) -> (r: Result<Invocation, Violation>)
    ensures
        r is Ok <==> ctx.conforms(amm@),
        r matches Ok(call) ==> {
            &&& call.program == ctx.program.key
            &&& call.program@ == amm@
            &&& call.accounts@ == ctx.accounts()
            &&& call.instruction == (AmmInstruction::Sell { base_amount_in, min_quote_amount_out })
        },
        r matches Err(v) ==> is_first_violation(ctx.accounts(), Sell::spec_schema(), amm@, v),
        !ctx.user.is_signer ==> r is Err,
        forall|i: int|
            0 <= i < ctx.accounts().len() && (#[trigger] type_check(
                ctx.accounts()[i],
                Sell::spec_schema()[i].kind,
                amm@,
            )) is Some ==> r is Err,
{
    let ghost supplied = ctx.accounts();
    let ghost schema = Sell::spec_schema();
    let target = ctx.program.key;
    let accounts = ctx.into_accounts();
    let verdict = validate(&accounts, &Sell::schema(), amm);
    proof {
        assert forall|i: int|
            0 <= i < supplied.len() && (#[trigger] type_check(
                supplied[i],
                schema[i].kind,
                amm@,
            )) is Some implies !conforms(supplied, schema, amm@) by {
            assert(type_check_at(supplied, schema, amm@, i) is Some);
        }
        if !supplied[1].is_signer {
            assert(type_check(supplied[1], schema[1].kind, amm@) is Some);
        }
    }
    match verdict {
        Err(v) => Err(v),
        Ok(()) => {
            proof {
                assert(type_check_at(supplied, schema, amm@, 16) is None);
                crate::address::lemma_equal_views(target, *amm);
            }
            Ok(
                Invocation {
                    program: target,
                    accounts,
                    instruction: AmmInstruction::Sell { base_amount_in, min_quote_amount_out },
                },
            )
        },
    }
}

} // verus!
