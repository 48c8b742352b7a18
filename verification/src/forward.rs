use vstd::prelude::*;

verus! {

/// One delegated call to the external token program: which operation, on
/// which accounts, with which amount. The token program itself applies the
/// balance change; this program only shapes the request.
pub enum TokenInstruction {
    /// Mint `amount` new tokens of `mint` to `to`.
    MintTo { mint: Vec<u8>, to: Vec<u8>, authority: Vec<u8>, amount: u64 },
    /// Move `amount` tokens from `from` to `to`.
    Transfer { from: Vec<u8>, to: Vec<u8>, authority: Vec<u8>, amount: u64 },
    /// Destroy `amount` tokens of `mint` held by `from`.
    Burn { mint: Vec<u8>, from: Vec<u8>, authority: Vec<u8>, amount: u64 },
    /// Let `delegate` spend up to `amount` tokens of `to`.
    Approve { to: Vec<u8>, delegate: Vec<u8>, authority: Vec<u8>, amount: u64 },
}

/// A fully shaped delegated call: the program it goes to and the
/// instruction it carries.
pub struct TokenCpi {
    /// The token program the call is delegated to.
    pub program: Vec<u8>,
    /// The operation the token program is asked to perform.
    pub instruction: TokenInstruction,
}

/// The accounts the mint instruction receives.
pub struct MintToken {
    /// Address of the mint whose supply grows.
    pub mint: Vec<u8>,
    /// Address of the token program.
    pub token_program: Vec<u8>,
    /// Address of the token account receiving the new tokens.
    pub token_account: Vec<u8>,
    /// Address of the mint authority.
    pub authority: Vec<u8>,
}

/// Shapes the delegated mint call: exactly the caller's accounts and
/// exactly the requested amount, so the external program changes the
/// receiving balance by that amount and no other.
pub fn mint_token(accounts: &MintToken, amount: u64) -> (r: TokenCpi)
    ensures
        r.program@ == accounts.token_program@,
        r.instruction matches TokenInstruction::MintTo { mint, to, authority, amount: a } && mint@
            == accounts.mint@ && to@ == accounts.token_account@ && authority@
            == accounts.authority@ && a == amount,
{
    TokenCpi {
        program: accounts.token_program.clone(),
        instruction: TokenInstruction::MintTo {
            mint: accounts.mint.clone(),
            to: accounts.token_account.clone(),
            authority: accounts.authority.clone(),
            amount,
        },
    }
}

/// The accounts the transfer instruction receives.
pub struct TransferToken {
    /// Address of the token program.
    pub token_program: Vec<u8>,
    /// Address of the token account the tokens leave.
    pub from: Vec<u8>,
    /// Address of the token account the tokens reach.
    pub to: Vec<u8>,
    /// Address of the authority over the source account.
    pub from_authority: Vec<u8>,
}

/// Shapes the delegated transfer call: exactly the caller's accounts and
/// exactly the requested amount.
pub fn transfer_token(accounts: &TransferToken, amount: u64) -> (r: TokenCpi)
    ensures
        r.program@ == accounts.token_program@,
        r.instruction matches TokenInstruction::Transfer { from, to, authority, amount: a }
            && from@ == accounts.from@ && to@ == accounts.to@ && authority@
            == accounts.from_authority@ && a == amount,
{
    TokenCpi {
        program: accounts.token_program.clone(),
        instruction: TokenInstruction::Transfer {
            from: accounts.from.clone(),
            to: accounts.to.clone(),
            authority: accounts.from_authority.clone(),
            amount,
        },
    }
}

/// The accounts the burn instruction receives.
pub struct BurnToken {
    /// Address of the mint whose supply shrinks.
    pub mint: Vec<u8>,
    /// Address of the token program.
    pub token_program: Vec<u8>,
    /// Address of the token account the tokens burn from.
    pub token_account: Vec<u8>,
    /// Address of the authority over that account.
    pub authority: Vec<u8>,
}

/// Shapes the delegated burn call: exactly the caller's accounts and
/// exactly the requested amount.
pub fn burn_token(accounts: &BurnToken, amount: u64) -> (r: TokenCpi)
    ensures
        r.program@ == accounts.token_program@,
        r.instruction matches TokenInstruction::Burn { mint, from, authority, amount: a } && mint@
            == accounts.mint@ && from@ == accounts.token_account@ && authority@
            == accounts.authority@ && a == amount,
{
    TokenCpi {
        program: accounts.token_program.clone(),
        instruction: TokenInstruction::Burn {
            mint: accounts.mint.clone(),
            from: accounts.token_account.clone(),
            authority: accounts.authority.clone(),
            amount,
        },
    }
}

/// The accounts the approval instruction receives.
pub struct ApproveDelegate {
    /// Address of the token program.
    pub token_program: Vec<u8>,
    /// Address of the token account the delegate may spend from.
    pub token_account: Vec<u8>,
    /// Address of the delegate.
    pub delegate: Vec<u8>,
    /// Address of the authority over the token account.
    pub authority: Vec<u8>,
}

/// Shapes the delegated approval call: exactly the caller's accounts and
/// exactly the requested amount.
pub fn approve_delegate(accounts: &ApproveDelegate, amount: u64) -> (r: TokenCpi)
    ensures
        r.program@ == accounts.token_program@,
        r.instruction matches TokenInstruction::Approve { to, delegate, authority, amount: a }
            && to@ == accounts.token_account@ && delegate@ == accounts.delegate@ && authority@
            == accounts.authority@ && a == amount,
{
    TokenCpi {
        program: accounts.token_program.clone(),
        instruction: TokenInstruction::Approve {
            to: accounts.token_account.clone(),
            delegate: accounts.delegate.clone(),
            authority: accounts.authority.clone(),
            amount,
        },
    }
}

/// What this program reads of an already-deserialized token account: its
/// stored amount.
pub struct TokenAccountState {
    /// The balance the token program has stored for the account.
    pub amount: u64,
}

/// The accounts the balance query receives.
pub struct GetBalance {
    /// The deserialized token account being queried.
    pub token_account: TokenAccountState,
}

/// Returns the exact stored amount of the queried account. The query
/// borrows the account immutably, so repeated calls read the same value
/// and change nothing.
pub fn get_balance(accounts: &GetBalance) -> (r: u64)
    ensures
        r == accounts.token_account.amount,
{
    accounts.token_account.amount
}

} // verus!
