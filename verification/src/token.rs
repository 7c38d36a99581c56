//! The token contracts that a shipment contract can be set up with.

use vstd::prelude::*;

use crate::env::{Address, Env};

verus! {

/// How a token contract reports a transfer that it did not make.
#[derive(Clone, Copy, Debug, PartialEq, Eq, Structural)]
pub enum MockTokenError {
    TransferFailed,
}

impl MockTokenError {
    /// The number under which the error is published.
    pub open spec fn published_code(self) -> u32 {
        match self {
            MockTokenError::TransferFailed => 1u32,
        }
    }

    /// The number under which the error is published.
    pub fn code(self) -> (code: u32)
        ensures
            code == self.published_code(),
    {
        match self {
            MockTokenError::TransferFailed => 1,
        }
    }
}

/// A token whose transfers always succeed.
#[derive(Clone, Copy, Debug, PartialEq, Eq, Structural)]
pub struct MockToken;

/// A token whose transfers always succeed.
#[derive(Clone, Copy, Debug, PartialEq, Eq, Structural)]
pub struct MockTokenConsistency;

/// A token whose transfers always fail.
#[derive(Clone, Copy, Debug, PartialEq, Eq, Structural)]
pub struct FailingToken;

/// The number of decimal places that every token here counts in.
pub const TOKEN_DECIMALS: u32 = 7;

impl MockToken {
    pub fn decimals(_env: Env) -> (d: u32)
        ensures
            d == TOKEN_DECIMALS,
    {
        TOKEN_DECIMALS
    }

    /// Succeeds, whatever is to be moved between whom.
    pub fn transfer(_env: Env, _from: Address, _to: Address, _amount: i128) {
    }

    /// Succeeds, whoever moves the amount on the owner's behalf.
    pub fn transfer_from(
        _env: Env,
        _spender: Address,
        _from: Address,
        _to: Address,
        _amount: i128,
    ) {
    }

    /// Succeeds, whatever is to be minted.
    pub fn mint(_env: Env, _admin: Address, _to: Address, _amount: i128) {
    }
}

impl MockTokenConsistency {
    pub fn decimals(_env: Env) -> (d: u32)
        ensures
            d == TOKEN_DECIMALS,
    {
        TOKEN_DECIMALS
    }

    /// Succeeds, whatever is to be moved between whom.
    pub fn transfer(_env: Env, _from: Address, _to: Address, _amount: i128) {
    }

    /// Succeeds, whatever is to be minted.
    pub fn mint(_env: Env, _admin: Address, _to: Address, _amount: i128) {
    }
}

impl FailingToken {
    pub fn decimals(_env: Env) -> (d: u32)
        ensures
            d == TOKEN_DECIMALS,
    {
        TOKEN_DECIMALS
    }

    /// Fails, whatever is to be moved between whom.
    pub fn transfer(_env: Env, _from: Address, _to: Address, _amount: i128) -> (r: Result<
        (),
        MockTokenError,
    >)
        ensures
            r == Err::<(), MockTokenError>(MockTokenError::TransferFailed),
    {
        Err(MockTokenError::TransferFailed)
    }

    /// Succeeds, whatever is to be minted.
    pub fn mint(_env: Env, _admin: Address, _to: Address, _amount: i128) {
    }
}

/// The code behind a token's address.
#[derive(Clone, Copy, Debug, PartialEq, Eq, Structural)]
pub enum TokenContract {
    Mock(MockToken),
    Consistency(MockTokenConsistency),
    Failing(FailingToken),
}

/// A token on the ledger.
#[derive(Clone, Copy, Debug, PartialEq, Eq, Structural)]
pub struct Token {
    pub address: Address,
    pub contract: TokenContract,
}

/// An amount that a token contract is asked to move.
#[derive(Clone, Copy, Debug, PartialEq, Eq, Structural)]
pub struct Transfer {
    pub from: Address,
    pub to: Address,
    pub amount: i128,
}

/// The transfers that tokens have been asked for, in their order, whether they made them or not.
/// Asking a token is the only way to add to it.
pub struct TransferLog {
    entries: Vec<Transfer>,
}

impl View for TransferLog {
    type V = Seq<Transfer>;

    closed spec fn view(&self) -> Seq<Transfer> {
        self.entries@
    }
}

impl TransferLog {
    /// A log from before any token was asked for a transfer.
    pub fn new() -> (log: TransferLog)
        ensures
            log@ == Seq::<Transfer>::empty(),
    {
        TransferLog { entries: Vec::new() }
    }

    /// The transfers asked for so far.
    pub fn entries(&self) -> (entries: &Vec<Transfer>)
        ensures
            entries@ == self@,
    {
        &self.entries
    }
}

impl Token {
    /// Whether this token makes the transfers it is asked for.
    pub open spec fn transfers_succeed(self) -> bool {
        !(self.contract is Failing)
    }

    /// Puts a token contract on the ledger.
    pub fn register(env: &mut Env, contract: TokenContract) -> (token: Token)
        requires
            old(env).has_room(1),
        ensures
            token == (Token { address: old(env).upcoming(0), contract }),
            *final(env) == old(env).after_issuing(1),
    {
        Token { address: Address::generate(env), contract }
    }

    pub fn decimals(&self, env: Env) -> (d: u32)
        ensures
            d == TOKEN_DECIMALS,
    {
        match self.contract {
            TokenContract::Mock(_) => MockToken::decimals(env),
            TokenContract::Consistency(_) => MockTokenConsistency::decimals(env),
            TokenContract::Failing(_) => FailingToken::decimals(env),
        }
    }

    /// Asks the token contract to make `transfer`, and notes in `log` what it was asked for.
    pub fn transfer(
        &self,
        env: Env,
        transfer: Transfer,
        log: &mut TransferLog,
    ) -> (r: Result<(), MockTokenError>)
        ensures
            final(log)@ == old(log)@.push(transfer),
            r == if self.transfers_succeed() {
                Ok::<(), MockTokenError>(())
            } else {
                Err(MockTokenError::TransferFailed)
            },
    {
        log.entries.push(transfer);
        match self.contract {
            TokenContract::Mock(_) => {
                MockToken::transfer(env, transfer.from, transfer.to, transfer.amount);
                Ok(())
            },
            TokenContract::Consistency(_) => {
                MockTokenConsistency::transfer(env, transfer.from, transfer.to, transfer.amount);
                Ok(())
            },
            TokenContract::Failing(_) => FailingToken::transfer(
                env,
                transfer.from,
                transfer.to,
                transfer.amount,
            ),
        }
    }
}

} // verus!
