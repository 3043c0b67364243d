//! A bank account, as an example of an actor with a law of change.
//!
//! Whatever is sent to an account, by whom and in which order, its balance
//! stays what it was at the start, plus what was deposited, less what was
//! withdrawn. Because that is the account's law of change, it holds of every
//! answer that comes back through an address, however many senders share it.
use vstd::prelude::*;
use vstd::string::StringExecFns;

use crate::addr::Addr;
use crate::context::Context;
use crate::dispatcher::RESPONSE_LOST;
use crate::traits::{reachable, Actor, Handler, Message, Sender};

verus! {

/// Puts an amount into the account. An amount that would take the balance or
/// one of the totals out of the range of `u64` is not taken.
pub struct Deposit(pub u64);

impl Message for Deposit {
    type Response = ();
}

/// Takes an amount out of the account, if the balance covers it.
pub struct Withdraw(pub u64);

impl Message for Withdraw {
    /// `Err` with the reason where the withdrawal is refused.
    type Response = Result<(), String>;
}

/// Asks for the balance.
pub struct GetBalance;

impl Message for GetBalance {
    type Response = u64;
}

/// Asks for the balance, the total of deposits and the total of withdrawals.
pub struct GetAccountInfo;

impl Message for GetAccountInfo {
    type Response = (u64, u64, u64);
}

/// An account: its balance, and what has gone in and out since it was
/// opened.
pub struct BankAccount {
    pub balance: u64,
    pub total_deposits: u64,
    pub total_withdrawals: u64,
}

/// How a refusal begins. The balance follows.
pub const INSUFFICIENT_FUNDS: &'static str = "Insufficient funds. Current balance: ";

/// Whether `text` is what a refused withdrawal is told at `balance`: the
/// beginning above, then the balance as `to_string` writes it.
pub open spec fn refuses(balance: u64, text: Seq<char>) -> bool {
    exists|number: String| #[trigger]
        vstd::string::to_string_from_display_ensures::<u64>(&balance, number) && text
            == INSUFFICIENT_FUNDS@ + number@
}

/// The refusal at `balance`.
fn insufficient_funds(balance: u64) -> (text: String)
    ensures
        refuses(balance, text@),
{
    let mut text = INSUFFICIENT_FUNDS.to_owned();
    let number = balance.to_string();
    text.append(number.as_str());
    text
}

impl BankAccount {
    /// What the account was opened with, as far as its state shows it: the
    /// balance less the deposits plus the withdrawals.
    pub open spec fn opening(self) -> int {
        self.balance + self.total_withdrawals - self.total_deposits
    }

    /// Whether `amount` can be deposited.
    pub open spec fn takes(self, amount: u64) -> bool {
        &&& self.balance + amount <= u64::MAX
        &&& self.total_deposits + amount <= u64::MAX
    }

    /// Whether `amount` can be withdrawn.
    pub open spec fn covers(self, amount: u64) -> bool {
        &&& self.balance >= amount
        &&& self.total_withdrawals + amount <= u64::MAX
    }

    /// An account with `initial_balance` and nothing deposited or withdrawn.
    pub fn new(initial_balance: u64) -> (account: Self)
        ensures
            account == (BankAccount {
                balance: initial_balance,
                total_deposits: 0,
                total_withdrawals: 0,
            }),
    {
        BankAccount { balance: initial_balance, total_deposits: 0, total_withdrawals: 0 }
    }
}

impl Actor for BankAccount {
    /// The opening balance never changes.
    open spec fn evolves(self, later: Self) -> bool {
        later.opening() == self.opening()
    }

    /// An account never asks for a stop.
    open spec fn never_stops(self) -> bool {
        true
    }
}

impl Handler<Deposit> for BankAccount {
    open spec fn handled(self, msg: Deposit) -> Self {
        if self.takes(msg.0) {
            BankAccount {
                balance: (self.balance + msg.0) as u64,
                total_deposits: (self.total_deposits + msg.0) as u64,
                total_withdrawals: self.total_withdrawals,
            }
        } else {
            self
        }
    }

    open spec fn responds(self, msg: Deposit, response: ()) -> bool {
        true
    }

    open spec fn stops(self, msg: Deposit) -> bool {
        false
    }

    fn handle(&mut self, msg: Deposit, ctx: &mut Context<Self>) {
        if msg.0 <= u64::MAX - self.balance && msg.0 <= u64::MAX - self.total_deposits {
            self.balance = self.balance + msg.0;
            self.total_deposits = self.total_deposits + msg.0;
        }
    }
}

impl Handler<Withdraw> for BankAccount {
    open spec fn handled(self, msg: Withdraw) -> Self {
        if self.covers(msg.0) {
            BankAccount {
                balance: (self.balance - msg.0) as u64,
                total_deposits: self.total_deposits,
                total_withdrawals: (self.total_withdrawals + msg.0) as u64,
            }
        } else {
            self
        }
    }

    open spec fn responds(self, msg: Withdraw, response: Result<(), String>) -> bool {
        match response {
            Ok(()) => self.covers(msg.0),
            Err(text) => !self.covers(msg.0) && refuses(self.balance, text@),
        }
    }

    open spec fn stops(self, msg: Withdraw) -> bool {
        false
    }

    fn handle(&mut self, msg: Withdraw, ctx: &mut Context<Self>) -> (res: Result<(), String>) {
        if self.balance >= msg.0 && msg.0 <= u64::MAX - self.total_withdrawals {
            self.balance = self.balance - msg.0;
            self.total_withdrawals = self.total_withdrawals + msg.0;
            Ok(())
        } else {
            Err(insufficient_funds(self.balance))
        }
    }
}

impl Handler<GetAccountInfo> for BankAccount {
    open spec fn handled(self, msg: GetAccountInfo) -> Self {
        self
    }

    open spec fn responds(self, msg: GetAccountInfo, response: (u64, u64, u64)) -> bool {
        response == (self.balance, self.total_deposits, self.total_withdrawals)
    }

    open spec fn stops(self, msg: GetAccountInfo) -> bool {
        false
    }

    fn handle(&mut self, msg: GetAccountInfo, ctx: &mut Context<Self>) -> (res: (u64, u64, u64)) {
        (self.balance, self.total_deposits, self.total_withdrawals)
    }
}

impl Handler<GetBalance> for BankAccount {
    open spec fn handled(self, msg: GetBalance) -> Self {
        self
    }

    open spec fn responds(self, msg: GetBalance, response: u64) -> bool {
        response == self.balance
    }

    open spec fn stops(self, msg: GetBalance) -> bool {
        false
    }

    fn handle(&mut self, msg: GetBalance, ctx: &mut Context<Self>) -> (res: u64) {
        self.balance
    }
}

/// The books balance: an account that started in state `origin` and may now
/// be in state `now` has as its balance what it was opened with, plus the
/// deposits, less the withdrawals.
pub proof fn lemma_books_balance(origin: BankAccount, now: BankAccount)
    requires
        reachable(origin, now),
    ensures
        now.balance == origin.opening() + now.total_deposits - now.total_withdrawals,
{
}

/// Asks the account behind `account` for its books. Whoever else holds the
/// address and whatever they have sent, the books balance: the balance is
/// what the account was opened with, plus the deposits, less the
/// withdrawals. An account that was running when its channel was opened
/// always answers.
pub fn audit(account: &Addr<BankAccount>) -> (r: Result<(u64, u64, u64), String>)
    ensures
        account.opened().steady() ==> r is Ok,
        match r {
            Ok((balance, deposits, withdrawals)) => balance == account.origin().opening()
                + deposits - withdrawals,
            Err(error) => error@ == RESPONSE_LOST@,
        },
{
    account.send(GetAccountInfo)
}

} // verus!
