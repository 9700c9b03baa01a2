//! The transfer flow as a state machine. The caller performs each action that
//! a step returns (a read, the submission, the wait for the receipt) and feeds
//! back what happened; every decision is taken here.
use vstd::prelude::*;
use crate::address::{address_bytes_of, is_address_text, validate_address, Address};
use crate::amount::{
    check_funds, estimate_fee, ether_units_of, fraction_digits, is_ascii_letter, parse_amount,
    UNIT_DECIMALS,
};
use crate::error::TransferError;
use vstd::utf8::is_ascii_chars;

verus! {

/// Where the flow stands.
#[derive(Debug, Clone, Copy, PartialEq, Eq, Structural)]
pub enum Phase {
    AwaitingBalance,
    AwaitingGasPrice,
    AwaitingSubmission,
    AwaitingReceipt,
    AwaitingFinalBalances,
    Done,
    Failed,
}

/// The transaction to sign and send; the sender is the signer's own address.
#[derive(Debug, Clone, Copy, PartialEq, Eq)]
pub struct TxRequest {
    pub to: Address,
    pub value: u128,
    pub gas_limit: u64,
}

/// What the endpoint reports once the transaction is mined.
#[derive(Debug, Clone, Copy, PartialEq, Eq)]
pub struct Receipt {
    pub block_number: u64,
    pub gas_used: u64,
    pub effective_gas_price: u128,
    pub success: bool,
}

/// What a finished transfer reports.
#[derive(Debug, Clone, Copy, PartialEq, Eq)]
pub struct Summary {
    pub receipt: Receipt,
    /// Gas used times the effective price, when it fits in 128 bits.
    pub actual_fee: Option<u128>,
    pub sender_balance: u128,
    pub recipient_balance: u128,
}

/// What the caller observed while performing the last action.
#[derive(Debug, Clone, PartialEq, Eq)]
pub enum Event {
    Balance(u128),
    GasPrice(u128),
    Submitted([u8; 32]),
    Confirmed(Receipt),
    FinalBalances(u128, u128),
    /// The endpoint failed with this message.
    Failed(String),
}

/// What the caller is to do next.
#[derive(Debug, Clone, PartialEq, Eq)]
pub enum Action {
    QueryBalance(Address),
    QueryGasPrice,
    Submit(TxRequest),
    AwaitReceipt([u8; 32]),
    QueryFinalBalances(Address, Address),
    Finish(Summary),
    Abort(TransferError),
    /// The event did not belong to the current phase; nothing changed.
    Ignore,
}

/// One transfer of `amount` base units from `from` to `to`.
#[derive(Debug, Clone, Copy, PartialEq, Eq)]
pub struct TransferFlow {
    pub from: Address,
    pub to: Address,
    pub amount: u128,
    pub gas_limit: u64,
    pub phase: Phase,
    pub balance: u128,
    pub gas_price: u128,
    pub fee: u128,
    pub receipt: Option<Receipt>,
}

/// The fee of `gas_used` at `price`, when it fits.
pub open spec fn fee_of(price: u128, gas: u64) -> Option<u128> {
    if price * gas <= u128::MAX {
        Some((price * gas) as u128)
    } else {
        None
    }
}

impl TransferFlow {
    /// The phases in which a transaction has been built.
    pub open spec fn past_funds_check(&self) -> bool {
        match self.phase {
            Phase::AwaitingSubmission | Phase::AwaitingReceipt | Phase::AwaitingFinalBalances
            | Phase::Done => true,
            _ => false,
        }
    }

    /// Once the funds check has passed, the fee is price times limit and the
    /// balance read covered amount plus fee; a receipt is held from
    /// confirmation on.
    pub open spec fn wf(&self) -> bool {
        &&& self.past_funds_check() ==> {
            &&& self.fee as int == self.gas_price as int * self.gas_limit as int
            &&& self.amount + self.fee <= self.balance
        }
        &&& (self.phase is AwaitingFinalBalances || self.phase is Done) ==> self.receipt is Some
    }

    /// The flow with addresses validated and the amount fixed; its first action
    /// reads the sender's balance.
    pub fn start(from: Address, to: Address, amount: u128, gas_limit: u64) -> (r: (
        TransferFlow,
        Action,
    ))
        ensures
            r.0.wf(),
            r.0.from == from,
            r.0.to == to,
            r.0.amount == amount,
            r.0.gas_limit == gas_limit,
            r.0.phase is AwaitingBalance,
            r.1 == Action::QueryBalance(from),
    {
        let flow = TransferFlow {
            from,
            to,
            amount,
            gas_limit,
            phase: Phase::AwaitingBalance,
            balance: 0,
            gas_price: 0,
            fee: 0,
            receipt: None,
        };
        (flow, Action::QueryBalance(from))
    }

    /// Takes the flow one step on `event` and says what to do next.
    pub fn step(&mut self, event: Event) -> (a: Action)
        requires
            old(self).wf(),
        ensures
            final(self).wf(),
            final(self).from == old(self).from,
            final(self).to == old(self).to,
            final(self).amount == old(self).amount,
            final(self).gas_limit == old(self).gas_limit,
            match (old(self).phase, event) {
                (Phase::AwaitingBalance, Event::Balance(b)) => {
                    &&& final(self).phase is AwaitingGasPrice
                    &&& final(self).balance == b
                    &&& a == Action::QueryGasPrice
                },
                (Phase::AwaitingGasPrice, Event::GasPrice(p)) => if old(self).amount + p
                    * old(self).gas_limit <= old(self).balance {
                    &&& final(self).phase is AwaitingSubmission
                    &&& final(self).gas_price == p
                    &&& final(self).fee == p * old(self).gas_limit
                    &&& final(self).balance == old(self).balance
                    &&& a == Action::Submit(
                        TxRequest {
                            to: old(self).to,
                            value: old(self).amount,
                            gas_limit: old(self).gas_limit,
                        },
                    )
                } else {
                    &&& final(self).phase is Failed
                    &&& a == Action::Abort(
                        TransferError::InsufficientFunds {
                            amount: old(self).amount,
                            gas_price: p,
                            gas_limit: old(self).gas_limit,
                            available: old(self).balance,
                        },
                    )
                },
                (Phase::AwaitingSubmission, Event::Submitted(h)) => {
                    &&& final(self).phase is AwaitingReceipt
                    &&& a == Action::AwaitReceipt(h)
                },
                (Phase::AwaitingSubmission, Event::Failed(m)) => {
                    &&& final(self).phase is Failed
                    &&& a == Action::Abort(TransferError::SubmissionError { message: m })
                },
                (Phase::AwaitingReceipt, Event::Confirmed(r)) => {
                    &&& final(self).phase is AwaitingFinalBalances
                    &&& final(self).receipt == Some(r)
                    &&& a == Action::QueryFinalBalances(old(self).from, old(self).to)
                },
                (Phase::AwaitingFinalBalances, Event::FinalBalances(s, t)) => {
                    &&& final(self).phase is Done
                    &&& a == Action::Finish(
                        Summary {
                            receipt: old(self).receipt.unwrap(),
                            actual_fee: fee_of(
                                old(self).receipt.unwrap().effective_gas_price,
                                old(self).receipt.unwrap().gas_used,
                            ),
                            sender_balance: s,
                            recipient_balance: t,
                        },
                    )
                },
                (Phase::AwaitingBalance, Event::Failed(m))
                | (Phase::AwaitingGasPrice, Event::Failed(m))
                | (Phase::AwaitingReceipt, Event::Failed(m))
                | (Phase::AwaitingFinalBalances, Event::Failed(m)) => {
                    &&& final(self).phase is Failed
                    &&& a == Action::Abort(TransferError::RpcError { message: m })
                },
                _ => {
                    &&& *final(self) == *old(self)
                    &&& a == Action::Ignore
                },
            },
    {
        match event {
            Event::Balance(b) => {
                if self.phase == Phase::AwaitingBalance {
                    self.balance = b;
                    self.phase = Phase::AwaitingGasPrice;
                    Action::QueryGasPrice
                } else {
                    Action::Ignore
                }
            },
            Event::GasPrice(p) => {
                if self.phase == Phase::AwaitingGasPrice {
                    match check_funds(self.balance, self.amount, p, self.gas_limit) {
                        Ok(fee) => {
                            self.gas_price = p;
                            self.fee = fee;
                            self.phase = Phase::AwaitingSubmission;
                            Action::Submit(
                                TxRequest { to: self.to, value: self.amount, gas_limit: self.gas_limit },
                            )
                        },
                        Err(e) => {
                            self.phase = Phase::Failed;
                            Action::Abort(e)
                        },
                    }
                } else {
                    Action::Ignore
                }
            },
            Event::Submitted(h) => {
                if self.phase == Phase::AwaitingSubmission {
                    self.phase = Phase::AwaitingReceipt;
                    Action::AwaitReceipt(h)
                } else {
                    Action::Ignore
                }
            },
            Event::Confirmed(r) => {
                if self.phase == Phase::AwaitingReceipt {
                    self.receipt = Some(r);
                    self.phase = Phase::AwaitingFinalBalances;
                    Action::QueryFinalBalances(self.from, self.to)
                } else {
                    Action::Ignore
                }
            },
            Event::FinalBalances(s, t) => {
                if self.phase == Phase::AwaitingFinalBalances {
                    let receipt = self.receipt.unwrap();
                    self.phase = Phase::Done;
                    Action::Finish(
                        Summary {
                            receipt,
                            actual_fee: estimate_fee(receipt.effective_gas_price, receipt.gas_used),
                            sender_balance: s,
                            recipient_balance: t,
                        },
                    )
                } else {
                    Action::Ignore
                }
            },
            Event::Failed(m) => {
                if self.phase == Phase::AwaitingSubmission {
                    self.phase = Phase::Failed;
                    Action::Abort(TransferError::SubmissionError { message: m })
                } else if self.phase == Phase::Done || self.phase == Phase::Failed {
                    Action::Ignore
                } else {
                    self.phase = Phase::Failed;
                    Action::Abort(TransferError::RpcError { message: m })
                }
            },
        }
    }
}

/// Validates the recipient text and the amount text, then starts the flow for
/// the sender `from`. The recipient is checked first.
pub fn begin_transfer(from: Address, to_text: &str, amount_text: &str, gas_limit: u64) -> (r:
    Result<(TransferFlow, Action), TransferError>)
    ensures
        !is_address_text(to_text@) ==> (r matches Err(e) && e
            is InvalidAddress),
        r is Ok <==> (is_address_text(to_text@) && is_ascii_chars(amount_text@)
            && ether_units_of(amount_text@) is Some
            && ether_units_of(amount_text@).unwrap() <= u128::MAX),
        is_address_text(to_text@) && r is Err ==> (r matches Err(e) && e is InvalidAmount),
        fraction_digits(amount_text@).len() <= UNIT_DECIMALS && (exists|i: int|
            0 <= i < amount_text@.len() && #[trigger] is_ascii_letter(amount_text@[i])) ==> r is Err,
        r matches Ok((flow, a)) ==> {
            &&& flow.wf()
            &&& flow.phase is AwaitingBalance
            &&& flow.from == from
            &&& flow.to@ == address_bytes_of(to_text@)
            &&& ether_units_of(amount_text@) == Some(flow.amount as nat)
            &&& flow.gas_limit == gas_limit
            &&& a == Action::QueryBalance(from)
        },
{
    let to = match validate_address(to_text, "recipient") {
        Ok(a) => a,
        Err(e) => return Err(e),
    };
    let amount = match parse_amount(amount_text) {
        Ok(v) => v,
        Err(e) => return Err(e),
    };
    Ok(TransferFlow::start(from, to, amount, gas_limit))
}

} // verus!
