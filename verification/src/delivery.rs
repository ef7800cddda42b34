//! The delivery protocol as a state machine.
//!
//! A [`Delivery`] is one request on its way to the ledger. It never touches
//! the network itself: every [`Directive`] names the one thing that the caller
//! does next (a query, a submission, the end), the pause that precedes it, and
//! what to tell the user; the caller hands the result back as an [`Event`] to
//! [`Delivery::step`]. What the machine does on each event is the spec function
//! [`Delivery::next`], and `step` computes exactly that.

use vstd::prelude::*;
use solana_sdk::signature::Signature;
use crate::policy::{ComputeBudget, FeeSource, MIN_BALANCE_LAMPORTS};
use crate::policy::{balance_suffices, check_balance, fee_source, fee_source_of};
use crate::status::{ConfirmationOutcome, StatusReport};
use crate::status::{classify_response, response_outcome};

verus! {

/// Why a request ended without a confirmed transaction.
#[derive(Debug, PartialEq, Eq)]
pub enum SendError {
    /// The fee payer holds no more than the minimum balance. Nothing was
    /// submitted.
    InsufficientBalance { balance: u64 },
    /// The network accepted the transaction, and the caller had asked not to
    /// wait for its confirmation.
    SkipConfirmPolicy,
    /// The transaction was executed and failed, with the error's text.
    OnChainError(String),
    /// Every attempt of the budget failed or stayed unresolved.
    MaxRetriesExceeded,
}

/// A transient failure that the user is told of before the next attempt.
#[derive(Debug, Clone, Copy, PartialEq, Eq)]
pub enum Notice {
    /// Nothing to report.
    Quiet,
    /// The transport refused or lost the submission.
    SubmitError,
    /// The status query itself failed.
    StatusQueryError,
}

/// The numbers of the protocol.
#[derive(Debug, Clone, Copy, PartialEq, Eq)]
pub struct Settings {
    /// The balance, in lamports, that the fee payer must exceed.
    pub min_balance: u64,
    /// Resubmissions after the first attempt: `gateway_retries + 1` attempts
    /// are made at most.
    pub gateway_retries: u64,
    /// Milliseconds to pause after a failed or unresolved attempt.
    pub gateway_delay_ms: u64,
    /// Status queries per accepted submission.
    pub confirm_retries: u64,
    /// Milliseconds to pause before each status query.
    pub confirm_delay_ms: u64,
    /// Retries left to the transport itself.
    pub rpc_retries: usize,
}

impl Settings {
    /// The standard values: 151 attempts 300 ms apart, one immediate status
    /// query per attempt, no retries inside the transport.
    pub open spec fn standard() -> Settings {
        Settings {
            min_balance: MIN_BALANCE_LAMPORTS,
            gateway_retries: 150,
            gateway_delay_ms: 300,
            confirm_retries: 1,
            confirm_delay_ms: 0,
            rpc_retries: 0,
        }
    }
}

impl Default for Settings {
    fn default() -> (settings: Settings)
        ensures
            settings == Settings::standard(),
    {
        Settings {
            min_balance: MIN_BALANCE_LAMPORTS,
            gateway_retries: 150,
            gateway_delay_ms: 300,
            confirm_retries: 1,
            confirm_delay_ms: 0,
            rpc_retries: 0,
        }
    }
}

/// The confirmation level named in a submission.
#[derive(Debug, Clone, Copy, PartialEq, Eq)]
pub enum Commitment {
    Processed,
    Confirmed,
    Finalized,
}

/// The wire encoding of a submitted transaction.
#[derive(Debug, Clone, Copy, PartialEq, Eq)]
pub enum Encoding {
    Base58,
    Base64,
}

/// How a transaction is handed to the transport.
#[derive(Debug, Clone, Copy, PartialEq, Eq)]
pub struct SubmitOptions {
    /// Whether the node skips its preflight simulation.
    pub skip_preflight: bool,
    /// The confirmation level that the node's preflight goes by.
    pub preflight_commitment: Commitment,
    /// The encoding of the transaction.
    pub encoding: Encoding,
    /// Retries that the node makes on its own.
    pub max_retries: usize,
}

/// What the caller does next.
#[derive(Debug, Clone, Copy, PartialEq, Eq)]
pub enum Action {
    /// Read the fee payer's balance.
    QueryBalance,
    /// Ask the fee oracle for the priority fee.
    QueryFee,
    /// Build and sign the transaction with this compute-unit limit and this
    /// price per compute unit.
    Assemble { compute_limit: u32, price: u64 },
    /// Submit the signed transaction. `attempt` counts from zero.
    Submit { attempt: u64, price: u64 },
    /// Query the status of the accepted transaction.
    QueryStatus { signature: Signature },
    /// Stop: the outcome is final.
    Finish,
}

/// One instruction to the caller: report `notice`, pause, then act.
#[derive(Debug, Clone, Copy, PartialEq, Eq)]
pub struct Directive {
    /// A transient failure to report first.
    pub notice: Notice,
    /// Milliseconds to pause before acting.
    pub pause_ms: u64,
    /// The action itself.
    pub action: Action,
}

/// What came back from the caller's last action.
#[derive(Debug, PartialEq, Eq)]
pub enum Event {
    /// The balance of the fee payer, or `None` where the query failed.
    Balance(Option<u64>),
    /// The price that the fee oracle returned.
    OracleFee(u64),
    /// The transaction is built and signed.
    Assembled,
    /// The network accepted the submission under this identifier.
    Accepted(Signature),
    /// The submission failed in transport.
    SubmitFailed,
    /// The status query returned these entries.
    Statuses(Vec<Option<StatusReport>>),
    /// The status query itself failed.
    StatusQueryFailed,
}

/// Where a request stands.
#[derive(Debug, PartialEq, Eq)]
pub enum Phase {
    /// The balance query is out.
    CheckingBalance,
    /// The fee oracle has been asked.
    ResolvingFee,
    /// The caller is building and signing the transaction.
    Assembling { price: u64 },
    /// Submission number `attempt` is out.
    Submitting { price: u64, attempt: u64 },
    /// Submission number `attempt` was accepted; status query number `check`
    /// is out.
    Confirming { price: u64, attempt: u64, check: u64, signature: Signature },
    /// The request has ended.
    Done(Result<Signature, SendError>),
}

/// One request on its way to the ledger.
#[derive(Debug, PartialEq, Eq)]
pub struct Delivery {
    /// The numbers of the protocol.
    pub settings: Settings,
    /// The resolved compute-unit limit.
    pub compute_limit: u32,
    /// The configured static priority fee.
    pub priority_fee: Option<u64>,
    /// Whether a dynamic-fee endpoint is configured.
    pub dynamic_fee: bool,
    /// Whether the caller asked not to wait for confirmation.
    pub skip_confirm: bool,
    /// The difficulty that the caller observed. No decision reads it.
    pub best_diff: u32,
    /// Where the request stands.
    pub phase: Phase,
}

/// The part of a miner's configuration that decides how requests are sent.
#[derive(Debug, Clone, Copy, PartialEq, Eq)]
pub struct Miner {
    /// The static priority fee, in micro-lamports per compute unit.
    pub priority_fee: Option<u64>,
    /// Whether a dynamic-fee endpoint is configured.
    pub dynamic_fee: bool,
    /// The numbers of the protocol.
    pub settings: Settings,
}

/// The directive without notice or pause.
pub open spec fn plain(action: Action) -> Directive {
    Directive { notice: Notice::Quiet, pause_ms: 0, action }
}

impl Miner {
    /// The state of a fresh request.
    pub open spec fn fresh(self, compute_budget: ComputeBudget, skip_confirm: bool, best_diff: u32)
        -> Delivery {
        Delivery {
            settings: self.settings,
            compute_limit: compute_budget.limit(),
            priority_fee: self.priority_fee,
            dynamic_fee: self.dynamic_fee,
            skip_confirm,
            best_diff,
            phase: Phase::CheckingBalance,
        }
    }

    /// Begins a request. The first thing to do is to read the fee payer's
    /// balance.
    pub fn send_request(&self, compute_budget: ComputeBudget, skip_confirm: bool, best_diff: u32)
        -> (begun: (Delivery, Directive))
        ensures
            begun.0 == self.fresh(compute_budget, skip_confirm, best_diff),
            begun.0.wf(),
            begun.1 == plain(Action::QueryBalance),
    {
        let delivery = Delivery {
            settings: self.settings,
            compute_limit: compute_budget.resolve(),
            priority_fee: self.priority_fee,
            dynamic_fee: self.dynamic_fee,
            skip_confirm,
            best_diff,
            phase: Phase::CheckingBalance,
        };
        (delivery, Directive { notice: Notice::Quiet, pause_ms: 0, action: Action::QueryBalance })
    }
}

impl Delivery {
    /// What holds of every request that began with [`Miner::send_request`]:
    /// attempts stay within the budget, a status query is out only while
    /// queries remain, and a request that skips confirmation neither queries
    /// a status nor succeeds.
    pub open spec fn wf(self) -> bool {
        match self.phase {
            Phase::Submitting { attempt, .. } => attempt <= self.settings.gateway_retries,
            Phase::Confirming { attempt, check, .. } => {
                &&& attempt <= self.settings.gateway_retries
                &&& check < self.settings.confirm_retries
                &&& !self.skip_confirm
            },
            Phase::Done(outcome) => self.skip_confirm ==> outcome is Err,
            _ => true,
        }
    }

    /// The same request in another phase.
    pub open spec fn at(self, phase: Phase) -> Delivery {
        Delivery { phase, ..self }
    }

    /// The action whose result the request is waiting for.
    pub open spec fn pending(self) -> Action {
        match self.phase {
            Phase::CheckingBalance => Action::QueryBalance,
            Phase::ResolvingFee => Action::QueryFee,
            Phase::Assembling { price } => Action::Assemble {
                compute_limit: self.compute_limit,
                price,
            },
            Phase::Submitting { price, attempt } => Action::Submit { attempt, price },
            Phase::Confirming { signature, .. } => Action::QueryStatus { signature },
            Phase::Done(_) => Action::Finish,
        }
    }

    /// Whether `event` is a result of the action that the request is waiting
    /// for.
    pub open spec fn answers(self, event: Event) -> bool {
        match (self.phase, event) {
            (Phase::CheckingBalance, Event::Balance(_)) => true,
            (Phase::ResolvingFee, Event::OracleFee(_)) => true,
            (Phase::Assembling { .. }, Event::Assembled) => true,
            (Phase::Submitting { .. }, Event::Accepted(_)) => true,
            (Phase::Submitting { .. }, Event::SubmitFailed) => true,
            (Phase::Confirming { .. }, Event::Statuses(_)) => true,
            (Phase::Confirming { .. }, Event::StatusQueryFailed) => true,
            _ => false,
        }
    }

    /// The same request with another observed difficulty.
    pub open spec fn with_difficulty(self, best_diff: u32) -> Delivery {
        Delivery { best_diff, ..self }
    }

    /// The request has ended.
    pub open spec fn finished(self) -> bool {
        self.phase is Done
    }

    /// The request has ended with a confirmed transaction.
    pub open spec fn succeeded(self) -> bool {
        match self.phase {
            Phase::Done(Ok(_)) => true,
            _ => false,
        }
    }

    /// The request has ended because the transaction failed on chain.
    pub open spec fn failed_on_chain(self) -> bool {
        match self.phase {
            Phase::Done(Err(SendError::OnChainError(_))) => true,
            _ => false,
        }
    }

    /// The step to the assembly of the transaction, once the price is known.
    pub open spec fn assemble(self, price: u64) -> (Delivery, Directive) {
        (
            self.at(Phase::Assembling { price }),
            plain(Action::Assemble { compute_limit: self.compute_limit, price }),
        )
    }

    /// The step after attempt number `attempt` failed or stayed unresolved:
    /// pause, then resubmit the same transaction, or give up where the budget
    /// is spent.
    pub open spec fn retry(self, price: u64, attempt: u64, notice: Notice) -> (Delivery, Directive) {
        if attempt < self.settings.gateway_retries {
            (
                self.at(Phase::Submitting { price, attempt: (attempt + 1) as u64 }),
                Directive {
                    notice,
                    pause_ms: self.settings.gateway_delay_ms,
                    action: Action::Submit { attempt: (attempt + 1) as u64, price },
                },
            )
        } else {
            (
                self.at(Phase::Done(Err(SendError::MaxRetriesExceeded))),
                Directive {
                    notice,
                    pause_ms: self.settings.gateway_delay_ms,
                    action: Action::Finish,
                },
            )
        }
    }

    /// The step to status query number `check` of an accepted submission, or
    /// to the next attempt where no query is left. A status query that fails
    /// does not come here: it ends the attempt.
    pub open spec fn confirm(
        self,
        price: u64,
        attempt: u64,
        check: int,
        signature: Signature,
        notice: Notice,
    ) -> (Delivery, Directive) {
        if check < self.settings.confirm_retries {
            (
                self.at(Phase::Confirming { price, attempt, check: check as u64, signature }),
                Directive {
                    notice,
                    pause_ms: self.settings.confirm_delay_ms,
                    action: Action::QueryStatus { signature },
                },
            )
        } else {
            self.retry(price, attempt, notice)
        }
    }

    /// The step that ends the request.
    pub open spec fn finish(self, outcome: Result<Signature, SendError>) -> (Delivery, Directive) {
        (self.at(Phase::Done(outcome)), plain(Action::Finish))
    }

    /// The step on an event that does not answer the pending action: nothing
    /// changes, and the pending action is named again.
    pub open spec fn stay(self) -> (Delivery, Directive) {
        (self, plain(self.pending()))
    }

    /// The transition function: the request after `event`, and what the caller
    /// does next.
    pub open spec fn next(self, event: Event) -> (Delivery, Directive) {
        match (self.phase, event) {
            (Phase::CheckingBalance, Event::Balance(balance)) => {
                if !balance_suffices(balance, self.settings.min_balance) {
                    self.finish(Err(SendError::InsufficientBalance { balance: balance->0 }))
                } else {
                    match fee_source_of(self.dynamic_fee, self.priority_fee) {
                        FeeSource::Oracle => (
                            self.at(Phase::ResolvingFee),
                            plain(Action::QueryFee),
                        ),
                        FeeSource::Static(price) => self.assemble(price),
                    }
                }
            },
            (Phase::ResolvingFee, Event::OracleFee(price)) => self.assemble(price),
            (Phase::Assembling { price }, Event::Assembled) => (
                self.at(Phase::Submitting { price, attempt: 0 }),
                plain(Action::Submit { attempt: 0, price }),
            ),
            (Phase::Submitting { price, attempt }, Event::Accepted(signature)) => {
                if self.skip_confirm {
                    self.finish(Err(SendError::SkipConfirmPolicy))
                } else {
                    self.confirm(price, attempt, 0, signature, Notice::Quiet)
                }
            },
            (Phase::Submitting { price, attempt }, Event::SubmitFailed) => self.retry(
                price,
                attempt,
                Notice::SubmitError,
            ),
            (Phase::Confirming { price, attempt, check, signature }, Event::Statuses(statuses)) => {
                match response_outcome(statuses@) {
                    ConfirmationOutcome::OnChainError(detail) => self.finish(
                        Err(SendError::OnChainError(detail)),
                    ),
                    ConfirmationOutcome::Confirmed => self.finish(Ok(signature)),
                    ConfirmationOutcome::Finalized => self.finish(Ok(signature)),
                    _ => self.confirm(price, attempt, check + 1, signature, Notice::Quiet),
                }
            },
            (Phase::Confirming { price, attempt, .. }, Event::StatusQueryFailed) => self.retry(
                price,
                attempt,
                Notice::StatusQueryError,
            ),
            _ => self.stay(),
        }
    }

    /// How every submission is handed to the transport: without preflight,
    /// with the `Confirmed` level named, base64-encoded, and with the
    /// transport's own retries as configured (none by default), so that
    /// resubmission is decided here alone.
    pub fn submit_options(&self) -> (options: SubmitOptions)
        ensures
            options == (SubmitOptions {
                skip_preflight: true,
                preflight_commitment: Commitment::Confirmed,
                encoding: Encoding::Base64,
                max_retries: self.settings.rpc_retries,
            }),
    {
        SubmitOptions {
            skip_preflight: true,
            preflight_commitment: Commitment::Confirmed,
            encoding: Encoding::Base64,
            max_retries: self.settings.rpc_retries,
        }
    }

    /// Whether the request has ended.
    pub fn is_finished(&self) -> (done: bool)
        ensures
            done == self.finished(),
    {
        match &self.phase {
            Phase::Done(_) => true,
            _ => false,
        }
    }

    /// The outcome of a request that has ended, and `None` while it has not.
    pub fn outcome(self) -> (outcome: Option<Result<Signature, SendError>>)
        ensures
            outcome == match self.phase {
                Phase::Done(result) => Some(result),
                _ => None,
            },
    {
        match self.phase {
            Phase::Done(result) => Some(result),
            _ => None,
        }
    }

    fn retry_step(&mut self, price: u64, attempt: u64, notice: Notice) -> (directive: Directive)
        ensures
            (*final(self), directive) == old(self).retry(price, attempt, notice),
    {
        let pause_ms = self.settings.gateway_delay_ms;
        if attempt < self.settings.gateway_retries {
            self.phase = Phase::Submitting { price, attempt: attempt + 1 };
            Directive { notice, pause_ms, action: Action::Submit { attempt: attempt + 1, price } }
        } else {
            self.phase = Phase::Done(Err(SendError::MaxRetriesExceeded));
            Directive { notice, pause_ms, action: Action::Finish }
        }
    }

    fn confirm_step(
        &mut self,
        price: u64,
        attempt: u64,
        check: u64,
        signature: Signature,
        notice: Notice,
    ) -> (directive: Directive)
        ensures
            (*final(self), directive) == old(self).confirm(
                price,
                attempt,
                check as int,
                signature,
                notice,
            ),
    {
        if check < self.settings.confirm_retries {
            self.phase = Phase::Confirming { price, attempt, check, signature };
            Directive {
                notice,
                pause_ms: self.settings.confirm_delay_ms,
                action: Action::QueryStatus { signature },
            }
        } else {
            self.retry_step(price, attempt, notice)
        }
    }

    fn finish_step(&mut self, outcome: Result<Signature, SendError>) -> (directive: Directive)
        ensures
            (*final(self), directive) == old(self).finish(outcome),
    {
        self.phase = Phase::Done(outcome);
        Directive { notice: Notice::Quiet, pause_ms: 0, action: Action::Finish }
    }

    fn assemble_step(&mut self, price: u64) -> (directive: Directive)
        ensures
            (*final(self), directive) == old(self).assemble(price),
    {
        self.phase = Phase::Assembling { price };
        Directive {
            notice: Notice::Quiet,
            pause_ms: 0,
            action: Action::Assemble { compute_limit: self.compute_limit, price },
        }
    }

    fn stay_step(&self) -> (directive: Directive)
        ensures
            (*self, directive) == self.stay(),
    {
        let action = match &self.phase {
            Phase::CheckingBalance => Action::QueryBalance,
            Phase::ResolvingFee => Action::QueryFee,
            Phase::Assembling { price } => Action::Assemble {
                compute_limit: self.compute_limit,
                price: *price,
            },
            Phase::Submitting { price, attempt } => Action::Submit {
                attempt: *attempt,
                price: *price,
            },
            Phase::Confirming { signature, .. } => Action::QueryStatus { signature: *signature },
            Phase::Done(_) => Action::Finish,
        };
        Directive { notice: Notice::Quiet, pause_ms: 0, action }
    }

    /// Takes the result of the caller's last action and says what to do next.
    /// An event that does not answer the pending action changes nothing. A
    /// request that has ended stays as it is and asks for nothing more.
    pub fn step(&mut self, event: Event) -> (directive: Directive)
        ensures
            (*final(self), directive) == old(self).next(event),
            old(self).wf() ==> final(self).wf(),
            old(self).finished() ==> *final(self) == *old(self) && directive == plain(
                Action::Finish,
            ),
    {
        match event {
            Event::Balance(balance) => {
                if let Phase::CheckingBalance = &self.phase {
                    if !check_balance(balance, self.settings.min_balance) {
                        let lamports = match balance {
                            Some(lamports) => lamports,
                            None => 0,
                        };
                        self.finish_step(Err(SendError::InsufficientBalance { balance: lamports }))
                    } else {
                        match fee_source(self.dynamic_fee, self.priority_fee) {
                            FeeSource::Oracle => {
                                self.phase = Phase::ResolvingFee;
                                Directive {
                                    notice: Notice::Quiet,
                                    pause_ms: 0,
                                    action: Action::QueryFee,
                                }
                            },
                            FeeSource::Static(price) => self.assemble_step(price),
                        }
                    }
                } else {
                    self.stay_step()
                }
            },
            Event::OracleFee(price) => {
                if let Phase::ResolvingFee = &self.phase {
                    self.assemble_step(price)
                } else {
                    self.stay_step()
                }
            },
            Event::Assembled => {
                if let Phase::Assembling { price } = &self.phase {
                    let price = *price;
                    self.phase = Phase::Submitting { price, attempt: 0 };
                    Directive {
                        notice: Notice::Quiet,
                        pause_ms: 0,
                        action: Action::Submit { attempt: 0, price },
                    }
                } else {
                    self.stay_step()
                }
            },
            Event::Accepted(signature) => {
                if let Phase::Submitting { price, attempt } = &self.phase {
                    let price = *price;
                    let attempt = *attempt;
                    if self.skip_confirm {
                        self.finish_step(Err(SendError::SkipConfirmPolicy))
                    } else {
                        self.confirm_step(price, attempt, 0, signature, Notice::Quiet)
                    }
                } else {
                    self.stay_step()
                }
            },
            Event::SubmitFailed => {
                if let Phase::Submitting { price, attempt } = &self.phase {
                    let price = *price;
                    let attempt = *attempt;
                    self.retry_step(price, attempt, Notice::SubmitError)
                } else {
                    self.stay_step()
                }
            },
            Event::Statuses(statuses) => {
                if let Phase::Confirming { price, attempt, check, signature } = &self.phase {
                    let price = *price;
                    let attempt = *attempt;
                    let check = *check;
                    let signature = *signature;
                    match classify_response(&statuses) {
                        ConfirmationOutcome::OnChainError(detail) => self.finish_step(
                            Err(SendError::OnChainError(detail)),
                        ),
                        ConfirmationOutcome::Confirmed => self.finish_step(Ok(signature)),
                        ConfirmationOutcome::Finalized => self.finish_step(Ok(signature)),
                        _ => self.again_step(price, attempt, check, signature, Notice::Quiet),
                    }
                } else {
                    self.stay_step()
                }
            },
            Event::StatusQueryFailed => {
                if let Phase::Confirming { price, attempt, .. } = &self.phase {
                    let price = *price;
                    let attempt = *attempt;
                    self.retry_step(price, attempt, Notice::StatusQueryError)
                } else {
                    self.stay_step()
                }
            },
        }
    }

    fn again_step(
        &mut self,
        price: u64,
        attempt: u64,
        check: u64,
        signature: Signature,
        notice: Notice,
    ) -> (directive: Directive)
        ensures
            (*final(self), directive) == old(self).confirm(
                price,
                attempt,
                check + 1,
                signature,
                notice,
            ),
    {
        if check < u64::MAX {
            self.confirm_step(price, attempt, check + 1, signature, notice)
        } else {
            self.retry_step(price, attempt, notice)
        }
    }
}

} // verus!
