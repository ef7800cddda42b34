//! Classification of signature-status responses.
//!
//! A status response lists, for each queried signature, either nothing (the
//! network has not seen the transaction) or a report with an optional on-chain
//! error and an optional confirmation level. Only an on-chain error, `Confirmed`
//! and `Finalized` settle a transaction; everything else leaves it open.

use vstd::prelude::*;

verus! {

/// How deeply the network has settled a transaction.
#[derive(Debug, Clone, Copy, PartialEq, Eq)]
pub enum ConfirmationLevel {
    /// Seen by a node; provisional.
    Processed,
    /// Acknowledged by a supermajority.
    Confirmed,
    /// Irreversible.
    Finalized,
}

/// What the network reports about one signature.
#[derive(Debug, PartialEq, Eq)]
pub struct StatusReport {
    /// The on-chain error of the transaction, rendered as text, if it failed.
    pub err: Option<String>,
    /// The confirmation level, where the network gave one.
    pub confirmation: Option<ConfirmationLevel>,
}

/// The meaning of one status response for the confirmation loop.
#[derive(Debug, PartialEq, Eq)]
pub enum ConfirmationOutcome {
    /// No status, or a status without a confirmation level.
    Unknown,
    /// Provisionally processed.
    Processed,
    /// Confirmed: the transaction landed.
    Confirmed,
    /// Finalized: the transaction landed.
    Finalized,
    /// The transaction was executed and failed, with the error's text.
    OnChainError(String),
}

impl ConfirmationOutcome {
    /// `Confirmed` and `Finalized` end the confirmation loop with success.
    pub open spec fn is_success(self) -> bool {
        self is Confirmed || self is Finalized
    }

    /// An on-chain error ends the whole operation with failure.
    pub open spec fn is_failure(self) -> bool {
        self is OnChainError
    }

    /// Success and failure are terminal; `Unknown` and `Processed` are not.
    pub open spec fn is_terminal(self) -> bool {
        self.is_success() || self.is_failure()
    }

    /// Whether this outcome ends the confirmation loop.
    pub fn terminal(&self) -> (t: bool)
        ensures
            t == self.is_terminal(),
    {
        match self {
            ConfirmationOutcome::Confirmed => true,
            ConfirmationOutcome::Finalized => true,
            ConfirmationOutcome::OnChainError(_) => true,
            ConfirmationOutcome::Unknown => false,
            ConfirmationOutcome::Processed => false,
        }
    }
}

/// The outcome that one entry of a status response stands for. An error takes
/// precedence over whatever confirmation level accompanies it.
pub open spec fn outcome_of(status: Option<StatusReport>) -> ConfirmationOutcome {
    match status {
        None => ConfirmationOutcome::Unknown,
        Some(report) => match report.err {
            Some(detail) => ConfirmationOutcome::OnChainError(detail),
            None => match report.confirmation {
                None => ConfirmationOutcome::Unknown,
                Some(ConfirmationLevel::Processed) => ConfirmationOutcome::Processed,
                Some(ConfirmationLevel::Confirmed) => ConfirmationOutcome::Confirmed,
                Some(ConfirmationLevel::Finalized) => ConfirmationOutcome::Finalized,
            },
        },
    }
}

/// The outcome of a whole status response: that of its first entry with a
/// terminal outcome, and `Unknown` where no entry has one.
pub open spec fn response_outcome(statuses: Seq<Option<StatusReport>>) -> ConfirmationOutcome
    decreases statuses.len(),
{
    if statuses.len() == 0 {
        ConfirmationOutcome::Unknown
    } else if outcome_of(statuses[0]).is_terminal() {
        outcome_of(statuses[0])
    } else {
        response_outcome(statuses.skip(1))
    }
}

/// Classifies one entry of a status response.
pub fn classify_status(status: &Option<StatusReport>) -> (outcome: ConfirmationOutcome)
    ensures
        outcome == outcome_of(*status),
{
    match status {
        None => ConfirmationOutcome::Unknown,
        Some(report) => match &report.err {
            Some(detail) => ConfirmationOutcome::OnChainError(detail.clone()),
            None => match report.confirmation {
                None => ConfirmationOutcome::Unknown,
                Some(ConfirmationLevel::Processed) => ConfirmationOutcome::Processed,
                Some(ConfirmationLevel::Confirmed) => ConfirmationOutcome::Confirmed,
                Some(ConfirmationLevel::Finalized) => ConfirmationOutcome::Finalized,
            },
        },
    }
}

/// Classifies a status response: entries are examined in order, and the first
/// terminal one decides.
pub fn classify_response(statuses: &Vec<Option<StatusReport>>) -> (outcome: ConfirmationOutcome)
    ensures
        outcome == response_outcome(statuses@),
{
    let mut i: usize = 0;
    assert(statuses@.skip(0) =~= statuses@);
    while i < statuses.len()
        invariant
            i <= statuses.len(),
            response_outcome(statuses@) == response_outcome(statuses@.skip(i as int)),
        decreases statuses.len() - i,
    {
        let outcome = classify_status(&statuses[i]);
        proof {
            let rest = statuses@.skip(i as int);
            assert(rest[0] == statuses@[i as int]);
            assert(rest.skip(1) =~= statuses@.skip(i + 1));
        }
        if outcome.terminal() {
            return outcome;
        }
        i += 1;
    }
    proof {
        assert(statuses@.skip(i as int).len() == 0);
    }
    ConfirmationOutcome::Unknown
}

/// No entry of a response is terminal exactly when the response as a whole is
/// not: a response of `Unknown` and `Processed` entries leaves the transaction
/// open, whatever their number and order.
pub proof fn lemma_open_response(statuses: Seq<Option<StatusReport>>)
    ensures
        response_outcome(statuses).is_terminal() <==> exists|i: int|
            0 <= i < statuses.len() && #[trigger] outcome_of(statuses[i]).is_terminal(),
    decreases statuses.len(),
{
    if statuses.len() == 0 {
    } else if outcome_of(statuses[0]).is_terminal() {
    } else {
        let rest = statuses.skip(1);
        lemma_open_response(rest);
        if response_outcome(rest).is_terminal() {
            let i = choose|i: int| 0 <= i < rest.len() && #[trigger] outcome_of(rest[i]).is_terminal();
            assert(rest[i] == statuses[i + 1]);
            assert(outcome_of(statuses[i + 1]).is_terminal());
        } else {
            assert forall|i: int| 0 <= i < statuses.len() implies !(#[trigger] outcome_of(
                statuses[i],
            ).is_terminal()) by {
                if i > 0 {
                    assert(rest[i - 1] == statuses[i]);
                }
            }
        }
    }
}

} // verus!
