use vstd::prelude::*;

verus! {

/// What one account's lookup came to, as a mathematical value.
pub enum OutcomeView {
    Success { account: Seq<char>, balance: u64 },
    Failure { account: Seq<char>, message: Seq<char> },
}

impl OutcomeView {
    /// The account the outcome belongs to.
    pub open spec fn account(self) -> Seq<char> {
        match self {
            OutcomeView::Success { account, .. } => account,
            OutcomeView::Failure { account, .. } => account,
        }
    }
}

/// The result of one balance lookup.
#[derive(Debug, Clone, PartialEq, Eq)]
pub enum BalanceOutcome {
    Success { account_id: String, balance: u64 },
    Failure { account_id: String, error_message: String },
}

impl View for BalanceOutcome {
    type V = OutcomeView;

    open spec fn view(&self) -> OutcomeView {
        match self {
            BalanceOutcome::Success { account_id, balance } => OutcomeView::Success {
                account: account_id@,
                balance: *balance,
            },
            BalanceOutcome::Failure { account_id, error_message } => OutcomeView::Failure {
                account: account_id@,
                message: error_message@,
            },
        }
    }
}

impl BalanceOutcome {
    /// The account this outcome was produced for.
    pub fn account_id(&self) -> (r: &String)
        ensures
            r@ == self@.account(),
    {
        match self {
            BalanceOutcome::Success { account_id, .. } => account_id,
            BalanceOutcome::Failure { account_id, .. } => account_id,
        }
    }

    pub fn is_success(&self) -> (r: bool)
        ensures
            r == (self@ is Success),
    {
        match self {
            BalanceOutcome::Success { .. } => true,
            BalanceOutcome::Failure { .. } => false,
        }
    }

    /// The balance, for a successful lookup.
    pub fn balance(&self) -> (r: Option<u64>)
        ensures
            match self@ {
                OutcomeView::Success { balance, .. } => r == Some(balance),
                OutcomeView::Failure { .. } => r is None,
            },
    {
        match self {
            BalanceOutcome::Success { balance, .. } => Some(*balance),
            BalanceOutcome::Failure { .. } => None,
        }
    }

    /// The error message, for a failed lookup.
    pub fn error_message(&self) -> (r: Option<&String>)
        ensures
            match self@ {
                OutcomeView::Success { .. } => r is None,
                OutcomeView::Failure { message, .. } => r is Some && r->0@ == message,
            },
    {
        match self {
            BalanceOutcome::Success { .. } => None,
            BalanceOutcome::Failure { error_message, .. } => Some(error_message),
        }
    }
}

} // verus!
