use vstd::prelude::*;
use crate::request::{is_request_for, BalanceRequest};
use crate::outcome::{BalanceOutcome, OutcomeView};
use crate::response::{outcome_for_body, outcome_from_body, failed_outcome};

verus! {

/// How one unit of concurrent work (one account's query) ended, as the
/// runtime that ran it reports it.
#[derive(Debug, Clone)]
pub enum UnitResult {
    /// The query got a reply with this body.
    Replied(Vec<u8>),
    /// The query never got a reply; the message describes the transport error.
    TransportFailed(String),
    /// The unit itself crashed; only its own account is affected.
    Crashed(String),
    /// The runtime could not join the unit at all, which ends the whole pass.
    NotJoined(String),
}

pub enum UnitView {
    Replied(Seq<u8>),
    TransportFailed(Seq<char>),
    Crashed(Seq<char>),
    NotJoined(Seq<char>),
}

impl View for UnitResult {
    type V = UnitView;

    open spec fn view(&self) -> UnitView {
        match self {
            UnitResult::Replied(body) => UnitView::Replied(body@),
            UnitResult::TransportFailed(m) => UnitView::TransportFailed(m@),
            UnitResult::Crashed(m) => UnitView::Crashed(m@),
            UnitResult::NotJoined(m) => UnitView::NotJoined(m@),
        }
    }
}

/// The pass could not finish: the runtime failed to join one of its units.
#[derive(Debug, Clone, PartialEq, Eq)]
pub struct FatalError {
    pub message: String,
}

/// The outcome that a unit's result gives for its account. A unit that was
/// not joined gives no outcome in a report; the failure here is never used.
pub open spec fn unit_outcome(account: Seq<char>, unit: UnitView) -> OutcomeView {
    match unit {
        UnitView::Replied(body) => outcome_for_body(account, body),
        UnitView::TransportFailed(message) => OutcomeView::Failure { account, message },
        UnitView::Crashed(message) => OutcomeView::Failure { account, message },
        UnitView::NotJoined(message) => OutcomeView::Failure { account, message },
    }
}

/// The report of a pass: the outcome at position `i` is that of the unit run
/// for the account at position `i`.
pub open spec fn report_of(accounts: Seq<Seq<char>>, units: Seq<UnitView>) -> Seq<OutcomeView> {
    Seq::new(accounts.len(), |i: int| unit_outcome(accounts[i], units[i]))
}

/// Whether the runtime joined every unit.
pub open spec fn all_joined(units: Seq<UnitView>) -> bool {
    forall|i: int| 0 <= i < units.len() ==> !(#[trigger] units[i] is NotJoined)
}

/// Whether `i` is the first unit that the runtime could not join.
pub open spec fn first_not_joined(units: Seq<UnitView>, i: int) -> bool {
    &&& 0 <= i < units.len()
    &&& units[i] is NotJoined
    &&& forall|j: int| 0 <= j < i ==> !(#[trigger] units[j] is NotJoined)
}

pub open spec fn accounts_view(accounts: Seq<String>) -> Seq<Seq<char>> {
    accounts.map_values(|a: String| a@)
}

pub open spec fn units_view(units: Seq<UnitResult>) -> Seq<UnitView> {
    units.map_values(|u: UnitResult| u@)
}

pub open spec fn outcomes_view(report: Seq<BalanceOutcome>) -> Seq<OutcomeView> {
    report.map_values(|o: BalanceOutcome| o@)
}

/// The outcome of one finished unit for `account`.
pub fn unit_to_outcome(account: &str, unit: &UnitResult) -> (r: BalanceOutcome)
    ensures
        r@ == unit_outcome(account@, unit@),
{
    match unit {
        UnitResult::Replied(body) => outcome_from_body(account, body.as_slice()),
        UnitResult::TransportFailed(m) => failed_outcome(account, m.as_str()),
        UnitResult::Crashed(m) => failed_outcome(account, m.as_str()),
        UnitResult::NotJoined(m) => failed_outcome(account, m.as_str()),
    }
}

/// Assembles the report of a pass from the results of its units, given in the
/// order of the accounts they were run for. Every account gets exactly one
/// outcome, at its own position; a unit that failed affects its own account
/// only. If the runtime could not join a unit, the pass ends with the first
/// such unit's error instead.
pub fn assemble_report(accounts: &Vec<String>, units: &Vec<UnitResult>) -> (r: Result<
    Vec<BalanceOutcome>,
    FatalError,
>)
    requires
        units@.len() == accounts@.len(),
    ensures
        r is Ok <==> all_joined(units_view(units@)),
        match r {
            Ok(report) => {
                &&& report@.len() == accounts@.len()
                &&& forall|i: int|
                    0 <= i < report@.len() ==> (#[trigger] report@[i])@ == unit_outcome(
                        accounts@[i]@,
                        units@[i]@,
                    )
                &&& forall|i: int|
                    0 <= i < report@.len() ==> (#[trigger] report@[i])@.account() == accounts@[i]@
                &&& outcomes_view(report@) == report_of(accounts_view(accounts@), units_view(units@))
            },
            Err(e) => exists|i: int|
                first_not_joined(units_view(units@), i) && units@[i]@ == UnitView::NotJoined(
                    e.message@,
                ),
        },
{
    let n = accounts.len();
    let mut report: Vec<BalanceOutcome> = Vec::new();
    for i in 0..n
        invariant
            n == accounts@.len(),
            n == units@.len(),
            report@.len() == i,
            forall|j: int| 0 <= j < i ==> !(#[trigger] units@[j]@ is NotJoined),
            forall|j: int|
                0 <= j < i ==> (#[trigger] report@[j])@ == unit_outcome(
                    accounts@[j]@,
                    units@[j]@,
                ),
    {
        if let UnitResult::NotJoined(m) = &units[i] {
            let e = FatalError { message: m.clone() };
            proof {
                assert(first_not_joined(units_view(units@), i as int));
            }
            return Err(e);
        }
        let o = unit_to_outcome(accounts[i].as_str(), &units[i]);
        report.push(o);
    }
    proof {
        lemma_report_aligned(accounts_view(accounts@), units_view(units@));
        assert(outcomes_view(report@) =~= report_of(accounts_view(accounts@), units_view(units@)));
    }
    Ok(report)
}

/// A report holds exactly one outcome per account, and the outcome at each
/// position belongs to the account at that position.
pub proof fn lemma_report_aligned(accounts: Seq<Seq<char>>, units: Seq<UnitView>)
    ensures
        report_of(accounts, units).len() == accounts.len(),
        forall|i: int|
            0 <= i < accounts.len() ==> (#[trigger] report_of(accounts, units)[i]).account()
                == accounts[i],
{
    assert forall|i: int| 0 <= i < accounts.len() implies (#[trigger] report_of(
        accounts,
        units,
    )[i]).account() == accounts[i] by {
        lemma_unit_outcome_account(accounts[i], units[i]);
    }
}

/// Whatever a unit ended with, its outcome names the account it ran for.
pub proof fn lemma_unit_outcome_account(account: Seq<char>, unit: UnitView)
    ensures
        unit_outcome(account, unit).account() == account,
{
}

/// A failed unit affects no other account: two passes whose units ended
/// alike everywhere but at position `k` report alike everywhere but at `k`.
pub proof fn lemma_failure_isolated(
    accounts: Seq<Seq<char>>,
    units1: Seq<UnitView>,
    units2: Seq<UnitView>,
    k: int,
)
    requires
        units1.len() == accounts.len(),
        units2.len() == accounts.len(),
        forall|j: int| 0 <= j < accounts.len() && j != k ==> units1[j] == units2[j],
    ensures
        forall|j: int|
            0 <= j < accounts.len() && j != k ==> #[trigger] report_of(accounts, units1)[j]
                == report_of(accounts, units2)[j],
{
}

/// A repeated account is queried and reported once for each time it is
/// listed: each occurrence's outcome comes from its own unit alone, so two
/// occurrences whose units ended alike get the same outcome.
pub proof fn lemma_duplicates_independent(
    accounts: Seq<Seq<char>>,
    units: Seq<UnitView>,
    i: int,
    j: int,
)
    requires
        units.len() == accounts.len(),
        0 <= i < accounts.len(),
        0 <= j < accounts.len(),
        accounts[i] == accounts[j],
    ensures
        report_of(accounts, units)[i] == unit_outcome(accounts[i], units[i]),
        report_of(accounts, units)[j] == unit_outcome(accounts[i], units[j]),
        units[i] == units[j] ==> report_of(accounts, units)[i] == report_of(accounts, units)[j],
{
}

/// Fetching twice is idempotent against a stable remote state: the same
/// configuration plans the same queries, and where every query gets the same
/// reply the two reports are identical, in order and in values.
pub proof fn lemma_fetch_idempotent(
    endpoint: Seq<char>,
    accounts: Seq<Seq<char>>,
    requests1: Seq<BalanceRequest>,
    requests2: Seq<BalanceRequest>,
    units1: Seq<UnitView>,
    units2: Seq<UnitView>,
)
    requires
        requests1.len() == accounts.len(),
        requests2.len() == accounts.len(),
        forall|i: int|
            0 <= i < accounts.len() ==> is_request_for(#[trigger] requests1[i], endpoint, accounts[i]),
        forall|i: int|
            0 <= i < accounts.len() ==> is_request_for(#[trigger] requests2[i], endpoint, accounts[i]),
        units1 == units2,
    ensures
        forall|i: int|
            0 <= i < accounts.len() ==> #[trigger] requests1[i].url@ == requests2[i].url@
                && requests1[i].body@ == requests2[i].body@,
        report_of(accounts, units1) == report_of(accounts, units2),
{
}

} // verus!
