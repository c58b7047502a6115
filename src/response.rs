use vstd::prelude::*;
use crate::outcome::{BalanceOutcome, OutcomeView};

verus! {

/// The message of a reply that parsed but holds no unsigned 64-bit `result.value`.
pub const BALANCE_NOT_FOUND: &'static str = "Balance not found in response";

/// What serde_json reads from a body at `body[outer][inner]` as a `u64`: `Err`
/// with serde_json's message when the body is not JSON, else the number, or
/// `None` where there is none of that type.
pub uninterp spec fn json_u64_field(body: Seq<u8>, outer: Seq<char>, inner: Seq<char>) -> Result<
    Option<u64>,
    Seq<char>,
>;

/// Relies on `serde_json::from_slice` into `serde_json::Value`, on `Value`'s
/// indexing by key (a missing key, or a value that is not an object, gives
/// `Null`), and on `Value::as_u64`.
#[verifier::external_body]
fn read_u64_field(body: &[u8], outer: &str, inner: &str) -> (r: Result<Option<u64>, String>)
    ensures
        match r {
            Ok(v) => json_u64_field(body@, outer@, inner@) == Ok::<Option<u64>, Seq<char>>(v),
            Err(m) => json_u64_field(body@, outer@, inner@) == Err::<Option<u64>, Seq<char>>(m@),
        },
{
    match serde_json::from_slice::<serde_json::Value>(body) {
        Ok(v) => Ok(v[outer][inner].as_u64()),
        Err(e) => Err(e.to_string()),
    }
}

/// The view of a decoded reply.
pub open spec fn lookup_view(lookup: Result<Option<u64>, String>) -> Result<Option<u64>, Seq<char>> {
    match lookup {
        Ok(v) => Ok(v),
        Err(m) => Err(m@),
    }
}

/// The outcome for `account` once its reply has been decoded: the balance when
/// one was found, the fixed not-found message when the reply held none, and
/// the parser's message when the reply was not JSON.
pub open spec fn outcome_for_lookup(account: Seq<char>, lookup: Result<Option<u64>, Seq<char>>) -> OutcomeView {
    match lookup {
        Ok(Some(balance)) => OutcomeView::Success { account, balance },
        Ok(None) => OutcomeView::Failure { account, message: BALANCE_NOT_FOUND@ },
        Err(message) => OutcomeView::Failure { account, message },
    }
}

/// The outcome for `account` whose reply body is `body`.
pub open spec fn outcome_for_body(account: Seq<char>, body: Seq<u8>) -> OutcomeView {
    outcome_for_lookup(account, json_u64_field(body, "result"@, "value"@))
}

/// Turns a decoded reply into the account's outcome.
pub fn outcome_from_lookup(account: &str, lookup: Result<Option<u64>, String>) -> (r: BalanceOutcome)
    ensures
        r@ == outcome_for_lookup(account@, lookup_view(lookup)),
{
    let account_id = String::from_str(account);
    match lookup {
        Ok(Some(balance)) => BalanceOutcome::Success { account_id, balance },
        Ok(None) => BalanceOutcome::Failure {
            account_id,
            error_message: String::from_str(BALANCE_NOT_FOUND),
        },
        Err(error_message) => BalanceOutcome::Failure { account_id, error_message },
    }
}

/// Decodes the body of a reply to a balance query for `account`.
pub fn outcome_from_body(account: &str, body: &[u8]) -> (r: BalanceOutcome)
    ensures
        r@ == outcome_for_body(account@, body@),
{
    let lookup = read_u64_field(body, "result", "value");
    outcome_from_lookup(account, lookup)
}

/// The failed outcome for `account` whose query got no reply to decode: the
/// transport failed, or the unit that ran the query crashed.
pub fn failed_outcome(account: &str, message: &str) -> (r: BalanceOutcome)
    ensures
        r@ == (OutcomeView::Failure { account: account@, message: message@ }),
{
    BalanceOutcome::Failure {
        account_id: String::from_str(account),
        error_message: String::from_str(message),
    }
}

} // verus!
