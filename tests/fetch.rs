use balance_fetcher::outcome::BalanceOutcome;
use balance_fetcher::report::{assemble_report, unit_to_outcome, FatalError, UnitResult};
use balance_fetcher::request::{plan_requests, BalanceRequest, Configuration};
use balance_fetcher::response::{
    outcome_from_body, outcome_from_lookup, failed_outcome, BALANCE_NOT_FOUND,
};

fn success(account: &str, balance: u64) -> BalanceOutcome {
    BalanceOutcome::Success { account_id: account.to_string(), balance }
}

fn failure(account: &str, message: &str) -> BalanceOutcome {
    BalanceOutcome::Failure { account_id: account.to_string(), error_message: message.to_string() }
}

fn replied(body: &str) -> UnitResult {
    UnitResult::Replied(body.as_bytes().to_vec())
}

fn accounts(list: &[&str]) -> Vec<String> {
    list.iter().map(|a| a.to_string()).collect()
}

#[test]
fn request_body_is_json_rpc_envelope() {
    let r = BalanceRequest::new("http://localhost:8899", "A");
    assert_eq!(r.url, "http://localhost:8899/");
    assert_eq!(r.account_id, "A");
    assert_eq!(r.body, r#"{"jsonrpc":"2.0","id":1,"method":"getBalance","params":["A"]}"#);
    let parsed: serde_json::Value = serde_json::from_str(&r.body).unwrap();
    assert_eq!(parsed["params"][0], "A");
    assert_eq!(parsed["method"], "getBalance");
}

#[test]
fn request_body_escapes_account() {
    let r = BalanceRequest::new("http://h", "a\"b\\c");
    assert_eq!(r.body, r#"{"jsonrpc":"2.0","id":1,"method":"getBalance","params":["a\"b\\c"]}"#);
    let parsed: serde_json::Value = serde_json::from_str(&r.body).unwrap();
    assert_eq!(parsed["params"][0], "a\"b\\c");
}

#[test]
fn request_for_empty_account_is_passed_through() {
    let r = BalanceRequest::new("http://h", "");
    assert_eq!(r.body, r#"{"jsonrpc":"2.0","id":1,"method":"getBalance","params":[""]}"#);
}

#[test]
fn plan_has_one_request_per_account_in_order() {
    let config = Configuration {
        rpc_endpoint: "http://h".to_string(),
        account_list: accounts(&["A", "B", "A"]),
    };
    let plan = plan_requests(&config);
    assert_eq!(plan.len(), 3);
    assert_eq!(plan[0].account_id, "A");
    assert_eq!(plan[1].account_id, "B");
    assert_eq!(plan[2].account_id, "A");
    assert_eq!(plan[0].body, plan[2].body);
    assert_ne!(plan[0].body, plan[1].body);
    assert!(plan.iter().all(|r| r.url == "http://h/"));
}

#[test]
fn plan_for_no_accounts_is_empty() {
    let config = Configuration { rpc_endpoint: "http://h".to_string(), account_list: vec![] };
    assert!(plan_requests(&config).is_empty());
}

#[test]
fn value_42_is_success() {
    let o = outcome_from_body("acc", br#"{"result":{"value":42}}"#);
    assert_eq!(o, success("acc", 42));
    assert_eq!(o.balance(), Some(42));
    assert!(o.is_success());
    assert_eq!(o.account_id(), "acc");
    assert_eq!(o.error_message(), None);
}

#[test]
fn extra_fields_are_ignored() {
    let body = br#"{"jsonrpc":"2.0","id":1,"result":{"context":{"slot":5},"value":7}}"#;
    assert_eq!(outcome_from_body("acc", body), success("acc", 7));
}

#[test]
fn largest_balance_is_read() {
    let body = br#"{"result":{"value":18446744073709551615}}"#;
    assert_eq!(outcome_from_body("acc", body), success("acc", u64::MAX));
}

#[test]
fn missing_value_is_not_found() {
    let o = outcome_from_body("acc", br#"{"result":{}}"#);
    assert_eq!(o, failure("acc", "Balance not found in response"));
    assert_eq!(o.error_message().map(|m| m.as_str()), Some(BALANCE_NOT_FOUND));
    assert_eq!(o.balance(), None);
    assert!(!o.is_success());
}

#[test]
fn value_of_wrong_type_is_not_found() {
    for body in [
        r#"{"result":{"value":null}}"#,
        r#"{"result":{"value":-1}}"#,
        r#"{"result":{"value":"42"}}"#,
        r#"{"result":{"value":1.5}}"#,
        r#"{"result":{"value":18446744073709551616}}"#,
        r#"{"result":7}"#,
        r#"{"error":{"code":-32602,"message":"Invalid param"}}"#,
        r#"[1,2]"#,
    ] {
        assert_eq!(outcome_from_body("acc", body.as_bytes()), failure("acc", BALANCE_NOT_FOUND));
    }
}

#[test]
fn body_that_is_not_json_is_a_parse_failure() {
    let o = outcome_from_body("acc", b"<html>bad gateway</html>");
    assert!(!o.is_success());
    let message = o.error_message().unwrap();
    assert!(!message.is_empty());
    assert_ne!(message, BALANCE_NOT_FOUND);
    assert_eq!(o.account_id(), "acc");
}

#[test]
fn decoded_lookup_gives_each_outcome() {
    assert_eq!(outcome_from_lookup("a", Ok(Some(10))), success("a", 10));
    assert_eq!(outcome_from_lookup("a", Ok(None)), failure("a", BALANCE_NOT_FOUND));
    assert_eq!(outcome_from_lookup("a", Err("bad json".to_string())), failure("a", "bad json"));
}

#[test]
fn failed_outcome_keeps_message() {
    let o = failed_outcome("acc", "error sending request: connection refused");
    assert_eq!(o, failure("acc", "error sending request: connection refused"));
}

#[test]
fn crashed_unit_fails_its_own_account() {
    let o = unit_to_outcome("acc", &UnitResult::Crashed("task panicked".to_string()));
    assert_eq!(o, failure("acc", "task panicked"));
}

#[test]
fn report_has_one_outcome_per_account() {
    let list = accounts(&["A", "B", "C", "D"]);
    let units = vec![
        replied(r#"{"result":{"value":1}}"#),
        replied(r#"{"result":{}}"#),
        UnitResult::TransportFailed("connection refused".to_string()),
        UnitResult::Crashed("panicked".to_string()),
    ];
    let report = assemble_report(&list, &units).unwrap();
    assert_eq!(report.len(), 4);
    for (o, a) in report.iter().zip(list.iter()) {
        assert_eq!(o.account_id(), a);
    }
}

#[test]
fn unreachable_endpoint_affects_only_its_account() {
    let list = accounts(&["A", "B", "C"]);
    let all_ok = vec![
        replied(r#"{"result":{"value":5}}"#),
        replied(r#"{"result":{"value":6}}"#),
        replied(r#"{"result":{"value":7}}"#),
    ];
    let mut one_down = all_ok.clone();
    one_down[1] = UnitResult::TransportFailed("connection refused".to_string());
    let a = assemble_report(&list, &all_ok).unwrap();
    let b = assemble_report(&list, &one_down).unwrap();
    assert_eq!(b[1], failure("B", "connection refused"));
    assert_eq!(a[0], b[0]);
    assert_eq!(a[2], b[2]);
    assert_eq!(b[0], success("A", 5));
    assert_eq!(b[2], success("C", 7));
}

#[test]
fn duplicates_are_reported_independently() {
    let list = accounts(&["A", "B", "A"]);
    let units = vec![
        replied(r#"{"result":{"value":10}}"#),
        UnitResult::TransportFailed("connection refused".to_string()),
        replied(r#"{"result":{"value":10}}"#),
    ];
    let report = assemble_report(&list, &units).unwrap();
    assert_eq!(
        report,
        vec![success("A", 10), failure("B", "connection refused"), success("A", 10)]
    );
}

#[test]
fn same_replies_give_same_report() {
    let list = accounts(&["A", "B"]);
    let units = vec![replied(r#"{"result":{"value":3}}"#), replied(r#"{"result":{}}"#)];
    let first = assemble_report(&list, &units).unwrap();
    let second = assemble_report(&list, &units.clone()).unwrap();
    assert_eq!(first, second);
}

#[test]
fn empty_pass_gives_empty_report() {
    assert_eq!(assemble_report(&vec![], &vec![]), Ok(vec![]));
}

#[test]
fn unjoined_unit_is_fatal() {
    let list = accounts(&["A", "B", "C"]);
    let units = vec![
        replied(r#"{"result":{"value":1}}"#),
        UnitResult::NotJoined("task was cancelled".to_string()),
        UnitResult::NotJoined("runtime shut down".to_string()),
    ];
    assert_eq!(
        assemble_report(&list, &units),
        Err(FatalError { message: "task was cancelled".to_string() })
    );
}
