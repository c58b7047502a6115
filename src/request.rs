use vstd::prelude::*;

verus! {

/// The JSON string literal (quotes and escapes included) that serde_json
/// writes for a text.
pub uninterp spec fn json_string_literal(text: Seq<char>) -> Seq<char>;

/// Relies on `serde_json::to_string` on a `str`: it writes the text as one
/// JSON string literal. Serialising a `str` into memory cannot fail.
#[verifier::external_body]
fn json_quote(text: &str) -> (r: String)
    ensures
        r@ == json_string_literal(text@),
{
    serde_json::to_string(text).unwrap_or_default()
}

/// The address a balance query is posted to.
pub open spec fn request_url(endpoint: Seq<char>) -> Seq<char> {
    endpoint + "/"@
}

/// The JSON-RPC 2.0 envelope asking for one account's balance. Calls are not
/// pipelined, so the request id is the same for every call.
pub open spec fn request_body(account: Seq<char>) -> Seq<char> {
    "{\"jsonrpc\":\"2.0\",\"id\":1,\"method\":\"getBalance\",\"params\":["@
        + json_string_literal(account) + "]}"@
}

/// The parts of the loaded configuration that a fetch pass reads.
#[derive(Debug, Clone)]
pub struct Configuration {
    pub rpc_endpoint: String,
    pub account_list: Vec<String>,
}

/// One balance query: where it goes and what it carries.
#[derive(Debug, Clone)]
pub struct BalanceRequest {
    pub account_id: String,
    pub url: String,
    pub body: String,
}

impl BalanceRequest {
    /// The query for `account` against `endpoint`.
    pub fn new(endpoint: &str, account: &str) -> (r: BalanceRequest)
        ensures
            r.account_id@ == account@,
            r.url@ == request_url(endpoint@),
            r.body@ == request_body(account@),
    {
        let mut url = String::from_str(endpoint);
        url.append("/");
        let quoted = json_quote(account);
        let mut body = String::from_str(
            "{\"jsonrpc\":\"2.0\",\"id\":1,\"method\":\"getBalance\",\"params\":[",
        );
        body.append(quoted.as_str());
        body.append("]}");
        BalanceRequest { account_id: String::from_str(account), url, body }
    }
}

/// Whether `r` is the query for `account` against `endpoint`.
pub open spec fn is_request_for(r: BalanceRequest, endpoint: Seq<char>, account: Seq<char>) -> bool {
    &&& r.account_id@ == account
    &&& r.url@ == request_url(endpoint)
    &&& r.body@ == request_body(account)
}

/// One query per listed account, in the order of the list; repeated accounts
/// are queried once for each time they are listed.
pub fn plan_requests(config: &Configuration) -> (r: Vec<BalanceRequest>)
    ensures
        r@.len() == config.account_list@.len(),
        forall|i: int|
            0 <= i < r@.len() ==> is_request_for(
                #[trigger] r@[i],
                config.rpc_endpoint@,
                config.account_list@[i]@,
            ),
{
    let mut r: Vec<BalanceRequest> = Vec::new();
    let n = config.account_list.len();
    for i in 0..n
        invariant
            n == config.account_list@.len(),
            r@.len() == i,
            forall|j: int|
                0 <= j < i ==> is_request_for(
                    #[trigger] r@[j],
                    config.rpc_endpoint@,
                    config.account_list@[j]@,
                ),
    {
        r.push(BalanceRequest::new(config.rpc_endpoint.as_str(), config.account_list[i].as_str()));
    }
    r
}

} // verus!
