use sec_helper::fetcher::{
    combine_responses, decode_response, parse_transactions, Fetch, FetchError, QueryResponse,
    TransactionInfo, TxSource,
};

fn tx(hash: &str, from: &str, to: &str) -> TransactionInfo {
    TransactionInfo {
        hash: hash.to_string(),
        from: from.to_string(),
        to: to.to_string(),
        value: "0".to_string(),
        input: "0x".to_string(),
        method_id: "0x".to_string(),
    }
}

fn item(hash: &str) -> String {
    format!(
        "{{\"hash\":\"{}\",\"from\":\"0xa\",\"to\":\"0xb\",\"value\":\"1000000000000000000000\",\"input\":\"0xa9059cbb00\",\"methodId\":\"0xa9059cbb\"}}",
        hash
    )
}

fn body(hashes: &[&str]) -> String {
    let items: Vec<String> = hashes.iter().map(|h| item(h)).collect();
    format!("{{\"status\":\"1\",\"message\":\"OK\",\"result\":[{}]}}", items.join(","))
}

#[test]
fn parses_every_field() {
    let txs = parse_transactions(&body(&["0x1", "0x2"])).unwrap();
    assert_eq!(txs.len(), 2);
    assert_eq!(txs[0].hash, "0x1");
    assert_eq!(txs[1].hash, "0x2");
    assert_eq!(txs[0].from, "0xa");
    assert_eq!(txs[0].to, "0xb");
    assert_eq!(txs[0].value, "1000000000000000000000");
    assert_eq!(txs[0].input, "0xa9059cbb00");
    assert_eq!(txs[0].method_id, "0xa9059cbb");
}

#[test]
fn missing_field_is_a_parse_error() {
    let text = "{\"result\":[{\"hash\":\"0x1\",\"from\":\"0xa\",\"to\":\"0xb\",\"value\":\"0\",\"input\":\"0x\"}]}";
    assert!(matches!(parse_transactions(text), Err(FetchError::Parse)));
}

#[test]
fn malformed_json_is_a_parse_error() {
    assert!(matches!(parse_transactions("{\"result\": ["), Err(FetchError::Parse)));
}

#[test]
fn no_result_array_gives_nothing() {
    let txs = parse_transactions("{\"status\":\"0\",\"result\":\"Max rate limit reached\"}").unwrap();
    assert!(txs.is_empty());
}

#[test]
fn non_success_status_is_an_http_error() {
    let r = QueryResponse { status: 404, body: body(&["0x1"]) };
    assert!(matches!(decode_response(&r), Err(FetchError::Http(404))));
    let ok = QueryResponse { status: 200, body: body(&["0x1"]) };
    assert_eq!(decode_response(&ok).unwrap().len(), 1);
}

#[test]
fn direct_transactions_come_first() {
    let normal = QueryResponse { status: 200, body: body(&["0x3", "0x4"]) };
    let internal = QueryResponse { status: 200, body: body(&["0x1"]) };
    let txs = combine_responses(&normal, &internal).unwrap();
    let hashes: Vec<&str> = txs.iter().map(|t| t.hash.as_str()).collect();
    assert_eq!(hashes, vec!["0x3", "0x4", "0x1"]);
}

#[test]
fn either_failure_fails_the_whole() {
    let good = QueryResponse { status: 200, body: body(&["0x1"]) };
    let bad = QueryResponse { status: 500, body: String::new() };
    assert!(matches!(combine_responses(&good, &bad), Err(FetchError::Http(500))));
    assert!(matches!(combine_responses(&bad, &good), Err(FetchError::Http(500))));
}

#[test]
fn inverted_range_is_refused() {
    let f = Fetch::new("KEY".to_string());
    assert!(matches!(f.plan_all_txs("0xabc", 11, 10), Err(FetchError::InvalidRange)));
    assert!(f.plan_all_txs("0xabc", 10, 10).is_ok());
}

#[test]
fn query_urls() {
    let f = Fetch::new("KEY".to_string());
    let plan = f.plan_all_txs("0xabc", 17000000, 17000240).unwrap();
    assert_eq!(
        plan.normal_url,
        "https://api.etherscan.io/api?module=account&action=txlist&address=0xabc&startblock=17000000&endblock=17000240&sort=asc&apikey=KEY"
    );
    assert_eq!(
        plan.internal_url,
        "https://api.etherscan.io/api?module=account&action=txlistinternal&address=0xabc&startblock=17000000&endblock=17000240&sort=asc&apikey=KEY"
    );
    assert_eq!(f.query_url(TxSource::Normal, "0xabc", 17000000, 17000240), plan.normal_url);
}

#[test]
fn mixing_service_match_ignores_case() {
    let f = Fetch::new("KEY".to_string());
    let mixers = vec!["0xD90e2f925DA726b50C4Ed8D0Fb90Ad053324F31b".to_string()];
    let hit = vec![tx("0x1", "0xabc", "0xd90e2f925da726b50c4ed8d0fb90ad053324f31b")];
    assert!(f.is_invoke_mixing_service(&hit, &mixers));
    let sent = vec![tx("0x1", "0xD90E2F925DA726B50C4ED8D0FB90AD053324F31B", "0xabc")];
    assert!(f.is_invoke_mixing_service(&sent, &mixers));
    let miss = vec![tx("0x1", "0xabc", "0xdef")];
    assert!(!f.is_invoke_mixing_service(&miss, &mixers));
    assert!(!f.is_invoke_mixing_service(&Vec::new(), &mixers));
}
