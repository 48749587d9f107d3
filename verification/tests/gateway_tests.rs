use eth_gateway::gateway::handle_balance;
use eth_gateway::gateway::handle_transaction;
use eth_gateway::gateway::root_paths;
use eth_gateway::gateway::status_for;
use eth_gateway::gateway::GatewayError;
use eth_gateway::gateway::UpstreamOutcome;

fn replied(status: u16, body: &str) -> UpstreamOutcome {
    UpstreamOutcome::Replied { status, body: body.to_string() }
}

#[test]
fn balance_success_two_ether() {
    let outcome = replied(200, "{\"result\": \"0x1bc16d674ec80000\"}");
    let wei = handle_balance(&outcome).unwrap();
    assert_eq!(wei, 2_000_000_000_000_000_000);
    assert_eq!((wei as f64) * 1e-18, 2.0);
}

#[test]
fn balance_success_full_envelope() {
    let outcome = replied(200, "{\"jsonrpc\":\"2.0\",\"id\":1,\"result\":\"0x0\"}");
    assert_eq!(handle_balance(&outcome), Ok(0));
}

#[test]
fn balance_transport_failure() {
    assert_eq!(handle_balance(&UpstreamOutcome::Failed), Err(GatewayError::Transport));
}

#[test]
fn balance_http_500_from_upstream() {
    let outcome = replied(500, "{\"result\": \"0x1\"}");
    assert_eq!(handle_balance(&outcome), Err(GatewayError::Transport));
}

#[test]
fn balance_non_json_body() {
    let outcome = replied(200, "upstream exploded");
    assert_eq!(handle_balance(&outcome), Err(GatewayError::Decode));
}

#[test]
fn balance_missing_result_member() {
    let outcome = replied(200, "{\"error\": {\"code\": -32000}}");
    assert_eq!(handle_balance(&outcome), Err(GatewayError::Decode));
}

#[test]
fn balance_non_string_result() {
    let outcome = replied(200, "{\"result\": 7}");
    assert_eq!(handle_balance(&outcome), Err(GatewayError::Decode));
}

#[test]
fn balance_bad_hex_result() {
    let outcome = replied(200, "{\"result\": \"0xnope\"}");
    assert_eq!(handle_balance(&outcome), Err(GatewayError::Parse));
}

#[test]
fn transaction_passes_json_through_unchanged() {
    let body = "{\"hash\":\"0xabc\",\"value\":\"0x1\"}";
    let outcome = replied(200, body);
    assert_eq!(handle_transaction(outcome).unwrap(), body);
}

#[test]
fn transaction_transport_failure() {
    assert_eq!(
        handle_transaction(UpstreamOutcome::Failed),
        Err(GatewayError::Transport)
    );
}

#[test]
fn transaction_http_error_status() {
    let outcome = replied(404, "{\"result\": null}");
    assert_eq!(handle_transaction(outcome), Err(GatewayError::Transport));
}

#[test]
fn transaction_non_json_body() {
    let outcome = replied(200, "<html>bad gateway</html>");
    assert_eq!(handle_transaction(outcome), Err(GatewayError::Decode));
}

#[test]
fn every_failure_maps_to_500_and_success_to_200() {
    assert_eq!(status_for(&Ok::<u64, GatewayError>(5)), 200);
    assert_eq!(status_for(&Err::<u64, GatewayError>(GatewayError::Transport)), 500);
    assert_eq!(status_for(&Err::<u64, GatewayError>(GatewayError::Decode)), 500);
    assert_eq!(status_for(&Err::<u64, GatewayError>(GatewayError::Parse)), 500);
}

#[test]
fn concurrent_balance_requests_do_not_interfere() {
    let cases: Vec<(String, u64)> = (0u64..20)
        .map(|i| {
            let wei = i * 1_000_000_000 + 7;
            (format!("{{\"result\": \"{:#x}\"}}", wei), wei)
        })
        .collect();
    let outcomes: Vec<UpstreamOutcome> = cases
        .iter()
        .map(|(body, _)| replied(200, body))
        .collect();
    for (outcome, (_, expected)) in outcomes.iter().zip(cases.iter()) {
        assert_eq!(handle_balance(outcome), Ok(*expected));
    }
}

#[test]
fn root_listing_is_static() {
    let first = root_paths();
    assert_eq!(first, vec!["/", "/address/balance/:address", "/metrics"]);
    let second = root_paths();
    assert_eq!(first, second);
}
