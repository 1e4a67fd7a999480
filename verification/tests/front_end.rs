use fix_gateway::server::echo_response;
use fix_gateway::server::submit_response;
use fix_gateway::server::SubmitDecision;

#[test]
fn unary_responses_match_each_decision() {
    assert_eq!(submit_response(&SubmitDecision::Duplicate), "Duplicate order number");
    assert_eq!(submit_response(&SubmitDecision::Accepted), "Hello from Unary: hello");
}

#[test]
fn echo_acknowledges_the_inbound_item() {
    assert_eq!(echo_response("ping"), "Echo: ping");
    assert_eq!(echo_response(""), "Echo: ");
}
