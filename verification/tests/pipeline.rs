use fix_gateway::fix_convert::broker::Broker;
use fix_gateway::fix_interface::ConnectionMonitor;
use fix_gateway::fix_interface::ForwardRequest;
use fix_gateway::fix_interface::Pipeline;
use fix_gateway::fix_interface::PipelineAction;
use fix_gateway::gw_plugin::OrderField;
use fix_gateway::gw_plugin::RequestMessage;
use fix_gateway::gw_plugin::TranslationError;
use fix_gateway::order_manager::OrderManager;
use fix_gateway::server::handle_submit;
use fix_gateway::server::SubmitDecision;

const TS: &str = "20240102-03:04:05.678";

fn req(key: &str) -> RequestMessage {
    RequestMessage { message: key.to_string() }
}

#[test]
fn duplicate_is_rejected_before_the_queue_and_others_are_sent() {
    let mut guard = OrderManager::new();
    let mut pl = Pipeline::new();
    let broker = Broker::new("plugin.cfg");

    assert_eq!(handle_submit(&mut guard, &mut pl, req("A")), SubmitDecision::Accepted);
    assert_eq!(handle_submit(&mut guard, &mut pl, req("B")), SubmitDecision::Accepted);
    assert_eq!(handle_submit(&mut guard, &mut pl, req("A")), SubmitDecision::Duplicate);
    assert_eq!(pl.queue.len(), 2);

    let actions = pl.drain(&broker, true, TS);
    assert_eq!(actions.len(), 2);
    assert_eq!(pl.sent, vec!["A".to_string(), "B".to_string()]);
    match &actions[0] {
        PipelineAction::SendOrder(o) => assert_eq!(o.cl_ord_id, "A"),
        other => panic!("expected an order for A, got {:?}", other),
    }
    match &actions[1] {
        PipelineAction::SendOrder(o) => assert_eq!(o.cl_ord_id, "B"),
        other => panic!("expected an order for B, got {:?}", other),
    }
}

#[test]
fn nothing_is_sent_while_the_connection_is_down() {
    let mut pl = Pipeline::new();
    let broker = Broker::new("plugin.cfg");
    let mut mon = ConnectionMonitor::new();

    pl.enqueue(ForwardRequest::RequestMessage(req("r1")));
    pl.enqueue(ForwardRequest::RequestMessage(req("r2")));

    let action = pl.step(&broker, mon.is_connected(), TS);
    assert!(matches!(action, PipelineAction::Wait));
    assert_eq!(pl.queue.len(), 2);
    assert!(pl.sent.is_empty());

    let actions = pl.drain(&broker, mon.is_connected(), TS);
    assert!(actions.is_empty());
    assert_eq!(pl.queue.len(), 2);
    assert!(pl.sent.is_empty());

    mon.on_logon();
    let actions = pl.drain(&broker, mon.is_connected(), TS);
    assert_eq!(actions.len(), 2);
    assert_eq!(pl.sent, vec!["r1".to_string(), "r2".to_string()]);
}

#[test]
fn connection_flap_delays_but_never_loses_or_duplicates() {
    let mut pl = Pipeline::new();
    let broker = Broker::new("plugin.cfg");
    let mut mon = ConnectionMonitor::new();

    mon.on_logon();
    mon.on_logout();
    pl.enqueue(ForwardRequest::RequestMessage(req("first")));
    pl.enqueue(ForwardRequest::RequestMessage(req("second")));

    let action = pl.step(&broker, mon.is_connected(), TS);
    assert!(matches!(action, PipelineAction::Wait));
    assert!(pl.sent.is_empty());

    mon.on_logon();
    let actions = pl.drain(&broker, mon.is_connected(), TS);
    assert_eq!(actions.len(), 2);
    assert_eq!(pl.sent, vec!["first".to_string(), "second".to_string()]);
    assert!(pl.queue.is_empty());
}

#[test]
fn translation_failure_is_isolated_to_the_offending_request() {
    let mut pl = Pipeline::new();
    let broker = Broker::new("plugin.cfg");

    pl.enqueue(ForwardRequest::RequestMessage(req("ok1")));
    pl.enqueue(ForwardRequest::RequestMessage(req("")));
    pl.enqueue(ForwardRequest::RequestMessage(req("ok2")));

    let actions = pl.drain(&broker, true, TS);
    assert_eq!(actions.len(), 3);
    assert!(matches!(&actions[0], PipelineAction::SendOrder(o) if o.cl_ord_id == "ok1"));
    assert!(matches!(
        &actions[1],
        PipelineAction::ReportTranslationError(TranslationError::InvalidField(OrderField::ClOrdId))
    ));
    assert!(matches!(&actions[2], PipelineAction::SendOrder(o) if o.cl_ord_id == "ok2"));
    assert_eq!(pl.sent, vec!["ok1".to_string(), "ok2".to_string()]);
}

#[test]
fn error_notice_is_reported_without_touching_the_session() {
    let mut pl = Pipeline::new();
    let broker = Broker::new("plugin.cfg");

    pl.enqueue(ForwardRequest::ErrorMessage("boom".to_string()));
    let action = pl.step(&broker, true, TS);
    match action {
        PipelineAction::ReportNotice(n) => assert_eq!(n, "boom"),
        other => panic!("expected a notice, got {:?}", other),
    }
    assert!(pl.sent.is_empty());
    assert!(pl.queue.is_empty());
}
