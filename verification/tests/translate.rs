use fix_gateway::cfg::BrokerName;
use fix_gateway::fix_convert::broker::plugin_for;
use fix_gateway::fix_convert::broker::Broker;
use fix_gateway::fix_convert::broker::DEFAULT_ORDER_QTY_MILLI;
use fix_gateway::fix_convert::broker::DEFAULT_PRICE_MILLI;
use fix_gateway::gw_plugin::HandlInst;
use fix_gateway::gw_plugin::OrdType;
use fix_gateway::gw_plugin::OrderField;
use fix_gateway::gw_plugin::Plugin;
use fix_gateway::gw_plugin::RequestMessage;
use fix_gateway::gw_plugin::Side;
use fix_gateway::gw_plugin::TranslationError;

const TS: &str = "20240102-03:04:05.678";

#[test]
fn valid_request_translates_with_profile_defaults() {
    let b = Broker::new("plugin.cfg");
    let req = RequestMessage { message: "ORD-1".to_string() };
    let o = b.convert_to_new_order_single(&req, TS).unwrap();
    assert_eq!(o.cl_ord_id, "ORD-1");
    assert_eq!(o.handl_inst, HandlInst::AutomatedExecutionNoIntervention);
    assert_eq!(o.symbol, "USDJPY");
    assert_eq!(o.side, Side::Buy);
    assert_eq!(o.transact_time, TS);
    assert_eq!(o.ord_type, OrdType::Limit);
    assert_eq!(o.order_qty_milli, DEFAULT_ORDER_QTY_MILLI);
    assert_eq!(o.order_qty_milli, 14000);
    assert_eq!(o.price_milli, DEFAULT_PRICE_MILLI);
    assert_eq!(o.price_milli, 893123);
    assert_eq!(o.account, "fantasy");
}

#[test]
fn empty_key_fails_fast_naming_the_field() {
    let b = Broker::new("plugin.cfg");
    let req = RequestMessage { message: String::new() };
    let e = b.convert_to_new_order_single(&req, TS).unwrap_err();
    assert_eq!(e, TranslationError::InvalidField(OrderField::ClOrdId));
}

#[test]
fn delimiter_in_key_fails_fast_naming_the_field() {
    let b = Broker::new("plugin.cfg");
    let req = RequestMessage { message: "BAD\x01KEY".to_string() };
    let e = b.convert_to_new_order_single(&req, TS).unwrap_err();
    assert_eq!(e, TranslationError::InvalidField(OrderField::ClOrdId));
}

#[test]
fn fresh_timestamp_is_a_valid_field_value() {
    let b = Broker::new("plugin.cfg");
    let req = RequestMessage { message: "ORD-2".to_string() };
    let o = b.convert_to_new_order_single_now(&req).unwrap();
    assert_eq!(o.cl_ord_id, "ORD-2");
    assert!(!o.transact_time.is_empty());
    assert!(!o.transact_time.contains('\x01'));
    // the strftime layout: date, '-', time with millisecond fraction
    assert_eq!(o.transact_time.len(), 21);
    assert_eq!(o.transact_time.as_bytes()[8], b'-');
}

#[test]
fn cancel_conversions_are_unsupported() {
    let b = Broker::new("plugin.cfg");
    let req = RequestMessage { message: "ORD-3".to_string() };
    let e1 = b.convert_to_order_cancel_replace_request(&req, TS).unwrap_err();
    assert_eq!(e1, TranslationError::Unsupported);
    let e2 = b.convert_to_order_cancel_request(&req, TS).unwrap_err();
    assert_eq!(e2, TranslationError::Unsupported);
}

#[test]
fn every_profile_selects_a_translator_with_its_config() {
    let b1 = plugin_for(&BrokerName::Broker1, "one.yaml");
    assert_eq!(b1.plugin_cfg_file, "one.yaml");
    assert_eq!(b1.broker_cfg.path, "one.yaml");
    let b2 = plugin_for(&BrokerName::Broker2, "two.yaml");
    assert_eq!(b2.plugin_cfg_file, "two.yaml");
}
