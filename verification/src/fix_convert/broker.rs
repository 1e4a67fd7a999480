use vstd::prelude::*;

use crate::cfg::BrokerName;
use crate::gw_plugin::check_field_text;
use crate::gw_plugin::valid_field_text;
use crate::gw_plugin::HandlInst;
use crate::gw_plugin::OrdType;
use crate::gw_plugin::OrderField;
use crate::gw_plugin::OrderModel;
use crate::gw_plugin::OrderSingle;
use crate::gw_plugin::Plugin;
use crate::gw_plugin::RequestMessage;
use crate::gw_plugin::Side;
use crate::gw_plugin::TranslationError;

verus! {

/// Default order quantity, in thousandths.
pub const DEFAULT_ORDER_QTY_MILLI: u64 = 14000;

/// Default limit price, in thousandths.
pub const DEFAULT_PRICE_MILLI: u64 = 893123;

/// Relies on chrono's `Utc::now` and `DateTime::format`: renders the
/// current UTC time in the protocol's timestamp layout
/// (`%Y%m%d-%H:%M:%S%.3f`). The value depends on the system clock, so
/// nothing is promised of it beyond the shape of the format's output:
/// non-empty text of digits and the separators '-', ':' and '.',
/// hence free of the field delimiter.
#[verifier::external_body]
fn fix_timestamp_now() -> (r: String)
    ensures
        valid_field_text(r@),
{
    chrono::Utc::now().format("%Y%m%d-%H:%M:%S%.3f").to_string()
}

/// Static profile configuration, loaded from the plugin
/// configuration file.
pub struct BrokerCfg {
    pub path: String,
}

/// A broker profile's order translator. Both configured profiles
/// currently share this one implementation.
pub struct Broker {
    pub plugin_cfg_file: String,
    pub broker_cfg: BrokerCfg,
}

impl Broker {
    pub fn new(plugin_cfg_file: &str) -> (r: Broker)
        ensures
            r.plugin_cfg_file@ == plugin_cfg_file@,
            r.broker_cfg.path@ == plugin_cfg_file@,
    {
        Broker {
            plugin_cfg_file: plugin_cfg_file.to_owned(),
            broker_cfg: BrokerCfg { path: plugin_cfg_file.to_owned() },
        }
    }

    /// Translates with a freshly generated timestamp from the system
    /// clock, as the forwarding pipeline does per request. Succeeds
    /// exactly when the request carries a valid order key; every field
    /// of a returned order is pinned except the transaction time,
    /// which is whatever the clock gave and is a valid field value.
    pub fn convert_to_new_order_single_now(&self, req: &RequestMessage) -> (r: Result<
        OrderSingle,
        TranslationError,
    >)
        ensures
            r is Ok <==> valid_field_text(req.message@),
            r matches Ok(o) ==> {
                &&& o@.cl_ord_id == req.message@
                &&& o@.handl_inst == HandlInst::AutomatedExecutionNoIntervention
                &&& o@.symbol == "USDJPY"@
                &&& o@.side == Side::Buy
                &&& o@.ord_type == OrdType::Limit
                &&& o@.order_qty_milli == DEFAULT_ORDER_QTY_MILLI
                &&& o@.price_milli == DEFAULT_PRICE_MILLI
                &&& o@.account == "fantasy"@
                &&& o.wf()
            },
            r matches Err(e) ==> e == TranslationError::InvalidField(OrderField::ClOrdId),
    {
        let ts = fix_timestamp_now();
        proof {
            lemma_broker_orders_wf(*self, req.message@, ts@);
        }
        self.convert_to_new_order_single(req, ts.as_str())
    }
}

/// Chooses the translator for the configured broker profile; every
/// profile currently maps to the one `Broker` implementation, loaded
/// from the plugin configuration file.
pub fn plugin_for(broker_name: &BrokerName, plugin_cfg_file: &str) -> (r: Broker)
    ensures
        r.plugin_cfg_file@ == plugin_cfg_file@,
        r.broker_cfg.path@ == plugin_cfg_file@,
{
    match broker_name {
        BrokerName::Broker1 => Broker::new(plugin_cfg_file),
        BrokerName::Broker2 => Broker::new(plugin_cfg_file),
    }
}

impl Plugin for Broker {
    /// This profile accepts any valid order key, fails fast on an
    /// invalid one, and fills the remaining fields from static profile
    /// defaults.
    open spec fn translate_spec(&self, key: Seq<char>, transact_time: Seq<char>) -> Result<
        OrderModel,
        TranslationError,
    > {
        if valid_field_text(key) {
            Ok(
                OrderModel {
                    cl_ord_id: key,
                    handl_inst: HandlInst::AutomatedExecutionNoIntervention,
                    symbol: "USDJPY"@,
                    side: Side::Buy,
                    transact_time: transact_time,
                    ord_type: OrdType::Limit,
                    order_qty_milli: DEFAULT_ORDER_QTY_MILLI,
                    price_milli: DEFAULT_PRICE_MILLI,
                    account: "fantasy"@,
                },
            )
        } else {
            Err(TranslationError::InvalidField(OrderField::ClOrdId))
        }
    }

    proof fn translate_preserves_key(&self, key: Seq<char>, transact_time: Seq<char>) {
    }

    fn convert_to_new_order_single(&self, req: &RequestMessage, transact_time: &str) -> (r: Result<
        OrderSingle,
        TranslationError,
    >) {
        if !check_field_text(req.message.as_str()) {
            return Err(TranslationError::InvalidField(OrderField::ClOrdId));
        }
        Ok(
            OrderSingle {
                cl_ord_id: req.message.clone(),
                handl_inst: HandlInst::AutomatedExecutionNoIntervention,
                symbol: "USDJPY".to_owned(),
                side: Side::Buy,
                transact_time: transact_time.to_owned(),
                ord_type: OrdType::Limit,
                order_qty_milli: DEFAULT_ORDER_QTY_MILLI,
                price_milli: DEFAULT_PRICE_MILLI,
                account: "fantasy".to_owned(),
            },
        )
    }

    /// Cancel-replace is not offered by this profile.
    open spec fn cancel_replace_spec(&self, key: Seq<char>, transact_time: Seq<char>) -> Result<
        OrderModel,
        TranslationError,
    > {
        Err(TranslationError::Unsupported)
    }

    fn convert_to_order_cancel_replace_request(
        &self,
        req: &RequestMessage,
        transact_time: &str,
    ) -> (r: Result<OrderSingle, TranslationError>) {
        Err(TranslationError::Unsupported)
    }

    /// Cancel is not offered by this profile.
    open spec fn cancel_spec(&self, key: Seq<char>, transact_time: Seq<char>) -> Result<
        OrderModel,
        TranslationError,
    > {
        Err(TranslationError::Unsupported)
    }

    fn convert_to_order_cancel_request(&self, req: &RequestMessage, transact_time: &str) -> (r:
        Result<OrderSingle, TranslationError>) {
        Err(TranslationError::Unsupported)
    }
}

/// A successful translation by this profile is a fully valid order
/// whenever the supplied timestamp is a valid field value: no
/// partially constructed order can reach the session.
pub proof fn lemma_broker_orders_wf(b: Broker, key: Seq<char>, ts: Seq<char>)
    requires
        valid_field_text(ts),
    ensures
        b.translate_spec(key, ts) matches Ok(m) ==> m.wf(),
{
    reveal_strlit("USDJPY");
    reveal_strlit("fantasy");
    assert(valid_field_text("USDJPY"@));
    assert(valid_field_text("fantasy"@));
}

} // verus!
