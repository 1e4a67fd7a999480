use vstd::prelude::*;
use vstd::string::StrSliceExecFns;

verus! {

/// A single inbound order-submission request: the client-supplied
/// payload, which also serves as the order key for duplicate
/// detection and as the client order id of the translated order.
#[derive(Debug)]
pub struct RequestMessage {
    pub message: String,
}

/// Order side.
#[derive(Debug, Clone, Copy, PartialEq, Eq, Structural)]
pub enum Side {
    Buy,
    Sell,
}

/// Order type.
#[derive(Debug, Clone, Copy, PartialEq, Eq, Structural)]
pub enum OrdType {
    Limit,
    Market,
}

/// Handling instructions.
#[derive(Debug, Clone, Copy, PartialEq, Eq, Structural)]
pub enum HandlInst {
    AutomatedExecutionNoIntervention,
    AutomatedExecutionIntervention,
    ManualOrder,
}

/// The order fields a translator derives; used to identify the
/// offending field when a translation fails.
#[derive(Debug, Clone, Copy, PartialEq, Eq, Structural)]
pub enum OrderField {
    ClOrdId,
    HandlInst,
    Symbol,
    Side,
    TransactTime,
    OrdType,
    OrderQty,
    Price,
    Account,
}

/// Translation failure: either a derived field failed validation
/// (named, so the caller can report it), or the profile does not
/// support the requested conversion.
#[derive(Debug, Clone, Copy, PartialEq, Eq, Structural)]
pub enum TranslationError {
    InvalidField(OrderField),
    Unsupported,
}

/// A protocol order ready for submission on a session, holding its
/// fields as plain values. Quantities and prices are fixed-point
/// values in thousandths (milli-units).
#[derive(Debug)]
pub struct OrderSingle {
    pub cl_ord_id: String,
    pub handl_inst: HandlInst,
    pub symbol: String,
    pub side: Side,
    pub transact_time: String,
    pub ord_type: OrdType,
    pub order_qty_milli: u64,
    pub price_milli: u64,
    pub account: String,
}

/// Mathematical model of an order: the same fields with text as
/// character sequences.
#[verifier::ext_equal]
pub struct OrderModel {
    pub cl_ord_id: Seq<char>,
    pub handl_inst: HandlInst,
    pub symbol: Seq<char>,
    pub side: Side,
    pub transact_time: Seq<char>,
    pub ord_type: OrdType,
    pub order_qty_milli: u64,
    pub price_milli: u64,
    pub account: Seq<char>,
}

impl View for OrderSingle {
    type V = OrderModel;

    open spec fn view(&self) -> OrderModel {
        OrderModel {
            cl_ord_id: self.cl_ord_id@,
            handl_inst: self.handl_inst,
            symbol: self.symbol@,
            side: self.side,
            transact_time: self.transact_time@,
            ord_type: self.ord_type,
            order_qty_milli: self.order_qty_milli,
            price_milli: self.price_milli,
            account: self.account@,
        }
    }
}

/// A text value is usable as a protocol field value when it is
/// non-empty and free of the field delimiter (SOH).
pub open spec fn valid_field_text(s: Seq<char>) -> bool {
    s.len() > 0 && forall|i: int| 0 <= i < s.len() ==> s[i] != '\x01'
}

impl OrderModel {
    /// Every text field is a valid protocol field value and the
    /// numeric fields are positive: nothing partially constructed may
    /// reach the session.
    pub open spec fn wf(&self) -> bool {
        &&& valid_field_text(self.cl_ord_id)
        &&& valid_field_text(self.symbol)
        &&& valid_field_text(self.transact_time)
        &&& valid_field_text(self.account)
        &&& self.order_qty_milli > 0
        &&& self.price_milli > 0
    }
}

impl OrderSingle {
    pub open spec fn wf(&self) -> bool {
        self@.wf()
    }
}

/// Checks at run time that `s` is a valid protocol field value.
pub fn check_field_text(s: &str) -> (b: bool)
    ensures
        b == valid_field_text(s@),
{
    let n = s.unicode_len();
    if n == 0 {
        return false;
    }
    let mut i: usize = 0;
    while i < n
        invariant
            n == s@.len(),
            i <= n,
            forall|j: int| 0 <= j < i ==> s@[j] != '\x01',
        decreases n - i,
    {
        if s.get_char(i) == '\x01' {
            return false;
        }
        i = i + 1;
    }
    true
}

/// The translated order, abstracted to its model, or the error.
pub open spec fn result_model(r: Result<OrderSingle, TranslationError>) -> Result<
    OrderModel,
    TranslationError,
> {
    match r {
        Ok(o) => Ok(o@),
        Err(e) => Err(e),
    }
}

/// A counterparty-specific request-to-order mapping. One
/// implementation exists per broker profile; the forwarding pipeline
/// is written against this interface alone, so new profiles never
/// touch it.
///
/// Each executable conversion is pinned to the profile's own
/// specification function of the request key and the supplied
/// transaction timestamp; it is otherwise a pure function with no
/// shared mutable state.
pub trait Plugin: Sized {
    /// The profile's mapping from request key and timestamp to order
    /// model, or to the translation error it rejects the request with.
    spec fn translate_spec(&self, key: Seq<char>, transact_time: Seq<char>) -> Result<
        OrderModel,
        TranslationError,
    >;

    /// Every profile carries the client's request key through as the
    /// client order id of a successfully translated order.
    proof fn translate_preserves_key(&self, key: Seq<char>, transact_time: Seq<char>)
        ensures
            self.translate_spec(key, transact_time) matches Ok(m) ==> m.cl_ord_id == key,
    ;

    fn convert_to_new_order_single(&self, req: &RequestMessage, transact_time: &str) -> (r: Result<
        OrderSingle,
        TranslationError,
    >)
        ensures
            result_model(r) == self.translate_spec(req.message@, transact_time@),
    ;

    /// The profile's cancel-replace mapping.
    spec fn cancel_replace_spec(&self, key: Seq<char>, transact_time: Seq<char>) -> Result<
        OrderModel,
        TranslationError,
    >;

    fn convert_to_order_cancel_replace_request(
        &self,
        req: &RequestMessage,
        transact_time: &str,
    ) -> (r: Result<OrderSingle, TranslationError>)
        ensures
            result_model(r) == self.cancel_replace_spec(req.message@, transact_time@),
    ;

    /// The profile's cancel mapping.
    spec fn cancel_spec(&self, key: Seq<char>, transact_time: Seq<char>) -> Result<
        OrderModel,
        TranslationError,
    >;

    fn convert_to_order_cancel_request(&self, req: &RequestMessage, transact_time: &str) -> (r:
        Result<OrderSingle, TranslationError>)
        ensures
            result_model(r) == self.cancel_spec(req.message@, transact_time@),
    ;
}

} // verus!
