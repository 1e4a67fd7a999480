use vstd::prelude::*;
use vstd::string::StringExecFns;

use crate::fix_interface::ForwardRequest;
use crate::fix_interface::Pipeline;
use crate::order_manager::OrderManager;
use crate::shared_data::SharedData;
use crate::gw_plugin::RequestMessage;

verus! {

/// The outcome of a unary submission, surfaced to the RPC caller:
/// a duplicate is a normal rejection, not an error.
#[derive(Debug, Clone, Copy, PartialEq, Eq, Structural)]
pub enum SubmitDecision {
    Accepted,
    Duplicate,
}

/// The unary-submit decision: consults the duplicate guard on the
/// request's key; a duplicate is rejected without touching the queue,
/// anything else is recorded in the guard and enqueued for the
/// forwarding pipeline. Acceptance is decoupled from delivery: the
/// caller gets the decision immediately, the pipeline sends later.
pub fn handle_submit(guard: &mut OrderManager, pipeline: &mut Pipeline, req: RequestMessage) -> (d:
    SubmitDecision)
    ensures
        d == (if old(guard)@.contains(req.message@) {
            SubmitDecision::Duplicate
        } else {
            SubmitDecision::Accepted
        }),
        final(guard)@ == old(guard)@.insert(req.message@),
        d == SubmitDecision::Duplicate ==> {
            &&& final(pipeline).queue@ == old(pipeline).queue@
            &&& final(pipeline).sent@ == old(pipeline).sent@
        },
        d == SubmitDecision::Accepted ==> {
            &&& final(pipeline).queue@ == old(pipeline).queue@.push(
                ForwardRequest::RequestMessage(req),
            )
            &&& final(pipeline).sent@ == old(pipeline).sent@
        },
{
    let duplicate = guard.check_and_insert(req.message.as_str());
    if duplicate {
        SubmitDecision::Duplicate
    } else {
        pipeline.enqueue(ForwardRequest::RequestMessage(req));
        SubmitDecision::Accepted
    }
}

/// The streaming reader's cursor step: after delivering `entries` (the
/// result of a cache read at `cursor`), the cursor moves to one past
/// the last delivered sequence number; with nothing delivered it
/// stays. The bound on the last counter is a machine limit.
pub fn advance_cursor(entries: &Vec<SharedData>, cursor: u64) -> (c: u64)
    requires
        entries@.len() > 0 ==> entries@.last().counter < u64::MAX,
    ensures
        entries@.len() == 0 ==> c == cursor,
        entries@.len() > 0 ==> c == entries@.last().counter + 1,
{
    if entries.len() == 0 {
        cursor
    } else {
        entries[entries.len() - 1].counter + 1
    }
}

/// The response text surfaced to the unary caller for each decision.
pub fn submit_response(d: &SubmitDecision) -> (r: String)
    ensures
        *d == SubmitDecision::Duplicate ==> r@ == "Duplicate order number"@,
        *d == SubmitDecision::Accepted ==> r@ == "Hello from Unary: hello"@,
{
    match d {
        SubmitDecision::Duplicate => "Duplicate order number".to_owned(),
        SubmitDecision::Accepted => "Hello from Unary: hello".to_owned(),
    }
}

/// The bidirectional stream's acknowledgment for one inbound item.
pub fn echo_response(msg: &str) -> (r: String)
    ensures
        r@ == "Echo: "@ + msg@,
{
    "Echo: ".to_owned().concat(msg)
}

} // verus!
