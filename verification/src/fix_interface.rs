use vstd::prelude::*;

use crate::gw_plugin::OrderSingle;
use crate::gw_plugin::Plugin;
use crate::gw_plugin::RequestMessage;
use crate::gw_plugin::TranslationError;

verus! {

/// Session lifecycle notifications delivered by the engine's
/// callbacks.
#[derive(Debug, PartialEq, Eq, Structural)]
pub enum QuickFixState {
    Create,
    Logon,
    Logout,
}

/// Connection monitor: tracks the session's logical state from engine
/// callbacks. Two states only — down (the initial state) and up —
/// with no intermediate ones; the flag is polled, never waited on.
pub struct ConnectionMonitor {
    pub connected: bool,
}

impl ConnectionMonitor {
    pub fn new() -> (r: ConnectionMonitor)
        ensures
            !r.connected,
    {
        ConnectionMonitor { connected: false }
    }

    /// Session-logon callback: down goes to up.
    pub fn on_logon(&mut self)
        ensures
            final(self).connected,
    {
        self.connected = true;
    }

    /// Session-logout callback: up goes to down.
    pub fn on_logout(&mut self)
        ensures
            !final(self).connected,
    {
        self.connected = false;
    }

    /// Applies one engine notification: logon raises the flag, logout
    /// lowers it, session creation leaves it untouched.
    pub fn on_event(&mut self, ev: &QuickFixState)
        ensures
            final(self).connected == match ev {
                QuickFixState::Logon => true,
                QuickFixState::Logout => false,
                QuickFixState::Create => old(self).connected,
            },
    {
        match ev {
            QuickFixState::Logon => self.connected = true,
            QuickFixState::Logout => self.connected = false,
            QuickFixState::Create => {},
        }
    }

    pub fn is_connected(&self) -> (b: bool)
        ensures
            b == self.connected,
    {
        self.connected
    }
}

/// A queued unit of work for the forwarding pipeline: either an order
/// request to translate and send, or an out-of-band error notice to
/// report.
#[derive(Debug)]
pub enum ForwardRequest {
    RequestMessage(RequestMessage),
    ErrorMessage(String),
}

/// What the pipeline decided for one poll: the surrounding (unverified)
/// loop performs the action and hands control back.
#[derive(Debug)]
pub enum PipelineAction {
    /// Queue empty or connection down: sleep briefly and poll again.
    Wait,
    /// Hand this translated order to the live session.
    SendOrder(OrderSingle),
    /// Report an out-of-band error notice; no session side effect.
    ReportNotice(String),
    /// Report the failed translation; only the single offending
    /// request is dropped.
    ReportTranslationError(TranslationError),
}

/// A drained item's outcome, abstracted to order models and character
/// sequences.
pub enum ActionModel {
    Wait,
    SendOrder(crate::gw_plugin::OrderModel),
    ReportNotice(Seq<char>),
    ReportTranslationError(TranslationError),
}

/// The abstraction of one pipeline action.
pub open spec fn action_model(a: PipelineAction) -> ActionModel {
    match a {
        PipelineAction::Wait => ActionModel::Wait,
        PipelineAction::SendOrder(o) => ActionModel::SendOrder(o@),
        PipelineAction::ReportNotice(n) => ActionModel::ReportNotice(n@),
        PipelineAction::ReportTranslationError(e) => ActionModel::ReportTranslationError(e),
    }
}

/// The exact outcome, item by item and in arrival order, of draining
/// `q` under translator `p` and timestamp `ts`: an emitted order for
/// each request that translates, a reported failure for each that does
/// not, and a reported notice for each out-of-band error message.
pub open spec fn drain_actions_of<P: Plugin>(p: P, q: Seq<ForwardRequest>, ts: Seq<char>) -> Seq<
    ActionModel,
>
    decreases q.len(),
{
    if q.len() == 0 {
        Seq::empty()
    } else {
        let head = match q[0] {
            ForwardRequest::RequestMessage(rm) => match p.translate_spec(rm.message@, ts) {
                Ok(m) => ActionModel::SendOrder(m),
                Err(e) => ActionModel::ReportTranslationError(e),
            },
            ForwardRequest::ErrorMessage(msg) => ActionModel::ReportNotice(msg@),
        };
        seq![head] + drain_actions_of(p, q.drop_first(), ts)
    }
}

/// The client keys of the orders the pipeline hands to the session
/// when it drains `q` in arrival order under translator `p` and
/// timestamp `ts`: one key per order request whose translation
/// succeeds, in queue order; error notices and failed translations
/// contribute nothing.
pub open spec fn sent_keys_of<P: Plugin>(p: P, q: Seq<ForwardRequest>, ts: Seq<char>) -> Seq<
    Seq<char>,
>
    decreases q.len(),
{
    if q.len() == 0 {
        Seq::empty()
    } else {
        let head = match q[0] {
            ForwardRequest::RequestMessage(rm) => {
                if p.translate_spec(rm.message@, ts) is Ok {
                    seq![rm.message@]
                } else {
                    Seq::<Seq<char>>::empty()
                }
            },
            ForwardRequest::ErrorMessage(_) => Seq::<Seq<char>>::empty(),
        };
        head + sent_keys_of(p, q.drop_first(), ts)
    }
}

/// Forwarding pipeline: the single consumer of the forward-request
/// queue. Producers append without blocking; the pipeline drains one
/// item per step, in strict arrival order, gated on the connection
/// state. `sent` records the client keys of the orders handed to the
/// session, oldest first.
pub struct Pipeline {
    pub queue: Vec<ForwardRequest>,
    pub sent: Vec<String>,
}

impl Pipeline {
    /// The keys handed to the session so far, oldest first.
    pub open spec fn sent_view(&self) -> Seq<Seq<char>> {
        self.sent@.map(|i: int, s: String| s@)
    }

    /// How one drain step transforms the pipeline and which action it
    /// yields: with the connection down or nothing queued it waits and
    /// changes nothing; otherwise it dequeues exactly the front item
    /// and either reports a notice, reports a failed translation, or
    /// records and emits the translated order.
    pub open spec fn step_post<P: Plugin>(
        pre: Pipeline,
        post: Pipeline,
        action: PipelineAction,
        p: P,
        connected: bool,
        ts: Seq<char>,
    ) -> bool {
        if !connected || pre.queue@.len() == 0 {
            &&& post.queue@ == pre.queue@
            &&& post.sent@ == pre.sent@
            &&& action is Wait
        } else {
            &&& post.queue@ == pre.queue@.drop_first()
            &&& match pre.queue@[0] {
                ForwardRequest::RequestMessage(rm) => match p.translate_spec(rm.message@, ts) {
                    Ok(m) => {
                        &&& action matches PipelineAction::SendOrder(o) && o@ == m
                        &&& post.sent_view() == pre.sent_view().push(rm.message@)
                    },
                    Err(e) => {
                        &&& action matches PipelineAction::ReportTranslationError(te) && te == e
                        &&& post.sent@ == pre.sent@
                    },
                },
                ForwardRequest::ErrorMessage(msg) => {
                    &&& action matches PipelineAction::ReportNotice(n) && n@ == msg@
                    &&& post.sent@ == pre.sent@
                },
            }
        }
    }

    pub fn new() -> (r: Pipeline)
        ensures
            r.queue@.len() == 0,
            r.sent_view() == Seq::<Seq<char>>::empty(),
    {
        let r = Pipeline { queue: Vec::new(), sent: Vec::new() };
        proof {
            assert(r.sent_view() =~= Seq::<Seq<char>>::empty());
        }
        r
    }

    /// Producers never block and are never refused: enqueue appends,
    /// whatever the connection state.
    pub fn enqueue(&mut self, r: ForwardRequest)
        ensures
            final(self).queue@ == old(self).queue@.push(r),
            final(self).sent@ == old(self).sent@,
    {
        self.queue.push(r);
    }

    /// One iteration of the drain loop, with `connected` the monitor's
    /// current reading and `transact_time` a freshly generated
    /// timestamp for the order, if one is built.
    pub fn step<P: Plugin>(&mut self, plugin: &P, connected: bool, transact_time: &str) -> (action:
        PipelineAction)
        ensures
            Self::step_post(*old(self), *final(self), action, *plugin, connected, transact_time@),
    {
        if !connected || self.queue.len() == 0 {
            return PipelineAction::Wait;
        }
        let req = self.queue.remove(0);
        proof {
            assert(self.queue@ =~= old(self).queue@.drop_first());
        }
        match req {
            ForwardRequest::RequestMessage(rm) => {
                match plugin.convert_to_new_order_single(&rm, transact_time) {
                    Ok(o) => {
                        self.sent.push(rm.message);
                        proof {
                            assert(self.sent_view() =~= old(self).sent_view().push(
                                old(self).queue@[0]->RequestMessage_0.message@,
                            ));
                        }
                        PipelineAction::SendOrder(o)
                    },
                    Err(e) => PipelineAction::ReportTranslationError(e),
                }
            },
            ForwardRequest::ErrorMessage(msg) => PipelineAction::ReportNotice(msg),
        }
    }

    /// Drains every currently queued request, one step per item, in
    /// strict arrival order, and returns the actions in that order.
    /// With the connection down nothing is drained: the queue is left
    /// whole and nothing is handed to the session.
    pub fn drain<P: Plugin>(&mut self, plugin: &P, connected: bool, transact_time: &str) -> (actions:
        Vec<PipelineAction>)
        ensures
            !connected ==> {
                &&& final(self).queue@ == old(self).queue@
                &&& final(self).sent@ == old(self).sent@
                &&& actions@.len() == 0
            },
            connected ==> {
                &&& final(self).queue@.len() == 0
                &&& final(self).sent_view() == old(self).sent_view() + sent_keys_of(
                    *plugin,
                    old(self).queue@,
                    transact_time@,
                )
                &&& actions@.len() == old(self).queue@.len()
                &&& actions@.map(|i: int, a: PipelineAction| action_model(a)) == drain_actions_of(
                    *plugin,
                    old(self).queue@,
                    transact_time@,
                )
            },
    {
        let mut actions: Vec<PipelineAction> = Vec::new();
        if !connected {
            return actions;
        }
        let ghost orig = *self;
        let ghost abstraction = |i: int, a: PipelineAction| action_model(a);
        while self.queue.len() > 0
            invariant
                orig.sent_view() + sent_keys_of(*plugin, orig.queue@, transact_time@)
                    =~= self.sent_view() + sent_keys_of(*plugin, self.queue@, transact_time@),
                actions@.len() + self.queue@.len() == orig.queue@.len(),
                abstraction == (|i: int, a: PipelineAction| action_model(a)),
                actions@.map(abstraction) + drain_actions_of(*plugin, self.queue@, transact_time@)
                    =~= drain_actions_of(*plugin, orig.queue@, transact_time@),
            decreases self.queue@.len(),
        {
            let ghost pre = *self;
            let ghost done = actions@;
            let action = self.step(plugin, true, transact_time);
            proof {
                assert(sent_keys_of(*plugin, pre.queue@, transact_time@) == (match pre.queue@[0] {
                    ForwardRequest::RequestMessage(rm) => {
                        if (*plugin).translate_spec(rm.message@, transact_time@) is Ok {
                            seq![rm.message@]
                        } else {
                            Seq::<Seq<char>>::empty()
                        }
                    },
                    ForwardRequest::ErrorMessage(_) => Seq::<Seq<char>>::empty(),
                }) + sent_keys_of(*plugin, pre.queue@.drop_first(), transact_time@));
                assert(orig.sent_view() + sent_keys_of(*plugin, orig.queue@, transact_time@)
                    =~= self.sent_view() + sent_keys_of(*plugin, self.queue@, transact_time@));
            }
            actions.push(action);
            proof {
                assert(drain_actions_of(*plugin, pre.queue@, transact_time@) == seq![
                    action_model(action),
                ] + drain_actions_of(*plugin, pre.queue@.drop_first(), transact_time@));
                assert(actions@.map(abstraction) =~= done.map(abstraction).push(
                    action_model(action),
                ));
                assert(actions@.map(abstraction) + drain_actions_of(
                    *plugin,
                    self.queue@,
                    transact_time@,
                ) =~= drain_actions_of(*plugin, orig.queue@, transact_time@));
            }
        }
        proof {
            assert(sent_keys_of(*plugin, self.queue@, transact_time@)
                =~= Seq::<Seq<char>>::empty());
            assert(final(self).sent_view() =~= orig.sent_view() + sent_keys_of(
                *plugin,
                orig.queue@,
                transact_time@,
            ));
            assert(drain_actions_of(*plugin, self.queue@, transact_time@) =~= Seq::<
                ActionModel,
            >::empty());
            assert(actions@.map(abstraction) =~= drain_actions_of(
                *plugin,
                orig.queue@,
                transact_time@,
            ));
            assert(actions@.map(|i: int, a: PipelineAction| action_model(a)) =~= actions@.map(
                abstraction,
            ));
        }
        actions
    }
}

/// The key carried by each queued item, in queue order.
pub open spec fn queued_keys(q: Seq<ForwardRequest>) -> Seq<Seq<char>> {
    q.map(
        |i: int, r: ForwardRequest|
            match r {
                ForwardRequest::RequestMessage(rm) => rm.message@,
                ForwardRequest::ErrorMessage(e) => e@,
            },
    )
}

/// FIFO forwarding: when every queued item is an order request whose
/// translation succeeds, draining hands the session exactly the queued
/// keys, in arrival order, with no reordering, loss or duplication.
pub proof fn lemma_fifo_forwarding<P: Plugin>(p: P, q: Seq<ForwardRequest>, ts: Seq<char>)
    requires
        forall|i: int|
            0 <= i < q.len() ==> ((#[trigger] q[i]) matches ForwardRequest::RequestMessage(rm)
                && p.translate_spec(rm.message@, ts) is Ok),
    ensures
        sent_keys_of(p, q, ts) == queued_keys(q),
    decreases q.len(),
{
    if q.len() == 0 {
        assert(sent_keys_of(p, q, ts) =~= queued_keys(q));
    } else {
        assert(q[0] matches ForwardRequest::RequestMessage(rm) && p.translate_spec(rm.message@, ts)
            is Ok);
        assert forall|i: int|
            0 <= i < q.drop_first().len() implies ((#[trigger] q.drop_first()[i]) matches
            ForwardRequest::RequestMessage(rm) && p.translate_spec(rm.message@, ts) is Ok) by {
            assert(q.drop_first()[i] == q[i + 1]);
        }
        lemma_fifo_forwarding(p, q.drop_first(), ts);
        assert(sent_keys_of(p, q, ts) =~= queued_keys(q));
    }
}

/// Drained batches compose: a queue made of two batches sends the
/// first batch's keys followed by the second's.
pub proof fn lemma_sent_keys_concat<P: Plugin>(
    p: P,
    q1: Seq<ForwardRequest>,
    q2: Seq<ForwardRequest>,
    ts: Seq<char>,
)
    ensures
        sent_keys_of(p, q1 + q2, ts) == sent_keys_of(p, q1, ts) + sent_keys_of(p, q2, ts),
    decreases q1.len(),
{
    if q1.len() == 0 {
        assert(q1 + q2 =~= q2);
        assert(sent_keys_of(p, q1, ts) + sent_keys_of(p, q2, ts) =~= sent_keys_of(p, q2, ts));
    } else {
        lemma_sent_keys_concat(p, q1.drop_first(), q2, ts);
        assert((q1 + q2).drop_first() =~= q1.drop_first() + q2);
        assert((q1 + q2)[0] == q1[0]);
        assert(sent_keys_of(p, q1 + q2, ts) =~= sent_keys_of(p, q1, ts) + sent_keys_of(
            p,
            q2,
            ts,
        ));
    }
}

/// Isolation of failures: one request whose translation fails
/// contributes nothing and changes nothing for the requests before or
/// after it — they are sent exactly as they would be without it.
pub proof fn lemma_failure_isolation<P: Plugin>(
    p: P,
    before: Seq<ForwardRequest>,
    bad: RequestMessage,
    after: Seq<ForwardRequest>,
    ts: Seq<char>,
)
    requires
        p.translate_spec(bad.message@, ts) is Err,
    ensures
        sent_keys_of(p, before + seq![ForwardRequest::RequestMessage(bad)] + after, ts)
            == sent_keys_of(p, before, ts) + sent_keys_of(p, after, ts),
{
    let mid = seq![ForwardRequest::RequestMessage(bad)] + after;
    assert(before + seq![ForwardRequest::RequestMessage(bad)] + after =~= before + mid);
    lemma_sent_keys_concat(p, before, mid, ts);
    assert(mid.drop_first() =~= after);
    assert(sent_keys_of(p, mid, ts) =~= sent_keys_of(p, after, ts));
}

/// Gated delivery: while the connection is down, a drain step can only
/// wait — the queue is kept whole and nothing is handed to the
/// session, so requests queued while down are neither lost nor sent
/// before the state turns up.
pub proof fn lemma_gated_delivery<P: Plugin>(
    pre: Pipeline,
    post: Pipeline,
    action: PipelineAction,
    p: P,
    ts: Seq<char>,
)
    requires
        Pipeline::step_post(pre, post, action, p, false, ts),
    ensures
        post.queue@ == pre.queue@,
        post.sent@ == pre.sent@,
        action is Wait,
{
}

} // verus!
