//! The event-consumption loop: which incoming events owe a follow-up
//! remote call, and how the loop survives failed calls and stops when the
//! connection ends.

use vstd::prelude::*;
use crate::connection::Connection;
use crate::events::{Chat, Event, NextEvent};

verus! {

/// The follow-up rule: a full-user lookup is owed exactly for a new message
/// that arrived in a group and was written by a private user; its key is
/// that sender's identifier. Every other event is skipped without error.
pub open spec fn follow_up_spec(e: Event) -> Option<i64> {
    match e {
        Event::NewMessage { message } => match (message.chat, message.sender) {
            (Chat::Group { .. }, Some(Chat::PrivateUser { id })) => Some(id),
            _ => None,
        },
        _ => None,
    }
}

/// Which follow-up call, if any, one incoming event owes.
pub fn follow_up_target(event: &Event) -> (r: Option<i64>)
    ensures
        r == follow_up_spec(*event),
{
    match event {
        Event::NewMessage { message } => match (message.chat, message.sender) {
            (Chat::Group { .. }, Some(Chat::PrivateUser { id })) => Some(id),
            _ => None,
        },
        _ => None,
    }
}

/// Event-filter law: when the chat is not a group, or the sender is absent,
/// or the sender is not a private user, or the event is not a new message,
/// no follow-up call is owed.
pub proof fn lemma_filtered_event_no_follow_up(e: Event)
    requires
        !(e matches Event::NewMessage { message } && message.chat matches Chat::Group { .. }
            && message.sender matches Some(Chat::PrivateUser { .. })),
    ensures
        follow_up_spec(e) is None,
{
}

/// What the loop does with one answer of the event stream.
#[derive(Clone, Copy, PartialEq, Eq, Structural, Debug)]
pub enum DispatchStep {
    /// The stream ended: leave the loop.
    Exit,
    /// Nothing yet: suspend and ask again.
    Wait,
    /// An event of no interest: ask for the next one.
    Skip,
    /// Issue the follow-up call for this user, then ask for the next event.
    Invoke { user_id: i64 },
}

/// The loop's decision for one answer of the event stream. It depends on
/// that answer alone: in particular no recorded failure of an earlier
/// follow-up call can end the loop.
pub open spec fn decision_spec(item: NextEvent) -> DispatchStep {
    match item {
        NextEvent::Closed => DispatchStep::Exit,
        NextEvent::NotReady => DispatchStep::Wait,
        NextEvent::Delivered { event } => match follow_up_spec(event) {
            Some(id) => DispatchStep::Invoke { user_id: id },
            None => DispatchStep::Skip,
        },
    }
}

/// The follow-up owed by one answer of the stream, if any.
pub open spec fn follow_up_of(item: NextEvent) -> Option<i64> {
    match item {
        NextEvent::Delivered { event } => follow_up_spec(event),
        _ => None,
    }
}

/// Resilience law: only the closed stream exits the loop. A follow-up call
/// that failed changes no decision, so the next event is still requested.
pub proof fn lemma_exit_only_when_closed(item: NextEvent)
    ensures
        decision_spec(item) == DispatchStep::Exit <==> item is Closed,
{
}

/// Termination law: once the drive operation has ended, asking for the next
/// event yields the end-of-sequence marker and the loop exits at once.
pub proof fn lemma_disconnect_ends_loop(c: Connection)
    requires
        !c.live,
    ensures
        c.next_event_spec() == NextEvent::Closed,
        decision_spec(c.next_event_spec()) == DispatchStep::Exit,
{
}

/// The follow-up calls a sequence of events owes, in order.
pub open spec fn targets_of(events: Seq<Event>) -> Seq<i64>
    decreases events.len(),
{
    if events.len() == 0 {
        Seq::empty()
    } else {
        match follow_up_spec(events[0]) {
            Some(id) => seq![id] + targets_of(events.drop_first()),
            None => targets_of(events.drop_first()),
        }
    }
}

/// Drain every event the connection has already produced through the
/// dispatcher, in arrival order: the follow-up calls noted by the dispatcher
/// extend in exactly the order the connection produced their events. Stops
/// when the queue runs dry, or at once when the connection has ended.
pub fn drain_connection(conn: &mut Connection, d: &mut Dispatcher)
    ensures
        final(conn).live == old(conn).live,
        final(d).successes == old(d).successes,
        final(d).failures == old(d).failures,
        old(conn).live ==> final(conn).pending@ == Seq::<Event>::empty() && final(d).issued@
            == old(d).issued@ + targets_of(old(conn).pending@),
        !old(conn).live ==> final(conn).pending@ == old(conn).pending@ && final(d).issued@ == old(
            d,
        ).issued@,
{
    let ghost orig_live = conn.live;
    let ghost orig_pending = conn.pending@;
    let ghost orig_issued = d.issued@;
    proof {
        assert(orig_issued + targets_of(orig_pending) =~= d.issued@ + targets_of(conn.pending@));
    }
    loop
        invariant
            conn.live == orig_live,
            d.successes == old(d).successes,
            d.failures == old(d).failures,
            orig_issued + targets_of(orig_pending) == d.issued@ + targets_of(conn.pending@),
            !orig_live ==> conn.pending@ == orig_pending && d.issued@ == orig_issued,
        ensures
            conn.live == orig_live,
            d.successes == old(d).successes,
            d.failures == old(d).failures,
            orig_live ==> conn.pending@ == Seq::<Event>::empty() && d.issued@ == orig_issued
                + targets_of(orig_pending),
            !orig_live ==> conn.pending@ == orig_pending && d.issued@ == orig_issued,
        decreases conn.pending@.len(),
    {
        let ghost pending_before = conn.pending@;
        let ghost noted = d.issued@;
        let item = conn.next_event();
        match item {
            NextEvent::Delivered { .. } => {
                proof {
                    assert(conn.pending@ =~= pending_before.drop_first());
                }
                let step = d.examine(item);
                proof {
                    if let DispatchStep::Invoke { user_id } = step {
                        assert(noted.push(user_id) + targets_of(pending_before.drop_first())
                            =~= noted + (seq![user_id] + targets_of(pending_before.drop_first())));
                    }
                }
            },
            _ => {
                proof {
                    if conn.pending@.len() == 0 {
                        assert(conn.pending@ =~= Seq::<Event>::empty());
                        assert(targets_of(conn.pending@) =~= Seq::<i64>::empty());
                        assert(d.issued@ + targets_of(conn.pending@) =~= d.issued@);
                    }
                }
                break ;
            },
        }
    }
}

/// One scripted answer of the event stream, together with how the follow-up
/// call would come out if this answer owes one.
#[derive(Clone, Copy, PartialEq, Eq, Structural, Debug)]
pub struct ScriptItem {
    pub item: NextEvent,
    pub call_succeeds: bool,
}

/// The follow-up calls a scripted stream makes the loop issue, in order,
/// cut off at the end-of-sequence marker.
pub open spec fn script_issued(s: Seq<ScriptItem>) -> Seq<i64>
    decreases s.len(),
{
    if s.len() == 0 {
        Seq::empty()
    } else {
        match decision_spec(s[0].item) {
            DispatchStep::Exit => Seq::empty(),
            DispatchStep::Invoke { user_id } => seq![user_id] + script_issued(s.drop_first()),
            _ => script_issued(s.drop_first()),
        }
    }
}

/// How many of the issued follow-up calls succeed.
pub open spec fn script_successes(s: Seq<ScriptItem>) -> nat
    decreases s.len(),
{
    if s.len() == 0 {
        0
    } else {
        match decision_spec(s[0].item) {
            DispatchStep::Exit => 0,
            DispatchStep::Invoke { .. } => (if s[0].call_succeeds {
                1nat
            } else {
                0nat
            }) + script_successes(s.drop_first()),
            _ => script_successes(s.drop_first()),
        }
    }
}

/// How many of the issued follow-up calls fail. Each such failure is
/// recorded and the loop goes on.
pub open spec fn script_failures(s: Seq<ScriptItem>) -> nat
    decreases s.len(),
{
    if s.len() == 0 {
        0
    } else {
        match decision_spec(s[0].item) {
            DispatchStep::Exit => 0,
            DispatchStep::Invoke { .. } => (if s[0].call_succeeds {
                0nat
            } else {
                1nat
            }) + script_failures(s.drop_first()),
            _ => script_failures(s.drop_first()),
        }
    }
}

/// How many answers the loop consumes: everything before the first
/// end-of-sequence marker, and that marker itself.
pub open spec fn script_steps(s: Seq<ScriptItem>) -> nat
    decreases s.len(),
{
    if s.len() == 0 {
        0
    } else if s[0].item is Closed {
        1
    } else {
        1 + script_steps(s.drop_first())
    }
}

/// The dispatcher: decides each answer of the stream and records, as its
/// observable side effect, which follow-up calls it issued and how each
/// came out.
pub struct Dispatcher {
    /// The keys of the follow-up calls issued so far, in order.
    pub issued: Vec<i64>,
    /// How many follow-up calls succeeded.
    pub successes: usize,
    /// How many follow-up calls failed; each failure is recorded and the
    /// loop goes on.
    pub failures: usize,
}

impl Dispatcher {
    pub fn new() -> (d: Dispatcher)
        ensures
            d.issued@ == Seq::<i64>::empty(),
            d.successes == 0,
            d.failures == 0,
    {
        Dispatcher { issued: Vec::new(), successes: 0, failures: 0 }
    }

    /// Decide one answer of the event stream, noting the follow-up call if
    /// one is owed.
    pub fn examine(&mut self, item: NextEvent) -> (r: DispatchStep)
        ensures
            r == decision_spec(item),
            final(self).successes == old(self).successes,
            final(self).failures == old(self).failures,
            follow_up_of(item) matches Some(id) ==> final(self).issued@ == old(
                self,
            ).issued@.push(id),
            follow_up_of(item) is None ==> final(self).issued@ == old(self).issued@,
    {
        match item {
            NextEvent::Closed => DispatchStep::Exit,
            NextEvent::NotReady => DispatchStep::Wait,
            NextEvent::Delivered { event } => match follow_up_target(&event) {
                Some(id) => {
                    self.issued.push(id);
                    DispatchStep::Invoke { user_id: id }
                },
                None => DispatchStep::Skip,
            },
        }
    }

    /// Run the whole loop over a scripted stream: decide each answer in
    /// order, record the outcome of each owed follow-up call as the script
    /// gives it, and stop at the end-of-sequence marker. Returns the
    /// dispatcher and how many answers were consumed: a closed stream ends
    /// the loop within the very iteration that sees it.
    pub fn run_script(script: &Vec<ScriptItem>) -> (r: (Dispatcher, usize))
        ensures
            r.0.issued@ == script_issued(script@),
            r.0.successes == script_successes(script@),
            r.0.failures == script_failures(script@),
            r.1 == script_steps(script@),
    {
        let mut d = Dispatcher::new();
        let n = script.len();
        let mut i: usize = 0;
        proof {
            assert(script@.skip(0) =~= script@);
            assert(d.issued@ + script_issued(script@) =~= script_issued(script@));
        }
        while i < n
            invariant
                n == script@.len(),
                0 <= i <= n,
                d.successes <= i,
                d.failures <= i,
                script_issued(script@) == d.issued@ + script_issued(script@.skip(i as int)),
                script_successes(script@) == d.successes + script_successes(
                    script@.skip(i as int),
                ),
                script_failures(script@) == d.failures + script_failures(script@.skip(i as int)),
                script_steps(script@) == i + script_steps(script@.skip(i as int)),
            decreases n - i,
        {
            let entry = script[i];
            proof {
                assert(script@.skip(i as int)[0] == script@[i as int]);
                assert(script@.skip(i as int).drop_first() =~= script@.skip(i as int + 1));
            }
            let ghost noted = d.issued@;
            let step = d.examine(entry.item);
            match step {
                DispatchStep::Exit => {
                    return (d, i + 1);
                },
                DispatchStep::Invoke { user_id } => {
                    d.record_outcome(entry.call_succeeds);
                    proof {
                        assert(noted.push(user_id) + script_issued(script@.skip(i as int + 1))
                            =~= noted + (seq![user_id] + script_issued(
                            script@.skip(i as int + 1),
                        )));
                    }
                },
                _ => {
                },
            }
            i = i + 1;
        }
        proof {
            assert(script@.skip(n as int) =~= Seq::<ScriptItem>::empty());
        }
        (d, i)
    }

    /// Record how an issued follow-up call came out. A failure is only
    /// counted; it never reaches the loop's decisions.
    pub fn record_outcome(&mut self, success: bool)
        requires
            old(self).successes < usize::MAX,
            old(self).failures < usize::MAX,
        ensures
            final(self).issued@ == old(self).issued@,
            final(self).successes == old(self).successes + if success {
                1int
            } else {
                0int
            },
            final(self).failures == old(self).failures + if success {
                0int
            } else {
                1int
            },
    {
        if success {
            self.successes = self.successes + 1;
        } else {
            self.failures = self.failures + 1;
        }
    }
}

} // verus!
