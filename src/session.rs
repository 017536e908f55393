use vstd::prelude::*;
use vstd::utf8::{decode_utf8, valid_utf8};
use crate::endpoint::{endpoint_text, parse_endpoint, uri_accepts};
use crate::text::{append_chunk, decode_body};

verus! {

/// Where a networked session stands.
#[derive(Debug, Clone, Copy, PartialEq, Eq, Structural)]
pub enum Phase {
    Idle,
    NotifyingStart,
    FetchingBody,
    DeliveringResult,
    Done,
    Failed,
}

/// Why a session failed.
#[derive(Debug, Clone, Copy, PartialEq, Eq, Structural)]
pub enum Fault {
    /// A text could not be given the managed runtime's string form.
    Encoding,
    /// The callback object lacks the method with the expected signature.
    Lookup,
    /// The request failed in connection or transport.
    Network,
    /// The response body is not well-formed UTF-8.
    Decode,
    /// The fetched address was refused by the URI parser.
    Address,
}

/// What the host reports to a session.
#[derive(Debug)]
pub enum Event {
    /// The entry point was called.
    Start,
    /// The last method invoked on the callback object has returned.
    Returned,
    /// A chunk of the response body arrived.
    Chunk(Vec<u8>),
    /// The response body is complete.
    BodyEnd,
    /// The host failed at the work it was asked to do.
    Failure(Fault),
}

/// What a session asks the host to do next.
#[derive(Debug)]
pub enum Action {
    /// Invoke `hello()` on the callback object.
    Notify,
    /// Fetch the body at this address.
    Fetch(hyper::Uri),
    /// Invoke `appendToTextView` on the callback object with this text.
    Deliver(String),
    /// Nothing to do until the next event.
    Await,
    /// The session is over; return to the caller.
    Finish,
    /// The session failed for this reason; return to the caller.
    Report(Fault),
    /// The event was not expected in this phase and changed nothing.
    Ignore,
}

pub enum EventView {
    Start,
    Returned,
    Chunk(Seq<u8>),
    BodyEnd,
    Failure(Fault),
}

pub enum ActionView {
    Notify,
    Fetch,
    Deliver(Seq<char>),
    Await,
    Finish,
    Report(Fault),
    Ignore,
}

pub struct SessionView {
    pub phase: Phase,
    /// The body bytes received so far.
    pub body: Seq<u8>,
}

impl View for Event {
    type V = EventView;

    open spec fn view(&self) -> EventView {
        match self {
            Event::Start => EventView::Start,
            Event::Returned => EventView::Returned,
            Event::Chunk(c) => EventView::Chunk(c@),
            Event::BodyEnd => EventView::BodyEnd,
            Event::Failure(f) => EventView::Failure(*f),
        }
    }
}

impl View for Action {
    type V = ActionView;

    open spec fn view(&self) -> ActionView {
        match self {
            Action::Notify => ActionView::Notify,
            Action::Fetch(_) => ActionView::Fetch,
            Action::Deliver(t) => ActionView::Deliver(t@),
            Action::Await => ActionView::Await,
            Action::Finish => ActionView::Finish,
            Action::Report(f) => ActionView::Report(*f),
            Action::Ignore => ActionView::Ignore,
        }
    }
}

/// A phase from which the session can still move on.
pub open spec fn live(p: Phase) -> bool {
    p != Phase::Done && p != Phase::Failed
}

pub open spec fn at(p: Phase) -> SessionView {
    SessionView { phase: p, body: Seq::empty() }
}

/// The state of every session when its entry point is called.
pub open spec fn initial() -> SessionView {
    at(Phase::Idle)
}

/// The next state and the action that an event leads to.
pub open spec fn step(s: SessionView, e: EventView) -> (SessionView, ActionView) {
    match e {
        EventView::Failure(f) => if live(s.phase) {
            (at(Phase::Failed), ActionView::Report(f))
        } else {
            (s, ActionView::Ignore)
        },
        EventView::Start => if s.phase == Phase::Idle {
            (at(Phase::NotifyingStart), ActionView::Notify)
        } else {
            (s, ActionView::Ignore)
        },
        EventView::Returned => if s.phase == Phase::NotifyingStart {
            if uri_accepts(endpoint_text()) {
                (at(Phase::FetchingBody), ActionView::Fetch)
            } else {
                (at(Phase::Failed), ActionView::Report(Fault::Address))
            }
        } else if s.phase == Phase::DeliveringResult {
            (at(Phase::Done), ActionView::Finish)
        } else {
            (s, ActionView::Ignore)
        },
        EventView::Chunk(c) => if s.phase == Phase::FetchingBody {
            (SessionView { phase: Phase::FetchingBody, body: s.body + c }, ActionView::Await)
        } else {
            (s, ActionView::Ignore)
        },
        EventView::BodyEnd => if s.phase == Phase::FetchingBody {
            if valid_utf8(s.body) {
                (at(Phase::DeliveringResult), ActionView::Deliver(decode_utf8(s.body)))
            } else {
                (at(Phase::Failed), ActionView::Report(Fault::Decode))
            }
        } else {
            (s, ActionView::Ignore)
        },
    }
}

/// The actions that make the host do work: a method call or the fetch.
pub open spec fn effectful(a: ActionView) -> bool {
    a is Notify || a is Fetch || a is Deliver
}

/// The place of an effectful action in the one order a session allows.
pub open spec fn rank(a: ActionView) -> int {
    match a {
        ActionView::Notify => 0,
        ActionView::Fetch => 1,
        ActionView::Deliver(_) => 2,
        _ => 3,
    }
}

/// How many effectful actions a session in a phase other than `Failed` has asked for.
pub open spec fn progress(p: Phase) -> int {
    match p {
        Phase::Idle => 0,
        Phase::NotifyingStart => 1,
        Phase::FetchingBody => 2,
        _ => 3,
    }
}

/// The state of a new session after the events, in order.
pub open spec fn run(events: Seq<EventView>) -> SessionView
    decreases events.len(),
{
    if events.len() == 0 {
        initial()
    } else {
        step(run(events.drop_last()), events.last()).0
    }
}

/// Every action that a new session takes, in order, given the events.
pub open spec fn actions(events: Seq<EventView>) -> Seq<ActionView>
    decreases events.len(),
{
    if events.len() == 0 {
        Seq::empty()
    } else {
        actions(events.drop_last()).push(step(run(events.drop_last()), events.last()).1)
    }
}

/// The views of events, in order.
pub open spec fn event_views(events: Seq<Event>) -> Seq<EventView> {
    events.map_values(|e: Event| e@)
}

/// The views of actions, in order.
pub open spec fn action_views(actions: Seq<Action>) -> Seq<ActionView> {
    actions.map_values(|a: Action| a@)
}

/// The effectful actions that a new session asks for, in order, given the events.
pub open spec fn effects(events: Seq<EventView>) -> Seq<ActionView>
    decreases events.len(),
{
    if events.len() == 0 {
        Seq::empty()
    } else {
        let a = step(run(events.drop_last()), events.last()).1;
        if effectful(a) {
            effects(events.drop_last()).push(a)
        } else {
            effects(events.drop_last())
        }
    }
}

/// Whatever the events and their order, a session asks for at most one
/// `hello()` call, then at most one fetch, then at most one delivery, in that
/// order; a session that has not failed has asked for exactly those its phase
/// has passed, so a finished one has asked for all three.
pub proof fn lemma_effects_in_order(events: Seq<EventView>)
    ensures
        effects(events).len() <= 3,
        forall|i: int| 0 <= i < effects(events).len() ==> rank(#[trigger] effects(events)[i]) == i,
        run(events).phase != Phase::Failed ==> effects(events).len() == progress(run(events).phase),
    decreases events.len(),
{
    if events.len() > 0 {
        let prefix = events.drop_last();
        lemma_effects_in_order(prefix);
        let a = step(run(prefix), events.last()).1;
        if effectful(a) {
            assert(effects(events) == effects(prefix).push(a));
            assert(run(prefix).phase != Phase::Failed);
            assert(rank(a) == progress(run(prefix).phase));
        }
    }
}

/// A fault that the host reports while a session is live ends it with a
/// report of that fault, and a failed session ignores every later event.
pub proof fn lemma_fault_is_final(s: SessionView, f: Fault, e: EventView)
    ensures
        live(s.phase) ==> step(s, EventView::Failure(f)) == (at(Phase::Failed), ActionView::Report(f)),
        s.phase == Phase::Failed ==> step(s, e) == (s, ActionView::Ignore),
{
}

/// A failed session asks for no more work, whatever events follow.
pub proof fn lemma_no_work_after_failure(events: Seq<EventView>, more: Seq<EventView>)
    requires
        run(events).phase == Phase::Failed,
    ensures
        run(events + more).phase == Phase::Failed,
        effects(events + more) == effects(events),
    decreases more.len(),
{
    if more.len() == 0 {
        assert(events + more =~= events);
    } else {
        let shorter = more.drop_last();
        lemma_no_work_after_failure(events, shorter);
        assert((events + more).drop_last() =~= events + shorter);
        assert((events + more).last() == more.last());
    }
}

/// Every call of the entry point starts from the same state, so calls given
/// the same events take the same actions and end in the same state.
pub proof fn lemma_calls_repeat(first: Seq<EventView>, second: Seq<EventView>)
    requires
        first == second,
    ensures
        run(first) == run(second),
        actions(first) == actions(second),
        effects(first) == effects(second),
        run(Seq::empty()) == initial(),
{
}

/// One run of the networked entry point: the notification, the fetch, and
/// the delivery of the fetched body, driven by the host's events.
pub struct Session {
    phase: Phase,
    body: Vec<u8>,
}

impl View for Session {
    type V = SessionView;

    closed spec fn view(&self) -> SessionView {
        SessionView { phase: self.phase, body: self.body@ }
    }
}

impl Session {
    /// Body bytes are held only while the body is being fetched.
    pub closed spec fn wf(&self) -> bool {
        self.phase != Phase::FetchingBody ==> self.body@.len() == 0
    }

    /// A session that has not started; each call of the entry point makes a new one.
    pub fn new() -> (r: Session)
        ensures
            r@ == initial(),
            r.wf(),
    {
        Session { phase: Phase::Idle, body: Vec::new() }
    }

    pub fn phase(&self) -> (r: Phase)
        ensures
            r == self@.phase,
    {
        self.phase
    }

    /// Takes the outcome of parsing the address: a session that has just been
    /// told that `hello()` returned fetches the parsed address, or fails.
    pub fn on_address(&mut self, parsed: Result<hyper::Uri, hyper::error::UriError>) -> (a: Action)
        requires
            old(self).wf(),
        ensures
            final(self).wf(),
            old(self)@.phase == Phase::NotifyingStart ==> match parsed {
                Ok(u) => final(self)@ == at(Phase::FetchingBody) && a == Action::Fetch(u),
                Err(_) => final(self)@ == at(Phase::Failed) && a@ == ActionView::Report(Fault::Address),
            },
            old(self)@.phase != Phase::NotifyingStart ==> final(self)@ == old(self)@ && a@
                == ActionView::Ignore,
    {
        proof {
            if self.phase == Phase::NotifyingStart {
                assert(self.body@ =~= Seq::<u8>::empty());
            }
        }
        if self.phase != Phase::NotifyingStart {
            return Action::Ignore;
        }
        match parsed {
            Ok(u) => {
                self.phase = Phase::FetchingBody;
                Action::Fetch(u)
            },
            Err(_) => {
                self.phase = Phase::Failed;
                Action::Report(Fault::Address)
            },
        }
    }

    /// Moves the session on by one event and says what the host must do next.
    pub fn handle(&mut self, event: Event) -> (a: Action)
        requires
            old(self).wf(),
        ensures
            final(self).wf(),
            (final(self)@, a@) == step(old(self)@, event@),
    {
        proof {
            if self.phase != Phase::FetchingBody {
                assert(self.body@ =~= Seq::<u8>::empty());
            }
        }
        match event {
            Event::Failure(f) => {
                if self.phase == Phase::Done || self.phase == Phase::Failed {
                    Action::Ignore
                } else {
                    self.phase = Phase::Failed;
                    self.body = Vec::new();
                    Action::Report(f)
                }
            },
            Event::Start => {
                if self.phase == Phase::Idle {
                    self.phase = Phase::NotifyingStart;
                    Action::Notify
                } else {
                    Action::Ignore
                }
            },
            Event::Returned => {
                if self.phase == Phase::NotifyingStart {
                    self.on_address(parse_endpoint())
                } else if self.phase == Phase::DeliveringResult {
                    self.phase = Phase::Done;
                    Action::Finish
                } else {
                    Action::Ignore
                }
            },
            Event::Chunk(c) => {
                if self.phase == Phase::FetchingBody {
                    append_chunk(&mut self.body, c.as_slice());
                    Action::Await
                } else {
                    Action::Ignore
                }
            },
            Event::BodyEnd => {
                if self.phase == Phase::FetchingBody {
                    let mut body: Vec<u8> = Vec::new();
                    std::mem::swap(&mut self.body, &mut body);
                    match decode_body(body) {
                        Some(text) => {
                            self.phase = Phase::DeliveringResult;
                            Action::Deliver(text)
                        },
                        None => {
                            self.phase = Phase::Failed;
                            Action::Report(Fault::Decode)
                        },
                    }
                } else {
                    Action::Ignore
                }
            },
        }
    }
    /// Runs a new session over the events, in order: its final state and
    /// every action it took.
    pub fn replay(events: Vec<Event>) -> (r: (Session, Vec<Action>))
        ensures
            r.0.wf(),
            r.0@ == run(event_views(events@)),
            action_views(r.1@) == actions(event_views(events@)),
    {
        let ghost all = event_views(events@);
        let total: usize = events.len();
        let mut session = Session::new();
        let mut out: Vec<Action> = Vec::new();
        let mut rest = events;
        let mut done: usize = 0;
        while rest.len() > 0
            invariant
                session.wf(),
                done + rest@.len() == all.len(),
                all.len() == total,
                forall|j: int| 0 <= j < rest@.len() ==> #[trigger] rest@[j]@ == all[done + j],
                session@ == run(all.take(done as int)),
                action_views(out@) == actions(all.take(done as int)),
            decreases rest@.len(),
        {
            let ghost before = all.take(done as int);
            let ghost prev = out@;
            let ghost old_rest = rest@;
            let e = rest.remove(0);
            assert(e@ == all[done as int]);
            let a = session.handle(e);
            out.push(a);
            done = done + 1;
            proof {
                let now = all.take(done as int);
                assert(now.drop_last() =~= before);
                assert(now.last() == all[done - 1]);
                assert(action_views(out@) =~= action_views(prev).push(a@));
                assert forall|j: int| 0 <= j < rest@.len() implies #[trigger] rest@[j]@ == all[done + j] by {
                    assert(rest@[j] == old_rest[j + 1]);
                }
            }
        }
        assert(all.take(done as int) =~= all);
        (session, out)
    }
}

} // verus!
