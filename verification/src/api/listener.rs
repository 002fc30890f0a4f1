//! The listening session: polling for updates, handing them out one at a
//! time, and acknowledging what has been handled.
//!
//! The session does no I/O of its own. It is a machine that is told what
//! happened (`Event`) and answers with what to do next (`Action`); the caller
//! performs the action and reports back.

use crate::api::types::{ToParam, Update, UrlParams};
use crate::api::{prepares, Api, Endpoint, Request};
use crate::error::Error;
use std::collections::VecDeque;
use vstd::prelude::*;

verus! {

/// The long-poll timeout, in seconds, of a listener that was given none.
pub const DEFAULT_POLL_TIMEOUT: i64 = 30;

/// A listening handler returns this type to tell the listener either to stop
/// or to continue.
#[derive(Debug, Clone, Copy, PartialEq, Eq, Structural)]
pub enum ListeningAction {
    Continue,
    Stop,
}

/// Where a listening session stands.
#[derive(Debug, Clone, Copy, PartialEq, Eq, Structural)]
pub enum Stage {
    /// Not started yet.
    Idle,
    /// A poll is under way.
    Polling,
    /// An update is with the handler.
    Dispatching,
    /// The final acknowledgement is under way.
    Confirming,
    /// The session is over.
    Stopped,
}

/// What the caller reports to the listener.
pub enum Event {
    /// The caller wants the session to begin.
    Start,
    /// The poll came back, with a batch of updates or with an error.
    Fetched(Result<Vec<Update>, Error>),
    /// The handler came back, with its wish or with an error.
    Handled(Result<ListeningAction, Error>),
    /// The acknowledgement came back; whatever updates it carried are ignored.
    Acknowledged(Result<Vec<Update>, Error>),
}

/// What the listener asks the caller to do next.
pub enum Action {
    /// Ask for the updates from `offset` on, waiting up to `timeout` seconds,
    /// with no limit on their number. Report back with `Event::Fetched`.
    Poll { offset: i64, timeout: Option<i64> },
    /// Call the handler with this update. Report back with `Event::Handled`.
    Dispatch(Update),
    /// Acknowledge every update below `offset`: ask for the updates from
    /// `offset` on without a timeout and with a limit of zero. Report back
    /// with `Event::Acknowledged`.
    Acknowledge { offset: i64 },
    /// The session is over; this is what listening returns.
    Finish(Result<(), Error>),
    /// The event answers no action that is outstanding. Nothing has changed.
    Rejected,
}

/// The parameters of a call of `getUpdates`: the offset always, the timeout
/// and the limit where they are given, in this order.
pub open spec fn update_params(offset: i64, timeout: Option<i64>, limit: Option<i64>) -> Seq<
    (Seq<char>, Seq<char>),
> {
    let required = seq![("offset"@, offset.param_text())];
    let timed = match timeout {
        Some(seconds) => required.push(("timeout"@, seconds.param_text())),
        None => required,
    };
    match limit {
        Some(count) => timed.push(("limit"@, count.param_text())),
        None => timed,
    }
}

/// The offset, timeout and limit of the call of `getUpdates` that an action
/// asks for, if it asks for one.
pub open spec fn query(action: Action) -> Option<(i64, Option<i64>, Option<i64>)> {
    match action {
        Action::Poll { offset, timeout } => Some((offset, timeout, None)),
        Action::Acknowledge { offset } => Some((offset, None, Some(0i64))),
        _ => None,
    }
}

/// The timeout that polls carry: the listener's own, or the default.
pub open spec fn effective_timeout(timeout: Option<i64>) -> Option<i64> {
    match timeout {
        Some(seconds) => Some(seconds),
        None => Some(DEFAULT_POLL_TIMEOUT),
    }
}

/// The working offset after the update `id` has been handled: one past `id`,
/// unless it is beyond that already.
pub open spec fn advance(handled_until: i64, id: i64) -> int {
    if id >= handled_until {
        id + 1
    } else {
        handled_until as int
    }
}

/// The events that a listener can take: no update of a batch has the largest
/// identifier there is, past which the offset could not move.
pub open spec fn admissible(event: Event) -> bool {
    event matches Event::Fetched(Ok(batch)) ==> forall|i: int|
        0 <= i < batch@.len() ==> (#[trigger] batch@[i]).update_id < i64::MAX
}

impl Event {
    /// Whether a listener can take this event.
    pub fn is_admissible(&self) -> (fine: bool)
        ensures
            fine == admissible(*self),
    {
        match self {
            Event::Fetched(Ok(batch)) => {
                let mut i: usize = 0;
                while i < batch.len()
                    invariant
                        i <= batch@.len(),
                        *self matches Event::Fetched(Ok(held)) && held@ == batch@,
                        forall|k: int| 0 <= k < i ==> (#[trigger] batch@[k]).update_id < i64::MAX,
                    decreases batch@.len() - i,
                {
                    if batch[i].update_id == i64::MAX {
                        assert(batch@[i as int].update_id == i64::MAX);
                        return false;
                    }
                    i += 1;
                }
                true
            },
            _ => true,
        }
    }
}

/// A listening session as a mathematical value.
pub struct ListenerState {
    pub stage: Stage,
    /// Every update below this offset has been acknowledged to the server.
    pub confirmed: i64,
    /// The working offset: every update handled so far lies below it.
    pub handled_until: i64,
    /// The long-poll timeout that the listener was given.
    pub timeout: Option<i64>,
    /// The identifier of the update that is with the handler.
    pub current: i64,
    /// The updates of the current batch that are still to be handed out.
    pub pending: Seq<Update>,
    /// The handler's error, kept while the acknowledgement is under way.
    pub failure: Option<Error>,
}

impl ListenerState {
    /// The state of a listener that has not started.
    pub open spec fn initial(confirmed: i64, timeout: Option<i64>) -> ListenerState {
        ListenerState {
            stage: Stage::Idle,
            confirmed,
            handled_until: confirmed,
            timeout,
            current: 0,
            pending: Seq::empty(),
            failure: None,
        }
    }

    /// No update that the listener holds has the largest identifier there is.
    pub open spec fn in_range(self) -> bool {
        &&& self.current < i64::MAX
        &&& forall|i: int|
            0 <= i < self.pending.len() ==> (#[trigger] self.pending[i]).update_id < i64::MAX
    }

    /// What holds of every listener, whatever events it has taken.
    pub open spec fn valid(self) -> bool {
        &&& self.in_range()
        &&& self.confirmed <= self.handled_until
        &&& self.stage == Stage::Idle ==> self.handled_until == self.confirmed
        &&& self.stage != Stage::Dispatching ==> self.pending.len() == 0
        &&& self.stage != Stage::Confirming ==> self.failure is None
    }

    /// The poll that the session issues at its working offset.
    pub open spec fn poll(self) -> Action {
        Action::Poll { offset: self.handled_until, timeout: effective_timeout(self.timeout) }
    }

    /// Hands out the next update of the batch, or polls again when the batch
    /// is used up.
    pub open spec fn deliver(self) -> (ListenerState, Action) {
        if self.pending.len() == 0 {
            let after = ListenerState { stage: Stage::Polling, ..self };
            (after, after.poll())
        } else {
            let update = self.pending[0];
            (
                ListenerState {
                    stage: Stage::Dispatching,
                    current: update.update_id,
                    pending: self.pending.subrange(1, self.pending.len() as int),
                    ..self
                },
                Action::Dispatch(update),
            )
        }
    }

    /// Ends the dispatching of the batch: what is left of it is dropped, and
    /// everything below the working offset is to be acknowledged.
    pub open spec fn confirm(self, failure: Option<Error>) -> (ListenerState, Action) {
        (
            ListenerState {
                stage: Stage::Confirming,
                pending: Seq::empty(),
                failure,
                ..self
            },
            Action::Acknowledge { offset: self.handled_until },
        )
    }

    /// The transition of the listening session: the state after `event`, and
    /// the action that the listener asks for.
    pub open spec fn next(self, event: Event) -> (ListenerState, Action) {
        match (self.stage, event) {
            (Stage::Idle, Event::Start) => {
                let after = ListenerState {
                    stage: Stage::Polling,
                    handled_until: self.confirmed,
                    ..self
                };
                (after, after.poll())
            },
            (Stage::Polling, Event::Fetched(Err(_))) => (self, self.poll()),
            (Stage::Polling, Event::Fetched(Ok(batch))) => ListenerState {
                confirmed: self.handled_until,
                pending: batch@,
                ..self
            }.deliver(),
            (Stage::Dispatching, Event::Handled(Err(error))) => self.confirm(Some(error)),
            (Stage::Dispatching, Event::Handled(Ok(wish))) => {
                let after = ListenerState {
                    handled_until: advance(self.handled_until, self.current) as i64,
                    ..self
                };
                if wish == ListeningAction::Stop {
                    after.confirm(None)
                } else {
                    after.deliver()
                }
            },
            (Stage::Confirming, Event::Acknowledged(Ok(_))) => (
                ListenerState {
                    stage: Stage::Stopped,
                    confirmed: self.handled_until,
                    failure: None,
                    ..self
                },
                Action::Finish(
                    match self.failure {
                        Some(error) => Err(error),
                        None => Ok(()),
                    },
                ),
            ),
            (Stage::Confirming, Event::Acknowledged(Err(error))) => (
                ListenerState { stage: Stage::Stopped, failure: None, ..self },
                Action::Finish(Err(error)),
            ),
            _ => (self, Action::Rejected),
        }
    }
}

/// Receives updates and keeps the offset up to which they are acknowledged.
pub struct Listener {
    confirmed: i64,
    url: Endpoint,
    timeout: Option<i64>,
    handled_until: i64,
    stage: Stage,
    current: i64,
    pending: VecDeque<Update>,
    failure: Option<Error>,
}

impl View for Listener {
    type V = ListenerState;

    closed spec fn view(&self) -> ListenerState {
        ListenerState {
            stage: self.stage,
            confirmed: self.confirmed,
            handled_until: self.handled_until,
            timeout: self.timeout,
            current: self.current,
            pending: self.pending@,
            failure: self.failure,
        }
    }
}

/// Moves a batch into a queue, keeping its order.
fn enqueue(batch: Vec<Update>) -> (queue: VecDeque<Update>)
    ensures
        queue@ == batch@,
{
    let mut rest = batch;
    let mut queue: VecDeque<Update> = VecDeque::new();
    loop
        invariant
            rest@.len() <= batch@.len(),
            rest@ == batch@.take(rest@.len() as int),
            queue@ == batch@.skip(rest@.len() as int),
        ensures
            queue@ == batch@,
        decreases rest@.len(),
    {
        match rest.pop() {
            Some(update) => {
                queue.push_front(update);
                assert(queue@ =~= batch@.skip(rest@.len() as int));
                assert(rest@ =~= batch@.take(rest@.len() as int));
            },
            None => {
                assert(queue@ =~= batch@);
                break ;
            },
        }
    }
    queue
}

impl Listener {
    #[verifier::type_invariant]
    spec fn well_formed(self) -> bool {
        self@.in_range()
    }

    /// A listener that has not started: everything below `confirmed` counts
    /// as acknowledged.
    pub fn new(url: Endpoint, confirmed: i64, timeout: Option<i64>) -> (listener: Listener)
        ensures
            listener@ == ListenerState::initial(confirmed, timeout),
            listener.url() == url,
    {
        Listener {
            confirmed,
            url,
            timeout,
            handled_until: confirmed,
            stage: Stage::Idle,
            current: 0,
            pending: VecDeque::new(),
            failure: None,
        }
    }

    /// The URL of the API that the listener polls.
    pub closed spec fn url(&self) -> Endpoint {
        self.url
    }

    /// The URL of the API that the listener polls.
    pub fn endpoint(&self) -> (url: &Endpoint)
        ensures
            *url == self.url(),
    {
        &self.url
    }

    /// Prepares the call of `getUpdates`: the updates from `offset` on, after
    /// a wait of up to `timeout` seconds, and no more than `limit` of them.
    pub fn get_updates(&self, offset: i64, timeout: Option<i64>, limit: Option<i64>) -> (prepared:
        Result<Request, Error>)
        ensures
            prepares(&self.url(), "getUpdates", update_params(offset, timeout, limit), prepared),
    {
        let mut params = UrlParams::new();
        params.add_value("offset", offset);
        params.add_opt_value("timeout", timeout);
        params.add_opt_value("limit", limit);
        Api::request(&self.url, "getUpdates", params)
    }

    /// Prepares the request that an action of the listener asks for: the poll
    /// with its timeout and without a limit, the acknowledgement without a
    /// timeout and with a limit of zero. The other actions ask for none.
    pub fn request(&self, action: &Action) -> (prepared: Option<Result<Request, Error>>)
        ensures
            match query(*action) {
                Some((offset, timeout, limit)) => prepared matches Some(request) && prepares(
                    &self.url(),
                    "getUpdates",
                    update_params(offset, timeout, limit),
                    request,
                ),
                None => prepared is None,
            },
    {
        match action {
            Action::Poll { offset, timeout } => Some(self.get_updates(*offset, *timeout, None)),
            Action::Acknowledge { offset } => Some(self.get_updates(*offset, None, Some(0))),
            _ => None,
        }
    }

    /// The offset below which every update has been acknowledged.
    pub fn confirmed(&self) -> (offset: i64)
        ensures
            offset == self@.confirmed,
    {
        self.confirmed
    }

    /// The working offset: one past the last update that was handled.
    pub fn handled_until(&self) -> (offset: i64)
        ensures
            offset == self@.handled_until,
    {
        self.handled_until
    }

    /// The long-poll timeout that the listener was given.
    pub fn timeout(&self) -> (timeout: Option<i64>)
        ensures
            timeout == self@.timeout,
    {
        self.timeout
    }

    /// Where the session stands.
    pub fn stage(&self) -> (stage: Stage)
        ensures
            stage == self@.stage,
    {
        self.stage
    }

    fn poll_again(&self) -> (action: Action)
        ensures
            action == self@.poll(),
    {
        let timeout = match self.timeout {
            Some(seconds) => Some(seconds),
            None => Some(DEFAULT_POLL_TIMEOUT),
        };
        Action::Poll { offset: self.handled_until, timeout }
    }

    fn deliver(&mut self) -> (action: Action)
        requires
            old(self)@.stage == Stage::Polling || old(self)@.stage == Stage::Dispatching,
        ensures
            (final(self)@, action) == old(self)@.deliver(),
            final(self).url() == old(self).url(),
    {
        proof {
            use_type_invariant(&*self);
        }
        let mut queue: VecDeque<Update> = VecDeque::new();
        core::mem::swap(&mut queue, &mut self.pending);
        match queue.pop_front() {
            Some(update) => {
                self.current = update.update_id;
                self.stage = Stage::Dispatching;
                self.pending = queue;
                Action::Dispatch(update)
            },
            None => {
                self.stage = Stage::Polling;
                assert(self.pending@ =~= old(self).pending@);
                self.poll_again()
            },
        }
    }

    fn confirm(&mut self, failure: Option<Error>) -> (action: Action)
        ensures
            (final(self)@, action) == old(self)@.confirm(failure),
            final(self).url() == old(self).url(),
    {
        proof {
            use_type_invariant(&*self);
        }
        self.pending = VecDeque::new();
        self.stage = Stage::Confirming;
        self.failure = failure;
        Action::Acknowledge { offset: self.handled_until }
    }

    /// Takes one event of the listening session and says what to do next.
    ///
    /// A session begins with `Event::Start` and then answers each action with
    /// the event that reports its outcome, until the action is
    /// `Action::Finish`.
    pub fn listen(&mut self, event: Event) -> (action: Action)
        requires
            admissible(event),
        ensures
            (final(self)@, action) == old(self)@.next(event),
            final(self).url() == old(self).url(),
    {
        proof {
            use_type_invariant(&*self);
        }
        match (self.stage, event) {
            (Stage::Idle, Event::Start) => {
                self.handled_until = self.confirmed;
                self.stage = Stage::Polling;
                self.poll_again()
            },
            (Stage::Polling, Event::Fetched(Err(_))) => self.poll_again(),
            (Stage::Polling, Event::Fetched(Ok(batch))) => {
                self.confirmed = self.handled_until;
                self.pending = enqueue(batch);
                self.deliver()
            },
            (Stage::Dispatching, Event::Handled(Err(error))) => self.confirm(Some(error)),
            (Stage::Dispatching, Event::Handled(Ok(wish))) => {
                if self.current >= self.handled_until {
                    self.handled_until = self.current + 1;
                }
                match wish {
                    ListeningAction::Stop => self.confirm(None),
                    ListeningAction::Continue => self.deliver(),
                }
            },
            (Stage::Confirming, Event::Acknowledged(Ok(_))) => {
                self.confirmed = self.handled_until;
                self.stage = Stage::Stopped;
                let mut failure: Option<Error> = None;
                core::mem::swap(&mut failure, &mut self.failure);
                match failure {
                    Some(error) => Action::Finish(Err(error)),
                    None => Action::Finish(Ok(())),
                }
            },
            (Stage::Confirming, Event::Acknowledged(Err(error))) => {
                self.stage = Stage::Stopped;
                self.failure = None;
                Action::Finish(Err(error))
            },
            _ => Action::Rejected,
        }
    }
}

} // verus!
