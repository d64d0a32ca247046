//! The course of a run: start-up, then one feed frame after the other, each
//! matched and, on a match, mirrored before the next frame is taken.

use vstd::prelude::*;
use crate::checker::{check, message_view, verdict_on};
use crate::make_trade::{make_trade, refusal_in, ExecutionError, ExecutionErrorView, OrderResult};
use crate::payload::Payload;
use crate::watchlist::Watchlist;

verus! {

/// The three phases of a run.
#[derive(Debug, Clone, Copy, PartialEq, Eq, Structural)]
pub enum Phase {
    Connecting,
    Running,
    Terminated,
}

/// The step of the run whose outcome is awaited.
#[derive(Debug, Clone, Copy, PartialEq, Eq, Structural)]
pub enum Stage {
    /// Asking whether the wallet has granted the venue its allowance.
    CheckingApproval,
    /// Granting the allowance.
    GrantingApproval,
    /// Authenticating against the trading service.
    Authenticating,
    /// Opening the feed connection.
    OpeningFeed,
    /// Sending the subscription request.
    Subscribing,
    /// Waiting for the next frame of the feed.
    Receiving,
    /// Waiting for the venue's answer to a mirrored purchase.
    Executing,
    /// The run has ended.
    Stopped,
}

/// One frame of the feed.
#[derive(Debug)]
pub enum Frame<N> {
    /// A text frame: the event it decodes to, or `None` where it does not
    /// decode.
    Text(Option<Payload<N>>),
    /// Any other frame.
    Other,
}

/// The outcome of the step that was awaited.
#[derive(Debug)]
pub enum Event<N, A> {
    /// The allowance was looked up: whether it is granted in full.
    ApprovalChecked(bool),
    /// The allowance has been granted.
    ApprovalGranted,
    /// The trading service accepted the credentials.
    Authenticated,
    /// The feed connection is open.
    FeedOpened,
    /// The subscription request has been sent.
    Subscribed,
    /// The feed delivered a frame.
    Received(Frame<N>),
    /// The feed ended.
    FeedClosed,
    /// The venue answered the submitted order.
    Executed(Vec<OrderResult<A>>),
    /// The step raised an error.
    Failed,
}

/// What the subscription request asks of the feed.
#[derive(Debug, PartialEq)]
pub struct Subscription {
    pub action: String,
    pub topic: String,
    pub kind: String,
}

/// The mathematical value of a [`Subscription`].
pub struct SubscriptionView {
    pub action: Seq<char>,
    pub topic: Seq<char>,
    pub kind: Seq<char>,
}

impl View for Subscription {
    type V = SubscriptionView;

    open spec fn view(&self) -> SubscriptionView {
        SubscriptionView { action: self.action@, topic: self.topic@, kind: self.kind@ }
    }
}

/// The one subscription of a run: to the trades of the activity topic.
pub open spec fn trade_activity() -> SubscriptionView {
    SubscriptionView { action: "subscribe"@, topic: "activity"@, kind: "trades"@ }
}

impl Subscription {
    /// The one subscription of a run: to the trades of the activity topic.
    pub fn trades() -> (request: Self)
        ensures
            request@ == trade_activity(),
    {
        Subscription {
            action: "subscribe".to_owned(),
            topic: "activity".to_owned(),
            kind: "trades".to_owned(),
        }
    }
}

/// How a run ends.
#[derive(Debug, PartialEq)]
pub enum Exit {
    /// The feed ended.
    FeedClosed,
    /// The allowance could not be looked up or granted.
    ApprovalFailed,
    /// Authentication or the feed failed.
    ConnectionFailed,
    /// The order could not be built, signed or submitted.
    OrderNotSubmitted,
    /// The venue refused the order.
    OrderRefused(ExecutionError),
    /// An event arrived that does not answer the awaited step.
    OutOfTurn,
}

/// What is to be done next.
#[derive(Debug, PartialEq)]
pub enum Action<S> {
    CheckApproval,
    GrantApproval,
    Authenticate,
    OpenFeed,
    /// Send this subscription request over the feed connection.
    Subscribe(Subscription),
    /// Take the next frame of the feed; before that, where `progress` is set,
    /// report that number of text frames as processed without a match.
    Receive { progress: Option<u64> },
    /// Buy `size` worth of the token `token_id`.
    Execute { token_id: String, size: S },
    /// End the run.
    Stop(Exit),
}

/// The mathematical value of an [`Exit`].
pub enum ExitView {
    FeedClosed,
    ApprovalFailed,
    ConnectionFailed,
    OrderNotSubmitted,
    OrderRefused(ExecutionErrorView),
    OutOfTurn,
}

/// The mathematical value of an [`Action`].
pub enum ActionView<S> {
    CheckApproval,
    GrantApproval,
    Authenticate,
    OpenFeed,
    Subscribe(SubscriptionView),
    Receive { progress: Option<u64> },
    Execute { token_id: Seq<char>, size: S },
    Stop(ExitView),
}

impl View for Exit {
    type V = ExitView;

    open spec fn view(&self) -> ExitView {
        match *self {
            Exit::FeedClosed => ExitView::FeedClosed,
            Exit::ApprovalFailed => ExitView::ApprovalFailed,
            Exit::ConnectionFailed => ExitView::ConnectionFailed,
            Exit::OrderNotSubmitted => ExitView::OrderNotSubmitted,
            Exit::OrderRefused(e) => ExitView::OrderRefused(e@),
            Exit::OutOfTurn => ExitView::OutOfTurn,
        }
    }
}

impl<S> View for Action<S> {
    type V = ActionView<S>;

    open spec fn view(&self) -> ActionView<S> {
        match *self {
            Action::CheckApproval => ActionView::CheckApproval,
            Action::GrantApproval => ActionView::GrantApproval,
            Action::Authenticate => ActionView::Authenticate,
            Action::OpenFeed => ActionView::OpenFeed,
            Action::Subscribe(request) => ActionView::Subscribe(request@),
            Action::Receive { progress } => ActionView::Receive { progress },
            Action::Execute { token_id, size } => ActionView::Execute { token_id: token_id@, size },
            Action::Stop(exit) => ActionView::Stop(exit@),
        }
    }
}

impl Stage {
    /// The phase that the step belongs to.
    pub open spec fn spec_phase(&self) -> Phase {
        match *self {
            Stage::CheckingApproval
            | Stage::GrantingApproval
            | Stage::Authenticating
            | Stage::OpeningFeed
            | Stage::Subscribing => Phase::Connecting,
            Stage::Receiving | Stage::Executing => Phase::Running,
            Stage::Stopped => Phase::Terminated,
        }
    }

    /// The phase that the step belongs to.
    #[verifier::when_used_as_spec(spec_phase)]
    pub fn phase(&self) -> (phase: Phase)
        ensures
            phase == self.spec_phase(),
    {
        match self {
            Stage::CheckingApproval
            | Stage::GrantingApproval
            | Stage::Authenticating
            | Stage::OpeningFeed
            | Stage::Subscribing => Phase::Connecting,
            Stage::Receiving | Stage::Executing => Phase::Running,
            Stage::Stopped => Phase::Terminated,
        }
    }
}

impl Exit {
    /// Whether the run ended in an error. Only the end of the feed is none.
    pub open spec fn spec_is_fatal(&self) -> bool {
        !(*self is FeedClosed)
    }

    /// Whether the run ended in an error. Only the end of the feed is none.
    #[verifier::when_used_as_spec(spec_is_fatal)]
    pub fn is_fatal(&self) -> (fatal: bool)
        ensures
            fatal == self.spec_is_fatal(),
    {
        match self {
            Exit::FeedClosed => false,
            _ => true,
        }
    }
}

/// The state of a run as a mathematical value.
pub struct RunView<S> {
    /// The awaited step.
    pub stage: Stage,
    /// The number of text frames taken so far.
    pub processed: u64,
    /// The watchlist.
    pub targets: Map<Seq<char>, S>,
}

/// What ends the run where the step awaited at `stage` raises an error.
pub open spec fn failure_at(stage: Stage) -> ExitView {
    match stage {
        Stage::CheckingApproval | Stage::GrantingApproval => ExitView::ApprovalFailed,
        Stage::Authenticating | Stage::OpeningFeed | Stage::Subscribing | Stage::Receiving =>
            ExitView::ConnectionFailed,
        Stage::Executing => ExitView::OrderNotSubmitted,
        Stage::Stopped => ExitView::OutOfTurn,
    }
}

/// The state after a text frame, and what to do next: the frame is counted;
/// on a match the purchase is made with the size stored under the matched
/// key, otherwise the count is reported and the next frame taken.
pub open spec fn after_text<N, S>(run: RunView<S>, msg: Option<Payload<N>>) -> (
    RunView<S>,
    ActionView<S>,
) {
    let verdict = verdict_on(message_view(msg), run.targets.dom());
    let processed = (run.processed + 1) as u64;
    if verdict.0 {
        (
            RunView { stage: Stage::Executing, processed, targets: run.targets },
            ActionView::Execute {
                token_id: verdict.1.unwrap(),
                size: run.targets[verdict.2.unwrap()],
            },
        )
    } else {
        (
            RunView { stage: Stage::Receiving, processed, targets: run.targets },
            ActionView::Receive { progress: Some(processed) },
        )
    }
}

/// The state after the venue's answer to a purchase, and what to do next:
/// the next frame where the purchase went through, the end of the run where
/// it was refused.
pub open spec fn after_answer<A, S>(run: RunView<S>, posted: Seq<OrderResult<A>>) -> (
    RunView<S>,
    ActionView<S>,
) {
    match refusal_in(posted) {
        None => (
            RunView { stage: Stage::Receiving, ..run },
            ActionView::Receive { progress: None },
        ),
        Some(e) => (
            RunView { stage: Stage::Stopped, ..run },
            ActionView::Stop(ExitView::OrderRefused(e)),
        ),
    }
}

/// The state that follows `run` on `event`, and what to do next.
pub open spec fn transition<N, A, S>(run: RunView<S>, event: Event<N, A>) -> (
    RunView<S>,
    ActionView<S>,
) {
    let moved = |stage: Stage, action: ActionView<S>| (RunView { stage, ..run }, action);
    match (run.stage, event) {
        (Stage::Stopped, _) => moved(Stage::Stopped, ActionView::Stop(ExitView::OutOfTurn)),
        (stage, Event::Failed) => moved(Stage::Stopped, ActionView::Stop(failure_at(stage))),
        (Stage::CheckingApproval, Event::ApprovalChecked(true)) => moved(
            Stage::Authenticating,
            ActionView::Authenticate,
        ),
        (Stage::CheckingApproval, Event::ApprovalChecked(false)) => moved(
            Stage::GrantingApproval,
            ActionView::GrantApproval,
        ),
        (Stage::GrantingApproval, Event::ApprovalGranted) => moved(
            Stage::Authenticating,
            ActionView::Authenticate,
        ),
        (Stage::Authenticating, Event::Authenticated) => moved(
            Stage::OpeningFeed,
            ActionView::OpenFeed,
        ),
        (Stage::OpeningFeed, Event::FeedOpened) => moved(
            Stage::Subscribing,
            ActionView::Subscribe(trade_activity()),
        ),
        (Stage::Subscribing, Event::Subscribed) => moved(
            Stage::Receiving,
            ActionView::Receive { progress: None },
        ),
        (Stage::Receiving, Event::Received(Frame::Text(msg))) => after_text(run, msg),
        (Stage::Receiving, Event::Received(Frame::Other)) => moved(
            Stage::Receiving,
            ActionView::Receive { progress: None },
        ),
        (Stage::Receiving, Event::FeedClosed) => moved(
            Stage::Stopped,
            ActionView::Stop(ExitView::FeedClosed),
        ),
        (Stage::Executing, Event::Executed(posted)) => after_answer(run, posted@),
        _ => moved(Stage::Stopped, ActionView::Stop(ExitView::OutOfTurn)),
    }
}

/// Whether `event` is a text frame.
pub open spec fn is_text<N, A>(event: Event<N, A>) -> bool {
    event matches Event::Received(Frame::Text(_))
}

/// A run: the watchlist, the awaited step, and the number of text frames
/// taken so far. The watchlist is fixed when the run begins.
#[verifier::reject_recursive_types(S)]
pub struct Orchestrator<S> {
    watchlist: Watchlist<S>,
    stage: Stage,
    processed: u64,
}

impl<S> View for Orchestrator<S> {
    type V = RunView<S>;

    closed spec fn view(&self) -> RunView<S> {
        RunView { stage: self.stage, processed: self.processed, targets: self.watchlist@ }
    }
}

impl<S: Copy> Orchestrator<S> {
    /// Begins a run over `watchlist`. The first thing to do is to look up
    /// the allowance.
    pub fn new(watchlist: Watchlist<S>) -> (begun: (Self, Action<S>))
        ensures
            begun.0@ == (RunView {
                stage: Stage::CheckingApproval,
                processed: 0,
                targets: watchlist@,
            }),
            begun.1@ == ActionView::<S>::CheckApproval,
    {
        (Orchestrator { watchlist, stage: Stage::CheckingApproval, processed: 0 }, Action::CheckApproval)
    }

    /// The awaited step.
    pub fn stage(&self) -> (stage: Stage)
        ensures
            stage == self@.stage,
    {
        self.stage
    }

    /// The phase of the run.
    pub fn phase(&self) -> (phase: Phase)
        ensures
            phase == self@.stage.phase(),
    {
        self.stage.phase()
    }

    /// The number of text frames taken so far.
    pub fn processed(&self) -> (count: u64)
        ensures
            count == self@.processed,
    {
        self.processed
    }

    /// The watchlist of the run.
    pub fn watchlist(&self) -> (list: &Watchlist<S>)
        ensures
            list@ == self@.targets,
    {
        &self.watchlist
    }

    /// Whether `step` can take `event`: a text frame needs room in the count
    /// of frames.
    pub fn accepts<N, A>(&self, event: &Event<N, A>) -> (room: bool)
        ensures
            room == (self@.stage == Stage::Receiving && is_text(*event) ==> self@.processed
                < u64::MAX),
    {
        match (self.stage, event) {
            (Stage::Receiving, Event::Received(Frame::Text(_))) => self.processed < u64::MAX,
            _ => true,
        }
    }

    /// Takes the outcome of the awaited step and says what to do next.
    pub fn step<N, A>(&mut self, event: Event<N, A>) -> (action: Action<S>)
        requires
            old(self)@.stage == Stage::Receiving && is_text(event) ==> old(self)@.processed
                < u64::MAX,
        ensures
            (final(self)@, action@) == transition(old(self)@, event),
    {
        let stage = self.stage;
        match (stage, event) {
            (Stage::Stopped, _) => self.stop(Exit::OutOfTurn),
            (Stage::CheckingApproval, Event::Failed) => self.stop(Exit::ApprovalFailed),
            (Stage::GrantingApproval, Event::Failed) => self.stop(Exit::ApprovalFailed),
            (Stage::Authenticating, Event::Failed) => self.stop(Exit::ConnectionFailed),
            (Stage::OpeningFeed, Event::Failed) => self.stop(Exit::ConnectionFailed),
            (Stage::Subscribing, Event::Failed) => self.stop(Exit::ConnectionFailed),
            (Stage::Receiving, Event::Failed) => self.stop(Exit::ConnectionFailed),
            (Stage::Executing, Event::Failed) => self.stop(Exit::OrderNotSubmitted),
            (Stage::CheckingApproval, Event::ApprovalChecked(approved)) => {
                if approved {
                    self.stage = Stage::Authenticating;
                    Action::Authenticate
                } else {
                    self.stage = Stage::GrantingApproval;
                    Action::GrantApproval
                }
            },
            (Stage::GrantingApproval, Event::ApprovalGranted) => {
                self.stage = Stage::Authenticating;
                Action::Authenticate
            },
            (Stage::Authenticating, Event::Authenticated) => {
                self.stage = Stage::OpeningFeed;
                Action::OpenFeed
            },
            (Stage::OpeningFeed, Event::FeedOpened) => {
                self.stage = Stage::Subscribing;
                Action::Subscribe(Subscription::trades())
            },
            (Stage::Subscribing, Event::Subscribed) => {
                self.stage = Stage::Receiving;
                Action::Receive { progress: None }
            },
            (Stage::Receiving, Event::Received(Frame::Text(msg))) => self.take_text(msg),
            (Stage::Receiving, Event::Received(Frame::Other)) => Action::Receive { progress: None },
            (Stage::Receiving, Event::FeedClosed) => self.stop(Exit::FeedClosed),
            (Stage::Executing, Event::Executed(posted)) => match make_trade(&posted) {
                Ok(()) => {
                    self.stage = Stage::Receiving;
                    Action::Receive { progress: None }
                },
                Err(e) => self.stop(Exit::OrderRefused(e)),
            },
            _ => self.stop(Exit::OutOfTurn),
        }
    }

    /// Ends the run.
    fn stop(&mut self, exit: Exit) -> (action: Action<S>)
        ensures
            final(self)@ == (RunView { stage: Stage::Stopped, ..old(self)@ }),
            action@ == ActionView::<S>::Stop(exit@),
    {
        self.stage = Stage::Stopped;
        Action::Stop(exit)
    }

    /// Counts a text frame and matches it against the watchlist.
    fn take_text<N>(&mut self, msg: Option<Payload<N>>) -> (action: Action<S>)
        requires
            old(self)@.processed < u64::MAX,
        ensures
            (final(self)@, action@) == after_text(old(self)@, msg),
    {
        self.processed = self.processed + 1;
        let (matched, token_id, matched_key) = check(msg, &self.watchlist);
        if !matched {
            self.stage = Stage::Receiving;
            return Action::Receive { progress: Some(self.processed) };
        }
        let token_id = token_id.unwrap();
        let key = matched_key.unwrap();
        let size = *self.watchlist.get(key.as_str()).unwrap();
        self.stage = Stage::Executing;
        Action::Execute { token_id, size }
    }
}

/// The run ends exactly when it is told to stop.
pub proof fn law_stop_ends_the_run<N, A, S>(run: RunView<S>, event: Event<N, A>)
    ensures
        transition(run, event).1 is Stop <==> transition(run, event).0.stage == Stage::Stopped,
{
}

/// A run that has ended stays ended, whatever arrives.
pub proof fn law_ended_run_stays_ended<N, A, S>(run: RunView<S>, event: Event<N, A>)
    requires
        run.stage.phase() == Phase::Terminated,
    ensures
        transition(run, event).0 == run,
        transition(run, event).1 is Stop,
{
}

/// A run never goes back a phase: from connecting it goes on connecting,
/// starts running or ends; from running it goes on running or ends. It starts
/// running only when the subscription request has been sent.
pub proof fn law_phases_advance<N, A, S>(run: RunView<S>, event: Event<N, A>)
    ensures
        run.stage.phase() == Phase::Running ==> transition(run, event).0.stage.phase()
            != Phase::Connecting,
        run.stage.phase() == Phase::Connecting && transition(run, event).0.stage.phase()
            == Phase::Running ==> run.stage == Stage::Subscribing && event is Subscribed
            && transition(run, event).0.stage == Stage::Receiving,
{
}

/// Start-up runs in one order: the allowance is looked up first and only
/// once, granted only where it was found missing, and the trading service,
/// the feed connection and the subscription follow in that order.
pub proof fn law_start_up_runs_in_order<N, A, S>(run: RunView<S>, event: Event<N, A>)
    ensures
        !(transition(run, event).1 is CheckApproval),
        transition(run, event).0.stage != Stage::CheckingApproval,
        transition(run, event).0.stage == Stage::GrantingApproval ==> run.stage
            == Stage::CheckingApproval && event == Event::<N, A>::ApprovalChecked(false),
        transition(run, event).0.stage == Stage::Authenticating ==> (run.stage
            == Stage::CheckingApproval && event == Event::<N, A>::ApprovalChecked(true)) || (
        run.stage == Stage::GrantingApproval && event is ApprovalGranted),
        transition(run, event).0.stage == Stage::OpeningFeed ==> run.stage
            == Stage::Authenticating && event is Authenticated,
        transition(run, event).0.stage == Stage::Subscribing ==> run.stage == Stage::OpeningFeed
            && event is FeedOpened,
{
}

/// An error of the awaited step ends the run, in every step.
pub proof fn law_failure_ends_the_run<N, A, S>(run: RunView<S>)
    ensures
        transition(run, Event::<N, A>::Failed).0.stage == Stage::Stopped,
        transition(run, Event::<N, A>::Failed).1 is Stop,
        run.stage != Stage::Stopped ==> transition(run, Event::<N, A>::Failed).1
            == ActionView::<S>::Stop(failure_at(run.stage)),
{
}

/// The run ends without an error only where the feed ends while the next
/// frame is awaited.
pub proof fn law_only_the_feed_ends_a_run_quietly<N, A, S>(run: RunView<S>, event: Event<N, A>)
    ensures
        transition(run, event).1 == ActionView::<S>::Stop(ExitView::FeedClosed) <==> run.stage
            == Stage::Receiving && event is FeedClosed,
{
}

/// The watchlist of a run never changes.
pub proof fn law_watchlist_is_fixed<N, A, S>(run: RunView<S>, event: Event<N, A>)
    ensures
        transition(run, event).0.targets == run.targets,
{
}

/// A text frame that is awaited is counted; nothing else changes the count.
pub proof fn law_text_frames_are_counted<N, A, S>(run: RunView<S>, event: Event<N, A>)
    requires
        run.processed < u64::MAX,
    ensures
        transition(run, event).0.processed == (if run.stage == Stage::Receiving && is_text(
            event,
        ) {
            run.processed + 1
        } else {
            run.processed as int
        }),
{
}

/// A purchase is called for only by an awaited text frame that matches the
/// watchlist.
pub proof fn law_purchase_only_on_a_match<N, A, S>(run: RunView<S>, event: Event<N, A>)
    requires
        transition(run, event).1 is Execute,
    ensures
        run.stage == Stage::Receiving,
        event matches Event::Received(Frame::Text(msg)) && verdict_on(
            message_view(msg),
            run.targets.dom(),
        ).0,
{
}

/// An awaited text frame that matches the watchlist calls for a purchase of
/// the token that was traded, of the size stored under the key that matched;
/// one that does not match calls for the next frame, with the count of frames
/// to report.
pub proof fn law_text_frame_is_matched<N, A, S>(run: RunView<S>, msg: Option<Payload<N>>)
    requires
        run.stage == Stage::Receiving,
    ensures
        ({
            let verdict = verdict_on(message_view(msg), run.targets.dom());
            let action = transition(run, Event::<N, A>::Received(Frame::Text(msg))).1;
            if verdict.0 {
                &&& verdict.1 is Some
                &&& verdict.2 is Some
                &&& run.targets.contains_key(verdict.2.unwrap())
                &&& action == (ActionView::Execute {
                    token_id: verdict.1.unwrap(),
                    size: run.targets[verdict.2.unwrap()],
                })
            } else {
                action == (ActionView::<S>::Receive {
                    progress: Some((run.processed + 1) as u64),
                })
            }
        }),
{
}

/// One purchase at a time: while the answer to a purchase is awaited no
/// frame is matched and no purchase made, and the answer is awaited exactly
/// after a purchase was called for.
pub proof fn law_one_purchase_at_a_time<N, A, S>(run: RunView<S>, event: Event<N, A>)
    ensures
        run.stage == Stage::Executing ==> !(transition(run, event).1 is Execute),
        run.stage == Stage::Executing ==> transition(run, event).0.stage != Stage::Executing,
        transition(run, event).0.stage == Stage::Executing <==> transition(run, event).1
            is Execute,
{
}

/// Every matching frame is mirrored: what a text frame calls for depends on
/// the frame and the watchlist alone, not on the frames taken before it.
pub proof fn law_every_match_is_mirrored<N, A, S>(
    first: RunView<S>,
    second: RunView<S>,
    event: Event<N, A>,
)
    requires
        first.stage == Stage::Receiving,
        second.stage == Stage::Receiving,
        first.targets == second.targets,
        transition(first, event).1 is Execute,
    ensures
        transition(second, event).1 == transition(first, event).1,
{
}

/// The answer to a purchase decides how the run goes on: with the next frame
/// where no entry is refused, to its end with the first refused entry
/// otherwise.
pub proof fn law_refusal_ends_the_run<N, A, S>(run: RunView<S>, posted: Vec<OrderResult<A>>)
    requires
        run.stage == Stage::Executing,
    ensures
        refusal_in(posted@) is None ==> transition(run, Event::<N, A>::Executed(posted)) == (
            RunView { stage: Stage::Receiving, ..run },
            ActionView::<S>::Receive { progress: None },
        ),
        refusal_in(posted@) matches Some(e) ==> transition(run, Event::<N, A>::Executed(posted))
            == (
            RunView { stage: Stage::Stopped, ..run },
            ActionView::<S>::Stop(ExitView::OrderRefused(e)),
        ),
{
}

} // verus!
