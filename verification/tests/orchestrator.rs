use copy_trader::{
    Action, Event, ExecutionError, Exit, Frame, OrderResult, Orchestrator, Payload, Phase, Stage,
    Subscription, Watchlist,
};

type Run = Orchestrator<f64>;
type Outcome = Event<f64, f64>;

fn watchlist(entries: &[(&str, f64)]) -> Watchlist<f64> {
    let mut list = Watchlist::new();
    for (identity, size) in entries {
        list.insert(identity, *size);
    }
    list
}

fn purchase(name: &str, wallet: &str, asset: &str) -> Outcome {
    let mut event: Payload<f64> = Payload::default();
    event.side = "Buy".to_string();
    event.name = name.to_string();
    event.proxy_wallet = wallet.to_string();
    event.asset = asset.to_string();
    Event::Received(Frame::Text(Some(event)))
}

fn answer(error_msg: Option<&str>) -> OrderResult<f64> {
    OrderResult {
        error_msg: error_msg.map(|m| m.to_string()),
        making_amount: 25.0,
        taking_amount: 40.0,
        order_id: "order-1".to_string(),
        transaction_hashes: Vec::new(),
        trade_ids: Vec::new(),
    }
}

fn running(entries: &[(&str, f64)]) -> Run {
    let (mut run, first) = Orchestrator::new(watchlist(entries));
    assert_eq!(first, Action::CheckApproval);
    assert_eq!(run.step(Outcome::ApprovalChecked(true)), Action::Authenticate);
    assert_eq!(run.step(Outcome::Authenticated), Action::OpenFeed);
    assert_eq!(run.step(Outcome::FeedOpened), Action::Subscribe(Subscription::trades()));
    assert_eq!(run.step(Outcome::Subscribed), Action::Receive { progress: None });
    assert_eq!(run.stage(), Stage::Receiving);
    run
}

#[test]
fn run_begins_by_checking_the_allowance() {
    let (run, first) = Orchestrator::new(watchlist(&[("alice", 25.0)]));
    assert_eq!(first, Action::CheckApproval);
    assert_eq!(run.stage(), Stage::CheckingApproval);
    assert_eq!(run.phase(), Phase::Connecting);
    assert_eq!(run.processed(), 0);
    assert_eq!(run.watchlist().get("alice"), Some(&25.0));
}

#[test]
fn start_up_with_the_allowance_granted() {
    let (mut run, _) = Orchestrator::new(watchlist(&[]));
    assert_eq!(run.step(Outcome::ApprovalChecked(true)), Action::Authenticate);
    assert_eq!(run.stage(), Stage::Authenticating);
    assert_eq!(run.step(Outcome::Authenticated), Action::OpenFeed);
    assert_eq!(run.stage(), Stage::OpeningFeed);
    assert_eq!(run.step(Outcome::FeedOpened), Action::Subscribe(Subscription::trades()));
    assert_eq!(run.stage(), Stage::Subscribing);
    assert_eq!(run.phase(), Phase::Connecting);
    assert_eq!(run.step(Outcome::Subscribed), Action::Receive { progress: None });
    assert_eq!(run.stage(), Stage::Receiving);
    assert_eq!(run.phase(), Phase::Running);
}

#[test]
fn start_up_grants_a_missing_allowance_first() {
    let (mut run, _) = Orchestrator::new(watchlist(&[]));
    assert_eq!(run.step(Outcome::ApprovalChecked(false)), Action::GrantApproval);
    assert_eq!(run.stage(), Stage::GrantingApproval);
    assert_eq!(run.phase(), Phase::Connecting);
    assert_eq!(run.step(Outcome::ApprovalGranted), Action::Authenticate);
    assert_eq!(run.stage(), Stage::Authenticating);
}

#[test]
fn subscription_names_the_trade_activity() {
    let request = Subscription::trades();
    assert_eq!(request.action, "subscribe");
    assert_eq!(request.topic, "activity");
    assert_eq!(request.kind, "trades");
}

#[test]
fn failure_at_start_up_ends_the_run() {
    let (mut run, _) = Orchestrator::new(watchlist(&[]));
    assert_eq!(run.step(Outcome::Failed), Action::Stop(Exit::ApprovalFailed));
    assert_eq!(run.phase(), Phase::Terminated);

    let (mut run, _) = Orchestrator::new(watchlist(&[]));
    run.step(Outcome::ApprovalChecked(false));
    assert_eq!(run.step(Outcome::Failed), Action::Stop(Exit::ApprovalFailed));

    let (mut run, _) = Orchestrator::new(watchlist(&[]));
    run.step(Outcome::ApprovalChecked(true));
    assert_eq!(run.step(Outcome::Failed), Action::Stop(Exit::ConnectionFailed));

    let (mut run, _) = Orchestrator::new(watchlist(&[]));
    run.step(Outcome::ApprovalChecked(true));
    run.step(Outcome::Authenticated);
    assert_eq!(run.step(Outcome::Failed), Action::Stop(Exit::ConnectionFailed));

    let (mut run, _) = Orchestrator::new(watchlist(&[]));
    run.step(Outcome::ApprovalChecked(true));
    run.step(Outcome::Authenticated);
    run.step(Outcome::FeedOpened);
    assert_eq!(run.step(Outcome::Failed), Action::Stop(Exit::ConnectionFailed));
    assert_eq!(run.stage(), Stage::Stopped);
}

#[test]
fn watched_purchase_is_mirrored_with_the_configured_size() {
    let mut run = running(&[("alice", 25.0)]);
    let action = run.step(purchase("Alice", "0x1", "TOK1"));
    assert_eq!(action, Action::Execute { token_id: "TOK1".to_string(), size: 25.0 });
    assert_eq!(run.stage(), Stage::Executing);
    assert_eq!(run.phase(), Phase::Running);
    assert_eq!(run.processed(), 1);
}

#[test]
fn purchase_matched_by_address_is_mirrored() {
    let mut run = running(&[("0xabcdef", 10.0)]);
    let action = run.step(purchase("bob", "0xABCDEF", "TOK2"));
    assert_eq!(action, Action::Execute { token_id: "TOK2".to_string(), size: 10.0 });
}

#[test]
fn name_decides_the_size_where_both_match() {
    let mut run = running(&[("alice", 25.0), ("0xabc", 10.0)]);
    let action = run.step(purchase("alice", "0xabc", "TOK"));
    assert_eq!(action, Action::Execute { token_id: "TOK".to_string(), size: 25.0 });
}

#[test]
fn unmatched_frames_are_counted_and_reported() {
    let mut run = running(&[("alice", 25.0)]);
    assert_eq!(run.step(purchase("bob", "0x1", "TOK")), Action::Receive { progress: Some(1) });
    assert_eq!(
        run.step(Outcome::Received(Frame::Text(None))),
        Action::Receive { progress: Some(2) }
    );
    assert_eq!(run.step(Outcome::Received(Frame::Other)), Action::Receive { progress: None });
    assert_eq!(run.processed(), 2);
    assert_eq!(run.step(purchase("carol", "0x2", "TOK")), Action::Receive { progress: Some(3) });
    assert_eq!(run.stage(), Stage::Receiving);
}

#[test]
fn filled_purchase_resumes_the_feed() {
    let mut run = running(&[("alice", 25.0)]);
    run.step(purchase("alice", "0x1", "TOK1"));
    let action = run.step(Outcome::Executed(vec![answer(Some("")), answer(None)]));
    assert_eq!(action, Action::Receive { progress: None });
    assert_eq!(run.stage(), Stage::Receiving);
    assert_eq!(run.processed(), 1);
}

#[test]
fn refused_purchase_ends_the_run() {
    let mut run = running(&[("alice", 25.0)]);
    run.step(purchase("alice", "0x1", "TOK1"));
    let action = run.step(Outcome::Executed(vec![answer(Some("")), answer(Some("no balance"))]));
    let refused = ExecutionError { index: 1, message: "no balance".to_string() };
    assert_eq!(action, Action::Stop(Exit::OrderRefused(refused)));
    assert_eq!(run.stage(), Stage::Stopped);
    assert_eq!(run.phase(), Phase::Terminated);
}

#[test]
fn purchase_that_cannot_be_submitted_ends_the_run() {
    let mut run = running(&[("alice", 25.0)]);
    run.step(purchase("alice", "0x1", "TOK1"));
    assert_eq!(run.step(Outcome::Failed), Action::Stop(Exit::OrderNotSubmitted));
    assert_eq!(run.stage(), Stage::Stopped);
}

#[test]
fn every_watched_purchase_is_mirrored_again() {
    let mut run = running(&[("alice", 25.0)]);
    for round in 1..=3u64 {
        let action = run.step(purchase("alice", "0x1", "TOK1"));
        assert_eq!(action, Action::Execute { token_id: "TOK1".to_string(), size: 25.0 });
        assert_eq!(run.processed(), round);
        assert_eq!(run.step(Outcome::Executed(vec![answer(None)])), Action::Receive { progress: None });
    }
}

#[test]
fn no_frame_is_taken_while_a_purchase_is_open() {
    let mut run = running(&[("alice", 25.0)]);
    run.step(purchase("alice", "0x1", "TOK1"));
    assert_eq!(run.step(purchase("alice", "0x1", "TOK1")), Action::Stop(Exit::OutOfTurn));
    assert_eq!(run.stage(), Stage::Stopped);
    assert_eq!(run.processed(), 1);
}

#[test]
fn end_of_the_feed_ends_the_run_without_an_error() {
    let mut run = running(&[("alice", 25.0)]);
    let action = run.step(Outcome::FeedClosed);
    assert_eq!(action, Action::Stop(Exit::FeedClosed));
    assert_eq!(run.phase(), Phase::Terminated);
    assert!(!Exit::FeedClosed.is_fatal());
}

#[test]
fn error_of_the_feed_ends_the_run() {
    let mut run = running(&[("alice", 25.0)]);
    assert_eq!(run.step(Outcome::Failed), Action::Stop(Exit::ConnectionFailed));
    assert_eq!(run.phase(), Phase::Terminated);
}

#[test]
fn every_exit_but_the_end_of_the_feed_is_fatal() {
    assert!(Exit::ApprovalFailed.is_fatal());
    assert!(Exit::ConnectionFailed.is_fatal());
    assert!(Exit::OrderNotSubmitted.is_fatal());
    assert!(Exit::OutOfTurn.is_fatal());
    assert!(Exit::OrderRefused(ExecutionError { index: 0, message: "x".to_string() }).is_fatal());
}

#[test]
fn event_out_of_turn_ends_the_run() {
    let (mut run, _) = Orchestrator::new(watchlist(&[]));
    assert_eq!(run.step(Outcome::Subscribed), Action::Stop(Exit::OutOfTurn));
    assert_eq!(run.stage(), Stage::Stopped);

    let mut run = running(&[]);
    assert_eq!(run.step(Outcome::Executed(Vec::new())), Action::Stop(Exit::OutOfTurn));

    let (mut run, _) = Orchestrator::new(watchlist(&[]));
    assert_eq!(run.step(Outcome::FeedClosed), Action::Stop(Exit::OutOfTurn));
}

#[test]
fn ended_run_stays_ended() {
    let mut run = running(&[("alice", 25.0)]);
    run.step(Outcome::FeedClosed);
    for _ in 0..2 {
        assert_eq!(run.step(purchase("alice", "0x1", "TOK1")), Action::Stop(Exit::OutOfTurn));
        assert_eq!(run.step(Outcome::Failed), Action::Stop(Exit::OutOfTurn));
        assert_eq!(run.stage(), Stage::Stopped);
        assert_eq!(run.processed(), 0);
    }
}

#[test]
fn step_has_room_for_a_text_frame() {
    let run = running(&[("alice", 25.0)]);
    assert!(run.accepts(&purchase("alice", "0x1", "TOK1")));
    assert!(run.accepts(&Outcome::FeedClosed));
}

#[test]
fn phases_of_the_steps() {
    assert_eq!(Stage::CheckingApproval.phase(), Phase::Connecting);
    assert_eq!(Stage::GrantingApproval.phase(), Phase::Connecting);
    assert_eq!(Stage::Authenticating.phase(), Phase::Connecting);
    assert_eq!(Stage::OpeningFeed.phase(), Phase::Connecting);
    assert_eq!(Stage::Subscribing.phase(), Phase::Connecting);
    assert_eq!(Stage::Receiving.phase(), Phase::Running);
    assert_eq!(Stage::Executing.phase(), Phase::Running);
    assert_eq!(Stage::Stopped.phase(), Phase::Terminated);
}
