use nakji::key::Key;
use nakji::message::Message;
use nakji::producer::{
    prepare_records, BrokerAction, BrokerEvent, CommitOutcome, Producer, TxState,
};
use nakji::topic::{Env, MessageType, Topic, Version};

fn producer_at_commit() -> Producer {
    let mut p = Producer::new();
    assert_eq!(p.state, TxState::Uninitialized);
    assert_eq!(p.handle_event(BrokerEvent::InitResult(true)), BrokerAction::BeginTransaction);
    assert_eq!(p.state, TxState::Idle);
    assert_eq!(p.handle_event(BrokerEvent::BeginResult(true)), BrokerAction::SendNext);
    assert_eq!(p.state, TxState::TransactionOpen);
    assert_eq!(p.handle_event(BrokerEvent::SendResult(true)), BrokerAction::SendNext);
    assert_eq!(p.handle_event(BrokerEvent::AllSent), BrokerAction::CommitTransaction);
    assert_eq!(p.state, TxState::Committing);
    p
}

#[test]
fn commit_success_returns_to_idle() {
    let mut p = producer_at_commit();
    assert_eq!(
        p.handle_event(BrokerEvent::CommitResult(CommitOutcome::Committed)),
        BrokerAction::ReportSuccess
    );
    assert_eq!(p.state, TxState::Idle);
}

#[test]
fn retriable_commit_error_retries() {
    let mut p = producer_at_commit();
    assert_eq!(
        p.handle_event(BrokerEvent::CommitResult(CommitOutcome::RetriableError)),
        BrokerAction::CommitTransaction
    );
    assert_eq!(p.state, TxState::Committing);
}

#[test]
fn fenced_commit_is_fatal_shutdown() {
    let mut p = producer_at_commit();
    assert_eq!(
        p.handle_event(BrokerEvent::CommitResult(CommitOutcome::Fenced)),
        BrokerAction::FlushAbortHalt
    );
    assert_eq!(p.state, TxState::FatalShutdown);
    // Nothing the broker reports afterward makes the machine commit or
    // abort again: every further action is Halt.
    assert_eq!(p.handle_event(BrokerEvent::CommitResult(CommitOutcome::Committed)), BrokerAction::Halt);
    assert_eq!(p.handle_event(BrokerEvent::AbortResult(true)), BrokerAction::Halt);
    assert_eq!(p.handle_event(BrokerEvent::InitResult(true)), BrokerAction::Halt);
    assert_eq!(p.state, TxState::FatalShutdown);
}

#[test]
fn invalid_timeout_abandons_without_abort() {
    let mut p = producer_at_commit();
    assert_eq!(
        p.handle_event(BrokerEvent::CommitResult(CommitOutcome::InvalidTimeout)),
        BrokerAction::ReportAbandoned
    );
    assert_eq!(p.state, TxState::Idle);
}

#[test]
fn other_commit_error_aborts_exactly_once() {
    let mut p = producer_at_commit();
    assert_eq!(
        p.handle_event(BrokerEvent::CommitResult(CommitOutcome::OtherError)),
        BrokerAction::AbortTransaction
    );
    assert_eq!(p.state, TxState::Aborting);
    assert_eq!(p.handle_event(BrokerEvent::AbortResult(true)), BrokerAction::ReportAbortedError);
    assert_eq!(p.state, TxState::Idle);
}

#[test]
fn failed_abort_halts_the_producer() {
    let mut p = producer_at_commit();
    assert_eq!(
        p.handle_event(BrokerEvent::CommitResult(CommitOutcome::OtherError)),
        BrokerAction::AbortTransaction
    );
    assert_eq!(p.handle_event(BrokerEvent::AbortResult(false)), BrokerAction::Halt);
    assert_eq!(p.state, TxState::FatalShutdown);
}

#[test]
fn init_failure_is_reported() {
    let mut p = Producer::new();
    assert_eq!(p.handle_event(BrokerEvent::InitResult(false)), BrokerAction::ReportInitError);
    assert_eq!(p.state, TxState::Uninitialized);
}

#[test]
fn send_failure_leaves_transaction_open() {
    let mut p = Producer::new();
    p.handle_event(BrokerEvent::InitResult(true));
    p.handle_event(BrokerEvent::BeginResult(true));
    assert_eq!(p.handle_event(BrokerEvent::SendResult(false)), BrokerAction::ReportSendError);
    assert_eq!(p.state, TxState::TransactionOpen);
}

#[test]
fn create_new_message() {
    let version = Version::new(1, 2, 3);

    let topic = Topic {
        env: Env::Prod,
        message_type: MessageType::BF,
        author: "nakji".to_string(),
        connector_name: "ethereum".to_string(),
        version,
        event_name: "chain_Block".to_string(),
    };

    let key = Key { namespace: "ethereum".to_string(), subject: "Transaction".to_string() };

    let payload: Vec<u8> = vec![1, 2, 3];
    let message = Message::new(topic.clone(), key.clone(), payload.clone());

    assert_eq!(message.topic, topic);
    assert_eq!(message.key, key);
    assert_eq!(message.payload, payload);
}

#[test]
fn prepare_records_formats_each_message() {
    let topic = Topic::new(
        Env::Dev,
        MessageType::FCT,
        "nakji".to_string(),
        "ethereum".to_string(),
        Version::new(3, 2, 1),
        "chain_Block".to_string(),
    );
    let key = Key::new("ethereum".to_string(), "Transaction".to_string());
    let messages = vec![Message::new(topic, key, vec![7, 8, 9])];

    let records = prepare_records(&messages);
    assert_eq!(records.len(), 1);
    assert_eq!(records[0].topic, "dev.fct.nakji.ethereum.3_2_1.chain_Block");
    assert_eq!(records[0].key, "ethereum.Transaction".as_bytes().to_vec());
    assert_eq!(records[0].payload, vec![7, 8, 9]);
}
