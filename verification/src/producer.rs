//! The transactional producer: the state machine that governs broker
//! transactions.
//!
//! The broker calls themselves (init, begin, send, commit, abort, flush)
//! are performed by the embedding program; this module decides, from the
//! current state and the outcome the broker reported, which state comes
//! next and which action the driver must take.  The driver performs the
//! action and feeds the outcome back in, so every safety decision of the
//! publish loop is made here.
//!
//! A commit abandoned after an invalid-transaction-timeout error is
//! reported as its own outcome (`ReportAbandoned`), never as success:
//! delivery was not confirmed.

use crate::key::copy_bytes;
use crate::key::key_bytes;
use crate::message::Message;
use crate::topic::wire_chars;
use vstd::prelude::*;

verus! {

/// The transaction state of a producer.
#[derive(Clone, Copy, Debug, PartialEq, Eq, Structural)]
pub enum TxState {
    /// Broker client constructed, transactions not yet initialized.
    Uninitialized,
    /// Transactions initialized, none open.
    Idle,
    /// A transaction is open; messages may be enqueued.
    TransactionOpen,
    /// A commit of the open transaction is being resolved.
    Committing,
    /// A failed commit is being aborted.
    Aborting,
    /// Terminal: the producer must stop; no transition leaves this state.
    FatalShutdown,
}

/// How the broker resolved a commit attempt.
#[derive(Clone, Copy, Debug, PartialEq, Eq, Structural)]
pub enum CommitOutcome {
    /// The transaction committed.
    Committed,
    /// A transient transaction error: the commit may be retried.
    RetriableError,
    /// Another producer instance holds this transactional identity.
    Fenced,
    /// The broker reported an invalid transaction timeout; the commit is
    /// abandoned without an abort.
    InvalidTimeout,
    /// Any other commit error.
    OtherError,
}

/// What the broker reported back after the last ordered action.
#[derive(Clone, Copy, Debug, PartialEq, Eq, Structural)]
pub enum BrokerEvent {
    InitResult(bool),
    BeginResult(bool),
    SendResult(bool),
    /// Every message of the batch has been enqueued.
    AllSent,
    CommitResult(CommitOutcome),
    AbortResult(bool),
}

/// What the driver must do next.
#[derive(Clone, Copy, Debug, PartialEq, Eq, Structural)]
pub enum BrokerAction {
    /// Begin a transaction.
    BeginTransaction,
    /// Surface an initialization failure to the caller.
    ReportInitError,
    /// Enqueue the next message, or signal `AllSent` when none is left.
    SendNext,
    /// Surface a begin failure to the caller.
    ReportBeginError,
    /// Surface a send-enqueue failure; the transaction is left open.
    ReportSendError,
    /// Attempt (or retry) the commit.
    CommitTransaction,
    /// The batch is committed: report success.
    ReportSuccess,
    /// The commit was abandoned after a timeout: delivery unconfirmed.
    ReportAbandoned,
    /// Abort the open transaction once.
    AbortTransaction,
    /// The abort succeeded: surface the failed commit to the caller.
    ReportAbortedError,
    /// Fenced: flush buffered sends, abort, and stop for good.
    FlushAbortHalt,
    /// The producer is shut down; nothing may be attempted.
    Halt,
    /// The event does not apply in the current state.
    Ignore,
}

/// The transition relation of the producer: from a state and a broker
/// event to the next state and the action the driver must take.
pub open spec fn step(s: TxState, e: BrokerEvent) -> (TxState, BrokerAction) {
    match (s, e) {
        (TxState::Uninitialized, BrokerEvent::InitResult(true)) => (
            TxState::Idle,
            BrokerAction::BeginTransaction,
        ),
        (TxState::Uninitialized, BrokerEvent::InitResult(false)) => (
            TxState::Uninitialized,
            BrokerAction::ReportInitError,
        ),
        (TxState::Idle, BrokerEvent::BeginResult(true)) => (
            TxState::TransactionOpen,
            BrokerAction::SendNext,
        ),
        (TxState::Idle, BrokerEvent::BeginResult(false)) => (
            TxState::Idle,
            BrokerAction::ReportBeginError,
        ),
        (TxState::TransactionOpen, BrokerEvent::SendResult(true)) => (
            TxState::TransactionOpen,
            BrokerAction::SendNext,
        ),
        (TxState::TransactionOpen, BrokerEvent::SendResult(false)) => (
            TxState::TransactionOpen,
            BrokerAction::ReportSendError,
        ),
        (TxState::TransactionOpen, BrokerEvent::AllSent) => (
            TxState::Committing,
            BrokerAction::CommitTransaction,
        ),
        (TxState::Committing, BrokerEvent::CommitResult(CommitOutcome::Committed)) => (
            TxState::Idle,
            BrokerAction::ReportSuccess,
        ),
        (TxState::Committing, BrokerEvent::CommitResult(CommitOutcome::RetriableError)) => (
            TxState::Committing,
            BrokerAction::CommitTransaction,
        ),
        (TxState::Committing, BrokerEvent::CommitResult(CommitOutcome::Fenced)) => (
            TxState::FatalShutdown,
            BrokerAction::FlushAbortHalt,
        ),
        (TxState::Committing, BrokerEvent::CommitResult(CommitOutcome::InvalidTimeout)) => (
            TxState::Idle,
            BrokerAction::ReportAbandoned,
        ),
        (TxState::Committing, BrokerEvent::CommitResult(CommitOutcome::OtherError)) => (
            TxState::Aborting,
            BrokerAction::AbortTransaction,
        ),
        (TxState::Aborting, BrokerEvent::AbortResult(true)) => (
            TxState::Idle,
            BrokerAction::ReportAbortedError,
        ),
        (TxState::Aborting, BrokerEvent::AbortResult(false)) => (
            TxState::FatalShutdown,
            BrokerAction::Halt,
        ),
        (TxState::FatalShutdown, _) => (TxState::FatalShutdown, BrokerAction::Halt),
        _ => (s, BrokerAction::Ignore),
    }
}

/// The state after feeding `events` to the machine, in order.
pub open spec fn run_state(s: TxState, events: Seq<BrokerEvent>) -> TxState
    decreases events.len(),
{
    if events.len() == 0 {
        s
    } else {
        run_state(step(s, events[0]).0, events.skip(1))
    }
}

/// The actions the machine orders while feeding `events` to it, in order.
pub open spec fn run_actions(s: TxState, events: Seq<BrokerEvent>) -> Seq<BrokerAction>
    decreases events.len(),
{
    if events.len() == 0 {
        Seq::empty()
    } else {
        seq![step(s, events[0]).1] + run_actions(step(s, events[0]).0, events.skip(1))
    }
}

/// The machine orders exactly one action per event.
pub proof fn lemma_run_actions_len(s: TxState, events: Seq<BrokerEvent>)
    ensures
        run_actions(s, events).len() == events.len(),
    decreases events.len(),
{
    if events.len() > 0 {
        lemma_run_actions_len(step(s, events[0]).0, events.skip(1));
    }
}

/// A fenced commit shuts the producer down for good: the machine moves to
/// `FatalShutdown` and orders the terminal flush-abort-halt procedure, and
/// from `FatalShutdown` no sequence of further events can make it order a
/// commit, an abort, or anything but `Halt`.
pub proof fn lemma_fenced_is_fatal(events: Seq<BrokerEvent>)
    ensures
        step(TxState::Committing, BrokerEvent::CommitResult(CommitOutcome::Fenced)) == (
            TxState::FatalShutdown,
            BrokerAction::FlushAbortHalt,
        ),
        run_state(TxState::FatalShutdown, events) == TxState::FatalShutdown,
        forall|i: int|
            0 <= i < events.len() ==> run_actions(TxState::FatalShutdown, events)[i]
                == BrokerAction::Halt,
    decreases events.len(),
{
    if events.len() > 0 {
        lemma_fenced_is_fatal(events.skip(1));
        lemma_run_actions_len(TxState::FatalShutdown, events.skip(1));
        let acts = run_actions(TxState::FatalShutdown, events);
        let rest = run_actions(TxState::FatalShutdown, events.skip(1));
        assert(acts == seq![BrokerAction::Halt] + rest);
        assert forall|i: int| 0 <= i < events.len() implies acts[i] == BrokerAction::Halt by {
            if i > 0 {
                assert(acts[i] == rest[i - 1]);
            }
        }
    }
}

/// A non-retriable, non-fenced commit error is resolved by exactly one
/// abort attempt: the machine orders one abort; from the aborting state it
/// never orders a second; a successful abort returns it to `Idle` (where
/// the failed commit is surfaced, not retried), and a failed abort halts
/// the producer for good.
pub proof fn lemma_commit_error_aborts_once(e: BrokerEvent)
    ensures
        step(TxState::Committing, BrokerEvent::CommitResult(CommitOutcome::OtherError)) == (
            TxState::Aborting,
            BrokerAction::AbortTransaction,
        ),
        step(TxState::Aborting, BrokerEvent::AbortResult(true)) == (
            TxState::Idle,
            BrokerAction::ReportAbortedError,
        ),
        step(TxState::Aborting, BrokerEvent::AbortResult(false)) == (
            TxState::FatalShutdown,
            BrokerAction::Halt,
        ),
        step(TxState::Aborting, e).1 != BrokerAction::AbortTransaction,
        step(TxState::Aborting, e).0 == TxState::Idle ==> e == BrokerEvent::AbortResult(true),
{
}

/// The broker operation a surfaced producer error came from.
#[derive(Clone, Copy, Debug, PartialEq, Eq, Structural)]
pub enum BrokerFailure {
    Init,
    Begin,
    Commit(CommitOutcome),
    Abort,
}

/// Why a publish call failed.
#[derive(Debug)]
pub enum ProducerError {
    /// A payload could not be serialized to bytes.
    ConvertBytes,
    /// A message could not be enqueued; carries the wire topic string.
    Send(String),
    /// The broker failed a transaction operation.
    Kafka(BrokerFailure),
}

/// Owns the transaction state of one transactional identity.  The broker
/// client handle stays with the embedding program; the two must be driven
/// by a single caller at a time.
pub struct Producer {
    pub state: TxState,
}

impl Producer {
    pub fn new() -> (p: Producer)
        ensures
            p.state == TxState::Uninitialized,
    {
        Producer { state: TxState::Uninitialized }
    }

    /// Feeds one broker event to the machine; returns the action the
    /// driver must take next, exactly as the transition relation orders.
    pub fn handle_event(&mut self, e: BrokerEvent) -> (a: BrokerAction)
        ensures
            final(self).state == step(old(self).state, e).0,
            a == step(old(self).state, e).1,
    {
        let (next, action) = match (self.state, e) {
            (TxState::Uninitialized, BrokerEvent::InitResult(true)) => (
                TxState::Idle,
                BrokerAction::BeginTransaction,
            ),
            (TxState::Uninitialized, BrokerEvent::InitResult(false)) => (
                TxState::Uninitialized,
                BrokerAction::ReportInitError,
            ),
            (TxState::Idle, BrokerEvent::BeginResult(true)) => (
                TxState::TransactionOpen,
                BrokerAction::SendNext,
            ),
            (TxState::Idle, BrokerEvent::BeginResult(false)) => (
                TxState::Idle,
                BrokerAction::ReportBeginError,
            ),
            (TxState::TransactionOpen, BrokerEvent::SendResult(true)) => (
                TxState::TransactionOpen,
                BrokerAction::SendNext,
            ),
            (TxState::TransactionOpen, BrokerEvent::SendResult(false)) => (
                TxState::TransactionOpen,
                BrokerAction::ReportSendError,
            ),
            (TxState::TransactionOpen, BrokerEvent::AllSent) => (
                TxState::Committing,
                BrokerAction::CommitTransaction,
            ),
            (TxState::Committing, BrokerEvent::CommitResult(CommitOutcome::Committed)) => (
                TxState::Idle,
                BrokerAction::ReportSuccess,
            ),
            (TxState::Committing, BrokerEvent::CommitResult(CommitOutcome::RetriableError)) => (
                TxState::Committing,
                BrokerAction::CommitTransaction,
            ),
            (TxState::Committing, BrokerEvent::CommitResult(CommitOutcome::Fenced)) => (
                TxState::FatalShutdown,
                BrokerAction::FlushAbortHalt,
            ),
            (TxState::Committing, BrokerEvent::CommitResult(CommitOutcome::InvalidTimeout)) => (
                TxState::Idle,
                BrokerAction::ReportAbandoned,
            ),
            (TxState::Committing, BrokerEvent::CommitResult(CommitOutcome::OtherError)) => (
                TxState::Aborting,
                BrokerAction::AbortTransaction,
            ),
            (TxState::Aborting, BrokerEvent::AbortResult(true)) => (
                TxState::Idle,
                BrokerAction::ReportAbortedError,
            ),
            (TxState::Aborting, BrokerEvent::AbortResult(false)) => (
                TxState::FatalShutdown,
                BrokerAction::Halt,
            ),
            (TxState::FatalShutdown, _) => (TxState::FatalShutdown, BrokerAction::Halt),
            _ => (self.state, BrokerAction::Ignore),
        };
        self.state = next;
        action
    }
}

/// A fully formatted outbound record: the wire topic string, the encoded
/// key, and the payload bytes the broker send queue takes.
pub struct OutboundRecord {
    pub topic: String,
    pub key: Vec<u8>,
    pub payload: Vec<u8>,
}

/// Formats every message of a batch into its outbound record, in order:
/// the topic's wire string, the key's encoding, the payload unchanged.
pub fn prepare_records(messages: &Vec<Message>) -> (rs: Vec<OutboundRecord>)
    ensures
        rs@.len() == messages@.len(),
        forall|i: int|
            0 <= i < messages@.len() ==> {
                &&& (#[trigger] rs@[i]).topic@ == wire_chars(messages@[i].topic)
                &&& rs@[i].key@ == key_bytes(
                    messages@[i].key.namespace@,
                    messages@[i].key.subject@,
                )
                &&& rs@[i].payload@ == messages@[i].payload@
            },
{
    let mut rs: Vec<OutboundRecord> = Vec::new();
    let mut i: usize = 0;
    while i < messages.len()
        invariant
            i <= messages@.len(),
            rs@.len() == i,
            forall|j: int|
                0 <= j < i ==> {
                    &&& (#[trigger] rs@[j]).topic@ == wire_chars(messages@[j].topic)
                    &&& rs@[j].key@ == key_bytes(
                        messages@[j].key.namespace@,
                        messages@[j].key.subject@,
                    )
                    &&& rs@[j].payload@ == messages@[j].payload@
                },
        decreases messages@.len() - i,
    {
        let topic = messages[i].topic.to_string();
        let key = messages[i].key.to_bytes();
        let payload = copy_bytes(&messages[i].payload);
        rs.push(OutboundRecord { topic, key, payload });
        i += 1;
    }
    rs
}

} // verus!
