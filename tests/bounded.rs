use std::sync::mpsc::sync_channel;
use ticket_threads::bounded::{
    reply_result, submission_result, ClientError, Command, OverloadedError, SendOutcome,
    TicketStoreClient,
};
use ticket_threads::data::{Ticket, TicketDraft, TicketId, Status};
use ticket_threads::worker::{execute, Reply, Request, Worker};
use ticket_threads::store::TicketStore;

fn draft(title: &str) -> TicketDraft {
    TicketDraft { title: title.to_string(), description: "details".to_string() }
}

fn get_command(id: u64) -> Command {
    let (response_channel, _replies) = sync_channel(1);
    Command::Get { id: TicketId { value: id }, response_channel }
}

#[test]
fn submission_outcomes_map_to_errors() {
    assert_eq!(submission_result(SendOutcome::Accepted), Ok(()));
    assert_eq!(
        submission_result(SendOutcome::Full),
        Err(ClientError::Overloaded(OverloadedError))
    );
    assert_eq!(submission_result(SendOutcome::Disconnected), Err(ClientError::WorkerUnavailable));
}

#[test]
fn missing_reply_means_worker_unavailable() {
    assert_eq!(reply_result(Some(TicketId { value: 3 })), Ok(TicketId { value: 3 }));
    assert_eq!(reply_result::<TicketId>(None), Err(ClientError::WorkerUnavailable));
}

#[test]
fn at_most_capacity_submissions_succeed_before_draining() {
    let capacity = 3;
    let (sender, _receiver) = sync_channel(capacity);
    let mut client = TicketStoreClient::new(sender);
    let mut other = client.clone();
    let mut accepted = 0;
    let mut overloaded = 0;
    for i in 0..5u64 {
        let handle = if i % 2 == 0 { &mut client } else { &mut other };
        match handle.submit(get_command(i)) {
            Ok(()) => accepted += 1,
            Err(ClientError::Overloaded(OverloadedError)) => overloaded += 1,
            Err(e) => panic!("unexpected {:?}", e),
        }
    }
    assert_eq!(accepted, 3);
    assert_eq!(overloaded, 2);
}

#[test]
fn insert_on_full_channel_is_overloaded() {
    let (sender, _receiver) = sync_channel(1);
    let mut client = TicketStoreClient::new(sender);
    assert_eq!(client.submit(get_command(0)), Ok(()));
    assert_eq!(client.insert(draft("late")), Err(ClientError::Overloaded(OverloadedError)));
    assert_eq!(
        client.get(TicketId { value: 0 }),
        Err(ClientError::Overloaded(OverloadedError))
    );
}

#[test]
fn calls_after_worker_gone_fail_distinguishably() {
    let (sender, receiver) = sync_channel(4);
    drop(receiver);
    let mut client = TicketStoreClient::new(sender);
    assert_eq!(client.insert(draft("orphan")), Err(ClientError::WorkerUnavailable));
    assert_eq!(client.get(TicketId { value: 0 }), Err(ClientError::WorkerUnavailable));
}

#[test]
fn worker_replies_in_order_and_sees_earlier_inserts() {
    let mut worker = Worker::new();
    assert!(worker.is_running_now());
    let (tx_a, rx_a) = sync_channel(1);
    let (tx_b, rx_b) = sync_channel(1);
    let (tx_get, rx_get) = sync_channel(1);
    let (tx_missing, rx_missing) = sync_channel(1);
    assert!(worker.step(Some(Command::Insert { draft: draft("a"), response_channel: tx_a })));
    assert!(worker.step(Some(Command::Insert { draft: draft("b"), response_channel: tx_b })));
    let id_a = rx_a.try_recv().unwrap();
    let id_b = rx_b.try_recv().unwrap();
    assert_eq!(id_a, TicketId { value: 0 });
    assert_eq!(id_b, TicketId { value: 1 });
    assert!(worker.step(Some(Command::Get { id: id_a, response_channel: tx_get })));
    let expected = Ticket {
        id: id_a,
        title: "a".to_string(),
        description: "details".to_string(),
        status: Status::ToDo,
    };
    assert_eq!(rx_get.try_recv().unwrap(), Some(expected));
    assert!(worker.step(Some(Command::Get {
        id: TicketId { value: 7 },
        response_channel: tx_missing
    })));
    assert_eq!(rx_missing.try_recv().unwrap(), None);
}

#[test]
fn worker_survives_a_caller_that_left() {
    let mut worker = Worker::new();
    let (tx, rx) = sync_channel(1);
    drop(rx);
    assert!(worker.step(Some(Command::Insert { draft: draft("x"), response_channel: tx })));
    let (tx2, rx2) = sync_channel(1);
    assert!(worker.step(Some(Command::Insert { draft: draft("y"), response_channel: tx2 })));
    assert_eq!(rx2.try_recv().unwrap(), TicketId { value: 1 });
}

#[test]
fn worker_terminates_when_channel_closes() {
    let mut worker = Worker::new();
    assert!(!worker.step(None));
    assert!(!worker.is_running_now());
    let (tx, rx) = sync_channel(1);
    assert!(!worker.step(Some(Command::Insert { draft: draft("late"), response_channel: tx })));
    assert!(rx.try_recv().is_err());
}

#[test]
fn execute_inserts_then_finds() {
    let mut store = TicketStore::new();
    assert_eq!(execute(&mut store, Request::Insert(draft("kept"))), Reply::Inserted(TicketId { value: 0 }));
    assert_eq!(execute(&mut store, Request::Insert(draft("next"))), Reply::Inserted(TicketId { value: 1 }));
    let expected = Ticket {
        id: TicketId { value: 0 },
        title: "kept".to_string(),
        description: "details".to_string(),
        status: Status::ToDo,
    };
    assert_eq!(execute(&mut store, Request::Get(TicketId { value: 0 })), Reply::Found(Some(expected)));
    assert_eq!(execute(&mut store, Request::Get(TicketId { value: 2 })), Reply::Found(None));
    assert_eq!(store.len(), 2);
}

#[test]
fn worker_does_not_block_on_a_reply_channel_without_room() {
    let mut worker = Worker::new();
    let (tx, rx) = sync_channel(0);
    assert!(worker.step(Some(Command::Insert { draft: draft("a"), response_channel: tx })));
    assert!(rx.try_recv().is_err());
    let (tx2, rx2) = sync_channel(1);
    assert!(worker.step(Some(Command::Get {
        id: TicketId { value: 0 },
        response_channel: tx2
    })));
    assert_eq!(rx2.try_recv().unwrap().unwrap().title, "a");
}
