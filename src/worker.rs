//! The worker that owns the ticket store and answers requests one at a time.
use crate::bounded::{try_send, Command};
use crate::data::{ticket_from, Ticket, TicketDraft, TicketId};
use crate::store::TicketStore;
use vstd::prelude::*;

verus! {

/// The id the store mints next.
pub open spec fn next_id(tickets: Seq<Ticket>) -> TicketId {
    TicketId { value: tickets.len() as u64 }
}

/// Whether the store can still mint an id.
pub open spec fn has_room(tickets: Seq<Ticket>) -> bool {
    tickets.len() < u64::MAX
}

/// The ticket stored under `id`, if any.
pub open spec fn lookup(tickets: Seq<Ticket>, id: TicketId) -> Option<Ticket> {
    if id.value < tickets.len() {
        Some(tickets[id.value as int])
    } else {
        None
    }
}

/// A request stripped of the channel its reply goes back on.
pub enum Request {
    Insert(TicketDraft),
    Get(TicketId),
}

/// The worker's answer to a request.
#[derive(Debug, PartialEq, Eq)]
pub enum Reply {
    /// The ticket was added under this id.
    Inserted(TicketId),
    /// The store had no id left to mint; nothing was added.
    Refused,
    /// The ticket stored under the requested id, if any.
    Found(Option<Ticket>),
}

/// The request a command carries.
pub open spec fn request_of(command: Command) -> Request {
    match command {
        Command::Insert { draft, .. } => Request::Insert(draft),
        Command::Get { id, .. } => Request::Get(id),
    }
}

/// The store's contents once `request` has been carried out.
pub open spec fn after_request(tickets: Seq<Ticket>, request: Request) -> Seq<Ticket> {
    match request {
        Request::Insert(draft) => if has_room(tickets) {
            tickets.push(ticket_from(next_id(tickets), draft))
        } else {
            tickets
        },
        Request::Get(_) => tickets,
    }
}

/// The reply to `request` from a store holding `tickets`.
pub open spec fn reply_to(tickets: Seq<Ticket>, request: Request) -> Reply {
    match request {
        Request::Insert(_) => if has_room(tickets) {
            Reply::Inserted(next_id(tickets))
        } else {
            Reply::Refused
        },
        Request::Get(id) => Reply::Found(lookup(tickets, id)),
    }
}

/// The store's contents once `requests` have been carried out in order.
pub open spec fn after_requests(tickets: Seq<Ticket>, requests: Seq<Request>) -> Seq<Ticket>
    decreases requests.len(),
{
    if requests.len() == 0 {
        tickets
    } else {
        after_request(after_requests(tickets, requests.drop_last()), requests.last())
    }
}

/// Carrying out requests in order only ever appends to the store: what the
/// first `i` requests left stands unchanged after the first `j`.
pub proof fn lemma_prefix_kept(tickets: Seq<Ticket>, requests: Seq<Request>, i: int, j: int)
    requires
        0 <= i <= j <= requests.len(),
    ensures
        after_requests(tickets, requests.take(i)).len() <= after_requests(
            tickets,
            requests.take(j),
        ).len(),
        after_requests(tickets, requests.take(j)).take(
            after_requests(tickets, requests.take(i)).len() as int,
        ) == after_requests(tickets, requests.take(i)),
    decreases j - i,
{
    let before = after_requests(tickets, requests.take(i));
    if i < j {
        lemma_prefix_kept(tickets, requests, i, j - 1);
        assert(requests.take(j).drop_last() =~= requests.take(j - 1));
        let mid = after_requests(tickets, requests.take(j - 1));
        let last = after_requests(tickets, requests.take(j));
        assert(last == after_request(mid, requests[j - 1]));
        assert(last.take(before.len() as int) =~= before);
    } else {
        assert(before.take(before.len() as int) =~= before);
    }
}

/// The store's contents after the first `i + 1` requests are those after the
/// first `i`, changed by request `i` alone.
proof fn lemma_take_step(tickets: Seq<Ticket>, requests: Seq<Request>, i: int)
    requires
        0 <= i < requests.len(),
    ensures
        after_requests(tickets, requests.take(i + 1)) == after_request(
            after_requests(tickets, requests.take(i)),
            requests[i],
        ),
{
    assert(requests.take(i + 1).drop_last() =~= requests.take(i));
}

/// Every insert that is carried out mints an id no earlier insert minted:
/// two carried-out inserts at positions `i < j` are answered with different ids.
pub proof fn lemma_ids_unique(tickets: Seq<Ticket>, requests: Seq<Request>, i: int, j: int)
    requires
        0 <= i < j < requests.len(),
        requests[i] is Insert,
        requests[j] is Insert,
        has_room(after_requests(tickets, requests.take(i))),
        has_room(after_requests(tickets, requests.take(j))),
    ensures
        next_id(after_requests(tickets, requests.take(i))) != next_id(
            after_requests(tickets, requests.take(j)),
        ),
        reply_to(after_requests(tickets, requests.take(i)), requests[i]) != reply_to(
            after_requests(tickets, requests.take(j)),
            requests[j],
        ),
{
    lemma_take_step(tickets, requests, i);
    lemma_prefix_kept(tickets, requests, i + 1, j);
}

/// Once the insert at position `i` is carried out, every request taken after
/// it finds the inserted ticket under the id minted for it, and a later `Get`
/// of that id is answered with that ticket.
pub proof fn lemma_insert_visible_later(
    tickets: Seq<Ticket>,
    requests: Seq<Request>,
    i: int,
    j: int,
)
    requires
        0 <= i < j < requests.len(),
        requests[i] is Insert,
        has_room(after_requests(tickets, requests.take(i))),
    ensures
        ({
            let id = next_id(after_requests(tickets, requests.take(i)));
            let ticket = ticket_from(id, requests[i]->Insert_0);
            &&& reply_to(after_requests(tickets, requests.take(i)), requests[i])
                == Reply::Inserted(id)
            &&& lookup(after_requests(tickets, requests.take(j)), id) == Some(ticket)
            &&& requests[j] == Request::Get(id) ==> reply_to(
                after_requests(tickets, requests.take(j)),
                requests[j],
            ) == Reply::Found(Some(ticket))
        }),
{
    let before = after_requests(tickets, requests.take(i));
    let id = next_id(before);
    lemma_take_step(tickets, requests, i);
    let inserted = after_requests(tickets, requests.take(i + 1));
    assert(inserted[id.value as int] == ticket_from(id, requests[i]->Insert_0));
    lemma_prefix_kept(tickets, requests, i + 1, j);
    let later = after_requests(tickets, requests.take(j));
    assert(later.take(inserted.len() as int)[id.value as int] == later[id.value as int]);
}

/// Carries out one request on the store and gives its reply.
pub fn execute(store: &mut TicketStore, request: Request) -> (reply: Reply)
    requires
        old(store).wf(),
    ensures
        final(store).wf(),
        final(store)@ == after_request(old(store)@, request),
        reply == reply_to(old(store)@, request),
{
    match request {
        Request::Insert(draft) => {
            if store.has_room() {
                Reply::Inserted(store.add_ticket(draft))
            } else {
                Reply::Refused
            }
        },
        Request::Get(id) => {
            let found = match store.get(id) {
                Some(t) => Some(t.clone()),
                None => None,
            };
            Reply::Found(found)
        },
    }
}

/// The worker: running while it owns a store, terminated once it has let it go.
///
/// `history` holds the requests it has carried out, in order, and `replies`
/// the reply it gave to each.
pub struct Worker {
    store: Option<TicketStore>,
    history: Ghost<Seq<Request>>,
    replies: Ghost<Seq<Reply>>,
}

impl Worker {
    /// The store is what the requests carried out so far make of an empty
    /// one, and each reply is the one due to its request at its turn.
    pub closed spec fn wf(&self) -> bool {
        &&& self.store matches Some(s) ==> s.wf() && s@ == after_requests(
            Seq::empty(),
            self.history@,
        )
        &&& self.replies@.len() == self.history@.len()
        &&& forall|k: int|
            0 <= k < self.history@.len() ==> #[trigger] self.replies@[k] == reply_to(
                after_requests(Seq::empty(), self.history@.take(k)),
                self.history@[k],
            )
    }

    pub closed spec fn is_running(&self) -> bool {
        self.store is Some
    }

    /// The tickets the worker holds; none once it has terminated.
    pub closed spec fn tickets(&self) -> Seq<Ticket> {
        match self.store {
            Some(s) => s@,
            None => Seq::empty(),
        }
    }

    /// The requests carried out so far, in the order they were taken.
    pub closed spec fn history(&self) -> Seq<Request> {
        self.history@
    }

    /// The replies given so far, one for each request carried out.
    pub closed spec fn replies(&self) -> Seq<Reply> {
        self.replies@
    }

    /// A running worker with an empty store.
    pub fn new() -> (w: Self)
        ensures
            w.wf(),
            w.is_running(),
            w.tickets() == Seq::<Ticket>::empty(),
            w.history() == Seq::<Request>::empty(),
            w.replies() == Seq::<Reply>::empty(),
    {
        Worker {
            store: Some(TicketStore::new()),
            history: Ghost(Seq::empty()),
            replies: Ghost(Seq::empty()),
        }
    }

    pub fn is_running_now(&self) -> (b: bool)
        ensures
            b == self.is_running(),
    {
        self.store.is_some()
    }

    /// Reacts to the next event of the request channel: a command, or `None`
    /// when every client is gone and nothing is left to take. A running worker
    /// carries the command out and gives it exactly one reply, offered on its
    /// channel without blocking (a caller that left misses it); a refused
    /// insert gets its channel closed instead. `None` terminates the worker
    /// and releases the store; a terminated worker stays so and drops
    /// commands. Returns whether the worker is still running.
    pub fn step(&mut self, event: Option<Command>) -> (running: bool)
        requires
            old(self).wf(),
        ensures
            final(self).wf(),
            running == final(self).is_running(),
            !old(self).is_running() ==> !final(self).is_running() && final(self).history()
                == old(self).history() && final(self).replies() == old(self).replies(),
            old(self).is_running() ==> match event {
                None => !final(self).is_running() && final(self).history() == old(
                    self,
                ).history() && final(self).replies() == old(self).replies(),
                Some(command) => {
                    &&& final(self).is_running()
                    &&& final(self).tickets() == after_request(
                        old(self).tickets(),
                        request_of(command),
                    )
                    &&& final(self).history() == old(self).history().push(request_of(command))
                    &&& final(self).replies() == old(self).replies().push(
                        reply_to(old(self).tickets(), request_of(command)),
                    )
                },
            },
    {
        let store = self.store.take();
        match store {
            None => false,
            Some(mut store) => match event {
                None => false,
                Some(command) => {
                    let ghost request = request_of(command);
                    let ghost mut given = Reply::Refused;
                    match command {
                        Command::Insert { draft, response_channel } => {
                            let reply = execute(&mut store, Request::Insert(draft));
                            proof {
                                given = reply;
                            }
                            match reply {
                                Reply::Inserted(id) => {
                                    try_send(&response_channel, id);
                                },
                                _ => {},
                            }
                        },
                        Command::Get { id, response_channel } => {
                            let reply = execute(&mut store, Request::Get(id));
                            proof {
                                given = reply;
                            }
                            match reply {
                                Reply::Found(found) => {
                                    try_send(&response_channel, found);
                                },
                                _ => {},
                            }
                        },
                    }
                    proof {
                        let old_history = self.history@;
                        let history = old_history.push(request);
                        assert(history.drop_last() =~= old_history);
                        assert forall|k: int| 0 <= k < old_history.len() implies #[trigger] history.take(k)
                            == old_history.take(k) by {
                            assert(history.take(k) =~= old_history.take(k));
                        }
                        assert(history.take(old_history.len() as int) =~= old_history);
                    }
                    self.history = Ghost(self.history@.push(request));
                    self.replies = Ghost(self.replies@.push(given));
                    self.store = Some(store);
                    true
                },
            },
        }
    }
}

/// Of two inserts that a worker carried out, the later is answered with an
/// id different from the earlier one's.
pub proof fn lemma_worker_ids_unique(w: &Worker, i: int, j: int)
    requires
        w.wf(),
        0 <= i < j < w.replies().len(),
        w.replies()[i] is Inserted,
        w.replies()[j] is Inserted,
    ensures
        w.replies()[i] != w.replies()[j],
{
    let h = w.history();
    assert(w.replies()[i] == reply_to(after_requests(Seq::empty(), h.take(i)), h[i]));
    assert(w.replies()[j] == reply_to(after_requests(Seq::empty(), h.take(j)), h[j]));
    lemma_ids_unique(Seq::empty(), h, i, j);
}

/// A `Get` that a worker carried out after an insert, of the id that insert
/// was answered with, is answered with the ticket that insert added, however
/// many requests came between.
pub proof fn lemma_worker_get_sees_insert(w: &Worker, i: int, k: int)
    requires
        w.wf(),
        0 <= i < k < w.replies().len(),
        w.replies()[i] is Inserted,
        w.history()[k] == Request::Get(w.replies()[i]->Inserted_0),
    ensures
        w.replies()[k] == Reply::Found(
            Some(ticket_from(w.replies()[i]->Inserted_0, w.history()[i]->Insert_0)),
        ),
{
    let h = w.history();
    assert(w.replies()[i] == reply_to(after_requests(Seq::empty(), h.take(i)), h[i]));
    assert(w.replies()[k] == reply_to(after_requests(Seq::empty(), h.take(k)), h[k]));
    lemma_insert_visible_later(Seq::empty(), h, i, k);
}

} // verus!
