//! An in-memory ticket store whose ids are the positions of the tickets.
use crate::data::{ticket_from, Status, Ticket, TicketDraft, TicketId};
use vstd::prelude::*;

verus! {

/// Tickets in the order they were added; the ticket at position `i` has id `i`.
pub struct TicketStore {
    tickets: Vec<Ticket>,
}

impl View for TicketStore {
    type V = Seq<Ticket>;

    closed spec fn view(&self) -> Seq<Ticket> {
        self.tickets@
    }
}

impl TicketStore {
    /// Every ticket carries its own position as id and is still to do.
    pub closed spec fn wf(&self) -> bool {
        &&& self.tickets@.len() <= u64::MAX
        &&& forall|i: int|
            0 <= i < self.tickets@.len() ==> (#[trigger] self.tickets@[i]).id.value == i
                && self.tickets@[i].status == Status::ToDo
    }

    pub fn new() -> (s: Self)
        ensures
            s.wf(),
            s@ == Seq::<Ticket>::empty(),
    {
        TicketStore { tickets: Vec::new() }
    }

    /// Number of tickets held.
    pub fn len(&self) -> (n: usize)
        ensures
            n == self@.len(),
    {
        self.tickets.len()
    }

    /// Whether the store can mint one more id.
    pub fn has_room(&self) -> (b: bool)
        requires
            self.wf(),
        ensures
            b == (self@.len() < u64::MAX),
            self@.len() <= u64::MAX,
    {
        (self.tickets.len() as u64) < u64::MAX
    }

    /// Adds a ticket built from `draft` and returns the id minted for it,
    /// which is the number of tickets held before the call.
    pub fn add_ticket(&mut self, draft: TicketDraft) -> (id: TicketId)
        requires
            old(self).wf(),
            old(self)@.len() < u64::MAX,
        ensures
            final(self).wf(),
            id.value == old(self)@.len(),
            final(self)@ == old(self)@.push(ticket_from(id, draft)),
    {
        let id = TicketId { value: self.tickets.len() as u64 };
        let ticket = Ticket {
            id,
            title: draft.title,
            description: draft.description,
            status: Status::ToDo,
        };
        self.tickets.push(ticket);
        id
    }

    /// The ticket with the given id, if one was added under it.
    pub fn get(&self, id: TicketId) -> (r: Option<&Ticket>)
        requires
            self.wf(),
        ensures
            match r {
                Some(t) => id.value < self@.len() && *t == self@[id.value as int],
                None => id.value >= self@.len(),
            },
            r is None <==> forall|i: int| 0 <= i < self@.len() ==> #[trigger] self@[i].id != id,
    {
        if (id.value as u128) < (self.tickets.len() as u128) {
            Some(&self.tickets[id.value as usize])
        } else {
            None
        }
    }
}

} // verus!
