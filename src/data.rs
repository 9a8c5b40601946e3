//! The records kept by the ticket store.
use vstd::prelude::*;

verus! {

/// Identifier minted by the store when a ticket is added.
#[derive(Clone, Copy, Debug, PartialEq, Eq, Structural, Hash)]
pub struct TicketId {
    pub value: u64,
}

/// What a caller hands over to create a ticket.
#[derive(Debug, PartialEq, Eq)]
pub struct TicketDraft {
    pub title: String,
    pub description: String,
}

#[derive(Clone, Copy, Debug, PartialEq, Eq, Structural)]
pub enum Status {
    ToDo,
    InProgress,
    Done,
}

/// A stored ticket.
#[derive(Debug, PartialEq, Eq)]
pub struct Ticket {
    pub id: TicketId,
    pub title: String,
    pub description: String,
    pub status: Status,
}

/// The ticket that a draft becomes under a given id.
pub open spec fn ticket_from(id: TicketId, draft: TicketDraft) -> Ticket {
    Ticket { id, title: draft.title, description: draft.description, status: Status::ToDo }
}

impl Clone for Ticket {
    fn clone(&self) -> (r: Self)
        ensures
            r == *self,
    {
        Ticket {
            id: self.id,
            title: self.title.clone(),
            description: self.description.clone(),
            status: self.status,
        }
    }
}

} // verus!
