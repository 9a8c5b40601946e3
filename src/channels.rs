//! An unbounded worker that only ever adds tickets.
use crate::data::{ticket_from, TicketDraft, TicketId};
use crate::store::TicketStore;
use vstd::prelude::*;

verus! {

/// A message for the unbounded worker.
pub enum Command {
    Insert(TicketDraft),
}

/// Carries out one command on the worker's store. An insert into a store
/// that has handed out every id is refused and leaves the store as it was.
pub fn apply(store: &mut TicketStore, command: Command) -> (id: Option<TicketId>)
    requires
        old(store).wf(),
    ensures
        final(store).wf(),
        match command {
            Command::Insert(draft) => match id {
                Some(id) => old(store)@.len() < u64::MAX && id.value == old(store)@.len()
                    && final(store)@ == old(store)@.push(ticket_from(id, draft)),
                None => old(store)@.len() == u64::MAX && final(store)@ == old(store)@,
            },
        },
{
    match command {
        Command::Insert(draft) => {
            if store.has_room() {
                Some(store.add_ticket(draft))
            } else {
                None
            }
        },
    }
}

} // verus!
