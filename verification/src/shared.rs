//! The one cross-task shared resource: the game-state snapshot behind a
//! verified reader-writer lock. Writers replace the whole snapshot under
//! the exclusive lock and readers copy it out whole under a read handle,
//! so no reader can ever observe a mix of two writes.

use vstd::prelude::*;
use vstd::rwlock::{RwLock, RwLockPredicate};
use crate::message::{Event, event_wf};
use crate::state::GameStateStore;

verus! {

/// The lock's invariant: whatever snapshot is stored is well-formed.
pub struct StoreInv {}

impl RwLockPredicate<Option<GameStateStore>> for StoreInv {
    open spec fn inv(self, v: Option<GameStateStore>) -> bool {
        v matches Some(s) ==> s.wf()
    }
}

/// The shared snapshot, `None` until the first event is applied. Every
/// ingest task updates it through [`SharedStore::apply_event`] and every
/// query task reads it through [`SharedStore::snapshot`]; both go through
/// the lock, so each read reflects one complete prior write.
pub struct SharedStore {
    lock: RwLock<Option<GameStateStore>, StoreInv>,
}

impl SharedStore {
    /// Create the shared snapshot holder, initially empty.
    pub fn new() -> SharedStore {
        SharedStore { lock: RwLock::new(None, Ghost(StoreInv {})) }
    }

    /// Apply one decoded event to the snapshot under the exclusive lock.
    /// The first event turns the empty state into the initial snapshot
    /// before folding itself in; the whole new snapshot is stored in one
    /// critical section.
    pub fn apply_event(&self, e: &Event)
        requires
            event_wf(*e),
    {
        let (val, handle) = self.lock.acquire_write();
        let mut s = match val {
            Some(s) => s,
            None => GameStateStore::new(),
        };
        proof {
            s.lemma_apply_preserves_wf(*e);
        }
        s.apply_event(e);
        handle.release_write(Some(s));
    }

    /// Copy the current snapshot out under a read handle: `None` while no
    /// event has ever been applied, otherwise one complete, well-formed
    /// snapshot.
    pub fn snapshot(&self) -> (r: Option<GameStateStore>)
        ensures
            r matches Some(s) ==> s.wf(),
    {
        let handle = self.lock.acquire_read();
        let r = *handle.borrow();
        handle.release_read();
        r
    }
}

} // verus!
