//! The process-wide swap registry: identifier to running-driver handle,
//! guarding the at-most-one-driver-per-swap invariant, and the
//! cooperative-cancellation flag used at graceful shutdown.

use vstd::prelude::*;

use crate::error::SwapError;
use crate::types::{Role, SwapId};

verus! {

/// The registry's entry for one running driver. Cancellation is
/// cooperative: the flag is only ever read by the driver between steps,
/// never enforced mid-action.
#[derive(Clone, Copy, Debug, PartialEq, Eq, Structural)]
pub struct DriverHandle {
    /// The swap the driver works on.
    pub id: SwapId,
    /// Which side's driver it is.
    pub role: Role,
    /// Whether the driver has been asked to suspend at its next safe
    /// point (after its next journal append).
    pub cancel_requested: bool,
}

/// No two handles may drive the same swap.
pub open spec fn ids_unique(s: Seq<DriverHandle>) -> bool {
    forall|i: int, j: int| #![trigger s[i], s[j]] 0 <= i < j < s.len() ==> s[i].id != s[j].id
}

/// The position of the handle for `id`, where one exists.
pub open spec fn idx_of(s: Seq<DriverHandle>, id: SwapId) -> int {
    choose|i: int| 0 <= i < s.len() && s[i].id == id
}

/// The table of running drivers. Creation is atomic: starting a driver
/// for an identifier that already has a running handle is rejected with
/// `DuplicateSwap` and changes nothing.
pub struct SwapRegistry {
    handles: Vec<DriverHandle>,
}

impl View for SwapRegistry {
    type V = Seq<DriverHandle>;

    closed spec fn view(&self) -> Seq<DriverHandle> {
        self.handles@
    }
}

impl SwapRegistry {
    /// The registry's invariant: at most one handle per identifier.
    pub open spec fn wf(&self) -> bool {
        ids_unique(self@)
    }

    /// Whether a driver for `id` is currently running.
    pub open spec fn holds(&self, id: SwapId) -> bool {
        exists|i: int| 0 <= i < self@.len() && (#[trigger] self@[i]).id == id
    }

    /// An empty registry, for a freshly started node.
    pub fn new() -> (r: SwapRegistry)
        ensures
            r.wf(),
            r@ =~= Seq::<DriverHandle>::empty(),
    {
        SwapRegistry { handles: Vec::new() }
    }

    /// How many drivers are running.
    pub fn active_count(&self) -> (n: usize)
        ensures
            n == self@.len(),
    {
        self.handles.len()
    }

    /// Executable form of [`SwapRegistry::holds`].
    pub fn is_active(&self, id: SwapId) -> (r: bool)
        ensures
            r == self.holds(id),
    {
        let mut i: usize = 0;
        while i < self.handles.len()
            invariant
                i <= self@.len(),
                forall|j: int| 0 <= j < i ==> (#[trigger] self@[j]).id != id,
            decreases self@.len() - i,
        {
            if self.handles[i].id == id {
                return true;
            }
            i = i + 1;
        }
        false
    }

    /// Registers a driver for `id`. Exactly when a handle for `id`
    /// already exists the call fails with `DuplicateSwap` and the
    /// registry is unchanged; otherwise the new handle is added with
    /// no cancellation pending.
    pub fn start_driver(&mut self, id: SwapId, role: Role) -> (r: Result<(), SwapError>)
        requires
            old(self).wf(),
        ensures
            final(self).wf(),
            old(self).holds(id) ==> r == Result::<(), SwapError>::Err(SwapError::DuplicateSwap)
                && final(self)@ == old(self)@,
            !old(self).holds(id) ==> r is Ok && final(self)@ == old(self)@.push(
                (DriverHandle { id, role, cancel_requested: false }),
            ),
    {
        if self.is_active(id) {
            Err(SwapError::DuplicateSwap)
        } else {
            self.handles.push(DriverHandle { id, role, cancel_requested: false });
            proof {
                assert forall|i: int, j: int| #![trigger self@[i], self@[j]] 0 <= i < j
                    < self@.len() implies self@[i].id != self@[j].id by {
                    if j == self@.len() - 1 {
                        assert(!old(self).holds(id));
                    }
                }
            }
            Ok(())
        }
    }

    /// Releases the handle for `id`, once its driver has stopped.
    /// Exactly the matching handle is removed; an unknown identifier
    /// changes nothing.
    pub fn finish_driver(&mut self, id: SwapId) -> (r: Result<(), SwapError>)
        requires
            old(self).wf(),
        ensures
            final(self).wf(),
            old(self).holds(id) ==> r is Ok && final(self)@ == old(self)@.remove(
                idx_of(old(self)@, id),
            ),
            !old(self).holds(id) ==> r == Result::<(), SwapError>::Err(SwapError::UnknownSwap)
                && final(self)@ == old(self)@,
    {
        let mut i: usize = 0;
        while i < self.handles.len()
            invariant
                i <= self@.len(),
                self@ == old(self)@,
                ids_unique(self@),
                forall|j: int| 0 <= j < i ==> (#[trigger] self@[j]).id != id,
            decreases self@.len() - i,
        {
            if self.handles[i].id == id {
                proof {
                    let k = idx_of(self@, id);
                    assert(0 <= k < self@.len() && self@[k].id == id);
                    if k != i as int {
                        assert(self@[k].id != self@[i as int].id);
                    }
                }
                self.handles.remove(i);
                proof {
                    assert(ids_unique(final(self)@)) by {
                        assert forall|a: int, b: int|
                            #![trigger final(self)@[a], final(self)@[b]]
                            0 <= a < b < final(self)@.len() implies
                            final(self)@[a].id != final(self)@[b].id by {
                            let s = old(self)@;
                            let a0 = if a < i as int {
                                a
                            } else {
                                a + 1
                            };
                            let b0 = if b < i as int {
                                b
                            } else {
                                b + 1
                            };
                            assert(final(self)@[a] == s[a0]);
                            assert(final(self)@[b] == s[b0]);
                        }
                    }
                }
                return Ok(());
            }
            i = i + 1;
        }
        Err(SwapError::UnknownSwap)
    }

    /// Graceful shutdown: asks every running driver to suspend at its
    /// next safe point. No handle is removed and no driver is killed
    /// mid-action; each sees its flag between steps.
    pub fn request_shutdown(&mut self)
        requires
            old(self).wf(),
        ensures
            final(self).wf(),
            final(self)@.len() == old(self)@.len(),
            forall|i: int| 0 <= i < old(self)@.len() ==> final(self)@[i] == (DriverHandle {
                cancel_requested: true,
                ..old(self)@[i]
            }),
    {
        let mut i: usize = 0;
        while i < self.handles.len()
            invariant
                i <= self@.len(),
                self@.len() == old(self)@.len(),
                forall|j: int| 0 <= j < i ==> self@[j] == (DriverHandle {
                    cancel_requested: true,
                    ..old(self)@[j]
                }),
                forall|j: int| i <= j < self@.len() ==> self@[j] == old(self)@[j],
            decreases self@.len() - i,
        {
            let h = self.handles[i];
            self.handles.set(i, DriverHandle { cancel_requested: true, ..h });
            i = i + 1;
        }
        proof {
            assert forall|a: int, b: int| #![trigger self@[a], self@[b]] 0 <= a < b
                < self@.len() implies self@[a].id != self@[b].id by {
                assert(old(self)@[a].id != old(self)@[b].id);
            }
        }
    }

    /// Whether cancellation is pending for `id`: `None` when no driver
    /// for `id` is running.
    pub fn cancel_state(&self, id: SwapId) -> (r: Option<bool>)
        requires
            self.wf(),
        ensures
            self.holds(id) ==> r == Some(self@[idx_of(self@, id)].cancel_requested),
            !self.holds(id) ==> r is None,
    {
        let mut i: usize = 0;
        while i < self.handles.len()
            invariant
                self.wf(),
                i <= self@.len(),
                forall|j: int| 0 <= j < i ==> (#[trigger] self@[j]).id != id,
            decreases self@.len() - i,
        {
            if self.handles[i].id == id {
                proof {
                    let k = idx_of(self@, id);
                    assert(0 <= k < self@.len() && self@[k].id == id);
                    if k != i as int {
                        assert(self@[k].id != self@[i as int].id);
                    }
                }
                return Some(self.handles[i].cancel_requested);
            }
            i = i + 1;
        }
        None
    }
}

} // verus!
