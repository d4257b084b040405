use vstd::prelude::*;
use crate::error::LifecycleError;
use crate::ticket::TicketId;

verus! {

/// The identity that a lifecycle operation runs under.
#[derive(Clone, Copy, Debug)]
pub enum GuardKey {
    /// A caller-supplied idempotency key of a create request.
    Request(u64),
    /// The stored identity of a ticket being deleted.
    Ticket(TicketId),
}

/// The value of a key.
pub enum KeyView {
    Request(u64),
    Ticket(Seq<u8>),
}

impl View for GuardKey {
    type V = KeyView;

    open spec fn view(&self) -> KeyView {
        match self {
            GuardKey::Request(k) => KeyView::Request(*k),
            GuardKey::Ticket(id) => KeyView::Ticket(id@),
        }
    }
}

impl GuardKey {
    /// Whether two keys name the same identity.
    pub fn same(&self, other: &GuardKey) -> (r: bool)
        ensures
            r == (self@ == other@),
    {
        match (self, other) {
            (GuardKey::Request(a), GuardKey::Request(b)) => *a == *b,
            (GuardKey::Ticket(a), GuardKey::Ticket(b)) => a.same(b),
            _ => false,
        }
    }
}

/// Whether an operation under `key` may start while the keys in `active` run.
pub open spec fn admits(active: Set<KeyView>, key: KeyView) -> bool {
    !active.contains(key)
}

/// The identities with an operation in flight; at most one marker per identity.
pub struct LifecycleGuard {
    active: Vec<GuardKey>,
}

impl View for LifecycleGuard {
    type V = Set<KeyView>;

    closed spec fn view(&self) -> Set<KeyView> {
        Set::new(|k: KeyView| exists|i: int| 0 <= i < self.active@.len() && self.active@[i]@ == k)
    }
}

impl LifecycleGuard {
    /// No identity is marked twice.
    pub closed spec fn wf(&self) -> bool {
        forall|i: int, j: int|
            0 <= i < self.active@.len() && 0 <= j < self.active@.len() && i != j
                ==> self.active@[i]@ != self.active@[j]@
    }

    /// A guard with no operation in flight.
    pub fn new() -> (r: LifecycleGuard)
        ensures
            r.wf(),
            r@ == Set::<KeyView>::empty(),
    {
        let r = LifecycleGuard { active: Vec::new() };
        assert(r@ =~= Set::<KeyView>::empty());
        r
    }

    /// Where `key` is marked, if it is.
    fn position(&self, key: &GuardKey) -> (r: Option<usize>)
        ensures
            r is Some ==> r->0 < self.active@.len() && self.active@[r->0 as int]@ == key@,
            r is None ==> !self@.contains(key@),
    {
        let mut i: usize = 0;
        while i < self.active.len()
            invariant
                0 <= i <= self.active@.len(),
                forall|j: int| 0 <= j < i ==> self.active@[j]@ != key@,
            decreases self.active@.len() - i,
        {
            if self.active[i].same(key) {
                return Some(i);
            }
            i = i + 1;
        }
        None
    }

    /// Whether an operation under `key` is in flight.
    pub fn is_active(&self, key: &GuardKey) -> (r: bool)
        ensures
            r == self@.contains(key@),
    {
        self.position(key).is_some()
    }

    /// Marks `key` as in flight, or refuses with `AlreadyInProgress` if it already is.
    pub fn acquire(&mut self, key: GuardKey) -> (r: Result<(), LifecycleError>)
        requires
            old(self).wf(),
        ensures
            final(self).wf(),
            r is Ok <==> admits(old(self)@, key@),
            r is Ok ==> final(self)@ == old(self)@.insert(key@),
            r is Err ==> r == Err::<(), LifecycleError>(LifecycleError::AlreadyInProgress)
                && final(self)@ == old(self)@,
    {
        match self.position(&key) {
            Some(i) => {
                assert(self@.contains(key@));
                Err(LifecycleError::AlreadyInProgress)
            },
            None => {
                let ghost before = self.active@;
                self.active.push(key);
                let ghost after = self.active@;
                assert(after[before.len() as int]@ == key@);
                assert forall|k: KeyView| self@.contains(k) <==> old(self)@.insert(key@).contains(
                    k,
                ) by {
                    if self@.contains(k) {
                        let j = choose|j: int| 0 <= j < after.len() && after[j]@ == k;
                        if j < before.len() {
                            assert(before[j]@ == k);
                        }
                    }
                    if old(self)@.contains(k) {
                        let j = choose|j: int| 0 <= j < before.len() && before[j]@ == k;
                        assert(after[j]@ == k);
                    }
                }
                assert(self@ =~= old(self)@.insert(key@));
                Ok(())
            },
        }
    }

    /// Removes the marker of `key`; does nothing if there is none.
    pub fn release(&mut self, key: &GuardKey)
        requires
            old(self).wf(),
        ensures
            final(self).wf(),
            final(self)@ == old(self)@.remove(key@),
    {
        match self.position(key) {
            Some(i) => {
                let ghost before = self.active@;
                self.active.remove(i);
                let ghost after = self.active@;
                assert(after =~= before.remove(i as int));
                assert forall|k: KeyView| self@.contains(k) <==> old(self)@.remove(key@).contains(
                    k,
                ) by {
                    if self@.contains(k) {
                        let j = choose|j: int| 0 <= j < after.len() && after[j]@ == k;
                        if j < i {
                            assert(before[j]@ == k);
                        } else {
                            assert(before[j + 1]@ == k);
                        }
                    }
                    if old(self)@.remove(key@).contains(k) {
                        let j = choose|j: int| 0 <= j < before.len() && before[j]@ == k;
                        assert(j != i);
                        if j < i {
                            assert(after[j]@ == k);
                        } else {
                            assert(after[j - 1]@ == k);
                        }
                    }
                }
                assert(self@ =~= old(self)@.remove(key@));
            },
            None => {
                assert(self@ =~= old(self)@.remove(key@));
            },
        }
    }
}

} // verus!
