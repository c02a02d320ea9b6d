//! Opaque-handle registry: the host never reaches a listener directly; at
//! construction it receives a non-zero integer handle, presents it on every
//! call, and surrenders it exactly once at teardown. A slot is issued per
//! construction and never reused, so every handle ever issued is distinct.

use vstd::prelude::*;
use vstd::pervasive::VecAdditionalExecFns;

verus! {

/// Whether a handle designates an occupied slot of the registry state.
pub open spec fn live<T>(s: Seq<Option<T>>, h: u64) -> bool {
    1 <= h as int <= s.len() && s[h as int - 1] is Some
}

/// A registry state `post` is what issuing `h` for `item` on `pre` leaves.
pub open spec fn issued<T>(pre: Seq<Option<T>>, item: T, post: Seq<Option<T>>, h: u64) -> bool {
    post == pre.push(Some(item)) && h as int == pre.len() + 1
}

/// Issues opaque handles for items handed across the host boundary.
pub struct HandleRegistry<T> {
    slots: Vec<Option<T>>,
}

impl<T> View for HandleRegistry<T> {
    type V = Seq<Option<T>>;

    closed spec fn view(&self) -> Seq<Option<T>> {
        self.slots@
    }
}

impl<T> HandleRegistry<T> {
    /// An empty registry: no handle is live.
    pub fn new() -> (r: HandleRegistry<T>)
        ensures
            r@ == Seq::<Option<T>>::empty(),
    {
        HandleRegistry { slots: Vec::new() }
    }

    /// Register an item and issue its handle: non-zero, distinct from every
    /// handle this registry has issued before, and live until destroyed.
    pub fn create(&mut self, item: T) -> (h: u64)
        requires
            old(self)@.len() < u64::MAX,
        ensures
            h != 0,
            issued(old(self)@, item, final(self)@, h),
            live(final(self)@, h),
    {
        self.slots.push(Some(item));
        self.slots.len() as u64
    }

    /// How many handles this registry has issued so far.
    pub fn len(&self) -> (n: usize)
        ensures
            n == self@.len(),
    {
        self.slots.len()
    }

    /// Resolve a handle to its item, without giving up ownership.
    pub fn get(&self, h: u64) -> (r: Option<&T>)
        ensures
            match r {
                Some(t) => live(self@, h) && self@[h as int - 1] == Some(*t),
                None => !live(self@, h),
            },
    {
        if h == 0 || h > self.slots.len() as u64 {
            return None;
        }
        let idx: usize = (h - 1) as usize;
        self.slots[idx].as_ref()
    }

    /// Surrender a handle: removes and returns its item, so the caller can
    /// release the item's resources; the handle is dead afterwards and the
    /// registry is otherwise unchanged.
    pub fn destroy(&mut self, h: u64) -> (r: Option<T>)
        ensures
            live(old(self)@, h) ==> r == old(self)@[h as int - 1] && final(self)@ == old(
                self,
            )@.update(h as int - 1, None),
            !live(old(self)@, h) ==> r is None && final(self)@ == old(self)@,
            !live(final(self)@, h),
            final(self)@.len() == old(self)@.len(),
            forall|g: u64| g != h ==> live(final(self)@, g) == live(old(self)@, g),
    {
        if h == 0 || h > self.slots.len() as u64 {
            return None;
        }
        let idx: usize = (h - 1) as usize;
        let mut taken: Option<T> = None;
        self.slots.set_and_swap(idx, &mut taken);
        taken
    }
}

/// Law: handles are unique — two constructions in a row issue distinct,
/// non-zero handles, and any handle issued later is larger than any issued
/// earlier, so no handle is ever issued twice.
pub proof fn lemma_handle_uniqueness<T>(
    s0: Seq<Option<T>>,
    x: T,
    s1: Seq<Option<T>>,
    h1: u64,
    y: T,
    s2: Seq<Option<T>>,
    h2: u64,
)
    requires
        issued(s0, x, s1, h1),
        issued(s1, y, s2, h2),
    ensures
        h1 != 0,
        h2 != 0,
        h2 as int == h1 as int + 1,
        h1 != h2,
        live(s2, h1),
        live(s2, h2),
{
}

/// Law: a handle encodes the registry's size at its issue, and the size
/// never shrinks (creation grows it, destruction keeps it), so two
/// issuances of one registry at different sizes never repeat a handle.
pub proof fn lemma_no_reissue<T>(
    p1: Seq<Option<T>>,
    x1: T,
    q1: Seq<Option<T>>,
    h1: u64,
    p2: Seq<Option<T>>,
    x2: T,
    q2: Seq<Option<T>>,
    h2: u64,
)
    requires
        issued(p1, x1, q1, h1),
        issued(p2, x2, q2, h2),
        p1.len() != p2.len(),
    ensures
        h1 != h2,
{
}

/// Law: destroying a handle releases exactly its item — the handle is dead
/// afterwards, every other handle is as live as before, and no slot but the
/// surrendered one changes.
pub proof fn lemma_destroy_releases<T>(s: Seq<Option<T>>, h: u64)
    requires
        live(s, h),
    ensures
        !live(s.update(h as int - 1, None), h),
        forall|g: u64| g != h ==> live(s.update(h as int - 1, None), g) == live(s, g),
{
}

} // verus!

