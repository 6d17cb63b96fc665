use vstd::prelude::*;
use crate::message::Pending;

verus! {

#[verifier::external_type_specification]
#[verifier::external_body]
#[verifier::reject_recursive_types(T)]
pub struct ExSlab<T>(slab::Slab<T>);

/// The entries a slab currently holds, as a map from live key to stored value.
pub uninterp spec fn slab_entries(s: slab::Slab<Pending>) -> Map<usize, Pending>;

/// The contents of a registry that holds nothing.
pub open spec fn no_entries() -> Map<usize, Pending> {
    Map::empty()
}

/// Relies on slab::Slab::new: the new slab holds no entries.
#[verifier::external_body]
fn slab_new() -> (created: slab::Slab<Pending>)
    ensures
        slab_entries(created) == no_entries(),
{
    slab::Slab::new()
}

/// Relies on slab::Slab::insert: the value is stored under a key that was
/// vacant before the call, and no other entry moves or changes.
#[verifier::external_body]
fn slab_insert(s: &mut slab::Slab<Pending>, value: Pending) -> (key: usize)
    ensures
        !slab_entries(*old(s)).dom().contains(key),
        slab_entries(*final(s)) == slab_entries(*old(s)).insert(key, value),
{
    s.insert(value)
}

/// Relies on slab::Slab::try_remove: removes and returns the entry under the
/// key if one is present, returns None otherwise, and leaves every other
/// entry in place under its own key.
#[verifier::external_body]
fn slab_try_remove(s: &mut slab::Slab<Pending>, key: usize) -> (removed: Option<Pending>)
    ensures
        slab_entries(*final(s)) == slab_entries(*old(s)).remove(key),
        removed == (if slab_entries(*old(s)).dom().contains(key) {
            Some(slab_entries(*old(s))[key])
        } else {
            None::<Pending>
        }),
{
    s.try_remove(key)
}

/// Relies on slab::Slab::contains: reports whether an entry is associated
/// with the key.
#[verifier::external_body]
fn slab_contains(s: &slab::Slab<Pending>, key: usize) -> (present: bool)
    ensures
        present == slab_entries(*s).dom().contains(key),
{
    s.contains(key)
}

/// Relies on slab::Slab::get: returns the entry under the key if one is
/// present, without removing it.
#[verifier::external_body]
fn slab_get_copied(s: &slab::Slab<Pending>, key: usize) -> (entry: Option<Pending>)
    ensures
        entry == (if slab_entries(*s).dom().contains(key) {
            Some(slab_entries(*s)[key])
        } else {
            None::<Pending>
        }),
{
    s.get(key).copied()
}

/// An indexed pool of pending messages. Inserting assigns a stable small
/// integer token; removal by token is silent when the token is unknown
/// (already fired or already cancelled), and removing one entry never
/// renumbers the others.
pub struct Registry {
    slots: slab::Slab<Pending>,
}

impl View for Registry {
    type V = Map<usize, Pending>;

    closed spec fn view(&self) -> Map<usize, Pending> {
        slab_entries(self.slots)
    }
}

impl Registry {
    pub fn new() -> (r: Registry)
        ensures
            r@ == no_entries(),
    {
        Registry { slots: slab_new() }
    }

    /// Stores a pending message and returns the fresh token for it.
    pub fn insert(&mut self, value: Pending) -> (token: usize)
        ensures
            !old(self)@.dom().contains(token),
            final(self)@ == old(self)@.insert(token, value),
    {
        slab_insert(&mut self.slots, value)
    }

    /// Removes and returns the entry under the token; a no-op returning
    /// None when the token is unknown.
    pub fn remove(&mut self, token: usize) -> (removed: Option<Pending>)
        ensures
            final(self)@ == old(self)@.remove(token),
            removed == (if old(self)@.dom().contains(token) {
                Some(old(self)@[token])
            } else {
                None::<Pending>
            }),
    {
        slab_try_remove(&mut self.slots, token)
    }

    pub fn contains(&self, token: usize) -> (present: bool)
        ensures
            present == self@.dom().contains(token),
    {
        slab_contains(&self.slots, token)
    }

    /// Returns a copy of the entry under the token without consuming it:
    /// the clone-on-fire lookup used for recurring entries.
    pub fn get_and_clone(&self, token: usize) -> (entry: Option<Pending>)
        ensures
            entry == (if self@.dom().contains(token) {
                Some(self@[token])
            } else {
                None::<Pending>
            }),
    {
        slab_get_copied(&self.slots, token)
    }
}

} // verus!
