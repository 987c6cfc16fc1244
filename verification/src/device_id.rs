//! The device id that the site gives this client, shared by every clone.

use vstd::prelude::*;
use std::sync::{Arc, Mutex};
use crate::text::str_equal;

verus! {

#[verifier::external_type_specification]
#[verifier::external_body]
#[verifier::reject_recursive_types(T)]
pub struct ExMutex<T: ?Sized>(Mutex<T>);

/// `Mutex::new`: a lock around `value`. The lock is opaque: nothing is
/// stated of what it holds.
#[verifier::external_body]
fn new_slot(value: Option<String>) -> Mutex<Option<String>> {
    Mutex::new(value)
}

/// `Mutex::lock` followed by a clone of the value held. What comes back is
/// whatever the last store put there, which depends on every holder of the
/// shared lock, so nothing is stated of it. The lock is only poisoned when a
/// holder panics while holding it, which the functions here never do.
#[verifier::external_body]
fn load_slot(slot: &Mutex<Option<String>>) -> Option<String> {
    slot.lock().unwrap().clone()
}

/// `Mutex::lock` followed by a store of `value`. Nothing is stated of the
/// effect, which only a later load can observe.
#[verifier::external_body]
fn store_slot(slot: &Mutex<Option<String>>, value: Option<String>) {
    *slot.lock().unwrap() = value;
}

/// `Arc::clone`: another pointer to the same allocation, which Verus sees as
/// the same value.
#[verifier::external_body]
fn share_slot(slot: &Arc<Mutex<Option<String>>>) -> (r: Arc<Mutex<Option<String>>>)
    ensures
        r == *slot,
{
    Arc::clone(slot)
}

/// A device id slot; clones share one slot.
#[derive(Debug)]
pub struct DeviceId(Arc<Mutex<Option<String>>>);

impl Clone for DeviceId {
    /// Another handle on the same slot.
    fn clone(&self) -> (r: DeviceId)
        ensures
            r == *self,
    {
        DeviceId(share_slot(&self.0))
    }
}

impl Default for DeviceId {
    /// A fresh slot holding no id.
    fn default() -> (r: DeviceId) {
        DeviceId(Arc::new(new_slot(None)))
    }
}

/// Whether two optional ids are equal.
pub open spec fn same_id(a: Option<Seq<char>>, b: Option<Seq<char>>) -> bool {
    a == b
}

impl DeviceId {
    /// A copy of the id currently held.
    pub fn get_cloned(&self) -> (r: Option<String>) {
        load_slot(&self.0)
    }

    /// Stores `device_id` for every clone of this slot.
    pub fn set(&self, device_id: Option<String>) {
        store_slot(&self.0, device_id)
    }

    /// Whether two optional ids hold the same text.
    pub fn ids_equal(a: &Option<String>, b: &Option<String>) -> (r: bool)
        ensures
            r == same_id(a.deep_view(), b.deep_view()),
    {
        match (a, b) {
            (Some(x), Some(y)) => str_equal(x.as_str(), y.as_str()),
            (None, None) => true,
            _ => false,
        }
    }
}

impl PartialEq for DeviceId {
    fn eq(&self, other: &Self) -> (r: bool) {
        let mine = self.get_cloned();
        let theirs = other.get_cloned();
        DeviceId::ids_equal(&mine, &theirs)
    }
}

impl vstd::std_specs::cmp::PartialEqSpecImpl for DeviceId {
    open spec fn obeys_eq_spec() -> bool {
        false
    }

    open spec fn eq_spec(&self, other: &DeviceId) -> bool {
        true
    }
}

impl Eq for DeviceId {}

} // verus!
