//! A single-writer, many-reader publication slot for status values.

use std::sync::Arc;
use std::sync::RwLock;
use vstd::prelude::*;

verus! {

#[verifier::external_type_specification]
#[verifier::external_body]
#[verifier::reject_recursive_types(T)]
pub struct ExRwLock<T: ?Sized>(RwLock<T>);

/// Relies on RwLock::new: a fresh lock around the initial value.
#[verifier::external_body]
fn new_lock<T>(v: Option<T>) -> (r: RwLock<Option<T>>) {
    RwLock::new(v)
}

/// Relies on RwLock::read: a copy of the value installed at the moment of reading.
/// Writers never panic while holding the lock, so a poisoned lock still holds a
/// whole value.
#[verifier::external_body]
fn read_lock<T: Clone>(lock: &RwLock<Option<T>>) -> (r: Option<T>) {
    match lock.read() {
        Ok(g) => g.clone(),
        Err(p) => p.into_inner().clone(),
    }
}

/// Relies on RwLock::write: replaces the installed value as a whole.
#[verifier::external_body]
fn write_lock<T>(lock: &RwLock<Option<T>>, v: Option<T>) {
    match lock.write() {
        Ok(mut g) => *g = v,
        Err(p) => *p.into_inner() = v,
    }
}

/// A shared slot holding the latest published value, if any.
///
/// Handles made by `share` use the same slot. Readers get an independent copy of a whole value
/// and never see a partly written one; the slot is only ever touched
/// through the lock, so no value is freed while a reader still uses it.
#[verifier::reject_recursive_types(T)]
pub struct StatusCell<T> {
    slot: Arc<RwLock<Option<T>>>,
}

impl<T> StatusCell<T> {
    /// A cell holding `v` to begin with.
    pub fn new(v: Option<T>) -> (r: StatusCell<T>) {
        StatusCell { slot: Arc::new(new_lock(v)) }
    }

    /// A second handle on the same slot.
    pub fn share(&self) -> (r: StatusCell<T>) {
        StatusCell { slot: self.slot.clone() }
    }

    /// Installs `v` in place of the current value.
    pub fn write(&self, v: Option<T>) {
        write_lock(&*self.slot, v)
    }
}

impl<T: Clone> StatusCell<T> {
    /// A copy of the value currently installed.
    pub fn read(&self) -> (r: Option<T>) {
        read_lock(&*self.slot)
    }
}

} // verus!
