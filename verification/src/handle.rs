//! Handles: shared references to one exclusive-access primitive each.

use std::sync::Arc;
use tokio::sync::{Mutex, OwnedMutexGuard};
use vstd::prelude::*;

verus! {

/// `tokio::sync::Mutex`, the exclusive-access primitive. Nothing inside it
/// is visible here: a value of it is only carried.
#[verifier::external_type_specification]
#[verifier::external_body]
#[verifier::reject_recursive_types(T)]
pub struct ExMutex<T: ?Sized>(Mutex<T>);

/// `tokio::sync::OwnedMutexGuard`, the token of exclusive access: who has
/// it holds the primitive that it was acquired from, and dropping it
/// releases that primitive. A value of it is only carried.
#[verifier::external_type_specification]
#[verifier::external_body]
#[verifier::reject_recursive_types(T)]
pub struct ExOwnedMutexGuard<T: ?Sized>(OwnedMutexGuard<T>);

/// `tokio::sync::Mutex::new`: a new primitive around `payload`, unlocked.
/// Nothing is claimed of the value, so that two of them are never known to be
/// the same.
#[verifier::external_body]
fn unlocked(payload: i32) -> (m: Mutex<i32>) {
    Mutex::new(payload)
}

/// `Arc::clone`: one more reference to the same primitive.
#[verifier::external_body]
fn share(primitive: &Arc<Mutex<i32>>) -> (r: Arc<Mutex<i32>>)
    ensures
        r == *primitive,
{
    Arc::clone(primitive)
}

/// A shared reference to the one primitive of a key.
pub struct LockHandle {
    id: usize,
    primitive: Arc<Mutex<i32>>,
}

impl LockHandle {
    /// The number under which the registry made this handle's primitive.
    pub closed spec fn id_spec(&self) -> usize {
        self.id
    }

    /// The primitive that the handle refers to.
    pub closed spec fn primitive_spec(&self) -> Arc<Mutex<i32>> {
        self.primitive
    }

    /// A handle numbered `id` to a new primitive, which nobody holds.
    pub(crate) fn create(id: usize) -> (h: LockHandle)
        ensures
            h.id_spec() == id,
    {
        LockHandle { id, primitive: Arc::new(unlocked(0)) }
    }

    /// The number under which the registry made this handle's primitive.
    #[verifier::when_used_as_spec(id_spec)]
    pub fn id(&self) -> (r: usize)
        ensures
            r == self.id_spec(),
    {
        self.id
    }

    /// The primitive itself, to acquire and release.
    #[verifier::when_used_as_spec(primitive_spec)]
    pub fn primitive(&self) -> (r: Arc<Mutex<i32>>)
        ensures
            r == self.primitive_spec(),
    {
        share(&self.primitive)
    }
}

impl Clone for LockHandle {
    /// Another handle to the same primitive.
    fn clone(&self) -> (r: LockHandle)
        ensures
            r == *self,
    {
        LockHandle { id: self.id, primitive: share(&self.primitive) }
    }
}

} // verus!
