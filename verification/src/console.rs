use std::ops::DerefMut;
use vstd::prelude::*;
use spin::{Mutex, MutexGuard};
use crate::writer::Writer;

verus! {

/// `spin::Mutex`, a lock around a value. It is taken by trying again and
/// again until it is free. Nothing of its inside is visible to the verifier.
#[verifier::external_type_specification]
#[verifier::external_body]
#[verifier::reject_recursive_types(T)]
pub struct ExMutex<T: ?Sized>(Mutex<T>);

/// `spin::MutexGuard`, which stands for a lock that is held and gives it
/// back when it is dropped. Nothing of its inside is visible to the verifier.
#[verifier::external_type_specification]
#[verifier::external_body]
#[verifier::reject_recursive_types(T)]
pub struct ExMutexGuard<'a, T: ?Sized + 'a>(MutexGuard<'a, T>);

/// `Mutex::lock`. It takes the lock and hands back the guard that holds it.
/// While another guard of the same lock is alive it does not return; that
/// includes a guard held further up on the caller's own path. Nothing is
/// claimed of the writer inside: another holder may have written to it since
/// it was last seen.
#[verifier::external_body]
fn acquire<'a>(console: &'a Mutex<Writer>) -> (guard: MutexGuard<'a, Writer>) {
    console.lock()
}

/// `MutexGuard::deref_mut`. It hands out the writer that the held lock
/// protects, for as long as the guard is borrowed. Nothing is claimed of it.
#[verifier::external_body]
fn held<'a, 'b>(guard: &'b mut MutexGuard<'a, Writer>) -> (writer: &'b mut Writer) {
    guard.deref_mut()
}

/// Writes `text` to the shared console in one piece: takes the console's
/// lock, writes every byte of the text as [`Writer::write_string`] does, and
/// gives the lock back when done.
///
/// What the console shows afterwards is what `write_string` makes of what it
/// showed when the lock was taken. That state lives behind the lock, where
/// other holders change it between two calls, so it is stated on
/// `write_string` and not here.
///
/// The call does not return while the lock is held elsewhere. A caller that
/// holds the console's lock itself must give it back first.
pub fn _print(console: &Mutex<Writer>, text: &str) {
    let mut guard = acquire(console);
    let writer = held(&mut guard);
    writer.write_string(text);
}

} // verus!
