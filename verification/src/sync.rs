//! The pieces of `std::sync` that tasks are built on: shared ownership and the lock round a
//! task's state.
//!
//! What a lock holds changes behind a shared reference, so no contract says what it holds. A
//! contract speaks instead of the reference through which a critical section reached the content:
//! [`guards`] says which lock that reference came out of. Like [`made_round`] and [`poisoned`] it
//! says that the arguments and the result of an outside call are a pair that the call can give.
//! Nothing is claimed anywhere that would make one of them follow without such a call, so only code
//! that makes the call can prove one.
use std::sync::Arc;
use std::sync::Mutex;
use std::sync::MutexGuard;
use vstd::prelude::*;

verus! {

/// `std::sync::Mutex`, taken as opaque.
#[verifier::external_type_specification]
#[verifier::external_body]
#[verifier::reject_recursive_types(T)]
pub struct ExMutex<T: ?Sized>(Mutex<T>);

/// `std::sync::MutexGuard`, taken as opaque.
#[verifier::external_type_specification]
#[verifier::external_body]
#[verifier::reject_recursive_types(T)]
pub struct ExMutexGuard<'a, T: ?Sized + 'a>(MutexGuard<'a, T>);

/// `Arc::clone`: another pointer to the same allocation.
#[verifier::external_body]
pub(crate) fn share<S>(shared: &Arc<S>) -> (r: Arc<S>)
    ensures
        r == *shared,
{
    Arc::clone(shared)
}

/// `Mutex::new`: an unlocked mutex round `content`. Nothing is claimed of the result itself;
/// [`made_round`] ties it to the content it was made with.
#[verifier::external_body]
fn mutex_new<S>(content: S) -> (r: Mutex<S>) {
    Mutex::new(content)
}

/// `Mutex::lock`: waits for the lock and returns its guard, or `None` where an earlier holder
/// panicked. Which of the two comes, and when, rests with the other holders, so nothing is claimed
/// of the result. A thread that holds the lock already must not ask for it again; no clause says
/// so, because which thread holds a lock is not part of its value.
#[verifier::external_body]
fn mutex_lock<'a, S>(mutex: &'a Mutex<S>) -> (r: Option<MutexGuard<'a, S>>) {
    match mutex.lock() {
        Ok(guard) => Some(guard),
        Err(_) => None,
    }
}

/// `MutexGuard::deref_mut`: the way to the content of the locked mutex. What the content is rests
/// with its earlier holders, so nothing is claimed of it.
#[verifier::external_body]
fn guard_content<'a, S>(guard: &'a mut MutexGuard<'_, S>) -> (r: &'a mut S) {
    std::ops::DerefMut::deref_mut(guard)
}

/// `mutex` is what [`mutex_new`] can make of `content`. Nothing but making it so lets it be proved.
pub closed spec fn made_round<S>(mutex: Mutex<S>, content: S) -> bool {
    call_ensures(mutex_new::<S>, (content,), mutex)
}

/// Locking `mutex` can give a guard through which `content` is the way to what the mutex holds.
/// Nothing but locking it and going that way lets it be proved.
pub closed spec fn guards<S>(mutex: Mutex<S>, content: &mut S) -> bool {
    exists|guard: &mut MutexGuard<'_, S>|
        call_ensures(mutex_lock::<S>, (&mutex,), Some(*guard)) && #[trigger] call_ensures(
            guard_content::<S>,
            (guard,),
            content,
        )
}

/// An attempt to lock `mutex` can find that an earlier holder panicked. Nothing but an attempt that
/// found so lets it be proved.
pub closed spec fn poisoned<S>(mutex: Mutex<S>) -> bool {
    call_ensures(mutex_lock::<S>, (&mutex,), None)
}

/// An unlocked mutex round `content`.
pub(crate) fn new_mutex<S>(content: S) -> (r: Mutex<S>)
    ensures
        made_round(r, content),
{
    mutex_new(content)
}

/// Runs `critical` on the content of `mutex` while holding the lock, and on what it is to work
/// `with`; `None` where the mutex is poisoned. What `critical` gets is `lent`, a reborrow of the
/// way into the mutex. It borrows nothing from its surroundings, so it cannot reach the lock again.
pub(crate) fn with_lock<S, A, R, G: FnOnce(&mut S, A) -> R + 'static>(
    mutex: &Mutex<S>,
    with: A,
    critical: G,
) -> (r: Option<R>)
    requires
        forall|content: &mut S| #[trigger] critical.requires((content, with)),
    ensures
        r is None ==> poisoned(*mutex),
        r is Some ==> exists|content: &mut S, lent: &mut S| #[trigger]
            guards(*mutex, content) && *lent == *content && *final(lent) == *final(content)
                && #[trigger] critical.ensures((lent, with), r->0),
{
    match mutex_lock(mutex) {
        None => None,
        Some(guard) => {
            let mut guard = guard;
            let content = guard_content(&mut guard);
            let ghost reached = content;
            assert(guards(*mutex, reached));
            let result = critical(content, with);
            assert(exists|lent: &mut S|
                *lent == *reached && *final(lent) == *final(reached) && #[trigger] critical.ensures(
                    (lent, with),
                    result,
                ));
            let r = Some(result);
            assert(r->0 == result);
            r
        },
    }
}

} // verus!
