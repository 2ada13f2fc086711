//! The wake channel between spawners and idle workers.

use vstd::prelude::*;

verus! {

/// `std::sync::Mutex`.
#[verifier::external_type_specification]
#[verifier::external_body]
#[verifier::reject_recursive_types(T)]
pub struct ExMutex<T: ?Sized>(std::sync::Mutex<T>);

/// `std::sync::MutexGuard`.
#[verifier::external_type_specification]
#[verifier::external_body]
#[verifier::reject_recursive_types(T)]
pub struct ExMutexGuard<'a, T: ?Sized + 'a>(std::sync::MutexGuard<'a, T>);

/// `std::sync::Condvar`.
#[verifier::external_type_specification]
#[verifier::external_body]
pub struct ExCondvar(std::sync::Condvar);

/// A monitor that guards no data. Workers sleep on it when they find no
/// work; a spawner passes through its lock and then signals it.
///
/// A signal is not remembered. The protocol is safe all the same, because a
/// worker looks for work once more while it holds the lock and starts to
/// sleep without letting go of it, and a spawner signals only after it has
/// held the lock itself.
pub struct Notifier {
    lock: std::sync::Mutex<()>,
    signal: std::sync::Condvar,
}

/// `std::sync::PoisonError`, which a lock hands out in place of its guard
/// once a thread has panicked while holding it.
#[verifier::external_type_specification]
#[verifier::external_body]
#[verifier::reject_recursive_types(T)]
pub struct ExPoisonError<T>(std::sync::PoisonError<T>);

/// `Mutex::new`: a lock that nobody holds.
pub assume_specification<T>[ std::sync::Mutex::<T>::new ](value: T) -> (lock: std::sync::Mutex<T>)
;

/// `Condvar::new`: a signal that nobody waits on.
pub assume_specification[ std::sync::Condvar::new ]() -> (signal: std::sync::Condvar)
;

/// `Mutex::lock`: waits for the lock and returns its guard, or the guard
/// inside an error if the lock is poisoned.
pub assume_specification<'a, T: ?Sized>[ std::sync::Mutex::<T>::lock ](
    lock: &'a std::sync::Mutex<T>,
) -> (guard: Result<
    std::sync::MutexGuard<'a, T>,
    std::sync::PoisonError<std::sync::MutexGuard<'a, T>>,
>)
;

/// `Condvar::wait`: gives up the lock and starts to sleep in one step, and
/// returns with the lock held again once a signal, or nothing at all, has
/// ended the sleep. A signal must always be used with one and the same lock;
/// [`Held`] pairs the two.
pub assume_specification<'a, T>[ std::sync::Condvar::wait::<T> ](
    signal: &std::sync::Condvar,
    guard: std::sync::MutexGuard<'a, T>,
) -> (held: Result<
    std::sync::MutexGuard<'a, T>,
    std::sync::PoisonError<std::sync::MutexGuard<'a, T>>,
>)
;

/// `Condvar::notify_one`: ends the sleep of at most one thread that waits on
/// the signal, and does nothing if none waits.
pub assume_specification[ std::sync::Condvar::notify_one ](signal: &std::sync::Condvar)
;

/// `PoisonError::into_inner`: the guard that the error carries.
pub assume_specification<T>[ std::sync::PoisonError::<T>::into_inner ](
    error: std::sync::PoisonError<T>,
) -> (inner: T)
;

/// The guard of a lock, poisoned or not. The notifier's lock guards no data,
/// so a poisoned lock is as good as a sound one: a sound lock's guard is
/// passed on as it is, and a poisoned lock's guard is taken out of the error.
fn guard_of<'a>(
    outcome: Result<
        std::sync::MutexGuard<'a, ()>,
        std::sync::PoisonError<std::sync::MutexGuard<'a, ()>>,
    >,
) -> (guard: std::sync::MutexGuard<'a, ()>)
    ensures
        outcome matches Ok(sound) ==> guard == sound,
{
    match outcome {
        Ok(guard) => guard,
        Err(poisoned) => poisoned.into_inner(),
    }
}

impl Notifier {
    /// A notifier on which nobody sleeps.
    pub(crate) fn new() -> (notifier: Notifier) {
        Notifier { lock: std::sync::Mutex::new(()), signal: std::sync::Condvar::new() }
    }

    /// Wakes at most one sleeping worker. The caller first passes through the
    /// lock, so the signal cannot fall between a worker's last look for work
    /// and the start of its sleep.
    pub(crate) fn wake_one(&self) {
        {
            let _passed = guard_of(self.lock.lock());
        }
        self.signal.notify_one();
    }

    /// Takes the lock. While the result lives no spawner can signal. The
    /// result belongs to this notifier: a sleep that starts from it is a
    /// sleep on this notifier's signal.
    pub(crate) fn enter(&self) -> (held: Held<'_>)
        ensures
            held.notifier() == *self,
    {
        Held { notifier: self, guard: guard_of(self.lock.lock()) }
    }
}

/// The notifier's lock, held. Dropping the value releases the lock.
pub struct Held<'a> {
    notifier: &'a Notifier,
    guard: std::sync::MutexGuard<'a, ()>,
}

impl<'a> Held<'a> {
    /// The notifier whose lock is held.
    pub closed spec fn notifier(&self) -> Notifier {
        *self.notifier
    }

    /// Sleeps until woken. The lock is released only as the sleep begins, so
    /// a spawner that signals after this call was entered does wake a
    /// sleeper.
    pub(crate) fn park(self) {
        let Held { notifier, guard } = self;
        let _held = guard_of(notifier.signal.wait(guard));
    }
}

} // verus!
