//! The unit of work that the scheduler moves around.

use vstd::prelude::*;

verus! {

/// A task: a closure without arguments and without a result, owned outright
/// and consumed by the one call that runs it.
///
/// The scheduler never looks inside a task; it only passes it from the
/// spawning caller to the worker that claims it. The closure type carries two
/// bounds, which Verus does not model, so the field is opaque to the verifier.
/// Whoever receives a task runs it by calling `job`, which consumes it.
#[verifier::external_body]
pub struct Task {
    pub job: Box<dyn FnOnce() + Send + 'static>,
}

/// Boxes a closure as a [`Task`] through `Box::new`. Nothing is claimed about
/// the result: the closure is not run and its effect is unknown here.
#[verifier::external_body]
pub(crate) fn boxed<F>(f: F) -> (task: Task) where F: FnOnce() + Send + 'static {
    Task { job: Box::new(f) }
}

} // verus!
