//! The outside channel that carries progress updates from other threads.

use crossbeam_channel::{Receiver, Sender};
use vstd::prelude::*;

verus! {

#[verifier::external_type_specification]
#[verifier::external_body]
#[verifier::reject_recursive_types(T)]
pub struct ExSender<T>(Sender<T>);

#[verifier::external_type_specification]
#[verifier::external_body]
#[verifier::reject_recursive_types(T)]
pub struct ExReceiver<T>(Receiver<T>);

/// Relies on crossbeam_channel::unbounded: a fresh channel with no message
/// in it; nothing more is stated.
pub assume_specification<T>[ crossbeam_channel::unbounded::<T> ]() -> (Sender<T>, Receiver<T>);

/// Relies on crossbeam_channel::Sender's Clone: another handle on the same
/// channel; nothing more is stated.
pub assume_specification<T>[ <Sender<T> as Clone>::clone ](s: &Sender<T>) -> Sender<T>;

} // verus!
