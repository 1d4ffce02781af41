//! Declarations for the channel types of the tokio crate that the shared
//! state stores and hands around.  The values are opaque to the verifier;
//! the library's contracts track which identifier each send handle was
//! registered under, never what is inside a handle.

use vstd::prelude::*;

use tokio::sync::mpsc::error::SendError;
use tokio::sync::mpsc::UnboundedSender;
use tokio::sync::watch;

verus! {

#[verifier::external_type_specification]
#[verifier::external_body]
#[verifier::reject_recursive_types(T)]
pub struct ExUnboundedSender<T>(UnboundedSender<T>);

#[verifier::external_type_specification]
#[verifier::external_body]
#[verifier::reject_recursive_types(T)]
pub struct ExMpscSendError<T>(SendError<T>);

#[verifier::external_type_specification]
#[verifier::external_body]
#[verifier::reject_recursive_types(T)]
pub struct ExWatchSender<T>(watch::Sender<T>);

#[verifier::external_type_specification]
#[verifier::external_body]
#[verifier::reject_recursive_types(T)]
pub struct ExWatchReceiver<T>(watch::Receiver<T>);

/// Relies on tokio's `UnboundedSender::send`: whether the message is accepted
/// depends on whether the receiving half is still alive, so nothing is
/// promised of the outcome.
pub assume_specification<T>[ UnboundedSender::<T>::send ](
    tx: &UnboundedSender<T>,
    message: T,
) -> Result<(), SendError<T>>;

/// Relies on tokio's `watch::channel`: makes a connected notifier pair.
pub assume_specification<T>[ watch::channel::<T> ](init: T) -> (watch::Sender<T>, watch::Receiver<T>);

/// Relies on tokio's `Clone` for `watch::Sender`: another handle to the same
/// notifier.  Which notifier a handle reaches is not modelled, so nothing is
/// promised of the result.
pub assume_specification<T>[ <watch::Sender<T> as Clone>::clone ](
    tx: &watch::Sender<T>,
) -> watch::Sender<T>;

/// Relies on tokio's `Clone` for `watch::Receiver`: another handle observing
/// the same notifier.  Nothing is promised of the result.
pub assume_specification<T>[ <watch::Receiver<T> as Clone>::clone ](
    rx: &watch::Receiver<T>,
) -> watch::Receiver<T>;

} // verus!
