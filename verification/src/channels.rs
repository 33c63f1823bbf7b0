//! Declarations of the outside channel and payload types the registry works
//! with, and the trusted wrappers around the few channel operations it needs.
//!
//! Everything here is taken on trust: the wrappers' bodies make single calls
//! into `tokio` and their contracts state only what tokio's documentation
//! promises. All registry logic built on top of them is verified.

use vstd::prelude::*;

use drmem_api::{device, driver};
use tokio::sync::{broadcast, mpsc, oneshot};

verus! {

#[verifier::external_type_specification]
#[verifier::external_body]
#[verifier::reject_recursive_types(T)]
pub struct ExBroadcastSender<T>(broadcast::Sender<T>);

#[verifier::external_type_specification]
#[verifier::external_body]
#[verifier::reject_recursive_types(T)]
pub struct ExMpscSender<T>(mpsc::Sender<T>);

#[verifier::external_type_specification]
#[verifier::external_body]
#[verifier::reject_recursive_types(T)]
pub struct ExMpscReceiver<T>(mpsc::Receiver<T>);

#[verifier::external_type_specification]
#[verifier::external_body]
#[verifier::reject_recursive_types(T)]
pub struct ExOneshotSender<T>(oneshot::Sender<T>);

#[verifier::external_type_specification]
#[verifier::external_body]
pub struct ExDeviceValue(device::Value);

#[verifier::external_type_specification]
#[verifier::external_body]
pub struct ExDrmemError(drmem_api::Error);

/// Relies on `tokio::sync::broadcast::channel`: allocates a broadcast channel
/// whose subscribers each buffer up to `capacity` undelivered values (older
/// ones are dropped first) and returns its send half. The receive half is
/// dropped here; subscribers attach later through the sender. The call panics
/// when `capacity` is 0 or above `usize::MAX / 2`, so those are excluded.
#[verifier::external_body]
pub(crate) fn new_value_channel(capacity: usize) -> (tx: broadcast::Sender<device::Value>)
    requires
        1 <= capacity <= usize::MAX / 2,
{
    let (tx, _) = broadcast::channel(capacity);
    tx
}

/// Relies on `tokio::sync::broadcast::Sender::clone`: the clone feeds the
/// same channel, so the registry and the requesting driver can each hold a
/// send half while the channel outlives both.
#[verifier::external_body]
pub(crate) fn clone_value_sender(
    tx: &broadcast::Sender<device::Value>,
) -> (r: broadcast::Sender<device::Value>) {
    tx.clone()
}

/// Relies on `tokio::sync::mpsc::channel`: allocates a bounded queue holding
/// up to `capacity` pending setting requests and returns its send and receive
/// halves. The call panics when `capacity` is 0 or above the semaphore's
/// maximum number of permits, `usize::MAX >> 3`, so those are excluded.
#[verifier::external_body]
pub(crate) fn new_setting_channel(
    capacity: usize,
) -> (r: (driver::TxDeviceSetting, driver::RxDeviceSetting))
    requires
        1 <= capacity <= usize::MAX >> 3,
{
    mpsc::channel(capacity)
}

/// Relies on `tokio::sync::oneshot::Sender::send`: delivers the value when
/// the receive half still exists, and reports whether it was delivered. The
/// sender is consumed either way, so each request is answered at most once.
#[verifier::external_body]
pub(crate) fn reply_send<T>(tx: oneshot::Sender<T>, value: T) -> (delivered: bool) {
    tx.send(value).is_ok()
}

} // verus!
