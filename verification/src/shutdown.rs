use vstd::prelude::*;

verus! {

// Each tunnel owns exactly one single-use cancellation signal.  The signal is
// a tokio one-shot channel: the registry keeps the sender, the accept loop
// waits on the receiver.  Both types are opaque here; nothing about a
// tunnel's registry state depends on what is inside them.

#[verifier::external_type_specification]
#[verifier::external_body]
#[verifier::reject_recursive_types(T)]
pub struct ExOneshotSender<T>(tokio::sync::oneshot::Sender<T>);

#[verifier::external_type_specification]
#[verifier::external_body]
#[verifier::reject_recursive_types(T)]
pub struct ExOneshotReceiver<T>(tokio::sync::oneshot::Receiver<T>);

#[verifier::external_type_specification]
#[verifier::external_body]
pub struct ExOneshotRecvError(tokio::sync::oneshot::error::RecvError);

/// Relies on tokio::sync::oneshot::channel: returns a connected
/// sender/receiver pair for the tunnel's one-time shutdown signal.
#[verifier::external_body]
pub(crate) fn new_shutdown_channel() -> (tokio::sync::oneshot::Sender<()>, tokio::sync::oneshot::Receiver<()>) {
    tokio::sync::oneshot::channel()
}

/// Relies on tokio::sync::oneshot::Sender::send: consumes the sender and
/// delivers the signal if the receiver is still alive.  Returns whether the
/// signal was delivered; the accept loop may already have gone away, so
/// nothing is promised about the outcome.
#[verifier::external_body]
pub(crate) fn fire_shutdown(tx: tokio::sync::oneshot::Sender<()>) -> bool {
    tx.send(()).is_ok()
}

} // verus!
