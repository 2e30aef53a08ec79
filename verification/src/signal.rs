//! One-shot signals, which are tokio's one-shot channels.
//!
//! A signal is fired at most once, by whoever holds its sending end, and
//! wakes whoever waits on its receiving end. To the proofs in this crate
//! both ends are opaque: what is proved of the coordinator is proved of its
//! counts, and holds however the signals behave.

use vstd::prelude::*;
use tokio::sync::oneshot::{Receiver, Sender};

verus! {

/// The sending end of tokio's one-shot channel. Nothing is known of it.
#[verifier::external_type_specification]
#[verifier::external_body]
#[verifier::reject_recursive_types(T)]
pub struct ExSender<T>(tokio::sync::oneshot::Sender<T>);

/// The receiving end of tokio's one-shot channel. Nothing is known of it.
#[verifier::external_type_specification]
#[verifier::external_body]
#[verifier::reject_recursive_types(T)]
pub struct ExReceiver<T>(tokio::sync::oneshot::Receiver<T>);

/// What waiting on the receiving end gives when the sending end is gone
/// without having sent. Nothing is known of it.
#[verifier::external_type_specification]
#[verifier::external_body]
pub struct ExRecvError(tokio::sync::oneshot::error::RecvError);

/// `tokio::sync::oneshot::channel`: makes a one-shot channel and returns its
/// two ends. Nothing is claimed of them.
#[verifier::external_body]
pub(crate) fn one_shot() -> (ends: (Sender<()>, Receiver<()>)) {
    tokio::sync::oneshot::channel()
}

/// `tokio::sync::oneshot::Sender::send`: sends the one value, which wakes
/// whoever waits on the other end. The call takes the sender, never blocks,
/// and hands the value back if the other end is gone; that is no error here.
/// Nothing is claimed of it.
#[verifier::external_body]
pub(crate) fn fire(signal: Sender<()>) {
    let _ = signal.send(());
}

} // verus!
