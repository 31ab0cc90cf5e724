//! The cross-thread handle and liveness protocol.
//!
//! `WindowHandle` is the capability the initiator of a parented window
//! keeps: it can request closure and poll liveness from any thread, but
//! never touches native window state. `ParentHandle` is the event-loop
//! side of the pair: polled once per pump iteration for a close
//! request, and guaranteed to mark the shared liveness flag false when
//! it is dropped, on every exit path of the owning thread.
//!
//! The only state shared across the thread boundary is the liveness
//! flag (an atomic boolean, written once at teardown) and the
//! unit-payload close-request channel.

use vstd::prelude::*;

use core::sync::atomic::AtomicBool;
use core::sync::atomic::Ordering;
use std::sync::mpsc::Receiver;
use std::sync::mpsc::SyncSender;
use std::sync::mpsc::TryRecvError;
use std::sync::Arc;

verus! {

#[verifier::external_type_specification]
#[verifier::external_body]
#[verifier::reject_recursive_types(T)]
pub struct ExSyncSender<T>(SyncSender<T>);

#[verifier::external_type_specification]
#[verifier::external_body]
#[verifier::reject_recursive_types(T)]
pub struct ExReceiver<T>(Receiver<T>);

/// Relies on std::sync::mpsc::sync_channel: returns the two endpoints
/// of one channel with a buffer of one message, so that a close request
/// can be left behind without blocking.
#[verifier::external_body]
fn new_close_channel() -> (SyncSender<()>, Receiver<()>) {
    std::sync::mpsc::sync_channel(1)
}

/// Relies on std::sync::mpsc::SyncSender::try_send: never blocks. The
/// message is dropped harmlessly when the buffer is full (a request is
/// already pending) or the receiver is gone (the window already
/// closed).
#[verifier::external_body]
fn send_close_request(sender: &SyncSender<()>)
    no_unwind
{
    let _ = sender.try_send(());
}

/// What one non-blocking poll of the close-request channel found.
#[derive(Clone, Copy, Debug, PartialEq, Eq, Structural)]
pub enum ChannelPoll {
    /// A message was waiting.
    Message,
    /// The other endpoint is gone.
    Disconnected,
    /// Nothing yet.
    Empty,
}

/// Relies on std::sync::mpsc::Receiver::try_recv: never blocks; one
/// variant per outcome of the call.
#[verifier::external_body]
fn poll_close_request(receiver: &Receiver<()>) -> ChannelPoll
    no_unwind
{
    match receiver.try_recv() {
        Ok(()) => ChannelPoll::Message,
        Err(TryRecvError::Disconnected) => ChannelPoll::Disconnected,
        Err(TryRecvError::Empty) => ChannelPoll::Empty,
    }
}

/// Relies on core::sync::atomic::AtomicBool::load: reads the shared
/// flag. The value observed depends on what other threads have stored.
#[verifier::external_body]
fn load_flag(flag: &Arc<AtomicBool>) -> bool
    no_unwind
{
    flag.load(Ordering::Relaxed)
}

/// Relies on core::sync::atomic::AtomicBool::store: writes the shared
/// flag; never unwinds, so it is safe to run during teardown.
#[verifier::external_body]
fn store_flag(flag: &Arc<AtomicBool>, value: bool)
    opens_invariants none
    no_unwind
{
    flag.store(value, Ordering::Relaxed);
}

/// Relies on std::sync::Arc::clone: yields a second reference to the
/// same shared flag.
#[verifier::external_body]
fn clone_flag(flag: &Arc<AtomicBool>) -> Arc<AtomicBool> {
    Arc::clone(flag)
}

/// The capability handed back by a parented open: safe to hold on any
/// thread, it can only request closure and poll liveness, never touch
/// native window state.
pub struct WindowHandle {
    native_id: Option<u32>,
    close_requested: SyncSender<()>,
    is_open: Arc<AtomicBool>,
}

impl WindowHandle {
    /// The native window identifier, absent until the owning thread has
    /// finished constructing the native window.
    pub closed spec fn native_id_spec(&self) -> Option<u32> {
        self.native_id
    }

    /// Asks the owning thread to close the window: a best-effort,
    /// non-blocking request. Calling it repeatedly, or after the window
    /// has already closed, is a harmless no-op.
    pub fn close(&mut self)
        ensures
            *final(self) == *old(self),
        no_unwind
    {
        send_close_request(&self.close_requested);
    }

    /// Whether the owning thread has not yet torn the window down. The
    /// answer is eventual truth: it may briefly stay true while the
    /// window is closing, but is false once teardown has finished.
    pub fn is_open(&self) -> (r: bool)
        no_unwind
    {
        load_flag(&self.is_open)
    }

    /// The native window identifier, once construction has populated
    /// it.
    pub fn native_id(&self) -> (r: Option<u32>)
        ensures
            r == self.native_id_spec(),
    {
        self.native_id
    }

    /// Records the native window identifier once the owning thread has
    /// created the native window.
    pub fn set_native_id(&mut self, id: u32)
        ensures
            final(self).native_id_spec() == Some(id),
    {
        self.native_id = Some(id);
    }
}

/// The event-loop side of the handle pair, owned by the window's
/// thread in parented mode.
pub struct ParentHandle {
    close_requested: Receiver<()>,
    is_open: Arc<AtomicBool>,
}

impl ParentHandle {
    /// Creates the connected pair: the `ParentHandle` for the window's
    /// thread and the `WindowHandle` for the initiator. The handle's
    /// native identifier starts absent; the liveness flag starts
    /// raised.
    pub fn new() -> (r: (ParentHandle, WindowHandle))
        ensures
            r.1.native_id_spec() is None,
    {
        let (close_send, close_recv) = new_close_channel();
        let flag_a = Arc::new(AtomicBool::new(true));
        let flag_b = clone_flag(&flag_a);
        let handle = WindowHandle {
            native_id: None,
            close_requested: close_send,
            is_open: flag_a,
        };
        (ParentHandle { close_requested: close_recv, is_open: flag_b }, handle)
    }

    /// Polls the close-request channel without blocking. True both when
    /// the initiator asked for closure and when it dropped its handle:
    /// either ends the window's lifetime.
    pub fn parent_did_drop(&self) -> (r: bool)
        no_unwind
    {
        match poll_close_request(&self.close_requested) {
            ChannelPoll::Message => true,
            ChannelPoll::Disconnected => true,
            ChannelPoll::Empty => false,
        }
    }
}

impl Drop for ParentHandle {
    /// Lowers the shared liveness flag, so that once the owning thread
    /// lets go of this handle — normal teardown or not — every observer
    /// sees the window as closed.
    fn drop(&mut self)
        opens_invariants none
        no_unwind
    {
        store_flag(&self.is_open, false);
    }
}

} // verus!
