//! Socket-creation notification bus.
//!
//! The packet-forwarding engine opens network sockets from its own execution
//! context; the embedding host must learn of each one so it can exempt it
//! from tunnel routing. A [`NotificationBus`] holds one replaceable callback
//! capability and dispatches every announced socket handle to it. The slot is
//! independent of the session lifecycle: it survives session create/destroy
//! cycles and can be swapped without stopping the tunnel.

use vstd::prelude::*;

verus! {

/// A socket-creation callback capability.
///
/// `observed` is the ghost record of every socket handle the callback has
/// been notified of, oldest first; `notify` must extend it by exactly the
/// handle it receives, so dispatch cannot drop, duplicate or alter a handle.
pub trait SocketCallback: Sized {
    /// The socket handles this callback has been notified of, oldest first.
    spec fn observed(&self) -> Seq<i32>;

    /// Receive notice that the engine created the socket `socket`.
    fn notify(&mut self, socket: i32)
        ensures
            final(self).observed() == old(self).observed().push(socket),
    ;
}

/// A callback that records every socket handle it is notified of, so an
/// embedding host (or a test) can inspect exactly what was dispatched.
pub struct RecordingCallback {
    seen: Vec<i32>,
}

impl RecordingCallback {
    /// A recorder that has observed nothing yet.
    pub fn new() -> (callback: Self)
        ensures
            callback.observed() == Seq::<i32>::empty(),
    {
        RecordingCallback { seen: Vec::new() }
    }

    /// The handles observed so far, oldest first.
    pub fn recorded(&self) -> (handles: &Vec<i32>)
        ensures
            handles@ == self.observed(),
    {
        &self.seen
    }
}

impl SocketCallback for RecordingCallback {
    closed spec fn observed(&self) -> Seq<i32> {
        self.seen@
    }

    fn notify(&mut self, socket: i32) {
        self.seen.push(socket);
    }
}

/// Effect of `set_socket_created_callback` on the registered slot: the new
/// value replaces the old one outright; `None` is the reset to the built-in
/// no-op.
pub open spec fn set_callback_transition<C: SocketCallback>(
    state: Option<C>,
    callback: Option<C>,
) -> Option<C> {
    callback
}

/// Relation between the registered callback before and after one dispatch of
/// `socket`: with no callback registered nothing happens at all; with one
/// registered, that same callback — and no other — observes exactly `socket`,
/// once, whatever the handle's value (handles are opaque: zero and negative
/// values are dispatched like any other).
pub open spec fn dispatch_relation<C: SocketCallback>(
    before: Option<C>,
    socket: i32,
    after: Option<C>,
) -> bool {
    match before {
        None => after is None,
        Some(callback) => after matches Some(now)
            && now.observed() == callback.observed().push(socket),
    }
}

/// The process-wide notification slot: one replaceable callback capability.
/// `None` is the built-in no-op state, so dispatch is always well defined —
/// the slot is never "unwrapped" against an absent value.
pub struct NotificationBus<C: SocketCallback> {
    callback: Option<C>,
}

impl<C: SocketCallback> NotificationBus<C> {
    /// The currently registered callback; `None` means the built-in no-op.
    pub closed spec fn registered(&self) -> Option<C> {
        self.callback
    }

    /// A bus in its default state: no callback registered, dispatch is a
    /// no-op.
    pub fn new() -> (bus: Self)
        ensures
            bus.registered() is None,
    {
        NotificationBus { callback: None }
    }

    /// Replace the current callback; `None` resets the slot to the built-in
    /// no-op. Takes exclusive access, so no dispatch is in flight meanwhile.
    /// No error conditions.
    pub fn set_socket_created_callback(&mut self, callback: Option<C>)
        ensures
            final(self).registered() == set_callback_transition(old(self).registered(), callback),
    {
        self.callback = callback;
    }

    /// Dispatch the socket handle `socket` to the currently registered
    /// callback: exactly that callback observes exactly `socket`, or — with
    /// none registered — nothing observable happens and the bus is unchanged.
    pub fn on_socket_created(&mut self, socket: i32)
        ensures
            dispatch_relation(old(self).registered(), socket, final(self).registered()),
            old(self).registered() is None ==> *final(self) == *old(self),
    {
        match &mut self.callback {
            Some(callback) => callback.notify(socket),
            None => {},
        }
    }

    /// Borrow the currently registered callback, e.g. to inspect what a
    /// [`RecordingCallback`] has observed.
    pub fn current_callback(&self) -> (callback: &Option<C>)
        ensures
            *callback == self.registered(),
    {
        &self.callback
    }
}

/// Law: after `set_socket_created_callback(None)` — whatever was registered
/// before, including some earlier callback — a later dispatch finds no
/// registered callback and so has no observable effect: no callback observes
/// the handle, and the slot stays on the built-in no-op.
pub proof fn lemma_reset_then_dispatch_is_noop<C: SocketCallback>(
    state: Option<C>,
    socket: i32,
    after: Option<C>,
)
    requires
        dispatch_relation(set_callback_transition(state, None), socket, after),
    ensures
        after is None,
{
}

} // verus!
