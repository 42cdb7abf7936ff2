//! Idle work posted from any thread for the window's own thread.
use vstd::prelude::*;
use vstd::rwlock::{RwLock, RwLockPredicate};
use std::sync::Arc;

verus! {

/// A token that the toolkit registers for idle work and gets back in `idle`.
#[derive(Clone, Copy, Debug, PartialEq, Eq, Hash, Structural)]
pub struct IdleToken {
    pub id: usize,
}

impl IdleToken {
    pub fn new(id: usize) -> (r: IdleToken)
        ensures
            r.id == id,
    {
        IdleToken { id }
    }
}

/// One unit of idle work.
#[derive(Debug)]
pub enum IdleKind<C> {
    /// A callback, run once with the window's handler.
    Callback(C),
    /// A token handed to the handler's `idle`.
    Token(IdleToken),
    /// A request for the next frame.
    Redraw,
}

/// What was done with one idle item, in the order the items were taken.
#[derive(Clone, Copy, Debug, PartialEq, Eq, Structural)]
pub enum IdleDelivery {
    /// A callback was run with the handler, through `idle_callback`.
    Callback,
    /// A token was handed to the handler's `idle`.
    Token(IdleToken),
    /// A frame was asked for; the handler is not called.
    Redraw,
}

/// What delivering `item` does.
pub open spec fn delivery_of<C>(item: IdleKind<C>) -> IdleDelivery {
    match item {
        IdleKind::Callback(_) => IdleDelivery::Callback,
        IdleKind::Token(t) => IdleDelivery::Token(t),
        IdleKind::Redraw => IdleDelivery::Redraw,
    }
}

/// One of `ds` asks for a frame.
pub open spec fn has_redraw(ds: Seq<IdleDelivery>) -> bool {
    exists|i: int| 0 <= i < ds.len() && ds[i] == IdleDelivery::Redraw
}

/// Whether one of `ds` asks for a frame.
pub fn asks_redraw(ds: &Vec<IdleDelivery>) -> (r: bool)
    ensures
        r == has_redraw(ds@),
{
    let mut i: usize = 0;
    while i < ds.len()
        invariant
            i <= ds@.len(),
            forall|k: int| 0 <= k < i ==> ds@[k] != IdleDelivery::Redraw,
        decreases ds@.len() - i,
    {
        if ds[i] == IdleDelivery::Redraw {
            return true;
        }
        i = i + 1;
    }
    false
}

/// The queue under the lock may hold any items.
pub struct AnyItems;

impl<C> RwLockPredicate<Vec<IdleKind<C>>> for AnyItems {
    open spec fn inv(self, v: Vec<IdleKind<C>>) -> bool {
        true
    }
}

/// The lock-protected queue of idle work that a window shares with its idle handles.
pub type SharedIdleQueue<C> = Arc<RwLock<Vec<IdleKind<C>>, AnyItems>>;

/// A fresh, empty shared queue.
pub fn new_idle_queue<C>() -> SharedIdleQueue<C> {
    Arc::new(RwLock::new(Vec::new(), Ghost(AnyItems)))
}

/// Swaps the whole queue out for an empty one and returns what it held, so the
/// lock is held only for the swap.
pub fn take_idle_items<C>(queue: &SharedIdleQueue<C>) -> Vec<IdleKind<C>> {
    let lock: &RwLock<Vec<IdleKind<C>>, AnyItems> = &*queue;
    let (items, handle) = lock.acquire_write();
    handle.release_write(Vec::new());
    items
}

/// A handle that posts idle work to a window from any thread. It can be cloned
/// and sent between threads.
pub struct IdleHandle<C> {
    queue: SharedIdleQueue<C>,
}

impl<C> Clone for IdleHandle<C> {
    fn clone(&self) -> Self {
        IdleHandle { queue: Arc::clone(&self.queue) }
    }
}

impl<C> IdleHandle<C> {
    /// A handle that posts to `queue`.
    pub fn new(queue: SharedIdleQueue<C>) -> (r: IdleHandle<C>)
        ensures
            r.queue_spec() == queue,
    {
        IdleHandle { queue }
    }

    pub closed spec fn queue_spec(&self) -> SharedIdleQueue<C> {
        self.queue
    }

    /// Wakes the event loop. The loop polls, so there is nothing to signal.
    fn wake(&self) {
    }

    fn push(&self, item: IdleKind<C>) {
        let lock: &RwLock<Vec<IdleKind<C>>, AnyItems> = &*self.queue;
        let (mut items, handle) = lock.acquire_write();
        items.push(item);
        handle.release_write(items);
    }

    /// Asks for the next frame, unless a request is already waiting.
    pub fn schedule_redraw(&self) {
        let lock: &RwLock<Vec<IdleKind<C>>, AnyItems> = &*self.queue;
        let (mut items, handle) = lock.acquire_write();
        let mut pending = false;
        let mut i: usize = 0;
        while i < items.len()
            invariant
                i <= items@.len(),
            decreases items@.len() - i,
        {
            if let IdleKind::Redraw = &items[i] {
                pending = true;
            }
            i = i + 1;
        }
        if !pending {
            items.push(IdleKind::Redraw);
        }
        handle.release_write(items);
        self.wake();
    }

    /// Posts a callback that is run once, on the window's thread, with the handler.
    pub fn add_idle_callback(&self, callback: C) {
        self.push(IdleKind::Callback(callback));
        self.wake();
    }

    /// Posts a token for the handler's `idle`.
    pub fn add_idle_token(&self, token: IdleToken) {
        self.push(IdleKind::Token(token));
        self.wake();
    }
}

} // verus!
