//! [`OutputQueue`]: the host side of a node output.

use std::marker::PhantomData;

use vstd::prelude::*;

use crate::message::Message;

verus! {

/// A host queue created from an [`Output`](crate::port::Output), typed by the
/// message it carries and identified by its shim handle. Messages taken off it
/// are checked against `M` with [`AnyMessage::downcast`](crate::message::AnyMessage::downcast).
#[derive(Debug)]
pub struct OutputQueue<M: Message> {
    handle: u64,
    _m: PhantomData<M>,
}

impl<M: Message> OutputQueue<M> {
    /// The shim handle of this queue.
    pub closed spec fn id(&self) -> u64 {
        self.handle
    }

    /// The queue the shim handle `handle` is.
    pub fn from_handle(handle: u64) -> (q: OutputQueue<M>)
        ensures
            q.id() == handle,
    {
        OutputQueue { handle, _m: PhantomData }
    }

    /// The shim handle of this queue.
    pub fn handle(&self) -> (h: u64)
        ensures
            h == self.id(),
    {
        self.handle
    }

    /// Whether this queue is empty, given the number of messages it holds
    /// (`getSize()`, which the shim reports).
    pub fn is_empty(&self, len: u32) -> (r: bool)
        ensures
            r == (len == 0),
    {
        len == 0
    }
}

impl<M: Message> Clone for OutputQueue<M> {
    fn clone(&self) -> (q: OutputQueue<M>)
        ensures
            q.id() == self.id(),
    {
        OutputQueue { handle: self.handle, _m: PhantomData }
    }
}

} // verus!
