//! [`Output`] and [`Input`]: a node's ports. An output is linked to an input,
//! or feeds a host queue.

use std::marker::PhantomData;

use vstd::prelude::*;

use crate::message::Message;
use crate::node::{NodeHandle, NodeView};

verus! {

/// A node output, typed by the message it emits, identified by its shim
/// handle. Holds its node, so it never outlives the port it points at.
#[derive(Debug)]
pub struct Output<M: Message> {
    node: NodeHandle,
    handle: u64,
    _m: PhantomData<M>,
}

impl<M: Message> Output<M> {
    /// The shim handle of this port.
    pub closed spec fn id(&self) -> u64 {
        self.handle
    }

    /// The node this port belongs to.
    pub closed spec fn node_view(&self) -> NodeView {
        self.node@
    }

    /// The port with shim handle `handle`, owned by `node`.
    pub fn from_handle(node: NodeHandle, handle: u64) -> (o: Output<M>)
        ensures
            o.id() == handle,
            o.node_view() == node@,
    {
        Output { node, handle, _m: PhantomData }
    }

    /// The shim handle of this port.
    pub fn handle(&self) -> (h: u64)
        ensures
            h == self.id(),
    {
        self.handle
    }

    /// The node this port belongs to.
    pub fn node(&self) -> (n: &NodeHandle)
        ensures
            n@ == self.node_view(),
    {
        &self.node
    }

    /// Reinterpret as a different message type (no runtime check: a queue on
    /// it still checks each message it hands out).
    pub fn cast<N: Message>(self) -> (o: Output<N>)
        ensures
            o.id() == self.id(),
            o.node_view() == self.node_view(),
    {
        Output { node: self.node, handle: self.handle, _m: PhantomData }
    }
}

impl<M: Message> Clone for Output<M> {
    fn clone(&self) -> (o: Output<M>)
        ensures
            o.id() == self.id(),
            o.node_view() == self.node_view(),
    {
        Output { node: self.node.clone(), handle: self.handle, _m: PhantomData }
    }
}

/// A node input, identified by its shim handle. Untyped: depthai checks
/// datatype compatibility at link time.
#[derive(Debug)]
pub struct Input {
    node: NodeHandle,
    handle: u64,
}

impl Input {
    /// The shim handle of this port.
    pub closed spec fn id(&self) -> u64 {
        self.handle
    }

    /// The node this port belongs to.
    pub closed spec fn node_view(&self) -> NodeView {
        self.node@
    }

    /// The port with shim handle `handle`, owned by `node`.
    pub fn from_handle(node: NodeHandle, handle: u64) -> (i: Input)
        ensures
            i.id() == handle,
            i.node_view() == node@,
    {
        Input { node, handle }
    }

    /// The shim handle of this port.
    pub fn handle(&self) -> (h: u64)
        ensures
            h == self.id(),
    {
        self.handle
    }

    /// The node this port belongs to.
    pub fn node(&self) -> (n: &NodeHandle)
        ensures
            n@ == self.node_view(),
    {
        &self.node
    }

    /// Identity of the underlying port (two `Input`s from the same map key are
    /// equal).
    pub fn ptr_eq(&self, other: &Input) -> (r: bool)
        ensures
            r == (self.id() == other.id()),
    {
        self.handle == other.handle
    }
}

impl Clone for Input {
    fn clone(&self) -> (i: Input)
        ensures
            i.id() == self.id(),
            i.node_view() == self.node_view(),
    {
        Input { node: self.node.clone(), handle: self.handle }
    }
}

} // verus!
