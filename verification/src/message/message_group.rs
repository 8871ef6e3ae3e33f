//! [`MessageGroup`]: the sync node's output: several messages grouped by
//! name, time-aligned on the device. Its members are read through the shim.

use vstd::prelude::*;

use crate::enums::Datatype;
use crate::error::Result;
use crate::message::{AnyMessage, Message, MessageView, Sealed};

verus! {

/// A `dai::MessageGroup`.
#[derive(Debug)]
pub struct MessageGroup {
    any: AnyMessage,
}

impl Clone for MessageGroup {
    fn clone(&self) -> (r: MessageGroup)
        ensures
            r.any_view() == self.any_view(),
    {
        MessageGroup { any: self.any.clone() }
    }
}

impl Sealed for MessageGroup {}

impl Message for MessageGroup {
    open spec fn accepts() -> Option<Datatype> {
        Some(Datatype::MessageGroup)
    }

    closed spec fn any_view(&self) -> MessageView {
        self.any@
    }

    fn accepted_datatype() -> (r: Option<Datatype>) {
        Some(Datatype::MessageGroup)
    }

    fn from_any(any: AnyMessage) -> (r: Result<Self>) {
        Ok(MessageGroup { any })
    }

    fn as_any(&self) -> (r: &AnyMessage) {
        &self.any
    }
}

} // verus!
