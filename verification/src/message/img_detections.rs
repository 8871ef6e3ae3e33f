//! [`ImgDetections`]: decoded boxes from a detection network. The boxes are
//! read through the shim.

use vstd::prelude::*;

use crate::enums::Datatype;
use crate::error::Result;
use crate::message::{AnyMessage, Message, MessageView, Sealed};

verus! {

/// A `dai::ImgDetections`.
#[derive(Debug)]
pub struct ImgDetections {
    any: AnyMessage,
}

impl Clone for ImgDetections {
    fn clone(&self) -> (r: ImgDetections)
        ensures
            r.any_view() == self.any_view(),
    {
        ImgDetections { any: self.any.clone() }
    }
}

impl Sealed for ImgDetections {}

impl Message for ImgDetections {
    open spec fn accepts() -> Option<Datatype> {
        Some(Datatype::ImgDetections)
    }

    closed spec fn any_view(&self) -> MessageView {
        self.any@
    }

    fn accepted_datatype() -> (r: Option<Datatype>) {
        Some(Datatype::ImgDetections)
    }

    fn from_any(any: AnyMessage) -> (r: Result<Self>) {
        Ok(ImgDetections { any })
    }

    fn as_any(&self) -> (r: &AnyMessage) {
        &self.any
    }
}

} // verus!
