//! Messages exchanged with the PencilKit drawing plugin.

use vstd::prelude::*;

verus! {

/// Whether PencilKit is available on the device.
#[derive(Debug, PartialEq, Eq)]
pub struct IsAvailableResponse {
    pub available: bool,
}

/// A drawing to load, in PencilKit's serialised form.
#[derive(Debug, PartialEq, Eq)]
pub struct SetDrawingArgs {
    pub data: String,
}

/// The drawing tool to select.
#[derive(Debug, PartialEq, Eq)]
pub struct SetToolArgs {
    pub tool: String,
}

/// The current drawing, if there is one.
#[derive(Debug, PartialEq, Eq)]
pub struct GetDrawingResponse {
    pub data: Option<String>,
}

} // verus!
