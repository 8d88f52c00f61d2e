//! Fixed configuration of the browser-hosted window.
//!
//! When the program runs inside a web page, the windowing library cannot be
//! sized with CSS, so the window is forced to a fixed pixel size, and its
//! rendering surface is appended under one named document element.  The
//! constants live here so that the platform glue and the page agree on them.

use vstd::prelude::*;

verus! {

/// Width in physical pixels of the browser-hosted window.
pub const CANVAS_WIDTH: u32 = 450;

/// Height in physical pixels of the browser-hosted window.
pub const CANVAS_HEIGHT: u32 = 400;

/// The identifier of the document element that receives the window's canvas.
/// The hosting page must contain an element with exactly this id; setup fails
/// fatally when it is absent.
pub fn canvas_container_id() -> (id: &'static str)
    ensures
        id@ == "wasm-example"@,
{
    "wasm-example"
}

} // verus!
