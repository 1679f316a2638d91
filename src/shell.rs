//! The shell: the UI program drawn by the UI renderer over the compositor's
//! output, and the primitive that cuts a client window's place out of it.

use vstd::prelude::*;
use std::marker::PhantomData;

verus! {

/// The shell program for a compositor of backend `B`.
pub struct Shell<B>(pub PhantomData<B>);

impl<B> Shell<B> {
    pub fn new() -> (r: Self) {
        Shell(PhantomData)
    }
}

/// Clears, within its clip bounds, what the UI drew, so that the client
/// window beneath shows through.
#[derive(Clone, Copy, Debug)]
pub struct ScissorPrimitive;

/// A region in target pixels.
#[derive(Clone, Copy, Debug, PartialEq, Eq, Structural)]
pub struct ClipRect {
    pub x: u32,
    pub y: u32,
    pub width: u32,
    pub height: u32,
}

/// One draw of the primitive: a full-target quad as a four-vertex triangle
/// strip, one instance, clipped to `scissor`.
#[derive(Clone, Copy, Debug, PartialEq, Eq, Structural)]
pub struct ScissorDraw {
    pub scissor: ClipRect,
    pub vertices: u32,
    pub instances: u32,
}

impl ScissorPrimitive {
    /// The draw that clears `clip`.
    pub fn draw(&self, clip: ClipRect) -> (r: ScissorDraw)
        ensures
            r == (ScissorDraw { scissor: clip, vertices: 4, instances: 1 }),
    {
        ScissorDraw { scissor: clip, vertices: 4, instances: 1 }
    }
}

} // verus!
