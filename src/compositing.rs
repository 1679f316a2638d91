//! What the compositor draws each frame: the UI texture with an identity
//! transform over the rectangle of the UI's bounds, and that same rectangle
//! reported as damage.

use vstd::prelude::*;
use crate::cache::Bounds;

verus! {

#[derive(Clone, Copy, Debug, PartialEq, Eq, Structural)]
pub struct Rect {
    pub x: i32,
    pub y: i32,
    pub width: i32,
    pub height: i32,
}

#[derive(Clone, Copy, Debug, PartialEq, Eq, Structural)]
pub enum Transform {
    Identity,
}

/// One frame's draw of the UI texture.
#[derive(Clone, Debug)]
pub struct FramePlan {
    /// The bounds to ask the buffer cache for.
    pub bounds: Bounds,
    /// Where the texture goes on the output.
    pub destination: Rect,
    pub transform: Transform,
    /// The regions to report to damage tracking.
    pub damage: Vec<Rect>,
}

/// The rectangle that a window of this size covers from the origin.
pub open spec fn window_rect(width: i32, height: i32) -> Rect {
    Rect { x: 0, y: 0, width, height }
}

/// The draw for a window of `width` by `height`; none for an empty window.
pub fn plan_frame(width: i32, height: i32) -> (r: Option<FramePlan>)
    ensures
        match r {
            Some(plan) => {
                &&& width > 0 && height > 0
                &&& plan.bounds == (Bounds { width: width as u32, height: height as u32 })
                &&& plan.destination == window_rect(width, height)
                &&& plan.transform == Transform::Identity
                &&& plan.damage@ == seq![window_rect(width, height)]
            },
            None => width <= 0 || height <= 0,
        },
{
    if width <= 0 || height <= 0 {
        return None;
    }
    let rect = Rect { x: 0, y: 0, width, height };
    let mut damage: Vec<Rect> = Vec::new();
    damage.push(rect);
    proof {
        assert(damage@ =~= seq![window_rect(width, height)]);
    }
    Some(
        FramePlan {
            bounds: Bounds { width: width as u32, height: height as u32 },
            destination: rect,
            transform: Transform::Identity,
            damage,
        },
    )
}

} // verus!
