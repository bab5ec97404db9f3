//! The parameters handed to the shaders each frame, and their binding slots.

use vstd::prelude::*;

verus! {

/// Binding of the shader parameters when they travel in a storage buffer.
pub const BIND_SHADER_PARAMS_WORKAROUND: u32 = 0;
/// Binding of the buffer the compute pass reads.
pub const BIND_SIM_INPUT: u32 = 1;
/// Binding of the buffer the compute pass writes.
pub const BIND_SIM_OUTPUT: u32 = 2;
/// Binding of the image the compute pass may write.
pub const BIND_SIM_OUTPUT_IMG: u32 = 3;
/// Binding of the texture the fragment pass samples.
pub const BIND_FRAG_TEX: u32 = 1;
/// Binding of the sampler the fragment pass uses.
pub const BIND_FRAG_SAMPLER: u32 = 2;

/// No mouse button is held.
pub const MOUSE_BUTTON_NONE: u32 = 0;
/// The left mouse button is held.
pub const MOUSE_BUTTON_LEFT: u32 = 1;

/// A pair of unsigned 32-bit integers.
#[derive(Clone, Copy, PartialEq, Eq, Structural, Debug)]
pub struct UVec2 {
    pub x: u32,
    pub y: u32,
}

impl UVec2 {
    /// Builds `(x, y)`.
    pub fn new(x: u32, y: u32) -> (v: UVec2)
        ensures
            v.x == x,
            v.y == y,
    {
        UVec2 { x, y }
    }
}

/// What the shaders read each frame.
#[derive(Clone, Copy, PartialEq, Eq, Structural, Debug)]
pub struct ShaderParams {
    /// Inner size of the window, in pixels.
    pub window_size: UVec2,
    /// Size of the simulation grid, in cells.
    pub sim_size: UVec2,
    /// Seconds since the application started, as the bit pattern of an `f32`.
    pub time_bits: u32,
    /// Number of the frame.
    pub frame: u32,
    /// Cursor, in simulation grid space.
    pub cursor: UVec2,
    /// Where the current drag started.
    pub drag_start: UVec2,
    /// Where the current drag is now.
    pub drag_end: UVec2,
    /// Which mouse button is held: `MOUSE_BUTTON_NONE` or `MOUSE_BUTTON_LEFT`.
    pub mouse_button_pressed: u32,
    /// Radius of the brush around the cursor, in cells.
    pub mouse_radius: u32,
}

/// The parameters before the first frame: a 512 by 512 window and grid, time
/// and frame zero, the cursor and the drag at the origin, no button held and
/// a brush radius of 10.
pub open spec fn initial_params() -> ShaderParams {
    ShaderParams {
        window_size: UVec2 { x: 512, y: 512 },
        sim_size: UVec2 { x: 512, y: 512 },
        time_bits: 0,
        frame: 0,
        cursor: UVec2 { x: 0, y: 0 },
        drag_start: UVec2 { x: 0, y: 0 },
        drag_end: UVec2 { x: 0, y: 0 },
        mouse_button_pressed: MOUSE_BUTTON_NONE,
        mouse_radius: 10,
    }
}

impl Default for ShaderParams {
    fn default() -> (p: ShaderParams)
        ensures
            p == initial_params(),
    {
        ShaderParams {
            window_size: UVec2 { x: 512, y: 512 },
            sim_size: UVec2 { x: 512, y: 512 },
            time_bits: 0,
            frame: 0,
            cursor: UVec2 { x: 0, y: 0 },
            drag_start: UVec2 { x: 0, y: 0 },
            drag_end: UVec2 { x: 0, y: 0 },
            mouse_button_pressed: MOUSE_BUTTON_NONE,
            mouse_radius: 10,
        }
    }
}

} // verus!
