//! The application's reactions to window events and the per-frame update of
//! the shader parameters. The window system, the GPU and the clock stay with
//! the caller, which performs the returned actions.

use vstd::prelude::*;
use crate::params::{ShaderParams, UVec2, MOUSE_BUTTON_LEFT, MOUSE_BUTTON_NONE, initial_params};

verus! {

/// A window event, reduced to what the application decides on.
#[derive(Clone, Copy, PartialEq, Eq, Structural, Debug)]
pub enum WindowEventKind {
    /// The user asked to close the window.
    CloseRequested,
    /// The window's inner size changed.
    Resized { width: u32, height: u32 },
    /// The cursor moved to `position`, in simulation grid space.
    CursorMoved { position: UVec2 },
    /// A mouse button changed state; `left` tells whether it is the left one.
    MouseInput { left: bool },
    /// The mouse wheel turned by lines; `drag_end` is the scaled scroll delta.
    MouseWheel { drag_end: UVec2 },
    /// A key changed state; `escape_pressed` tells whether Escape went down.
    KeyboardInput { escape_pressed: bool },
    /// The window asks to be drawn.
    RedrawRequested,
    /// Any other event.
    Other,
}

/// What the caller does after an event.
#[derive(Clone, Copy, PartialEq, Eq, Structural, Debug)]
pub struct EventResponse {
    /// Resize the surface configuration to this size, if there is one.
    pub reconfigure: Option<UVec2>,
    /// Run the simulation's compute pass and render a frame.
    pub execute_and_render: bool,
    /// Leave the event loop.
    pub exit: bool,
    /// Ask the window for another redraw.
    pub request_redraw: bool,
}

/// The application's state apart from the window and the GPU.
#[derive(Clone, Copy, PartialEq, Eq, Structural, Debug)]
pub struct ApplicationState {
    /// The parameters handed to the shaders.
    pub params: ShaderParams,
    /// Whether the window is to close.
    pub close_requested: bool,
    /// Mouse buttons pressed since the last frame, one bit per button.
    pub mouse_button_press_since_last_frame: u32,
}

/// The state after `event`.
pub open spec fn after_event(s: ApplicationState, event: WindowEventKind) -> ApplicationState {
    match event {
        WindowEventKind::CloseRequested => ApplicationState { close_requested: true, ..s },
        WindowEventKind::CursorMoved { position } => {
            let dragging = s.params.mouse_button_pressed != MOUSE_BUTTON_NONE;
            ApplicationState {
                params: ShaderParams {
                    cursor: position,
                    drag_end: if dragging { position } else { s.params.drag_end },
                    ..s.params
                },
                ..s
            }
        },
        WindowEventKind::MouseInput { left } => {
            if left {
                ApplicationState {
                    params: ShaderParams {
                        mouse_button_pressed: MOUSE_BUTTON_LEFT,
                        drag_start: s.params.cursor,
                        drag_end: s.params.cursor,
                        ..s.params
                    },
                    ..s
                }
            } else {
                s
            }
        },
        WindowEventKind::MouseWheel { drag_end } => ApplicationState {
            params: ShaderParams { drag_end, ..s.params },
            ..s
        },
        WindowEventKind::KeyboardInput { escape_pressed } => {
            if escape_pressed { ApplicationState { close_requested: true, ..s } } else { s }
        },
        _ => s,
    }
}

/// What the caller does when the application is idle or has handled an
/// event: leave when closing is requested, else ask for a redraw if there is
/// a window surface.
pub open spec fn settle(closing: bool, has_surface: bool) -> (bool, bool) {
    (closing, !closing && has_surface)
}

/// What the caller does after `event`, in state `s` after the event.
pub open spec fn response_to(s: ApplicationState, event: WindowEventKind, has_surface: bool) -> EventResponse {
    EventResponse {
        reconfigure: match event {
            WindowEventKind::Resized { width, height } => Some(UVec2 { x: width, y: height }),
            _ => None,
        },
        execute_and_render: event == WindowEventKind::RedrawRequested,
        exit: settle(s.close_requested, has_surface).0,
        request_redraw: settle(s.close_requested, has_surface).1,
    }
}

impl ApplicationState {
    /// The state before the first frame: default parameters, no close
    /// requested and no button presses.
    pub fn new() -> (s: ApplicationState)
        ensures
            s.params == initial_params(),
            !s.close_requested,
            s.mouse_button_press_since_last_frame == 0,
    {
        ApplicationState {
            params: ShaderParams::default(),
            close_requested: false,
            mouse_button_press_since_last_frame: 0,
        }
    }

    /// Handles a window event: closing and Escape request the window to
    /// close; the cursor position is recorded and, while a button is held,
    /// drags the end of the drag along; a left click starts a drag at the
    /// cursor; the wheel sets the drag end; a resize asks for the surface to
    /// be reconfigured; a redraw request runs a frame. Afterwards the caller
    /// leaves if closing was requested, and otherwise asks for a redraw when
    /// there is a window surface.
    pub fn window_event(&mut self, event: WindowEventKind, has_surface: bool) -> (r: EventResponse)
        ensures
            *final(self) == after_event(*old(self), event),
            r == response_to(*final(self), event, has_surface),
    {
        let mut reconfigure: Option<UVec2> = None;
        let mut execute_and_render = false;
        match event {
            WindowEventKind::CloseRequested => {
                self.close_requested = true;
            },
            WindowEventKind::Resized { width, height } => {
                reconfigure = Some(UVec2 { x: width, y: height });
            },
            WindowEventKind::CursorMoved { position } => {
                self.params.cursor = position;
                if self.params.mouse_button_pressed != MOUSE_BUTTON_NONE {
                    self.params.drag_end = self.params.cursor;
                }
            },
            WindowEventKind::MouseInput { left } => {
                if left {
                    self.params.mouse_button_pressed = MOUSE_BUTTON_LEFT;
                    self.params.drag_start = self.params.cursor;
                    self.params.drag_end = self.params.cursor;
                }
            },
            WindowEventKind::MouseWheel { drag_end } => {
                self.params.drag_end = drag_end;
            },
            WindowEventKind::KeyboardInput { escape_pressed } => {
                if escape_pressed {
                    self.close_requested = true;
                }
            },
            WindowEventKind::RedrawRequested => {
                execute_and_render = true;
            },
            WindowEventKind::Other => {},
        }
        let (exit, request_redraw) = self.about_to_wait(has_surface);
        EventResponse { reconfigure, execute_and_render, exit, request_redraw }
    }

    /// What to do when the event loop is about to wait: leave if closing was
    /// requested, else ask for a redraw when there is a window surface.
    /// Returns `(exit, request_redraw)`.
    pub fn about_to_wait(&self, has_surface: bool) -> (r: (bool, bool))
        ensures
            r == settle(self.close_requested, has_surface),
    {
        if self.close_requested {
            (true, false)
        } else {
            (false, has_surface)
        }
    }

    /// Updates the parameters for a new frame drawn at `window_size`, at the
    /// time with bit pattern `time_bits`: the frame number advances, and the
    /// button presses and the held button are cleared.
    pub fn begin_frame(&mut self, window_size: UVec2, time_bits: u32)
        requires
            old(self).params.frame < u32::MAX,
        ensures
            final(self).params == (ShaderParams {
                window_size,
                time_bits,
                frame: (old(self).params.frame + 1) as u32,
                mouse_button_pressed: MOUSE_BUTTON_NONE,
                ..old(self).params
            }),
            final(self).close_requested == old(self).close_requested,
            final(self).mouse_button_press_since_last_frame == 0,
    {
        self.params.window_size = window_size;
        self.params.time_bits = time_bits;
        self.params.frame = self.params.frame + 1;
        self.mouse_button_press_since_last_frame = 0;
        self.params.mouse_button_pressed = MOUSE_BUTTON_NONE;
    }
}

/// Once closing has been requested it stays requested, and every later
/// event and every idle moment makes the caller leave and ask for no redraw.
pub proof fn lemma_close_is_final(s: ApplicationState, event: WindowEventKind, has_surface: bool)
    requires
        s.close_requested,
    ensures
        after_event(s, event).close_requested,
        response_to(after_event(s, event), event, has_surface).exit,
        !response_to(after_event(s, event), event, has_surface).request_redraw,
        settle(s.close_requested, has_surface) == (true, false),
{
}

/// The optional GPU features an adapter offers that the application cares about.
#[derive(Clone, Copy, PartialEq, Eq, Structural, Debug)]
pub struct AdapterFeatures {
    pub timestamp_query: bool,
    pub timestamp_query_inside_passes: bool,
    pub spirv_shader_passthrough: bool,
}

/// The features to request from the device, and whether passes are timed.
#[derive(Clone, Copy, PartialEq, Eq, Structural, Debug)]
pub struct DeviceFeaturePlan {
    pub push_constants: bool,
    pub timestamp_query: bool,
    pub timestamp_query_inside_passes: bool,
    pub spirv_shader_passthrough: bool,
    /// Whether compute passes are timed with GPU timestamps.
    pub timestamping: bool,
}

/// The largest push-constant block the application asks for, in bytes.
pub const MAX_PUSH_CONSTANT_SIZE: u32 = 256;

/// The device features to request: push constants always; both timestamp
/// features, and timing, when the adapter offers both; SPIR-V passthrough
/// when the adapter offers it.
pub fn plan_device_features(adapter: AdapterFeatures) -> (p: DeviceFeaturePlan)
    ensures
        p.push_constants,
        p.timestamping == (adapter.timestamp_query && adapter.timestamp_query_inside_passes),
        p.timestamp_query == p.timestamping,
        p.timestamp_query_inside_passes == p.timestamping,
        p.spirv_shader_passthrough == adapter.spirv_shader_passthrough,
{
    let timestamping = adapter.timestamp_query && adapter.timestamp_query_inside_passes;
    let mut plan = DeviceFeaturePlan {
        push_constants: true,
        timestamp_query: false,
        timestamp_query_inside_passes: false,
        spirv_shader_passthrough: false,
        timestamping,
    };
    if timestamping {
        plan.timestamp_query = true;
        plan.timestamp_query_inside_passes = true;
    }
    if adapter.spirv_shader_passthrough {
        plan.spirv_shader_passthrough = true;
    }
    plan
}

/// A left click starts a drag at the cursor: afterwards the left button is
/// held and both ends of the drag are where the cursor was, the cursor itself
/// and the close request unchanged. A click of another button changes nothing.
pub proof fn lemma_left_click_starts_drag(s: ApplicationState, left: bool)
    ensures
        left ==> {
            let a = after_event(s, WindowEventKind::MouseInput { left });
            &&& a.params.mouse_button_pressed == MOUSE_BUTTON_LEFT
            &&& a.params.drag_start == s.params.cursor
            &&& a.params.drag_end == s.params.cursor
            &&& a.params.cursor == s.params.cursor
            &&& a.close_requested == s.close_requested
        },
        !left ==> after_event(s, WindowEventKind::MouseInput { left }) == s,
{
}

/// Clicking and then moving the cursor to `p` drags from where the cursor
/// was at the click to `p`.
pub proof fn lemma_click_then_move_drags(s: ApplicationState, p: UVec2)
    ensures
        ({
            let a = after_event(
                after_event(s, WindowEventKind::MouseInput { left: true }),
                WindowEventKind::CursorMoved { position: p },
            );
            &&& a.params.drag_start == s.params.cursor
            &&& a.params.drag_end == p
            &&& a.params.cursor == p
        }),
{
}

} // verus!
