use sand_simulation::application::{plan_device_features, AdapterFeatures, ApplicationState, WindowEventKind};
use sand_simulation::cell::{Cell, ColorBits};
use sand_simulation::material::{Color, Material};
use sand_simulation::options::{shader_panic_strategy, Options, RustGPUShader, ShaderPanicStrategy};
use sand_simulation::params::{ShaderParams, UVec2, MOUSE_BUTTON_LEFT, MOUSE_BUTTON_NONE};
use sand_simulation::render::{fragment_color, fullscreen_triangle_corner};
use sand_simulation::simulation::{elapsed_ticks, initial_cells, BindGroupChoice, CellBuffer, SimulationState};

#[test]
fn default_params() {
    let p = ShaderParams::default();
    assert_eq!(p.window_size, UVec2::new(512, 512));
    assert_eq!(p.sim_size, UVec2::new(512, 512));
    assert_eq!(p.time_bits, 0.0f32.to_bits());
    assert_eq!(p.frame, 0);
    assert_eq!(p.mouse_radius, 10);
    assert_eq!(p.cursor, UVec2::new(0, 0));
    assert_eq!(p.mouse_button_pressed, MOUSE_BUTTON_NONE);
}

#[test]
fn fragment_shows_material_color() {
    let mut cells = vec![Cell::new_empty(); 4 * 3];
    cells[1 * 4 + 2] = Cell::new_material(Material::Sand);
    assert_eq!(fragment_color(UVec2::new(2, 1), UVec2::new(4, 3), &cells), Color { r: 255, g: 255, b: 0, a: 255 });
    assert_eq!(fragment_color(UVec2::new(0, 0), UVec2::new(4, 3), &cells), Color { r: 0, g: 0, b: 0, a: 255 });
}

#[test]
fn fragment_clamps_to_grid() {
    let mut cells = vec![Cell::new_empty(); 4 * 3];
    cells[2 * 4 + 3] = Cell::new_undefined();
    assert_eq!(fragment_color(UVec2::new(100, 100), UVec2::new(4, 3), &cells), Color { r: 255, g: 0, b: 255, a: 255 });
}

#[test]
fn fragment_marks_tinted_empty_cells_red() {
    let mut cells = vec![Cell::new_empty(); 4];
    cells[1].color = ColorBits { r: 0.5f32.to_bits(), g: 0, b: 0, a: 0 };
    cells[2].color = ColorBits { r: (-0.5f32).to_bits(), g: 0.25f32.to_bits(), b: 0, a: 0 };
    cells[3].color = ColorBits { r: (-1.0f32).to_bits(), g: f32::NAN.to_bits(), b: 1.0f32.to_bits(), a: 0 };
    let size = UVec2::new(4, 1);
    let red = Color { r: 255, g: 0, b: 0, a: 255 };
    assert_eq!(fragment_color(UVec2::new(1, 0), size, &cells), red);
    assert_eq!(fragment_color(UVec2::new(2, 0), size, &cells), red);
    assert_eq!(fragment_color(UVec2::new(3, 0), size, &cells), Color { r: 0, g: 0, b: 0, a: 255 });
}

#[test]
fn tinted_sand_keeps_its_color() {
    let mut cells = vec![Cell::new_material(Material::Sand); 1];
    cells[0].color = ColorBits { r: 1.0f32.to_bits(), g: 1.0f32.to_bits(), b: 0, a: 0 };
    assert_eq!(fragment_color(UVec2::new(0, 0), UVec2::new(1, 1), &cells), Color { r: 255, g: 255, b: 0, a: 255 });
}

#[test]
fn fullscreen_triangle_corners() {
    assert_eq!(fullscreen_triangle_corner(0), (0, 0));
    assert_eq!(fullscreen_triangle_corner(1), (2, 0));
    assert_eq!(fullscreen_triangle_corner(2), (0, 2));
    assert_eq!(fullscreen_triangle_corner(3), (2, 2));
    assert_eq!(fullscreen_triangle_corner(-1), (2, 2));
    assert_eq!(fullscreen_triangle_corner(-2), (0, 2));
}

#[test]
fn initial_grid_layout() {
    let cells = initial_cells();
    assert_eq!(cells.len(), 512 * 512);
    let sand = cells.iter().filter(|c| c.material == Material::Sand).count();
    assert_eq!(sand, 400 + 256 * 162);
    assert_eq!(cells[400 * 512].material, Material::Sand);
    assert_eq!(cells[400 * 512 + 399].material, Material::Sand);
    assert_eq!(cells[400 * 512 + 400].material, Material::Empty);
    assert_eq!(cells[350].material, Material::Sand);
    assert_eq!(cells[349].material, Material::Empty);
    assert_eq!(cells[255 * 512 + 511].material, Material::Sand);
    assert_eq!(cells[256 * 512 + 511].material, Material::Empty);
}

#[test]
fn buffers_take_turns() {
    let mut s = SimulationState::new(false, false);
    assert_eq!(s.sim_width, 512);
    assert_eq!(s.current_buffer(), CellBuffer::Output);
    let first = s.execute();
    assert_eq!(first.bind_group, BindGroupChoice::B);
    assert_eq!(s.current_buffer(), CellBuffer::Input);
    let second = s.execute();
    assert_eq!(second.bind_group, BindGroupChoice::A);
    assert_eq!(s.current_buffer(), CellBuffer::Output);
    assert_eq!(second.workgroups_x, 16);
    assert_eq!(second.workgroups_y, 16);
    assert!(second.set_push_constants);
    assert!(!second.write_timestamps);
}

#[test]
fn execute_plan_follows_settings() {
    let mut s = SimulationState::new(true, true);
    let plan = s.execute();
    assert!(!plan.set_push_constants);
    assert!(plan.write_timestamps);
}

#[test]
fn elapsed_ticks_difference() {
    assert_eq!(elapsed_ticks(&vec![100, 350]), 250);
    assert_eq!(elapsed_ticks(&vec![7, 7, 1]), 0);
}

#[test]
fn window_events_drive_the_drag() {
    let mut app = ApplicationState::new();
    let r = app.window_event(WindowEventKind::CursorMoved { position: UVec2::new(3, 4) }, true);
    assert_eq!(app.params.cursor, UVec2::new(3, 4));
    assert_eq!(app.params.drag_end, UVec2::new(0, 0));
    assert!(r.request_redraw && !r.exit);
    app.window_event(WindowEventKind::MouseInput { left: true }, true);
    assert_eq!(app.params.mouse_button_pressed, MOUSE_BUTTON_LEFT);
    assert_eq!(app.params.drag_start, UVec2::new(3, 4));
    app.window_event(WindowEventKind::CursorMoved { position: UVec2::new(9, 1) }, true);
    assert_eq!(app.params.drag_end, UVec2::new(9, 1));
    assert_eq!(app.params.drag_start, UVec2::new(3, 4));
    app.window_event(WindowEventKind::MouseInput { left: false }, true);
    assert_eq!(app.params.drag_start, UVec2::new(3, 4));
    app.window_event(WindowEventKind::MouseWheel { drag_end: UVec2::new(1, 2) }, true);
    assert_eq!(app.params.drag_end, UVec2::new(1, 2));
}

#[test]
fn window_events_resize_and_redraw() {
    let mut app = ApplicationState::new();
    let r = app.window_event(WindowEventKind::Resized { width: 800, height: 600 }, false);
    assert_eq!(r.reconfigure, Some(UVec2::new(800, 600)));
    assert!(!r.request_redraw && !r.execute_and_render);
    let r = app.window_event(WindowEventKind::RedrawRequested, true);
    assert!(r.execute_and_render && r.request_redraw && r.reconfigure.is_none());
}

#[test]
fn close_requests_are_final() {
    let mut app = ApplicationState::new();
    let r = app.window_event(WindowEventKind::KeyboardInput { escape_pressed: false }, true);
    assert!(!r.exit);
    let r = app.window_event(WindowEventKind::KeyboardInput { escape_pressed: true }, true);
    assert!(r.exit && !r.request_redraw);
    let r = app.window_event(WindowEventKind::Other, true);
    assert!(r.exit);
    assert_eq!(app.about_to_wait(true), (true, false));
    let mut other = ApplicationState::new();
    assert!(other.window_event(WindowEventKind::CloseRequested, true).exit);
}

#[test]
fn begin_frame_advances() {
    let mut app = ApplicationState::new();
    app.window_event(WindowEventKind::MouseInput { left: true }, true);
    app.begin_frame(UVec2::new(640, 480), 2.5f32.to_bits());
    assert_eq!(app.params.frame, 1);
    assert_eq!(app.params.window_size, UVec2::new(640, 480));
    assert_eq!(app.params.time_bits, 2.5f32.to_bits());
    assert_eq!(app.params.mouse_button_pressed, MOUSE_BUTTON_NONE);
    assert_eq!(app.mouse_button_press_since_last_frame, 0);
}

#[test]
fn device_features_follow_adapter() {
    let p = plan_device_features(AdapterFeatures { timestamp_query: true, timestamp_query_inside_passes: false, spirv_shader_passthrough: true });
    assert!(p.push_constants && !p.timestamping && !p.timestamp_query && p.spirv_shader_passthrough);
    let p = plan_device_features(AdapterFeatures { timestamp_query: true, timestamp_query_inside_passes: true, spirv_shader_passthrough: false });
    assert!(p.timestamping && p.timestamp_query && p.timestamp_query_inside_passes && !p.spirv_shader_passthrough);
}

#[test]
fn options_on_the_web_emulate_push_constants() {
    let o = Options { shader: RustGPUShader::Sky, force_spirv_passthru: false, emulate_push_constants_with_storage_buffer: false };
    assert!(!o.for_platform(false).emulate_push_constants_with_storage_buffer);
    let web = o.for_platform(true);
    assert!(web.emulate_push_constants_with_storage_buffer);
    assert_eq!(web.shader, RustGPUShader::Sky);
}

#[test]
fn panic_strategy_follows_passthrough() {
    assert_eq!(shader_panic_strategy(false), ShaderPanicStrategy::SilentExit);
    assert_eq!(
        shader_panic_strategy(true),
        ShaderPanicStrategy::DebugPrintfThenExit { print_inputs: true, print_backtrace: true }
    );
}
