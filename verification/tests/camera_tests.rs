use sdof_dynamics::camera::{CameraControl, CameraInput, InteractionState, PanMode, ViewPreset};

fn idle_input() -> CameraInput {
    CameraInput {
        shift: false,
        ctrl: false,
        alt: false,
        primary_dragged: false,
        middle_dragged: false,
        dragged: false,
        hovered: true,
        double_clicked: false,
        scrolled: false,
        key_w: false,
        key_s: false,
        key_a: false,
        key_d: false,
        key_e: false,
        key_space: false,
        key_q: false,
        num1: false,
        num3: false,
        num5: false,
        num7: false,
        home: false,
    }
}

#[test]
fn new_camera_is_orbital_and_idle() {
    let c = CameraControl::new();
    assert!(!c.fps_mode);
    assert!(!c.perspective);
    assert!(c.show_origin_gizmo);
    assert_eq!(c.state(), InteractionState::Idle);
}

#[test]
fn primary_drag_orbits() {
    let mut c = CameraControl::new();
    let mut i = idle_input();
    i.primary_dragged = true;
    i.dragged = true;
    let plan = c.step(&i);
    assert!(plan.orbit);
    assert_eq!(plan.pan, PanMode::Still);
    assert!(!plan.smooth_zoom);
    assert_eq!(c.state(), InteractionState::Orbiting);
}

#[test]
fn shift_primary_drag_pans_pixel_exact() {
    let mut c = CameraControl::new();
    let mut i = idle_input();
    i.primary_dragged = true;
    i.dragged = true;
    i.shift = true;
    let plan = c.step(&i);
    assert!(!plan.orbit);
    assert_eq!(plan.pan, PanMode::PixelExact);
    assert_eq!(c.state(), InteractionState::Panning);
}

#[test]
fn shift_middle_drag_pans_scaled() {
    let mut c = CameraControl::new();
    let mut i = idle_input();
    i.middle_dragged = true;
    i.dragged = true;
    i.shift = true;
    let plan = c.step(&i);
    assert_eq!(plan.pan, PanMode::ZoomScaled);
    assert_eq!(c.state(), InteractionState::Panning);
}

#[test]
fn alt_shift_primary_drag_pans_scaled() {
    let mut c = CameraControl::new();
    let mut i = idle_input();
    i.primary_dragged = true;
    i.dragged = true;
    i.shift = true;
    i.alt = true;
    let plan = c.step(&i);
    assert_eq!(plan.pan, PanMode::ZoomScaled);
    assert!(!plan.orbit);
}

#[test]
fn alt_primary_drag_orbits_even_with_ctrl() {
    let mut c = CameraControl::new();
    let mut i = idle_input();
    i.primary_dragged = true;
    i.dragged = true;
    i.alt = true;
    i.ctrl = true;
    let plan = c.step(&i);
    assert!(plan.orbit);
    assert_eq!(c.state(), InteractionState::Orbiting);
}

#[test]
fn ctrl_middle_drag_zooms() {
    let mut c = CameraControl::new();
    let mut i = idle_input();
    i.middle_dragged = true;
    i.dragged = true;
    i.ctrl = true;
    let plan = c.step(&i);
    assert!(plan.smooth_zoom);
    assert!(!plan.orbit);
    assert_eq!(plan.pan, PanMode::Still);
    assert_eq!(c.state(), InteractionState::Zooming);
}

#[test]
fn release_returns_to_idle() {
    let mut c = CameraControl::new();
    let mut i = idle_input();
    i.primary_dragged = true;
    i.dragged = true;
    c.step(&i);
    assert_eq!(c.state(), InteractionState::Orbiting);
    c.step(&idle_input());
    assert_eq!(c.state(), InteractionState::Idle);
}

#[test]
fn ineffective_drag_keeps_previous_interaction() {
    let mut c = CameraControl::new();
    let mut i = idle_input();
    i.primary_dragged = true;
    i.dragged = true;
    c.step(&i);
    // Ctrl with the primary button neither orbits, pans nor zooms.
    let mut j = idle_input();
    j.primary_dragged = true;
    j.dragged = true;
    j.ctrl = true;
    let plan = c.step(&j);
    assert!(!plan.orbit);
    assert_eq!(plan.pan, PanMode::Still);
    assert_eq!(c.state(), InteractionState::Orbiting);
}

#[test]
fn fps_mode_looks_and_moves() {
    let mut c = CameraControl::new();
    c.fps_mode = true;
    let mut i = idle_input();
    i.primary_dragged = true;
    i.dragged = true;
    i.key_w = true;
    i.key_space = true;
    i.shift = true;
    i.scrolled = true;
    let plan = c.step(&i);
    assert!(plan.fps_look);
    assert!(plan.fps_move.forward);
    assert!(!plan.fps_move.backward);
    assert!(plan.fps_move.up);
    assert!(plan.fps_move.boost);
    assert!(plan.fps_speed_scroll);
    assert!(!plan.orbit);
    assert!(!plan.scroll_zoom);
    assert_eq!(c.state(), InteractionState::Fps);
}

#[test]
fn fps_keys_ignored_when_not_hovered() {
    let mut c = CameraControl::new();
    c.fps_mode = true;
    let mut i = idle_input();
    i.hovered = false;
    i.key_w = true;
    i.key_q = true;
    i.scrolled = true;
    let plan = c.step(&i);
    assert!(!plan.fps_move.forward);
    assert!(!plan.fps_move.down);
    assert!(!plan.fps_speed_scroll);
    assert_eq!(c.state(), InteractionState::Fps);
}

#[test]
fn scroll_zooms_in_orbital_mode() {
    let mut c = CameraControl::new();
    let mut i = idle_input();
    i.scrolled = true;
    let plan = c.step(&i);
    assert!(plan.scroll_zoom);
    assert!(!plan.fps_speed_scroll);
}

#[test]
fn numpad_presets_in_key_order() {
    let mut c = CameraControl::new();
    let mut i = idle_input();
    i.num1 = true;
    i.num3 = true;
    i.num7 = true;
    let plan = c.step(&i);
    assert_eq!(plan.presets, vec![ViewPreset::Front, ViewPreset::Right, ViewPreset::Top]);
    i.ctrl = true;
    let plan = c.step(&i);
    assert_eq!(plan.presets, vec![ViewPreset::Back, ViewPreset::Left, ViewPreset::Bottom]);
}

#[test]
fn numpad_five_toggles_projection_twice_back() {
    let mut c = CameraControl::new();
    let mut i = idle_input();
    i.num5 = true;
    c.step(&i);
    assert!(c.perspective);
    c.step(&i);
    assert!(!c.perspective);
}

#[test]
fn keys_need_hover() {
    let mut c = CameraControl::new();
    let mut i = idle_input();
    i.hovered = false;
    i.num1 = true;
    i.num5 = true;
    i.home = true;
    let plan = c.step(&i);
    assert!(plan.presets.is_empty());
    assert!(!c.perspective);
    assert!(!plan.reset);
}

#[test]
fn home_and_double_click_reset() {
    let mut c = CameraControl::new();
    let mut i = idle_input();
    i.home = true;
    assert!(c.step(&i).reset);
    let mut j = idle_input();
    j.hovered = false;
    j.double_clicked = true;
    assert!(c.step(&j).reset);
    assert!(!c.step(&idle_input()).reset);
}

#[test]
fn step_keeps_mode_and_gizmo() {
    let mut c = CameraControl::new();
    c.show_origin_gizmo = false;
    let mut i = idle_input();
    i.primary_dragged = true;
    i.dragged = true;
    c.step(&i);
    assert!(!c.fps_mode);
    assert!(!c.show_origin_gizmo);
}
