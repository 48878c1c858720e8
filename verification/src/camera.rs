use vstd::prelude::*;

verus! {

/// What the pointer is doing to the 3D camera.
#[derive(Debug, Clone, Copy, PartialEq, Eq, Structural)]
pub enum InteractionState {
    Idle,
    Orbiting,
    Panning,
    Zooming,
    Fps,
}

/// The pointer, modifier and key state of one frame, as seen by the viewport.
/// Drag flags tell which buttons drag over the viewport; `dragged` is any drag;
/// `scrolled` is a non-zero vertical wheel movement; the `key_*` flags are keys held
/// down, the `num*` and `home` flags keys pressed in this frame.
#[derive(Debug, Clone, Copy)]
pub struct CameraInput {
    pub shift: bool,
    pub ctrl: bool,
    pub alt: bool,
    pub primary_dragged: bool,
    pub middle_dragged: bool,
    pub dragged: bool,
    pub hovered: bool,
    pub double_clicked: bool,
    pub scrolled: bool,
    pub key_w: bool,
    pub key_s: bool,
    pub key_a: bool,
    pub key_d: bool,
    pub key_e: bool,
    pub key_space: bool,
    pub key_q: bool,
    pub num1: bool,
    pub num3: bool,
    pub num5: bool,
    pub num7: bool,
    pub home: bool,
}

/// How a drag pans the orbital camera: not at all, by the drag divided by the zoom,
/// or one screen pixel per pixel dragged.
#[derive(Debug, Clone, Copy, PartialEq, Eq, Structural)]
pub enum PanMode {
    Still,
    ZoomScaled,
    PixelExact,
}

/// A numpad view preset of the orbital camera.
#[derive(Debug, Clone, Copy, PartialEq, Eq, Structural)]
pub enum ViewPreset {
    Front,
    Back,
    Right,
    Left,
    Top,
    Bottom,
}

/// The free-flight moves of one frame, in the order forward, backward, strafe left,
/// strafe right, up, down; `boost` doubles the speed.
#[derive(Debug, Clone, Copy, PartialEq, Eq, Structural)]
pub struct FpsMove {
    pub forward: bool,
    pub backward: bool,
    pub left: bool,
    pub right: bool,
    pub up: bool,
    pub down: bool,
    pub boost: bool,
}

/// The camera changes one frame of input asks for. The caller carries them out on the
/// camera's angles, offsets and zoom, in the order of the fields, presets in order.
#[derive(Debug)]
pub struct CameraPlan {
    pub fps_look: bool,
    pub fps_move: FpsMove,
    pub fps_speed_scroll: bool,
    pub orbit: bool,
    pub pan: PanMode,
    pub smooth_zoom: bool,
    pub scroll_zoom: bool,
    pub presets: Vec<ViewPreset>,
    pub reset: bool,
}

/// The discrete part of the viewport camera: free-flight or orbital mode, perspective
/// or orthographic projection, whether the origin gizmo shows, and the interaction.
#[derive(Debug)]
pub struct CameraControl {
    pub fps_mode: bool,
    pub perspective: bool,
    pub show_origin_gizmo: bool,
    pub state: InteractionState,
}

/// A drag that orbits: middle button without Shift or Ctrl, Alt with the primary
/// button without Shift, or the primary button with no modifier.
pub open spec fn orbit_drag(i: CameraInput) -> bool {
    ||| i.middle_dragged && !i.shift && !i.ctrl
    ||| i.primary_dragged && i.alt && !i.shift
    ||| i.primary_dragged && !i.alt && !i.shift && !i.ctrl
}

/// A drag that pans scaled by the zoom: Shift with the middle button and no Ctrl, or
/// Alt with Shift and the primary button.
pub open spec fn scaled_pan_drag(i: CameraInput) -> bool {
    ||| i.middle_dragged && i.shift && !i.ctrl
    ||| i.primary_dragged && i.alt && i.shift
}

/// A drag that pans pixel for pixel: Shift with the primary button, no Alt or Ctrl.
pub open spec fn pixel_pan_drag(i: CameraInput) -> bool {
    i.primary_dragged && i.shift && !i.alt && !i.ctrl
}

/// A drag that zooms smoothly: Ctrl with the middle button.
pub open spec fn smooth_zoom_drag(i: CameraInput) -> bool {
    i.middle_dragged && i.ctrl
}

/// The pan an orbital-mode drag asks for; the zoom-scaled pan wins over the other.
pub open spec fn pan_for(i: CameraInput) -> PanMode {
    if scaled_pan_drag(i) {
        PanMode::ZoomScaled
    } else if pixel_pan_drag(i) {
        PanMode::PixelExact
    } else {
        PanMode::Still
    }
}

/// The interaction after one frame, from the one before it.
pub open spec fn next_interaction(fps_mode: bool, prev: InteractionState, i: CameraInput) -> InteractionState {
    if fps_mode {
        InteractionState::Fps
    } else if !i.dragged {
        InteractionState::Idle
    } else if smooth_zoom_drag(i) {
        InteractionState::Zooming
    } else if pan_for(i) != PanMode::Still {
        InteractionState::Panning
    } else if orbit_drag(i) {
        InteractionState::Orbiting
    } else {
        prev
    }
}

/// The view presets a frame's keys choose while the viewport is hovered: 1 for front
/// (Ctrl: back), 3 for right (Ctrl: left), 7 for top (Ctrl: bottom), in that order.
pub open spec fn presets_for(i: CameraInput) -> Seq<ViewPreset> {
    if !i.hovered {
        Seq::empty()
    } else {
        (if i.num1 {
            seq![if i.ctrl { ViewPreset::Back } else { ViewPreset::Front }]
        } else {
            Seq::empty()
        }) + (if i.num3 {
            seq![if i.ctrl { ViewPreset::Left } else { ViewPreset::Right }]
        } else {
            Seq::empty()
        }) + (if i.num7 {
            seq![if i.ctrl { ViewPreset::Bottom } else { ViewPreset::Top }]
        } else {
            Seq::empty()
        })
    }
}

/// The projection after one frame: key 5 over the viewport switches it.
pub open spec fn next_perspective(perspective: bool, i: CameraInput) -> bool {
    if i.hovered && i.num5 {
        !perspective
    } else {
        perspective
    }
}

/// The free-flight moves of a frame: held keys count only over the viewport.
pub open spec fn fps_move_for(i: CameraInput) -> FpsMove {
    FpsMove {
        forward: i.hovered && i.key_w,
        backward: i.hovered && i.key_s,
        left: i.hovered && i.key_a,
        right: i.hovered && i.key_d,
        up: i.hovered && (i.key_e || i.key_space),
        down: i.hovered && i.key_q,
        boost: i.shift,
    }
}

/// No free-flight move at all.
pub open spec fn no_fps_move() -> FpsMove {
    FpsMove {
        forward: false,
        backward: false,
        left: false,
        right: false,
        up: false,
        down: false,
        boost: false,
    }
}

fn preset_for_key(ctrl: bool, plain: ViewPreset, with_ctrl: ViewPreset) -> (p: ViewPreset)
    ensures
        p == (if ctrl { with_ctrl } else { plain }),
{
    if ctrl {
        with_ctrl
    } else {
        plain
    }
}

impl CameraControl {
    /// The interaction the camera is in.
    pub open spec fn interaction(&self) -> InteractionState {
        self.state
    }

    /// A camera in orbital mode with orthographic projection, the origin gizmo shown,
    /// and no interaction going on.
    pub fn new() -> (c: CameraControl)
        ensures
            !c.fps_mode,
            !c.perspective,
            c.show_origin_gizmo,
            c.interaction() == InteractionState::Idle,
    {
        CameraControl {
            fps_mode: false,
            perspective: false,
            show_origin_gizmo: true,
            state: InteractionState::Idle,
        }
    }

    /// The interaction the camera is in.
    pub fn state(&self) -> (s: InteractionState)
        ensures
            s == self.interaction(),
    {
        self.state
    }

    /// Takes one frame of input: moves to the next interaction, switches the
    /// projection on key 5, and says what the frame does to the camera.
    /// In free-flight mode a primary drag looks around, held keys move, the wheel
    /// changes the speed; in orbital mode drags orbit, pan or zoom and the wheel zooms.
    /// In both, numpad keys choose presets and Home or a double click resets the view.
    pub fn step(&mut self, input: &CameraInput) -> (plan: CameraPlan)
        ensures
            final(self).fps_mode == old(self).fps_mode,
            final(self).show_origin_gizmo == old(self).show_origin_gizmo,
            final(self).perspective == next_perspective(old(self).perspective, *input),
            final(self).interaction() == next_interaction(
                old(self).fps_mode,
                old(self).interaction(),
                *input,
            ),
            plan.fps_look == (old(self).fps_mode && input.primary_dragged),
            plan.fps_move == (if old(self).fps_mode {
                fps_move_for(*input)
            } else {
                no_fps_move()
            }),
            plan.fps_speed_scroll == (old(self).fps_mode && input.hovered && input.scrolled),
            plan.orbit == (!old(self).fps_mode && orbit_drag(*input)),
            plan.pan == (if old(self).fps_mode {
                PanMode::Still
            } else {
                pan_for(*input)
            }),
            plan.smooth_zoom == (!old(self).fps_mode && smooth_zoom_drag(*input)),
            plan.scroll_zoom == (!old(self).fps_mode && input.hovered && input.scrolled),
            plan.presets@ == presets_for(*input),
            plan.reset == ((input.hovered && input.home) || input.double_clicked),
            // The documented button and modifier table of orbital mode.
            !old(self).fps_mode && input.middle_dragged && !input.shift && !input.ctrl
                ==> plan.orbit,
            !old(self).fps_mode && input.primary_dragged && input.alt && !input.shift
                ==> plan.orbit,
            !old(self).fps_mode && input.primary_dragged && !input.alt && !input.shift
                && !input.ctrl ==> plan.orbit,
            input.shift ==> !plan.orbit,
            !old(self).fps_mode && input.middle_dragged && input.shift && !input.ctrl
                ==> plan.pan == PanMode::ZoomScaled,
            !old(self).fps_mode && input.primary_dragged && input.alt && input.shift
                ==> plan.pan == PanMode::ZoomScaled,
            !old(self).fps_mode && input.primary_dragged && input.shift && !input.alt
                && !input.ctrl && !input.middle_dragged ==> plan.pan == PanMode::PixelExact,
            !input.shift ==> plan.pan == PanMode::Still,
            !old(self).fps_mode && input.middle_dragged && input.ctrl ==> plan.smooth_zoom,
            !input.ctrl ==> !plan.smooth_zoom,
            !old(self).fps_mode && input.dragged && input.middle_dragged && !input.shift
                && !input.ctrl ==> final(self).state == InteractionState::Orbiting,
            !old(self).fps_mode && !input.dragged ==> final(self).state == InteractionState::Idle,
            old(self).fps_mode ==> final(self).state == InteractionState::Fps,
            // Free flight: each move is its own key, held over the viewport.
            plan.fps_move.forward == (old(self).fps_mode && input.hovered && input.key_w),
            plan.fps_move.backward == (old(self).fps_mode && input.hovered && input.key_s),
            plan.fps_move.left == (old(self).fps_mode && input.hovered && input.key_a),
            plan.fps_move.right == (old(self).fps_mode && input.hovered && input.key_d),
            plan.fps_move.up == (old(self).fps_mode && input.hovered && (input.key_e
                || input.key_space)),
            plan.fps_move.down == (old(self).fps_mode && input.hovered && input.key_q),
            plan.fps_move.boost == (old(self).fps_mode && input.shift),
    {
        let i = *input;
        let mut fps_look = false;
        let mut fps_move = FpsMove {
            forward: false,
            backward: false,
            left: false,
            right: false,
            up: false,
            down: false,
            boost: false,
        };
        let mut fps_speed_scroll = false;
        let mut orbit = false;
        let mut pan = PanMode::Still;
        let mut smooth_zoom = false;
        let mut scroll_zoom = false;
        if self.fps_mode {
            self.state = InteractionState::Fps;
            fps_look = i.primary_dragged;
            fps_move = FpsMove {
                forward: i.hovered && i.key_w,
                backward: i.hovered && i.key_s,
                left: i.hovered && i.key_a,
                right: i.hovered && i.key_d,
                up: i.hovered && (i.key_e || i.key_space),
                down: i.hovered && i.key_q,
                boost: i.shift,
            };
            fps_speed_scroll = i.hovered && i.scrolled;
        } else {
            let mmb_orbit = i.middle_dragged && !i.shift && !i.ctrl;
            let alt_orbit = i.primary_dragged && i.alt && !i.shift;
            let lmb_orbit = i.primary_dragged && !i.alt && !i.shift && !i.ctrl;
            if mmb_orbit || alt_orbit || lmb_orbit {
                orbit = true;
                self.state = InteractionState::Orbiting;
            }
            let mmb_pan = i.middle_dragged && i.shift && !i.ctrl;
            let alt_pan = i.primary_dragged && i.alt && i.shift;
            let lmb_pan = i.primary_dragged && i.shift && !i.alt && !i.ctrl;
            if mmb_pan || alt_pan {
                pan = PanMode::ZoomScaled;
                self.state = InteractionState::Panning;
            } else if lmb_pan {
                pan = PanMode::PixelExact;
                self.state = InteractionState::Panning;
            }
            if i.middle_dragged && i.ctrl {
                smooth_zoom = true;
                self.state = InteractionState::Zooming;
            }
            scroll_zoom = i.hovered && i.scrolled;
            if !i.dragged {
                self.state = InteractionState::Idle;
            }
        }
        let mut presets: Vec<ViewPreset> = Vec::new();
        let mut reset = false;
        if i.hovered {
            if i.num1 {
                presets.push(preset_for_key(i.ctrl, ViewPreset::Front, ViewPreset::Back));
            }
            if i.num3 {
                presets.push(preset_for_key(i.ctrl, ViewPreset::Right, ViewPreset::Left));
            }
            if i.num7 {
                presets.push(preset_for_key(i.ctrl, ViewPreset::Top, ViewPreset::Bottom));
            }
            if i.num5 {
                self.perspective = !self.perspective;
            }
            if i.home {
                reset = true;
            }
        }
        if i.double_clicked {
            reset = true;
        }
        assert(presets@ =~= presets_for(i));
        CameraPlan {
            fps_look,
            fps_move,
            fps_speed_scroll,
            orbit,
            pan,
            smooth_zoom,
            scroll_zoom,
            presets,
            reset,
        }
    }
}

} // verus!

verus! {

/// No drag both orbits and pans: every orbiting drag is made without Shift, every
/// panning drag with it.
pub proof fn lemma_orbit_and_pan_exclusive(i: CameraInput)
    ensures
        orbit_drag(i) ==> pan_for(i) == PanMode::Still,
        pan_for(i) != PanMode::Still ==> !orbit_drag(i),
{
}

/// The orbital-mode button table: a middle drag without Shift or Ctrl orbits, and so
/// do an Alt drag with the primary button without Shift and a plain primary drag; such
/// a frame, when it drags, leaves the camera orbiting.
pub proof fn lemma_orbit_table(prev: InteractionState, i: CameraInput)
    ensures
        i.middle_dragged && !i.shift && !i.ctrl ==> orbit_drag(i),
        i.primary_dragged && i.alt && !i.shift ==> orbit_drag(i),
        i.primary_dragged && !i.alt && !i.shift && !i.ctrl ==> orbit_drag(i),
        !i.middle_dragged && !i.primary_dragged ==> !orbit_drag(i),
        i.shift ==> !orbit_drag(i),
        i.dragged && i.middle_dragged && !i.shift && !i.ctrl ==> next_interaction(false, prev, i)
            == InteractionState::Orbiting,
        i.dragged && i.primary_dragged && !i.alt && !i.shift && !i.ctrl ==> next_interaction(
            false,
            prev,
            i,
        ) == InteractionState::Orbiting,
{
}

/// The orbital-mode pan and zoom table: Shift with the middle button (no Ctrl), or Alt
/// with Shift and the primary button, pans scaled by the zoom; Shift with the primary
/// button alone pans pixel for pixel; Ctrl with the middle button zooms; nothing pans
/// without Shift and nothing zooms without Ctrl.
pub proof fn lemma_pan_zoom_table(i: CameraInput)
    ensures
        i.middle_dragged && i.shift && !i.ctrl ==> pan_for(i) == PanMode::ZoomScaled,
        i.primary_dragged && i.alt && i.shift ==> pan_for(i) == PanMode::ZoomScaled,
        i.primary_dragged && i.shift && !i.alt && !i.ctrl && !i.middle_dragged ==> pan_for(i)
            == PanMode::PixelExact,
        !i.shift ==> pan_for(i) == PanMode::Still,
        i.middle_dragged && i.ctrl ==> smooth_zoom_drag(i),
        !i.ctrl || !i.middle_dragged ==> !smooth_zoom_drag(i),
{
}

/// Free flight: W moves forward, S backward, A strafes left, D right, E or Space up and
/// Q down, each only while its key is held over the viewport; Shift boosts.
pub proof fn lemma_fps_keys(i: CameraInput)
    ensures
        fps_move_for(i).forward == (i.hovered && i.key_w),
        fps_move_for(i).backward == (i.hovered && i.key_s),
        fps_move_for(i).left == (i.hovered && i.key_a),
        fps_move_for(i).right == (i.hovered && i.key_d),
        fps_move_for(i).up == (i.hovered && (i.key_e || i.key_space)),
        fps_move_for(i).down == (i.hovered && i.key_q),
        fps_move_for(i).boost == i.shift,
{
}

/// Pressing 5 over the viewport in two frames brings the projection back.
pub proof fn lemma_perspective_press_twice(perspective: bool, a: CameraInput, b: CameraInput)
    requires
        a.hovered && a.num5,
        b.hovered && b.num5,
    ensures
        next_perspective(next_perspective(perspective, a), b) == perspective,
{
}

/// Keys only act while the pointer is over the viewport: away from it no preset is
/// chosen, the projection stays, no key moves the free-flight camera, and only a
/// double click resets the view.
pub proof fn lemma_keys_need_hover(perspective: bool, i: CameraInput)
    requires
        !i.hovered,
    ensures
        presets_for(i) == Seq::<ViewPreset>::empty(),
        next_perspective(perspective, i) == perspective,
        !fps_move_for(i).forward && !fps_move_for(i).backward && !fps_move_for(i).left
            && !fps_move_for(i).right && !fps_move_for(i).up && !fps_move_for(i).down,
        ((i.hovered && i.home) || i.double_clicked) == i.double_clicked,
{
}

/// The interaction before a frame matters only when the frame drags in a way that
/// neither orbits, pans nor zooms, in orbital mode.
pub proof fn lemma_interaction_memory(
    fps_mode: bool,
    p: InteractionState,
    q: InteractionState,
    i: CameraInput,
)
    requires
        next_interaction(fps_mode, p, i) != next_interaction(fps_mode, q, i),
    ensures
        !fps_mode,
        i.dragged,
        !orbit_drag(i),
        pan_for(i) == PanMode::Still,
        !smooth_zoom_drag(i),
{
}

} // verus!
