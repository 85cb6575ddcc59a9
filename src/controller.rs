use vstd::prelude::*;

verus! {

/// The six movement keys of the fly camera.
#[derive(Clone, Copy, Debug, PartialEq, Eq, Structural)]
pub enum MoveKey {
    Forward,
    Backward,
    Left,
    Right,
    Up,
    Down,
}

/// A pointer sample, in whole physical pixels of the window.
#[derive(Clone, Copy, Debug, PartialEq, Eq, Structural)]
pub struct PointerPosition {
    pub x: i32,
    pub y: i32,
}

/// The input events the camera controller understands.
#[derive(Clone, Copy, Debug, PartialEq, Eq, Structural)]
pub enum InputEvent {
    /// A movement key went down (`pressed`) or up.
    Key { key: MoveKey, pressed: bool },
    /// The pointer button went down (`pressed`) or up.
    MouseButton { pressed: bool },
    /// The pointer moved to `position`.
    CursorMoved { position: PointerPosition },
    /// The pointer left the window.
    CursorLeft,
    /// Anything else.
    Other,
}

/// Where the view direction stands relative to the poles of the world up axis.
#[derive(Clone, Copy, Debug, PartialEq, Eq, Structural)]
pub enum PoleZone {
    /// Far enough from both poles for any pitch.
    Clear,
    /// Looking almost straight up.
    NearZenith,
    /// Looking almost straight down.
    NearNadir,
}

/// What one camera update does: the rotations, in pointer pixels (to be scaled
/// by the rotation speed), and the direction of travel along each axis.
#[derive(Clone, Copy, Debug, PartialEq, Eq, Structural)]
pub struct CameraMotion {
    /// Rotation about the world up axis.
    pub yaw: i64,
    /// Rotation about the camera's right axis; zero when the pole guard holds it back.
    pub pitch: i64,
    /// +1 forward, -1 backward, 0 neither (or both).
    pub forward: i8,
    /// +1 right, -1 left, 0 neither (or both).
    pub right: i8,
    /// +1 up, -1 down, 0 neither (or both).
    pub up: i8,
}

/// Keeps an accumulated rotation within the range of `i64`.
pub open spec fn clamp_i64(v: int) -> i64 {
    if v > i64::MAX {
        i64::MAX
    } else if v < i64::MIN {
        i64::MIN
    } else {
        v as i64
    }
}

/// Whether a pending pitch may be applied: always away from the poles, and near
/// a pole only when it turns the view back from it.
pub open spec fn pitch_allowed(zone: PoleZone, pitch: i64) -> bool {
    match zone {
        PoleZone::Clear => true,
        PoleZone::NearZenith => pitch < 0,
        PoleZone::NearNadir => pitch > 0,
    }
}

/// Direction of travel along one axis from its two opposite keys.
pub open spec fn axis_of(positive: bool, negative: bool) -> i8 {
    if positive == negative {
        0
    } else if positive {
        1
    } else {
        -1i8
    }
}

/// Pure decision of the pole guard.
pub fn allows_pitch(zone: PoleZone, pitch: i64) -> (r: bool)
    ensures
        r == pitch_allowed(zone, pitch),
{
    match zone {
        PoleZone::Clear => true,
        PoleZone::NearZenith => pitch < 0,
        PoleZone::NearNadir => pitch > 0,
    }
}

fn axis(positive: bool, negative: bool) -> (r: i8)
    ensures
        r == axis_of(positive, negative),
{
    let p: i8 = if positive { 1 } else { 0 };
    let n: i8 = if negative { 1 } else { 0 };
    p - n
}

/// Adds a pointer step to an accumulated rotation, saturating at the ends of `i64`.
fn accumulate(total: i64, step: i64) -> (r: i64)
    requires
        -0x1_0000_0000 <= step <= 0x1_0000_0000,
    ensures
        r == clamp_i64(total + step),
{
    if step > 0 && total > i64::MAX - step {
        i64::MAX
    } else if step < 0 && total < i64::MIN - step {
        i64::MIN
    } else {
        total + step
    }
}

/// Turns pointer and key input into camera motion, once per frame.
///
/// The speeds are carried as given and handed back by the getters: the
/// controller itself counts rotation in pointer pixels.
pub struct CameraController<S> {
    pub move_speed: S,
    pub rotation_speed: S,
    pub is_forward_pressed: bool,
    pub is_backward_pressed: bool,
    pub is_left_pressed: bool,
    pub is_right_pressed: bool,
    pub is_up_pressed: bool,
    pub is_down_pressed: bool,
    pub is_mouse_pressed: bool,
    /// Pending rotation about the right axis: the sum of the upward pointer steps.
    pub delta_vertical_angle: i64,
    /// Pending rotation about the up axis: the sum of the leftward pointer steps.
    pub delta_horizontal_angle: i64,
    /// The previous pointer sample of the current drag, if any.
    pub last_mouse_position: Option<PointerPosition>,
}

impl<S: Copy> CameraController<S> {
    /// The controller with the given speeds and no input at all.
    pub open spec fn idle(move_speed: S, rotation_speed: S) -> Self {
        CameraController {
            move_speed,
            rotation_speed,
            is_forward_pressed: false,
            is_backward_pressed: false,
            is_left_pressed: false,
            is_right_pressed: false,
            is_up_pressed: false,
            is_down_pressed: false,
            is_mouse_pressed: false,
            delta_vertical_angle: 0,
            delta_horizontal_angle: 0,
            last_mouse_position: None,
        }
    }

    pub open spec fn with_key(self, key: MoveKey, pressed: bool) -> Self {
        match key {
            MoveKey::Forward => CameraController { is_forward_pressed: pressed, ..self },
            MoveKey::Backward => CameraController { is_backward_pressed: pressed, ..self },
            MoveKey::Left => CameraController { is_left_pressed: pressed, ..self },
            MoveKey::Right => CameraController { is_right_pressed: pressed, ..self },
            MoveKey::Up => CameraController { is_up_pressed: pressed, ..self },
            MoveKey::Down => CameraController { is_down_pressed: pressed, ..self },
        }
    }

    /// The state after one input event.
    pub open spec fn after(self, event: InputEvent) -> Self {
        match event {
            InputEvent::Key { key, pressed } => self.with_key(key, pressed),
            InputEvent::MouseButton { pressed } => CameraController {
                is_mouse_pressed: pressed,
                last_mouse_position: None,
                ..self
            },
            InputEvent::CursorMoved { position } => {
                if !self.is_mouse_pressed {
                    CameraController { last_mouse_position: None, ..self }
                } else {
                    match self.last_mouse_position {
                        Some(last) => CameraController {
                            delta_horizontal_angle: clamp_i64(
                                self.delta_horizontal_angle - (position.x - last.x),
                            ),
                            delta_vertical_angle: clamp_i64(
                                self.delta_vertical_angle - (position.y - last.y),
                            ),
                            last_mouse_position: Some(position),
                            ..self
                        },
                        None => CameraController { last_mouse_position: Some(position), ..self },
                    }
                }
            },
            InputEvent::CursorLeft => CameraController {
                is_mouse_pressed: false,
                last_mouse_position: None,
                ..self
            },
            InputEvent::Other => self,
        }
    }

    /// Whether the controller takes the event for itself.
    pub open spec fn consumes(self, event: InputEvent) -> bool {
        match event {
            InputEvent::Key { .. } => true,
            InputEvent::MouseButton { .. } => true,
            InputEvent::CursorMoved { .. } => self.is_mouse_pressed,
            InputEvent::CursorLeft => true,
            InputEvent::Other => false,
        }
    }

    /// The state after a whole sequence of input events, in order.
    pub open spec fn after_all(self, events: Seq<InputEvent>) -> Self
        decreases events.len(),
    {
        if events.len() == 0 {
            self
        } else {
            self.after(events[0]).after_all(events.subrange(1, events.len() as int))
        }
    }

    /// The motion one update makes, given where the view stands.
    pub open spec fn motion(self, zone: PoleZone) -> CameraMotion {
        CameraMotion {
            yaw: self.delta_horizontal_angle,
            pitch: if pitch_allowed(zone, self.delta_vertical_angle) {
                self.delta_vertical_angle
            } else {
                0
            },
            forward: axis_of(self.is_forward_pressed, self.is_backward_pressed),
            right: axis_of(self.is_right_pressed, self.is_left_pressed),
            up: axis_of(self.is_up_pressed, self.is_down_pressed),
        }
    }

    /// The state after an update: the pending rotations are used up, the rest stays.
    pub open spec fn settled(self) -> Self {
        CameraController { delta_vertical_angle: 0, delta_horizontal_angle: 0, ..self }
    }

    pub fn new(move_speed: S, rotation_speed: S) -> (r: Self)
        ensures
            r == Self::idle(move_speed, rotation_speed),
    {
        CameraController {
            move_speed,
            rotation_speed,
            is_forward_pressed: false,
            is_backward_pressed: false,
            is_left_pressed: false,
            is_right_pressed: false,
            is_up_pressed: false,
            is_down_pressed: false,
            is_mouse_pressed: false,
            delta_vertical_angle: 0,
            delta_horizontal_angle: 0,
            last_mouse_position: None,
        }
    }

    /// Forgets all input (keys, drag, pending rotation) and keeps the speeds.
    pub fn restore(&mut self)
        ensures
            *final(self) == Self::idle(old(self).move_speed, old(self).rotation_speed),
    {
        let move_speed = self.move_speed;
        let rotation_speed = self.rotation_speed;
        *self = Self::new(move_speed, rotation_speed);
    }

    pub fn move_speed(&self) -> (r: S)
        ensures
            r == self.move_speed,
    {
        self.move_speed
    }

    pub fn rotation_speed(&self) -> (r: S)
        ensures
            r == self.rotation_speed,
    {
        self.rotation_speed
    }

    /// Records one input event; returns whether the event was taken.
    pub fn process_events(&mut self, event: &InputEvent) -> (r: bool)
        ensures
            *final(self) == old(self).after(*event),
            r == old(self).consumes(*event),
    {
        match *event {
            InputEvent::Key { key, pressed } => {
                match key {
                    MoveKey::Forward => self.is_forward_pressed = pressed,
                    MoveKey::Backward => self.is_backward_pressed = pressed,
                    MoveKey::Left => self.is_left_pressed = pressed,
                    MoveKey::Right => self.is_right_pressed = pressed,
                    MoveKey::Up => self.is_up_pressed = pressed,
                    MoveKey::Down => self.is_down_pressed = pressed,
                }
                true
            },
            InputEvent::MouseButton { pressed } => {
                self.is_mouse_pressed = pressed;
                self.last_mouse_position = None;
                true
            },
            InputEvent::CursorMoved { position } => {
                if self.is_mouse_pressed {
                    if let Some(last) = self.last_mouse_position {
                        let delta_x = position.x as i64 - last.x as i64;
                        let delta_y = position.y as i64 - last.y as i64;
                        self.delta_horizontal_angle = accumulate(
                            self.delta_horizontal_angle,
                            -delta_x,
                        );
                        self.delta_vertical_angle = accumulate(self.delta_vertical_angle, -delta_y);
                    }
                    self.last_mouse_position = Some(position);
                    true
                } else {
                    self.last_mouse_position = None;
                    false
                }
            },
            InputEvent::CursorLeft => {
                self.is_mouse_pressed = false;
                self.last_mouse_position = None;
                true
            },
            InputEvent::Other => false,
        }
    }

    /// Hands out this frame's motion and uses up the pending rotations.
    ///
    /// `zone` tells where the view direction stands after the yaw; yaw turns
    /// about the world up axis and so keeps the zone as it was before it.
    pub fn update_camera(&mut self, zone: PoleZone) -> (m: CameraMotion)
        ensures
            m == old(self).motion(zone),
            *final(self) == old(self).settled(),
    {
        let pitch = if allows_pitch(zone, self.delta_vertical_angle) {
            self.delta_vertical_angle
        } else {
            0
        };
        let m = CameraMotion {
            yaw: self.delta_horizontal_angle,
            pitch,
            forward: axis(self.is_forward_pressed, self.is_backward_pressed),
            right: axis(self.is_right_pressed, self.is_left_pressed),
            up: axis(self.is_up_pressed, self.is_down_pressed),
        };
        self.delta_horizontal_angle = 0;
        self.delta_vertical_angle = 0;
        m
    }
}

/// Movement keys never turn the camera: from a state with no pending rotation,
/// after any sequence of movement-key presses and releases the next update
/// neither yaws nor pitches, and the speeds are as they were.
pub proof fn lemma_keys_only_translate<S: Copy>(
    c: CameraController<S>,
    events: Seq<InputEvent>,
    zone: PoleZone,
)
    requires
        c.delta_horizontal_angle == 0,
        c.delta_vertical_angle == 0,
        forall|i: int| 0 <= i < events.len() ==> events[i] is Key,
    ensures
        c.after_all(events).motion(zone).yaw == 0,
        c.after_all(events).motion(zone).pitch == 0,
        c.after_all(events).move_speed == c.move_speed,
        c.after_all(events).rotation_speed == c.rotation_speed,
    decreases events.len(),
{
    if events.len() > 0 {
        let rest = events.subrange(1, events.len() as int);
        assert forall|i: int| 0 <= i < rest.len() implies rest[i] is Key by {
            assert(rest[i] == events[i + 1]);
        }
        let next = c.after(events[0]);
        assert(next.delta_horizontal_angle == 0 && next.delta_vertical_angle == 0);
        lemma_keys_only_translate(next, rest, zone);
    }
}

/// Without the button down, pointer motion leaves the pending rotations alone
/// and the drag stays off, whatever events come that do not press the button.
proof fn lemma_released_stays_still<S: Copy>(c: CameraController<S>, events: Seq<InputEvent>)
    requires
        !c.is_mouse_pressed,
        forall|i: int|
            0 <= i < events.len() ==> events[i] != (InputEvent::MouseButton { pressed: true }),
    ensures
        !c.after_all(events).is_mouse_pressed,
        c.after_all(events).delta_horizontal_angle == c.delta_horizontal_angle,
        c.after_all(events).delta_vertical_angle == c.delta_vertical_angle,
    decreases events.len(),
{
    if events.len() > 0 {
        let rest = events.subrange(1, events.len() as int);
        assert forall|i: int| 0 <= i < rest.len() implies rest[i] != (InputEvent::MouseButton {
            pressed: true,
        }) by {
            assert(rest[i] == events[i + 1]);
        }
        lemma_released_stays_still(c.after(events[0]), rest);
    }
}

/// A drag that ended, by releasing the button or by the pointer leaving the
/// window, records no more rotation: until the button is pressed again, the
/// pending rotations stay as they were when the drag ended.
pub proof fn lemma_no_stale_rotation<S: Copy>(c: CameraController<S>, events: Seq<InputEvent>)
    requires
        events.len() > 0,
        events[0] == (InputEvent::MouseButton { pressed: false }) || events[0]
            == InputEvent::CursorLeft,
        forall|i: int|
            0 <= i < events.len() ==> events[i] != (InputEvent::MouseButton { pressed: true }),
    ensures
        c.after_all(events).delta_horizontal_angle == c.delta_horizontal_angle,
        c.after_all(events).delta_vertical_angle == c.delta_vertical_angle,
{
    let rest = events.subrange(1, events.len() as int);
    assert forall|i: int| 0 <= i < rest.len() implies rest[i] != (InputEvent::MouseButton {
        pressed: true,
    }) by {
        assert(rest[i] == events[i + 1]);
    }
    lemma_released_stays_still(c.after(events[0]), rest);
}

/// The first pointer sample of a drag only sets where the drag starts: a press
/// followed by one move leaves the pending rotations as they were.
pub proof fn lemma_drag_starts_without_rotation<S: Copy>(
    c: CameraController<S>,
    position: PointerPosition,
)
    ensures
        ({
            let d = c.after(InputEvent::MouseButton { pressed: true }).after(
                InputEvent::CursorMoved { position },
            );
            &&& d.delta_horizontal_angle == c.delta_horizontal_angle
            &&& d.delta_vertical_angle == c.delta_vertical_angle
            &&& d.last_mouse_position == Some(position)
        }),
{
}

/// The pole guard: near the zenith an upward pitch is held back and a downward
/// one is applied in full; near the nadir the other way round.
pub proof fn lemma_pole_guard<S: Copy>(c: CameraController<S>)
    ensures
        c.delta_vertical_angle > 0 ==> c.motion(PoleZone::NearZenith).pitch == 0,
        c.delta_vertical_angle < 0 ==> c.motion(PoleZone::NearZenith).pitch
            == c.delta_vertical_angle,
        c.delta_vertical_angle < 0 ==> c.motion(PoleZone::NearNadir).pitch == 0,
        c.delta_vertical_angle > 0 ==> c.motion(PoleZone::NearNadir).pitch
            == c.delta_vertical_angle,
        c.motion(PoleZone::Clear).pitch == c.delta_vertical_angle,
{
}

} // verus!
