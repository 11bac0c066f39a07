//! Per-field edit controls.
//!
//! A control is configured through a builder (display label, drag speed, a
//! reset sentinel, the change flag accumulated so far) and finished with
//! `build`, which consumes the user's interaction with the widget for this
//! frame and returns the new field value together with the updated change
//! flag. A right-click reset gesture snaps the value to the configured
//! sentinel and reports a change, whatever the prior value was.

use vstd::prelude::*;

verus! {

/// What the user did to one widget this frame: a drag that delivered a new
/// raw value, and/or the right-click reset gesture.
#[derive(Clone, Copy, PartialEq, Eq, Structural, Debug)]
pub struct ControlInput {
    pub drag: Option<i64>,
    pub reset: bool,
}

impl ControlInput {
    /// The widget was not touched this frame.
    pub fn idle() -> (r: ControlInput)
        ensures
            r.drag is None,
            !r.reset,
    {
        ControlInput { drag: None, reset: false }
    }

    pub fn dragged(value: i64) -> (r: ControlInput)
        ensures
            r.drag == Some(value),
            !r.reset,
    {
        ControlInput { drag: Some(value), reset: false }
    }

    pub fn reset_gesture() -> (r: ControlInput)
        ensures
            r.drag is None,
            r.reset,
    {
        ControlInput { drag: None, reset: true }
    }

    /// Did the widget report any interaction at all?
    pub open spec fn touched(self) -> bool {
        self.reset || self.drag is Some
    }
}

/// A raw widget value clamped to the edited type's representable range.
pub open spec fn clamped_i32(v: i64) -> i32 {
    if v < i32::MIN as i64 {
        i32::MIN
    } else if v > i32::MAX as i64 {
        i32::MAX
    } else {
        v as i32
    }
}

/// The value an integer control holds after one frame: the reset gesture
/// snaps to the sentinel and overrides everything else; otherwise a drag
/// replaces the value, clamped to range; otherwise the value is untouched.
pub open spec fn stepped_i32(value: i32, null_to: i32, input: ControlInput) -> i32 {
    if input.reset {
        null_to
    } else {
        match input.drag {
            Some(v) => clamped_i32(v),
            None => value,
        }
    }
}

/// The right-click reset gesture is unconditional: whatever the prior value
/// and whatever drag happened in the same frame, the control ends up at the
/// configured sentinel and the frame counts as a change.
pub proof fn lemma_reset_overrides_all(value: i32, null_to: i32, input: ControlInput)
    requires
        input.reset,
    ensures
        stepped_i32(value, null_to, input) == null_to,
        input.touched(),
{
}

/// An untouched widget never alters its field.
pub proof fn lemma_idle_keeps_value(value: i32, null_to: i32, input: ControlInput)
    requires
        !input.touched(),
    ensures
        stepped_i32(value, null_to, input) == value,
{
}

/// Builder for a scalar integer drag widget.
pub struct IntControlBuilder {
    pub value: i32,
    pub label: Option<String>,
    pub speed: u32,
    pub null_to: i32,
    pub changed: bool,
}

impl IntControlBuilder {
    pub fn new(value: i32) -> (r: IntControlBuilder)
        ensures
            r.value == value,
            r.label is None,
            r.speed == 1u32,
            r.null_to == 0i32,
            !r.changed,
    {
        IntControlBuilder { value, label: None, speed: 1, null_to: 0, changed: false }
    }

    pub fn label(self, label: String) -> (r: IntControlBuilder)
        ensures
            r == (IntControlBuilder { label: Some(label), ..self }),
    {
        IntControlBuilder { label: Some(label), ..self }
    }

    pub fn speed(self, speed: u32) -> (r: IntControlBuilder)
        ensures
            r == (IntControlBuilder { speed, ..self }),
    {
        IntControlBuilder { speed, ..self }
    }

    pub fn null_to(self, null_to: i32) -> (r: IntControlBuilder)
        ensures
            r == (IntControlBuilder { null_to, ..self }),
    {
        IntControlBuilder { null_to, ..self }
    }

    /// Carry in the change flag accumulated by earlier fields of the record.
    pub fn changed(self, changed: bool) -> (r: IntControlBuilder)
        ensures
            r == (IntControlBuilder { changed, ..self }),
    {
        IntControlBuilder { changed, ..self }
    }

    /// Consume this frame's interaction: the new field value, and the change
    /// flag folded over the carried-in flag.
    pub fn build(self, input: &ControlInput) -> (r: (i32, bool))
        ensures
            r.0 == stepped_i32(self.value, self.null_to, *input),
            r.1 == (self.changed || input.touched()),
    {
        let mut value = self.value;
        let mut touched = false;
        match input.drag {
            Some(v) => {
                touched = true;
                if v < i32::MIN as i64 {
                    value = i32::MIN;
                } else if v > i32::MAX as i64 {
                    value = i32::MAX;
                } else {
                    value = v as i32;
                }
            },
            None => {},
        }
        if input.reset {
            touched = true;
            value = self.null_to;
        }
        (value, self.changed || touched)
    }
}

/// A 2-component integer vector edited as one row of widgets.
#[derive(Clone, Copy, PartialEq, Eq, Structural, Debug)]
pub struct Vec2 {
    pub x: i32,
    pub y: i32,
}

/// This frame's interaction with each component widget of a `Vec2` row.
#[derive(Clone, Copy, PartialEq, Eq, Structural, Debug)]
pub struct Vec2Input {
    pub x: ControlInput,
    pub y: ControlInput,
}

/// The vector a `Vec2` row holds after one frame: each component follows the
/// scalar rule, all sharing one reset sentinel.
pub open spec fn vec2_stepped(v: Vec2, null_to: i32, inputs: Vec2Input) -> Vec2 {
    Vec2 {
        x: stepped_i32(v.x, null_to, inputs.x),
        y: stepped_i32(v.y, null_to, inputs.y),
    }
}

/// Was any component widget of the row touched?
pub open spec fn vec2_touched(inputs: Vec2Input) -> bool {
    inputs.x.touched() || inputs.y.touched()
}

/// Builder for a row of integer drag widgets editing a `Vec2`, all sharing
/// one sentinel and one speed; each component has its own interaction and
/// its own reset gesture.
pub struct Vec2ControlBuilder {
    pub values: Vec2,
    pub label: Option<String>,
    pub speed: u32,
    pub null_to: i32,
    pub changed: bool,
}

impl Vec2ControlBuilder {
    pub fn new(values: Vec2) -> (r: Vec2ControlBuilder)
        ensures
            r.values == values,
            r.label is None,
            r.speed == 1u32,
            r.null_to == 0i32,
            !r.changed,
    {
        Vec2ControlBuilder { values, label: None, speed: 1, null_to: 0, changed: false }
    }

    pub fn label(self, label: String) -> (r: Vec2ControlBuilder)
        ensures
            r == (Vec2ControlBuilder { label: Some(label), ..self }),
    {
        Vec2ControlBuilder { label: Some(label), ..self }
    }

    pub fn speed(self, speed: u32) -> (r: Vec2ControlBuilder)
        ensures
            r == (Vec2ControlBuilder { speed, ..self }),
    {
        Vec2ControlBuilder { speed, ..self }
    }

    pub fn null_to(self, null_to: i32) -> (r: Vec2ControlBuilder)
        ensures
            r == (Vec2ControlBuilder { null_to, ..self }),
    {
        Vec2ControlBuilder { null_to, ..self }
    }

    pub fn changed(self, changed: bool) -> (r: Vec2ControlBuilder)
        ensures
            r == (Vec2ControlBuilder { changed, ..self }),
    {
        Vec2ControlBuilder { changed, ..self }
    }

    pub fn build(self, inputs: &Vec2Input) -> (r: (Vec2, bool))
        ensures
            r.0 == vec2_stepped(self.values, self.null_to, *inputs),
            r.1 == (self.changed || vec2_touched(*inputs)),
    {
        let (x, t_x) = IntControlBuilder::new(self.values.x).null_to(self.null_to).build(
            &inputs.x,
        );
        let (y, t_y) = IntControlBuilder::new(self.values.y).null_to(self.null_to).build(
            &inputs.y,
        );
        (Vec2 { x, y }, self.changed || t_x || t_y)
    }
}

/// A 3-component integer vector edited as one row of widgets.
#[derive(Clone, Copy, PartialEq, Eq, Structural, Debug)]
pub struct Vec3 {
    pub x: i32,
    pub y: i32,
    pub z: i32,
}

/// This frame's interaction with each component widget of a `Vec3` row.
#[derive(Clone, Copy, PartialEq, Eq, Structural, Debug)]
pub struct Vec3Input {
    pub x: ControlInput,
    pub y: ControlInput,
    pub z: ControlInput,
}

/// The vector a `Vec3` row holds after one frame: each component follows the
/// scalar rule, all sharing one reset sentinel.
pub open spec fn vec3_stepped(v: Vec3, null_to: i32, inputs: Vec3Input) -> Vec3 {
    Vec3 {
        x: stepped_i32(v.x, null_to, inputs.x),
        y: stepped_i32(v.y, null_to, inputs.y),
        z: stepped_i32(v.z, null_to, inputs.z),
    }
}

/// Was any component widget of the row touched?
pub open spec fn vec3_touched(inputs: Vec3Input) -> bool {
    inputs.x.touched() || inputs.y.touched() || inputs.z.touched()
}

/// Builder for a row of integer drag widgets editing a `Vec3`, all sharing
/// one sentinel and one speed; each component has its own interaction and
/// its own reset gesture.
pub struct Vec3ControlBuilder {
    pub values: Vec3,
    pub label: Option<String>,
    pub speed: u32,
    pub null_to: i32,
    pub changed: bool,
}

impl Vec3ControlBuilder {
    pub fn new(values: Vec3) -> (r: Vec3ControlBuilder)
        ensures
            r.values == values,
            r.label is None,
            r.speed == 1u32,
            r.null_to == 0i32,
            !r.changed,
    {
        Vec3ControlBuilder { values, label: None, speed: 1, null_to: 0, changed: false }
    }

    pub fn label(self, label: String) -> (r: Vec3ControlBuilder)
        ensures
            r == (Vec3ControlBuilder { label: Some(label), ..self }),
    {
        Vec3ControlBuilder { label: Some(label), ..self }
    }

    pub fn speed(self, speed: u32) -> (r: Vec3ControlBuilder)
        ensures
            r == (Vec3ControlBuilder { speed, ..self }),
    {
        Vec3ControlBuilder { speed, ..self }
    }

    pub fn null_to(self, null_to: i32) -> (r: Vec3ControlBuilder)
        ensures
            r == (Vec3ControlBuilder { null_to, ..self }),
    {
        Vec3ControlBuilder { null_to, ..self }
    }

    pub fn changed(self, changed: bool) -> (r: Vec3ControlBuilder)
        ensures
            r == (Vec3ControlBuilder { changed, ..self }),
    {
        Vec3ControlBuilder { changed, ..self }
    }

    pub fn build(self, inputs: &Vec3Input) -> (r: (Vec3, bool))
        ensures
            r.0 == vec3_stepped(self.values, self.null_to, *inputs),
            r.1 == (self.changed || vec3_touched(*inputs)),
    {
        let (x, t_x) = IntControlBuilder::new(self.values.x).null_to(self.null_to).build(
            &inputs.x,
        );
        let (y, t_y) = IntControlBuilder::new(self.values.y).null_to(self.null_to).build(
            &inputs.y,
        );
        let (z, t_z) = IntControlBuilder::new(self.values.z).null_to(self.null_to).build(
            &inputs.z,
        );
        (Vec3 { x, y, z }, self.changed || t_x || t_y || t_z)
    }
}

/// A 4-component integer vector edited as one row of widgets.
#[derive(Clone, Copy, PartialEq, Eq, Structural, Debug)]
pub struct Vec4 {
    pub x: i32,
    pub y: i32,
    pub z: i32,
    pub w: i32,
}

/// This frame's interaction with each component widget of a `Vec4` row.
#[derive(Clone, Copy, PartialEq, Eq, Structural, Debug)]
pub struct Vec4Input {
    pub x: ControlInput,
    pub y: ControlInput,
    pub z: ControlInput,
    pub w: ControlInput,
}

/// The vector a `Vec4` row holds after one frame: each component follows the
/// scalar rule, all sharing one reset sentinel.
pub open spec fn vec4_stepped(v: Vec4, null_to: i32, inputs: Vec4Input) -> Vec4 {
    Vec4 {
        x: stepped_i32(v.x, null_to, inputs.x),
        y: stepped_i32(v.y, null_to, inputs.y),
        z: stepped_i32(v.z, null_to, inputs.z),
        w: stepped_i32(v.w, null_to, inputs.w),
    }
}

/// Was any component widget of the row touched?
pub open spec fn vec4_touched(inputs: Vec4Input) -> bool {
    inputs.x.touched() || inputs.y.touched() || inputs.z.touched() || inputs.w.touched()
}

/// Builder for a row of integer drag widgets editing a `Vec4`, all sharing
/// one sentinel and one speed; each component has its own interaction and
/// its own reset gesture.
pub struct Vec4ControlBuilder {
    pub values: Vec4,
    pub label: Option<String>,
    pub speed: u32,
    pub null_to: i32,
    pub changed: bool,
}

impl Vec4ControlBuilder {
    pub fn new(values: Vec4) -> (r: Vec4ControlBuilder)
        ensures
            r.values == values,
            r.label is None,
            r.speed == 1u32,
            r.null_to == 0i32,
            !r.changed,
    {
        Vec4ControlBuilder { values, label: None, speed: 1, null_to: 0, changed: false }
    }

    pub fn label(self, label: String) -> (r: Vec4ControlBuilder)
        ensures
            r == (Vec4ControlBuilder { label: Some(label), ..self }),
    {
        Vec4ControlBuilder { label: Some(label), ..self }
    }

    pub fn speed(self, speed: u32) -> (r: Vec4ControlBuilder)
        ensures
            r == (Vec4ControlBuilder { speed, ..self }),
    {
        Vec4ControlBuilder { speed, ..self }
    }

    pub fn null_to(self, null_to: i32) -> (r: Vec4ControlBuilder)
        ensures
            r == (Vec4ControlBuilder { null_to, ..self }),
    {
        Vec4ControlBuilder { null_to, ..self }
    }

    pub fn changed(self, changed: bool) -> (r: Vec4ControlBuilder)
        ensures
            r == (Vec4ControlBuilder { changed, ..self }),
    {
        Vec4ControlBuilder { changed, ..self }
    }

    pub fn build(self, inputs: &Vec4Input) -> (r: (Vec4, bool))
        ensures
            r.0 == vec4_stepped(self.values, self.null_to, *inputs),
            r.1 == (self.changed || vec4_touched(*inputs)),
    {
        let (x, t_x) = IntControlBuilder::new(self.values.x).null_to(self.null_to).build(
            &inputs.x,
        );
        let (y, t_y) = IntControlBuilder::new(self.values.y).null_to(self.null_to).build(
            &inputs.y,
        );
        let (z, t_z) = IntControlBuilder::new(self.values.z).null_to(self.null_to).build(
            &inputs.z,
        );
        let (w, t_w) = IntControlBuilder::new(self.values.w).null_to(self.null_to).build(
            &inputs.w,
        );
        (Vec4 { x, y, z, w }, self.changed || t_x || t_y || t_z || t_w)
    }
}

/// The millisecond value a duration control holds after one frame. The
/// widget edits whole milliseconds through a signed 32-bit field floored at
/// zero, so a drag is clamped to that range.
pub open spec fn stepped_millis(value: u64, null_to: u64, input: ControlInput) -> u64 {
    if input.reset {
        null_to
    } else {
        match input.drag {
            Some(v) => {
                if v < 0 {
                    0u64
                } else if v > i32::MAX as i64 {
                    i32::MAX as u64
                } else {
                    v as u64
                }
            },
            None => value,
        }
    }
}

/// Builder for a duration widget: the value is a whole number of
/// milliseconds shown through an integer drag field with a lower bound of
/// zero.
pub struct DurationControlBuilder {
    pub millis: u64,
    pub label: Option<String>,
    pub speed: u32,
    pub null_to: u64,
    pub changed: bool,
}

impl DurationControlBuilder {
    pub fn new(millis: u64) -> (r: DurationControlBuilder)
        ensures
            r.millis == millis,
            r.label is None,
            r.speed == 1u32,
            r.null_to == 0u64,
            !r.changed,
    {
        DurationControlBuilder { millis, label: None, speed: 1, null_to: 0, changed: false }
    }

    pub fn label(self, label: String) -> (r: DurationControlBuilder)
        ensures
            r == (DurationControlBuilder { label: Some(label), ..self }),
    {
        DurationControlBuilder { label: Some(label), ..self }
    }

    pub fn speed(self, speed: u32) -> (r: DurationControlBuilder)
        ensures
            r == (DurationControlBuilder { speed, ..self }),
    {
        DurationControlBuilder { speed, ..self }
    }

    /// The reset sentinel, in whole milliseconds.
    pub fn null_to(self, null_to: u64) -> (r: DurationControlBuilder)
        ensures
            r == (DurationControlBuilder { null_to, ..self }),
    {
        DurationControlBuilder { null_to, ..self }
    }

    pub fn changed(self, changed: bool) -> (r: DurationControlBuilder)
        ensures
            r == (DurationControlBuilder { changed, ..self }),
    {
        DurationControlBuilder { changed, ..self }
    }

    pub fn build(self, input: &ControlInput) -> (r: (u64, bool))
        ensures
            r.0 == stepped_millis(self.millis, self.null_to, *input),
            r.1 == (self.changed || input.touched()),
    {
        let mut value = self.millis;
        let mut touched = false;
        match input.drag {
            Some(v) => {
                touched = true;
                if v < 0 {
                    value = 0;
                } else if v > i32::MAX as i64 {
                    value = i32::MAX as u64;
                } else {
                    value = v as u64;
                }
            },
            None => {},
        }
        if input.reset {
            touched = true;
            value = self.null_to;
        }
        (value, self.changed || touched)
    }
}

/// A checkbox flips the stored flag exactly when it was clicked, and a click
/// is a change.
pub fn checkbox(value: bool, clicked: bool) -> (r: (bool, bool))
    ensures
        r.0 == (if clicked {
            !value
        } else {
            value
        }),
        r.1 == clicked,
{
    if clicked {
        (!value, true)
    } else {
        (value, false)
    }
}

/// A text field: an edit replaces the whole buffer and reports a change; an
/// untouched field hands the current text back.
pub fn text_input(current: &String, edit: Option<String>) -> (r: (String, bool))
    ensures
        edit matches Some(s) ==> r.0 == s && r.1,
        edit is None ==> r.0 == *current && !r.1,
{
    match edit {
        Some(s) => (s, true),
        None => (current.clone(), false),
    }
}

} // verus!
