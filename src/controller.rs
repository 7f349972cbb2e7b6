use vstd::prelude::*;

verus! {

/// A thumbstick axis at full deflection, in the fixed-point units the
/// controller state is held in (millionths): -1.0 ..= 1.0 maps to
/// `-AXIS_FULL_SCALE ..= AXIS_FULL_SCALE`.
pub const AXIS_FULL_SCALE: i64 = 1_000_000;

/// The largest duty cycle, in percent, given to the DC motor.
pub const DC_MOTOR_MAX_DUTY_CYCLE: i64 = 75;

/// A two-axis thumbstick reading.
#[derive(PartialEq, Eq, Structural, Clone, Copy, Debug)]
pub struct Vector2 {
    pub x: i32,
    pub y: i32,
}

impl Vector2 {
    pub fn get_x(&self) -> (r: i32)
        ensures
            r == self.x,
    {
        self.x
    }

    pub fn get_y(&self) -> (r: i32)
        ensures
            r == self.y,
    {
        self.y
    }

    pub fn set_x(&mut self, v: i32)
        ensures
            *final(self) == (Vector2 { x: v, y: old(self).y }),
    {
        self.x = v;
    }

    pub fn set_y(&mut self, v: i32)
        ensures
            *final(self) == (Vector2 { x: old(self).x, y: v }),
    {
        self.y = v;
    }
}

/// The state of a handheld controller pair as the motor driver reads it.
#[derive(PartialEq, Eq, Structural, Clone, Copy, Debug)]
pub struct OculusControllerState {
    pub primary_thumbstick: Vector2,
    pub secondary_thumbstick: Vector2,
}

impl Default for OculusControllerState {
    fn default() -> (r: OculusControllerState)
        ensures
            r == (OculusControllerState {
                primary_thumbstick: Vector2 { x: 0, y: 0 },
                secondary_thumbstick: Vector2 { x: 0, y: 0 },
            }),
    {
        OculusControllerState {
            primary_thumbstick: Vector2 { x: 0, y: 0 },
            secondary_thumbstick: Vector2 { x: 0, y: 0 },
        }
    }
}

impl OculusControllerState {
    pub fn get_primary_thumbstick(&self) -> (r: &Vector2)
        ensures
            *r == self.primary_thumbstick,
    {
        &self.primary_thumbstick
    }

    pub fn mut_primary_thumbstick(&mut self) -> (r: &mut Vector2)
        ensures
            *r == old(self).primary_thumbstick,
            *final(self) == (OculusControllerState {
                primary_thumbstick: *final(r),
                secondary_thumbstick: old(self).secondary_thumbstick,
            }),
    {
        &mut self.primary_thumbstick
    }
}

/// The signed duty cycle for an axis reading: the reading scaled to
/// `DC_MOTOR_MAX_DUTY_CYCLE` at full deflection, truncated toward zero, and
/// saturated to what an `i16` holds on both sides.
pub open spec fn duty_of(y: int) -> int {
    let d = if y >= 0 {
        y * 75 / 1_000_000
    } else {
        -((-y) * 75 / 1_000_000)
    };
    if d > 32767 {
        32767
    } else if d < -32767 {
        -32767
    } else {
        d
    }
}

/// The two H-bridge inputs: forward drive on the first, reverse on the second.
pub open spec fn h_bridge(y: int) -> (i16, i16) {
    if duty_of(y) > 0 {
        (duty_of(y) as i16, 0)
    } else {
        (0, (-duty_of(y)) as i16)
    }
}

/// Maps the primary thumbstick's vertical axis to the H-bridge inputs of the
/// drive motor: a forward push drives the first input, a backward pull the
/// second, each with a duty cycle proportional to the deflection.
pub fn compute_h_bridge_input_signals(state: OculusControllerState) -> (r: (i16, i16))
    ensures
        r == h_bridge(state.primary_thumbstick.y as int),
{
    let y = state.get_primary_thumbstick().get_y() as i64;
    let d: i64 = if y >= 0 {
        y * DC_MOTOR_MAX_DUTY_CYCLE / AXIS_FULL_SCALE
    } else {
        -((-y) * DC_MOTOR_MAX_DUTY_CYCLE / AXIS_FULL_SCALE)
    };
    let d: i64 = if d > 32767 {
        32767
    } else if d < -32767 {
        -32767
    } else {
        d
    };
    if d > 0 {
        (d as i16, 0)
    } else {
        (0, (-d) as i16)
    }
}

} // verus!
