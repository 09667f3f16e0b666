use vstd::prelude::*;

verus! {

/// Temperature above which the valve is closed fully, in tenths of a degree Celsius.
pub const MAX_TEMPERATURE: i32 = 550;

/// Drop below the maximum at which heating resumes, in tenths of a degree Celsius.
pub const TEMP_HYSTERESIS: i32 = 50;

/// Seconds of travel that take the motor from one end to the other.
pub const MAX_MOVE_TIME: u64 = 13;

/// Seconds of travel of one fine-tuning step.
pub const STEP_MOVE_TIME: u64 = 1;

/// Seconds between two rounds of the control loop.
pub const WAIT_TIME_S: u64 = 120;

/// What the motor is doing.
#[derive(PartialEq, Eq, Structural, Clone, Copy, Debug)]
pub enum MotorStatus {
    Off,
    Opening,
    Closing,
}

/// Phase of the temperature control.
#[derive(PartialEq, Eq, Structural, Clone, Copy, Debug)]
pub enum HeatingStatus {
    Off,
    Heating,
    Cooling,
}

/// What the indicator LED does on one tick of its task.
#[derive(PartialEq, Eq, Structural, Clone, Copy, Debug)]
pub enum LedAction {
    SetLow,
    Toggle,
    SetHigh,
}

/// The indicator shows the motor status: lit (pin low) while closing,
/// blinking while opening, dark (pin high) when off.
pub fn led_action(status: MotorStatus) -> (r: LedAction)
    ensures
        r == (match status {
            MotorStatus::Closing => LedAction::SetLow,
            MotorStatus::Opening => LedAction::Toggle,
            MotorStatus::Off => LedAction::SetHigh,
        }),
{
    match status {
        MotorStatus::Closing => LedAction::SetLow,
        MotorStatus::Opening => LedAction::Toggle,
        MotorStatus::Off => LedAction::SetHigh,
    }
}

/// The motor controller's bookkeeping; times are in whole seconds of a
/// monotonic clock and temperatures in tenths of a degree Celsius.
#[derive(Clone, Copy, Debug)]
pub struct MotorControl {
    pub status: MotorStatus,
    pub move_start: Option<u64>,
    pub total_movement_time: u64,
    pub heating_status: HeatingStatus,
    pub last_move_status: MotorStatus,
    pub last_temp: i32,
}

/// Seconds since `start` at time `now` (none if no movement is timed).
pub open spec fn elapsed_spec(start: Option<u64>, now: u64) -> u64 {
    match start {
        Some(t) => if now >= t { (now - t) as u64 } else { 0 },
        None => 0,
    }
}

/// `a + b`, held at `u64::MAX`.
pub open spec fn sat_add(a: u64, b: u64) -> u64 {
    if a + b > u64::MAX { u64::MAX } else { (a + b) as u64 }
}

impl MotorControl {
    pub open spec fn can_move_spec(self, direction: MotorStatus) -> bool {
        let total = if direction != self.last_move_status { 0 } else { self.total_movement_time };
        total < MAX_MOVE_TIME
    }

    pub open spec fn stop_spec(self, now: u64) -> MotorControl {
        let moved = self.status != MotorStatus::Off;
        MotorControl {
            status: MotorStatus::Off,
            move_start: None,
            total_movement_time: if moved {
                sat_add(self.total_movement_time, elapsed_spec(self.move_start, now))
            } else {
                self.total_movement_time
            },
            last_move_status: if moved { self.status } else { self.last_move_status },
            ..self
        }
    }

    /// Starting to move in `direction` (`Opening` or `Closing`): the travel
    /// count restarts unless the last movement went the same way.
    pub open spec fn run_spec(self, direction: MotorStatus, now: u64) -> MotorControl {
        MotorControl {
            status: direction,
            move_start: Some(now),
            total_movement_time: if self.last_move_status != direction {
                0
            } else {
                self.total_movement_time
            },
            ..self
        }
    }

    /// The state after asking for a movement, and whether it started.
    pub open spec fn start_move_spec(self, direction: MotorStatus, now: u64) -> (MotorControl, bool) {
        if !self.can_move_spec(direction) {
            (self.stop_spec(now), false)
        } else if direction == MotorStatus::Off {
            (self, false)
        } else {
            (self.run_spec(direction, now), true)
        }
    }

    /// A fine-tuning step; the temperature is remembered only if it started.
    pub open spec fn start_step_spec(self, direction: MotorStatus, temp: i32, now: u64) -> (
        MotorControl,
        bool,
    ) {
        if direction == MotorStatus::Off {
            (self, false)
        } else {
            let (m, ok) = self.start_move_spec(direction, now);
            (if ok { MotorControl { last_temp: temp, ..m } } else { m }, ok)
        }
    }

    /// A whole movement in `direction`, run from `start` to `end` (seconds):
    /// if the travel count allows it and the direction is a real one, the
    /// motor is started at `start` and stopped at `end`, and the travel count
    /// grows by the time it ran. If the travel count does not allow it, the
    /// motor is stopped at `start`. Returns whether it moved.
    pub fn move_motor(&mut self, direction: MotorStatus, start: u64, end: u64) -> (r: bool)
        ensures
            r == (old(self).can_move_spec(direction) && direction != MotorStatus::Off),
            r ==> *final(self) == old(self).run_spec(direction, start).stop_spec(end),
            !old(self).can_move_spec(direction) ==> *final(self) == old(self).stop_spec(start),
            old(self).can_move_spec(direction) && direction == MotorStatus::Off ==> *final(self)
                == *old(self),
            old(self).status == MotorStatus::Off && old(self).move_start == None::<u64>
                ==> final(self).status == MotorStatus::Off && final(self).move_start == None::<u64>,
    {
        let moved = self.start_move(direction, start);
        if moved {
            self.stop(end);
        }
        moved
    }

    /// One whole fine-tuning step in `direction`, run from `start` to `end`;
    /// `temp` is remembered as the last temperature if the motor moved.
    pub fn step_move(&mut self, direction: MotorStatus, temp: i32, start: u64, end: u64) -> (r: bool)
        ensures
            r == (old(self).can_move_spec(direction) && direction != MotorStatus::Off),
            r ==> *final(self) == (MotorControl {
                last_temp: temp,
                ..old(self).run_spec(direction, start).stop_spec(end)
            }),
            direction != MotorStatus::Off && !old(self).can_move_spec(direction) ==> *final(self)
                == old(self).stop_spec(start),
            direction == MotorStatus::Off ==> *final(self) == *old(self),
    {
        if direction == MotorStatus::Off {
            return false;
        }
        let success = self.move_motor(direction, start, end);
        if success {
            self.last_temp = temp;
        }
        success
    }

    /// One round of the control loop on a fresh temperature reading: the new
    /// state and, when the motor was started, for how many seconds it runs.
    pub open spec fn on_temperature_spec(self, temp: i32, now: u64) -> (MotorControl, Option<u64>) {
        let full = |p: (MotorControl, bool)|
            (p.0, if p.1 { Some(MAX_MOVE_TIME) } else { None::<u64> });
        let step = |p: (MotorControl, bool)|
            (p.0, if p.1 { Some(STEP_MOVE_TIME) } else { None::<u64> });
        match self.heating_status {
            HeatingStatus::Off => {
                let (m, ok) = self.start_move_spec(MotorStatus::Opening, now);
                full((if ok { MotorControl { heating_status: HeatingStatus::Heating, ..m } } else { m }, ok))
            },
            HeatingStatus::Cooling => {
                if temp < MAX_TEMPERATURE - TEMP_HYSTERESIS {
                    let h = MotorControl { heating_status: HeatingStatus::Heating, ..self };
                    let (m, ok) = h.start_move_spec(MotorStatus::Opening, now);
                    full((MotorControl { last_temp: temp, ..m }, ok))
                } else {
                    (MotorControl { last_temp: temp, ..self }, None)
                }
            },
            HeatingStatus::Heating => {
                if temp > MAX_TEMPERATURE {
                    let (m, ok) = self.start_move_spec(MotorStatus::Closing, now);
                    full((MotorControl { heating_status: HeatingStatus::Cooling, ..m }, ok))
                } else if temp < MAX_TEMPERATURE - TEMP_HYSTERESIS {
                    (self, None)
                } else if temp > self.last_temp {
                    step(self.start_step_spec(MotorStatus::Closing, temp, now))
                } else if temp < self.last_temp {
                    step(self.start_step_spec(MotorStatus::Opening, temp, now))
                } else {
                    (self, None)
                }
            },
        }
    }

    /// A stopped controller that has not moved yet.
    pub fn new() -> (r: MotorControl)
        ensures
            r.status == MotorStatus::Off,
            r.move_start == None::<u64>,
            r.total_movement_time == 0,
            r.heating_status == HeatingStatus::Off,
            r.last_move_status == MotorStatus::Off,
            r.last_temp == 0,
    {
        MotorControl {
            status: MotorStatus::Off,
            move_start: None,
            total_movement_time: 0,
            heating_status: HeatingStatus::Off,
            last_move_status: MotorStatus::Off,
            last_temp: 0,
        }
    }

    /// Whether the motor may still travel in `direction`: a change of
    /// direction always may, the same direction only while the travel
    /// count is under the full-travel time.
    pub fn can_move(&self, direction: MotorStatus) -> (r: bool)
        ensures
            r == self.can_move_spec(direction),
    {
        let total_time = if direction != self.last_move_status {
            0
        } else {
            self.total_movement_time
        };
        total_time < MAX_MOVE_TIME
    }

    fn elapsed_s(&self, now: u64) -> (r: u64)
        ensures
            r == elapsed_spec(self.move_start, now),
    {
        match self.move_start {
            Some(t) => if now >= t { now - t } else { 0 },
            None => 0,
        }
    }

    /// Levels of the (enable, direction) pins for the current status:
    /// both low when off, enable high while moving, direction high when opening.
    pub fn pin_levels(&self) -> (r: (bool, bool))
        ensures
            r == (match self.status {
                MotorStatus::Off => (false, false),
                MotorStatus::Opening => (true, true),
                MotorStatus::Closing => (true, false),
            }),
    {
        match self.status {
            MotorStatus::Off => (false, false),
            MotorStatus::Opening => (true, true),
            MotorStatus::Closing => (true, false),
        }
    }

    /// Stops the motor, adding the time it ran to the travel count.
    pub fn stop(&mut self, now: u64)
        ensures
            *final(self) == old(self).stop_spec(now),
    {
        if self.status != MotorStatus::Off {
            self.last_move_status = self.status;
            let elapsed = self.elapsed_s(now);
            self.total_movement_time = self.total_movement_time.saturating_add(elapsed);
        }
        self.move_start = None;
        self.status = MotorStatus::Off;
    }

    fn run(&mut self, direction: MotorStatus, now: u64)
        ensures
            *final(self) == old(self).run_spec(direction, now),
    {
        if self.last_move_status != direction {
            self.total_movement_time = 0;
        }
        self.move_start = Some(now);
        self.status = direction;
    }

    /// Starts closing the valve.
    pub fn close(&mut self, now: u64)
        ensures
            *final(self) == old(self).run_spec(MotorStatus::Closing, now),
    {
        self.run(MotorStatus::Closing, now);
    }

    /// Starts opening the valve.
    pub fn open(&mut self, now: u64)
        ensures
            *final(self) == old(self).run_spec(MotorStatus::Opening, now),
    {
        self.run(MotorStatus::Opening, now);
    }

    /// Starts a movement in `direction` if the travel count allows it, and
    /// stops the motor if not; returns whether it started. The motor is left
    /// running: the caller stops it when the travel time is over.
    pub fn start_move(&mut self, direction: MotorStatus, now: u64) -> (r: bool)
        ensures
            (*final(self), r) == old(self).start_move_spec(direction, now),
    {
        if !self.can_move(direction) {
            self.stop(now);
            return false;
        }
        match direction {
            MotorStatus::Opening => {
                self.open(now);
                true
            },
            MotorStatus::Closing => {
                self.close(now);
                true
            },
            MotorStatus::Off => false,
        }
    }

    /// Starts one fine-tuning step and remembers `temp` if it started; the
    /// caller stops the motor after `STEP_MOVE_TIME` seconds.
    pub fn start_step(&mut self, direction: MotorStatus, temp: i32, now: u64) -> (r: bool)
        ensures
            (*final(self), r) == old(self).start_step_spec(direction, temp, now),
    {
        if direction == MotorStatus::Off {
            return false;
        }
        let success = self.start_move(direction, now);
        if success {
            self.last_temp = temp;
        }
        success
    }

    /// One round of the control loop on a fresh reading `temp`; returns for
    /// how many seconds the motor runs before it is stopped, if it started.
    pub fn on_temperature(&mut self, temp: i32, now: u64) -> (r: Option<u64>)
        ensures
            (*final(self), r) == old(self).on_temperature_spec(temp, now),
    {
        match self.heating_status {
            HeatingStatus::Off => {
                if self.start_move(MotorStatus::Opening, now) {
                    self.heating_status = HeatingStatus::Heating;
                    Some(MAX_MOVE_TIME)
                } else {
                    None
                }
            },
            HeatingStatus::Cooling => {
                let mut r: Option<u64> = None;
                if temp < MAX_TEMPERATURE - TEMP_HYSTERESIS {
                    self.heating_status = HeatingStatus::Heating;
                    if self.start_move(MotorStatus::Opening, now) {
                        r = Some(MAX_MOVE_TIME);
                    }
                }
                self.last_temp = temp;
                r
            },
            HeatingStatus::Heating => {
                if temp > MAX_TEMPERATURE {
                    let ok = self.start_move(MotorStatus::Closing, now);
                    self.heating_status = HeatingStatus::Cooling;
                    if ok { Some(MAX_MOVE_TIME) } else { None }
                } else if temp < MAX_TEMPERATURE - TEMP_HYSTERESIS {
                    None
                } else if temp > self.last_temp {
                    if self.start_step(MotorStatus::Closing, temp, now) { Some(STEP_MOVE_TIME) } else { None }
                } else if temp < self.last_temp {
                    if self.start_step(MotorStatus::Opening, temp, now) { Some(STEP_MOVE_TIME) } else { None }
                } else {
                    None
                }
            },
        }
    }
}

} // verus!
