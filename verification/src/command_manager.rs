//! Per-motor memory of what was last sent, and the diff of a new command
//! against it.

use vstd::prelude::*;
use crate::errors::ValidationError;

verus! {

/// What was last dispatched to one motor; `None` means never sent.
#[derive(Clone, Copy, Debug, PartialEq, Eq)]
pub struct MotorState {
    pub vibration: Option<u32>,
    pub rotation: Option<(u32, bool)>,
}

/// The manager as plain values.
pub struct ManagerModel {
    pub step_count: u32,
    pub motors: Seq<MotorState>,
}

/// `level` held to the device's range `0..=step_count`.
pub open spec fn clamp_level(level: u32, step_count: u32) -> u32 {
    if level > step_count {
        step_count
    } else {
        level
    }
}

/// What to report for a motor: `None` when `value` is what was last sent.
pub open spec fn diff<T>(last: Option<T>, value: T) -> Option<T> {
    if last == Some(value) {
        None
    } else {
        Some(value)
    }
}

/// The rotation that `request` becomes on a device with `step_count` steps.
pub open spec fn clamp_rotation(request: (u32, bool), step_count: u32) -> (u32, bool) {
    (clamp_level(request.0, step_count), request.1)
}

impl ManagerModel {
    /// A manager of `motor_count` motors to which nothing was sent yet.
    pub open spec fn fresh(motor_count: nat, step_count: u32) -> ManagerModel {
        ManagerModel {
            step_count,
            motors: Seq::new(motor_count, |i: int| MotorState { vibration: None, rotation: None }),
        }
    }

    /// Whether a command of `len` entries fits this manager.
    pub open spec fn accepts(self, len: nat) -> bool {
        len == self.motors.len()
    }

    /// The per-motor report for the vibration levels `command`.
    pub open spec fn vibration_report(self, command: Seq<u32>) -> Seq<Option<u32>> {
        Seq::new(
            command.len(),
            |i: int| diff(self.motors[i].vibration, clamp_level(command[i], self.step_count)),
        )
    }

    /// The manager after it has taken the vibration levels `command`.
    pub open spec fn after_vibration(self, command: Seq<u32>) -> ManagerModel {
        ManagerModel {
            step_count: self.step_count,
            motors: Seq::new(
                command.len(),
                |i: int|
                    MotorState {
                        vibration: Some(clamp_level(command[i], self.step_count)),
                        rotation: self.motors[i].rotation,
                    },
            ),
        }
    }

    /// The per-motor report for the rotations `command`.
    pub open spec fn rotation_report(self, command: Seq<(u32, bool)>) -> Seq<Option<(u32, bool)>> {
        Seq::new(
            command.len(),
            |i: int| diff(self.motors[i].rotation, clamp_rotation(command[i], self.step_count)),
        )
    }

    /// The manager after it has taken the rotations `command`.
    pub open spec fn after_rotation(self, command: Seq<(u32, bool)>) -> ManagerModel {
        ManagerModel {
            step_count: self.step_count,
            motors: Seq::new(
                command.len(),
                |i: int|
                    MotorState {
                        vibration: self.motors[i].vibration,
                        rotation: Some(clamp_rotation(command[i], self.step_count)),
                    },
            ),
        }
    }
}

/// Tracks, for each motor of one connected device, the value last sent.
#[derive(Debug)]
pub struct GenericCommandManager {
    step_count: u32,
    motors: Vec<MotorState>,
}

impl GenericCommandManager {
    pub closed spec fn view(&self) -> ManagerModel {
        ManagerModel { step_count: self.step_count, motors: self.motors@ }
    }

    /// A manager for `motor_count` motors, each with levels `0..=step_count`,
    /// with every motor marked as never sent.
    pub fn new(motor_count: usize, step_count: u32) -> (manager: GenericCommandManager)
        ensures
            manager@ == ManagerModel::fresh(motor_count as nat, step_count),
    {
        let mut motors: Vec<MotorState> = Vec::new();
        let mut i: usize = 0;
        while i < motor_count
            invariant
                i <= motor_count,
                motors@.len() == i,
                forall|k: int|
                    0 <= k < i ==> motors@[k] == (MotorState { vibration: None, rotation: None }),
            decreases motor_count - i,
        {
            motors.push(MotorState { vibration: None, rotation: None });
            i += 1;
        }
        assert(motors@ =~= ManagerModel::fresh(motor_count as nat, step_count).motors);
        GenericCommandManager { step_count, motors }
    }

    /// The number of motors.
    pub fn motor_count(&self) -> (count: usize)
        ensures
            count == self@.motors.len(),
    {
        self.motors.len()
    }

    /// The highest level a motor accepts.
    pub fn step_count(&self) -> (steps: u32)
        ensures
            steps == self@.step_count,
    {
        self.step_count
    }

    /// What was last sent to the motor at `index`, if there is such a motor.
    pub fn motor_state(&self, index: usize) -> (state: Option<MotorState>)
        ensures
            state == if index < self@.motors.len() {
                Some(self@.motors[index as int])
            } else {
                None
            },
    {
        if index < self.motors.len() {
            Some(self.motors[index])
        } else {
            None
        }
    }

    /// Forgets what was sent to the motor at `index`, so that the next command
    /// for it is reported whatever its value. For callers whose write failed.
    pub fn reset_motor(&mut self, index: usize)
        ensures
            final(self)@.step_count == old(self)@.step_count,
            final(self)@.motors == if index < old(self)@.motors.len() {
                old(self)@.motors.update(
                    index as int,
                    MotorState { vibration: None, rotation: None },
                )
            } else {
                old(self)@.motors
            },
    {
        if index < self.motors.len() {
            self.motors.set(index, MotorState { vibration: None, rotation: None });
        }
    }

    /// Diffs the vibration levels `command`, one per motor, against what was
    /// last sent, and records them as sent.
    ///
    /// A command of the wrong length is refused and changes nothing. Otherwise
    /// each level is held to `0..=step_count`; a motor whose level is the one
    /// last sent reports `None`, every other reports `Some(level)`.
    pub fn update_vibration(&mut self, command: &Vec<u32>) -> (result: Result<
        Vec<Option<u32>>,
        ValidationError,
    >)
        ensures
            !old(self)@.accepts(command@.len()) ==> final(self)@ == old(self)@ && result == Err::<
                Vec<Option<u32>>,
                ValidationError,
            >(
                ValidationError::MotorCountMismatch {
                    expected: old(self)@.motors.len() as usize,
                    found: command@.len() as usize,
                },
            ),
            old(self)@.accepts(command@.len()) ==> final(self)@ == old(self)@.after_vibration(
                command@,
            ) && result is Ok && result->Ok_0@ == old(self)@.vibration_report(command@),
    {
        let count = self.motors.len();
        if command.len() != count {
            return Err(ValidationError::MotorCountMismatch { expected: count, found: command.len() });
        }
        let mut report: Vec<Option<u32>> = Vec::new();
        let mut i: usize = 0;
        while i < count
            invariant
                i <= count,
                count == command@.len(),
                count == old(self)@.motors.len(),
                self.motors@.len() == count,
                self.step_count == old(self).step_count,
                report@.len() == i,
                forall|k: int|
                    0 <= k < i ==> report@[k] == old(self)@.vibration_report(command@)[k],
                forall|k: int|
                    0 <= k < i ==> self.motors@[k] == old(self)@.after_vibration(
                        command@,
                    ).motors[k],
                forall|k: int| i <= k < count ==> self.motors@[k] == old(self)@.motors[k],
            decreases count - i,
        {
            let requested: u32 = command[i];
            let level: u32 = if requested > self.step_count {
                self.step_count
            } else {
                requested
            };
            let last = self.motors[i];
            let unchanged = match last.vibration {
                Some(sent) => sent == level,
                None => false,
            };
            if unchanged {
                report.push(None);
            } else {
                report.push(Some(level));
            }
            self.motors.set(i, MotorState { vibration: Some(level), rotation: last.rotation });
            i += 1;
        }
        assert(report@ =~= old(self)@.vibration_report(command@));
        assert(self.motors@ =~= old(self)@.after_vibration(command@).motors);
        Ok(report)
    }

    /// Diffs the rotations `command`, one `(speed, clockwise)` per motor,
    /// against what was last sent, and records them as sent.
    ///
    /// A command of the wrong length is refused and changes nothing. Otherwise
    /// each speed is held to `0..=step_count`; a motor reports `None` only when
    /// both speed and direction are those last sent.
    pub fn update_rotation(&mut self, command: &Vec<(u32, bool)>) -> (result: Result<
        Vec<Option<(u32, bool)>>,
        ValidationError,
    >)
        ensures
            !old(self)@.accepts(command@.len()) ==> final(self)@ == old(self)@ && result == Err::<
                Vec<Option<(u32, bool)>>,
                ValidationError,
            >(
                ValidationError::MotorCountMismatch {
                    expected: old(self)@.motors.len() as usize,
                    found: command@.len() as usize,
                },
            ),
            old(self)@.accepts(command@.len()) ==> final(self)@ == old(self)@.after_rotation(
                command@,
            ) && result is Ok && result->Ok_0@ == old(self)@.rotation_report(command@),
    {
        let count = self.motors.len();
        if command.len() != count {
            return Err(ValidationError::MotorCountMismatch { expected: count, found: command.len() });
        }
        let mut report: Vec<Option<(u32, bool)>> = Vec::new();
        let mut i: usize = 0;
        while i < count
            invariant
                i <= count,
                count == command@.len(),
                count == old(self)@.motors.len(),
                self.motors@.len() == count,
                self.step_count == old(self).step_count,
                report@.len() == i,
                forall|k: int|
                    0 <= k < i ==> report@[k] == old(self)@.rotation_report(command@)[k],
                forall|k: int|
                    0 <= k < i ==> self.motors@[k] == old(self)@.after_rotation(
                        command@,
                    ).motors[k],
                forall|k: int| i <= k < count ==> self.motors@[k] == old(self)@.motors[k],
            decreases count - i,
        {
            let requested: (u32, bool) = command[i];
            let speed: u32 = if requested.0 > self.step_count {
                self.step_count
            } else {
                requested.0
            };
            let clockwise = requested.1;
            let last = self.motors[i];
            let unchanged = match last.rotation {
                Some(sent) => sent.0 == speed && sent.1 == clockwise,
                None => false,
            };
            if unchanged {
                report.push(None);
            } else {
                report.push(Some((speed, clockwise)));
            }
            self.motors.set(
                i,
                MotorState { vibration: last.vibration, rotation: Some((speed, clockwise)) },
            );
            i += 1;
        }
        assert(report@ =~= old(self)@.rotation_report(command@));
        assert(self.motors@ =~= old(self)@.after_rotation(command@).motors);
        Ok(report)
    }
}

/// On a device to which nothing was sent yet, every motor is reported, with
/// its level held to the device's range.
pub proof fn law_first_command_is_never_suppressed(
    step_count: u32,
    levels: Seq<u32>,
    rotations: Seq<(u32, bool)>,
)
    ensures
        forall|i: int|
            0 <= i < levels.len() ==> (#[trigger] ManagerModel::fresh(
                levels.len(),
                step_count,
            ).vibration_report(levels)[i]) == Some(clamp_level(levels[i], step_count)),
        forall|i: int|
            0 <= i < rotations.len() ==> (#[trigger] ManagerModel::fresh(
                rotations.len(),
                step_count,
            ).rotation_report(rotations)[i]) == Some(clamp_rotation(rotations[i], step_count)),
{
}

/// After a command was taken, a motor is reported for the next command exactly
/// when its level, held to the device's range, differs from the one before.
pub proof fn law_vibration_reports_changes_only(
    manager: ManagerModel,
    first: Seq<u32>,
    second: Seq<u32>,
    i: int,
)
    requires
        manager.accepts(first.len()),
        manager.accepts(second.len()),
        0 <= i < second.len(),
    ensures
        manager.after_vibration(first).vibration_report(second)[i] == if clamp_level(
            first[i],
            manager.step_count,
        ) == clamp_level(second[i], manager.step_count) {
            None
        } else {
            Some(clamp_level(second[i], manager.step_count))
        },
{
}

/// After a command was taken, a motor is reported for the next command unless
/// both its speed, held to the device's range, and its direction are those of
/// the one before: a flipped direction alone is a change.
pub proof fn law_rotation_reports_changes_only(
    manager: ManagerModel,
    first: Seq<(u32, bool)>,
    second: Seq<(u32, bool)>,
    i: int,
)
    requires
        manager.accepts(first.len()),
        manager.accepts(second.len()),
        0 <= i < second.len(),
    ensures
        manager.after_rotation(first).rotation_report(second)[i] is None <==> (clamp_level(
            first[i].0,
            manager.step_count,
        ) == clamp_level(second[i].0, manager.step_count) && first[i].1 == second[i].1),
        manager.after_rotation(first).rotation_report(second)[i] matches Some(r) ==> r
            == clamp_rotation(second[i], manager.step_count),
{
}

/// The same command a second time reports no motor at all.
pub proof fn law_repeated_command_is_suppressed(
    manager: ManagerModel,
    levels: Seq<u32>,
    rotations: Seq<(u32, bool)>,
)
    ensures
        manager.accepts(levels.len()) ==> manager.after_vibration(levels).vibration_report(levels)
            == Seq::new(levels.len(), |i: int| None::<u32>),
        manager.accepts(rotations.len()) ==> manager.after_rotation(rotations).rotation_report(
            rotations,
        ) == Seq::new(rotations.len(), |i: int| None::<(u32, bool)>),
{
    if manager.accepts(levels.len()) {
        assert(manager.after_vibration(levels).vibration_report(levels) =~= Seq::new(
            levels.len(),
            |i: int| None::<u32>,
        ));
    }
    if manager.accepts(rotations.len()) {
        assert(manager.after_rotation(rotations).rotation_report(rotations) =~= Seq::new(
            rotations.len(),
            |i: int| None::<(u32, bool)>,
        ));
    }
}

/// A vibration command leaves the memory of rotations as it was, and a
/// rotation command that of vibrations.
pub proof fn law_commands_keep_to_their_kind(
    manager: ManagerModel,
    levels: Seq<u32>,
    rotations: Seq<(u32, bool)>,
    i: int,
)
    requires
        0 <= i < manager.motors.len(),
    ensures
        manager.accepts(levels.len()) ==> manager.after_vibration(levels).motors[i].rotation
            == manager.motors[i].rotation,
        manager.accepts(rotations.len()) ==> manager.after_rotation(rotations).motors[i].vibration
            == manager.motors[i].vibration,
{
}

/// No level that is reported or recorded exceeds the device's range.
pub proof fn law_levels_stay_in_range(manager: ManagerModel, levels: Seq<u32>, i: int)
    requires
        manager.accepts(levels.len()),
        0 <= i < levels.len(),
    ensures
        manager.vibration_report(levels)[i] matches Some(level) ==> level <= manager.step_count,
        manager.after_vibration(levels).motors[i].vibration matches Some(level) && level
            <= manager.step_count,
{
}

} // verus!
