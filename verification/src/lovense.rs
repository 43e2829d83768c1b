//! The translator of one device family: abstract commands in, text frames out.

use vstd::prelude::*;
use crate::command_manager::{GenericCommandManager, ManagerModel};
use crate::configuration::DeviceAttributes;
use crate::errors::ValidationError;
use crate::wire::{
    carries, rotate_bytes, rotate_change_bytes, rotate_change_frame, rotate_frame,
    vibrate_all_bytes, vibrate_all_frame, vibrate_one_bytes, vibrate_one_frame, DeviceWrite,
};

verus! {

/// A command in the vocabulary shared by all devices, one entry per motor.
/// Levels and speeds are counted in steps of the device's scale; one above the
/// scale's end is held to it.
#[derive(Clone, Debug, PartialEq, Eq)]
pub enum AbstractCommand {
    /// A level for each motor.
    Vibrate(Vec<u32>),
    /// A speed and a direction (`true`: clockwise) for each motor.
    Rotate(Vec<(u32, bool)>),
}

impl AbstractCommand {
    /// The number of motors that the command addresses.
    pub open spec fn motors(self) -> nat {
        match self {
            AbstractCommand::Vibrate(levels) => levels@.len(),
            AbstractCommand::Rotate(rotations) => rotations@.len(),
        }
    }
}

/// Whether every entry of `report` equals the first.
pub open spec fn all_same(report: Seq<Option<u32>>) -> bool {
    forall|i: int| 0 <= i < report.len() ==> #[trigger] report[i] == report[0]
}

/// One frame for each of the first `upto` motors that reports a level, each
/// naming its motor by its one-based number.
pub open spec fn per_motor_frames(report: Seq<Option<u32>>, upto: nat) -> Seq<Seq<u8>>
    decreases upto,
{
    if upto == 0 {
        Seq::empty()
    } else {
        let before = per_motor_frames(report, (upto - 1) as nat);
        match report[upto - 1] {
            Some(level) => before.push(vibrate_one_frame(upto, level)),
            None => before,
        }
    }
}

/// The frames for a vibration report: one frame for all motors where every
/// motor reports the same level, else one frame per motor that reports one.
pub open spec fn vibrate_frames(report: Seq<Option<u32>>) -> Seq<Seq<u8>> {
    if report.len() > 0 && report[0] is Some && all_same(report) {
        seq![vibrate_all_frame(report[0]->0)]
    } else {
        per_motor_frames(report, report.len())
    }
}

/// The frames for a rotation report, given the rotation `last` put on the wire.
/// Only the first motor is addressed. A reversal is sent where a direction was
/// sent before and differs; then the speed, unless that speed was sent before.
pub open spec fn rotate_frames(last: Option<(u32, bool)>, report: Seq<Option<(u32, bool)>>) -> Seq<
    Seq<u8>,
> {
    if report.len() == 0 || report[0] is None {
        Seq::empty()
    } else {
        let (speed, clockwise) = report[0]->0;
        let reversal = match last {
            Some((sent_speed, sent_clockwise)) if sent_clockwise != clockwise => seq![
                rotate_change_frame(),
            ],
            _ => Seq::empty(),
        };
        let setting = match last {
            Some((sent_speed, sent_clockwise)) if sent_speed == speed => Seq::empty(),
            _ => seq![rotate_frame(speed)],
        };
        reversal + setting
    }
}

/// The rotation that counts as put on the wire after `report` was translated.
pub open spec fn rotation_memory(last: Option<(u32, bool)>, report: Seq<Option<(u32, bool)>>) -> Option<
    (u32, bool),
> {
    if report.len() == 0 || report[0] is None {
        last
    } else {
        report[0]
    }
}

/// Whether every entry of `report` equals the first.
pub fn is_all_same(report: &Vec<Option<u32>>) -> (same: bool)
    ensures
        same == all_same(report@),
{
    let mut i: usize = 1;
    while i < report.len()
        invariant
            1 <= i,
            forall|k: int| 0 <= k < i && k < report@.len() ==> #[trigger] report@[k] == report@[0],
        decreases report@.len() - i,
    {
        let equal = match (report[i], report[0]) {
            (Some(a), Some(b)) => a == b,
            (None, None) => true,
            _ => false,
        };
        if !equal {
            return false;
        }
        i += 1;
    }
    true
}

/// Turns a vibration report into the writes that carry it to the device.
pub fn vibrate_writes(report: &Vec<Option<u32>>) -> (writes: Vec<DeviceWrite>)
    ensures
        carries(writes@, vibrate_frames(report@)),
{
    let mut writes: Vec<DeviceWrite> = Vec::new();
    if report.len() > 0 {
        if let Some(level) = report[0] {
            if is_all_same(report) {
                writes.push(DeviceWrite::command(vibrate_all_bytes(level)));
                return writes;
            }
        }
    }
    let mut i: usize = 0;
    while i < report.len()
        invariant
            i <= report@.len(),
            carries(writes@, per_motor_frames(report@, i as nat)),
        decreases report@.len() - i,
    {
        if let Some(level) = report[i] {
            writes.push(DeviceWrite::command(vibrate_one_bytes(i, level)));
        }
        i += 1;
    }
    writes
}

/// Turns a rotation report into the writes that carry it to the device, given
/// the rotation `last` put on the wire.
pub fn rotate_writes(last: Option<(u32, bool)>, report: &Vec<Option<(u32, bool)>>) -> (writes: Vec<
    DeviceWrite,
>)
    ensures
        carries(writes@, rotate_frames(last, report@)),
{
    let mut writes: Vec<DeviceWrite> = Vec::new();
    if report.len() == 0 {
        return writes;
    }
    if let Some((speed, clockwise)) = report[0] {
        let (reverse, set) = match last {
            Some((sent_speed, sent_clockwise)) => (sent_clockwise != clockwise, sent_speed != speed),
            None => (false, true),
        };
        if reverse {
            writes.push(DeviceWrite::command(rotate_change_bytes()));
        }
        if set {
            writes.push(DeviceWrite::command(rotate_bytes(speed)));
        }
    }
    writes
}

/// The translator as plain values.
pub struct ProtocolModel {
    pub name: Seq<char>,
    pub attributes: DeviceAttributes,
    pub manager: ManagerModel,
    pub last_rotation: Option<(u32, bool)>,
}

impl ProtocolModel {
    /// The translator of a device that was just identified: nothing sent yet.
    pub open spec fn fresh(name: Seq<char>, attributes: DeviceAttributes) -> ProtocolModel {
        ProtocolModel {
            name,
            attributes,
            manager: ManagerModel::fresh(attributes.motor_count as nat, attributes.step_count),
            last_rotation: None,
        }
    }

    /// Whether `command` has one entry per motor.
    pub open spec fn accepts(self, command: AbstractCommand) -> bool {
        self.manager.accepts(command.motors())
    }

    /// The frames that `command` is translated to, in the order to send them.
    pub open spec fn frames(self, command: AbstractCommand) -> Seq<Seq<u8>> {
        match command {
            AbstractCommand::Vibrate(levels) => vibrate_frames(
                self.manager.vibration_report(levels@),
            ),
            AbstractCommand::Rotate(rotations) => rotate_frames(
                self.last_rotation,
                self.manager.rotation_report(rotations@),
            ),
        }
    }

    /// Whether the memory of what was sent has the shape that the attributes
    /// give: one entry per motor, and the same range of levels.
    pub open spec fn well_formed(self) -> bool {
        &&& self.manager.motors.len() == self.attributes.motor_count
        &&& self.manager.step_count == self.attributes.step_count
    }

    /// The translator after it has translated `command`.
    pub open spec fn after(self, command: AbstractCommand) -> ProtocolModel {
        match command {
            AbstractCommand::Vibrate(levels) => ProtocolModel {
                manager: self.manager.after_vibration(levels@),
                ..self
            },
            AbstractCommand::Rotate(rotations) => ProtocolModel {
                manager: self.manager.after_rotation(rotations@),
                last_rotation: rotation_memory(
                    self.last_rotation,
                    self.manager.rotation_report(rotations@),
                ),
                ..self
            },
        }
    }
}

/// The translator of one connected device.
#[derive(Debug)]
pub struct Lovense {
    name: String,
    attributes: DeviceAttributes,
    manager: GenericCommandManager,
    last_rotation: Option<(u32, bool)>,
}

impl Lovense {
    pub closed spec fn view(&self) -> ProtocolModel {
        ProtocolModel {
            name: self.name@,
            attributes: self.attributes,
            manager: self.manager@,
            last_rotation: self.last_rotation,
        }
    }

    /// The translator of a device with the display name `name`, with nothing
    /// sent yet.
    pub fn new(name: String, attributes: DeviceAttributes) -> (protocol: Lovense)
        ensures
            protocol@ == ProtocolModel::fresh(name@, attributes),
    {
        Lovense {
            name,
            attributes,
            manager: GenericCommandManager::new(attributes.motor_count, attributes.step_count),
            last_rotation: None,
        }
    }

    /// The display name of the device.
    pub fn name(&self) -> (name: &String)
        ensures
            name@ == self@.name,
    {
        &self.name
    }

    /// The attributes that the device was identified with.
    pub fn attributes(&self) -> (attributes: DeviceAttributes)
        ensures
            attributes == self@.attributes,
    {
        self.attributes
    }

    /// Translates `command` into the writes to issue, in order, and records
    /// what they send.
    ///
    /// A command without exactly one entry per motor is refused, changes
    /// nothing and asks for no write.
    pub fn handle(&mut self, command: &AbstractCommand) -> (result: Result<
        Vec<DeviceWrite>,
        ValidationError,
    >)
        ensures
            !old(self)@.accepts(*command) ==> final(self)@ == old(self)@ && result == Err::<
                Vec<DeviceWrite>,
                ValidationError,
            >(
                ValidationError::MotorCountMismatch {
                    expected: old(self)@.manager.motors.len() as usize,
                    found: command.motors() as usize,
                },
            ),
            old(self)@.accepts(*command) ==> final(self)@ == old(self)@.after(*command)
                && result is Ok && carries(result->Ok_0@, old(self)@.frames(*command)),
    {
        match command {
            AbstractCommand::Vibrate(levels) => {
                match self.manager.update_vibration(levels) {
                    Ok(report) => Ok(vibrate_writes(&report)),
                    Err(e) => Err(e),
                }
            },
            AbstractCommand::Rotate(rotations) => {
                match self.manager.update_rotation(rotations) {
                    Ok(report) => {
                        let writes = rotate_writes(self.last_rotation, &report);
                        if report.len() > 0 {
                            if let Some(rotation) = report[0] {
                                self.last_rotation = Some(rotation);
                            }
                        }
                        Ok(writes)
                    },
                    Err(e) => Err(e),
                }
            },
        }
    }
}

/// A report in which no motor changed yields no per-motor frame.
pub proof fn lemma_nothing_reported_nothing_sent(report: Seq<Option<u32>>, upto: nat)
    requires
        upto <= report.len(),
        forall|i: int| 0 <= i < report.len() ==> report[i] is None,
    ensures
        per_motor_frames(report, upto) == Seq::<Seq<u8>>::empty(),
    decreases upto,
{
    if upto > 0 {
        lemma_nothing_reported_nothing_sent(report, (upto - 1) as nat);
    }
}

/// How many of the first `upto` motors report a level.
pub open spec fn changed_motors(report: Seq<Option<u32>>, upto: nat) -> nat
    decreases upto,
{
    if upto == 0 {
        0
    } else {
        changed_motors(report, (upto - 1) as nat) + if report[upto - 1] is Some {
            1nat
        } else {
            0nat
        }
    }
}

/// There is one per-motor frame for each motor that reports a level.
pub proof fn lemma_one_frame_per_changed_motor(report: Seq<Option<u32>>, upto: nat)
    requires
        upto <= report.len(),
    ensures
        per_motor_frames(report, upto).len() == changed_motors(report, upto),
        changed_motors(report, upto) <= upto,
    decreases upto,
{
    if upto > 0 {
        lemma_one_frame_per_changed_motor(report, (upto - 1) as nat);
    }
}

/// The same command a second time asks for no write.
pub proof fn law_repeated_command_sends_nothing(protocol: ProtocolModel, command: AbstractCommand)
    requires
        protocol.accepts(command),
    ensures
        protocol.after(command).frames(command) == Seq::<Seq<u8>>::empty(),
{
    match command {
        AbstractCommand::Vibrate(levels) => {
            let report = protocol.manager.after_vibration(levels@).vibration_report(levels@);
            lemma_nothing_reported_nothing_sent(report, report.len());
        },
        AbstractCommand::Rotate(rotations) => {},
    }
}

/// A vibration report asks for exactly one write where every motor changes to
/// the same level, and else for one write per motor that changes: never for
/// one on behalf of a motor that does not.
pub proof fn law_vibration_writes_follow_changes(report: Seq<Option<u32>>)
    ensures
        report.len() > 0 && report[0] is Some && all_same(report) ==> vibrate_frames(report)
            == seq![vibrate_all_frame(report[0]->0)],
        !(report.len() > 0 && report[0] is Some && all_same(report)) ==> vibrate_frames(
            report,
        ).len() == changed_motors(report, report.len()),
        vibrate_frames(report).len() <= report.len(),
{
    lemma_one_frame_per_changed_motor(report, report.len());
}

/// The first rotation after the handshake sets the speed and sends no
/// reversal; a later one that flips the direction at the same speed sends the
/// reversal alone; one that changes nothing on the first motor sends nothing.
pub proof fn law_rotation_frames(speed: u32, clockwise: bool, rest: Seq<Option<(u32, bool)>>)
    ensures
        rotate_frames(None, seq![Some((speed, clockwise))] + rest) == seq![rotate_frame(speed)],
        rotate_frames(Some((speed, !clockwise)), seq![Some((speed, clockwise))] + rest)
            == seq![rotate_change_frame()],
        rotate_frames(Some((speed, clockwise)), seq![None] + rest) == Seq::<Seq<u8>>::empty(),
{
    assert(rotate_frames(None, seq![Some((speed, clockwise))] + rest) =~= seq![
        rotate_frame(speed),
    ]);
    assert(rotate_frames(Some((speed, !clockwise)), seq![Some((speed, clockwise))] + rest)
        =~= seq![rotate_change_frame()]);
}

/// A translator starts well formed and stays so under every command it
/// accepts, and no command changes its name or attributes.
pub proof fn law_shape_is_kept(
    name: Seq<char>,
    attributes: DeviceAttributes,
    protocol: ProtocolModel,
    command: AbstractCommand,
)
    ensures
        ProtocolModel::fresh(name, attributes).well_formed(),
        protocol.well_formed() && protocol.accepts(command) ==> protocol.after(
            command,
        ).well_formed(),
        protocol.after(command).name == protocol.name,
        protocol.after(command).attributes == protocol.attributes,
{
}

} // verus!
