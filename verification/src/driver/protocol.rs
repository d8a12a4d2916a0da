//! What each driver operation sends over the bus, in which order, and what it
//! makes of the answers.
//!
//! An operation is a [`Command`]. Starting it gives an [`Exchange`] and the
//! first [`Action`] to perform on the bus or the data-ready pin. The outcome of
//! each action is handed back as an [`Event`], and the exchange answers with
//! the next action, until it finishes with the operation's result.
use vstd::prelude::*;

use crate::driver::codec::{decoded, decoded_at, encoded, RawPose};
use crate::driver::otos::{SignalProcessConfig, Version, Versions};
use crate::error::Error;
use crate::registers::Register;
use crate::PRODUCT_ID;

verus! {

/// The operations of the driver.
#[derive(Clone, Copy, Debug, PartialEq, Eq, Structural)]
pub enum Command {
    /// Checks product id.
    Init,
    /// Get hardware and firmware versions.
    GetVersion,
    /// Get position.
    GetPos,
    /// Get velocity.
    GetVel,
    /// Get acceleration.
    GetAcc,
    /// Get position, velocity at once.
    GetPosVel,
    /// Get position, velocity, acceleration at once.
    GetPosVelAcc,
    /// Get standard deviation of position.
    GetPosSd,
    /// Get standard deviation of velocity.
    GetVelSd,
    /// Get standard deviation of acceleration.
    GetAccSd,
    /// Get standard deviation of position, velocity at once.
    GetPosVelSd,
    /// Get standard deviation of position, velocity, acceleration at once.
    GetPosVelAccSd,
    /// Set position.
    SetPos(RawPose),
    /// Set velocity.
    SetVel(RawPose),
    /// Set acceleration.
    SetAcc(RawPose),
    /// Set position, velocity, acceleration at once.
    SetPosVelAcc(RawPose, RawPose, RawPose),
    /// Set standard deviation of position.
    SetPosSd(RawPose),
    /// Set standard deviation of velocity.
    SetVelSd(RawPose),
    /// Set standard deviation of acceleration.
    SetAccSd(RawPose),
    /// Set standard deviation of position, velocity, acceleration at once.
    SetPosVelAccSd(RawPose, RawPose, RawPose),
    /// Get currently set OTOS offset.
    GetOffsets,
    /// Set OTOS offset.
    SetOffset(RawPose),
    /// Calibrates IMU with the given number of samples, resets the velocity,
    /// acceleration.
    CalibrateImu(u8),
    /// Resets position to origin(0,0).
    ResetTracking,
    /// Gets [SignalProcessConfig] from OTOS.
    GetConfig,
    /// Sets [SignalProcessConfig] of OTOS.
    SetConfig(SignalProcessConfig),
    /// Gets the linear scalar register: the scalar's offset from 1 in
    /// thousandths.
    GetLinearScalar,
    /// Sets the linear scalar register to the given offset from 1 in
    /// thousandths.
    SetLinearScalar(i8),
    /// Gets the angular scalar register: the scalar's offset from 1 in
    /// thousandths.
    GetAngularScalar,
    /// Sets the angular scalar register to the given offset from 1 in
    /// thousandths.
    SetAngularScalar(i8),
}

/// One operation on the bus or the data-ready pin, as a plan lists it.
#[derive(Clone, Copy, Debug, PartialEq, Eq, Structural)]
pub enum Step {
    /// Waits for the data ready interrupt on the IO9 pin, active low.
    WaitForData,
    /// Writes the register address, then reads `len` bytes from there on.
    ReadRegs { reg: u8, len: usize },
    /// Writes one byte into a register.
    WriteReg { reg: u8, value: u8 },
    /// Writes the command's payload into the registers from `reg` on, in one
    /// transaction.
    WriteRegs { reg: u8 },
}

/// What an exchange asks to be done next.
#[derive(Debug)]
pub enum Action {
    /// Wait for the data ready interrupt on the IO9 pin (active low).
    WaitForData,
    /// `write_read` of `[reg]` into a buffer of `len` bytes.
    ReadRegs { reg: u8, len: usize },
    /// `write` of `[reg, value]`.
    WriteReg { reg: u8, value: u8 },
    /// A `transaction` that writes `[reg]`, then `data`.
    WriteRegs { reg: u8, data: Vec<u8> },
    /// The operation is over, with this result.
    Finish(Result<Reply, Error>),
}

/// The outcome of an action, handed back to the exchange.
#[derive(Debug)]
pub enum Event {
    /// The data-ready pin went low.
    DataReady,
    /// Waiting on the data-ready pin failed.
    PinFailed,
    /// The registers read were these bytes.
    Received(Vec<u8>),
    /// The write went through.
    Sent,
    /// The bus reported an error.
    BusFailed,
}

/// What a finished operation gives back.
#[derive(Clone, Copy, Debug, PartialEq, Eq, Structural)]
pub enum Reply {
    /// Nothing beyond success.
    Done,
    /// Hardware and firmware versions.
    Versions(Versions),
    /// One pose, in register counts.
    Pose(RawPose),
    /// Two poses read at once.
    TwoPoses(RawPose, RawPose),
    /// Three poses read at once.
    ThreePoses(RawPose, RawPose, RawPose),
    /// The signal process configuration.
    Config(SignalProcessConfig),
    /// A scalar register: offset from 1 in thousandths.
    Scalar(i8),
}

/// Waits for fresh data, then reads `count` poses from `reg` on.
pub open spec fn pose_read(reg: u8, count: usize) -> Seq<Step> {
    seq![Step::WaitForData, Step::ReadRegs { reg, len: (6 * count) as usize }]
}

/// The operations that a command performs, in order. Only the calibration
/// goes back: it waits and polls its register again until that reads zero.
pub open spec fn plan(c: Command) -> Seq<Step> {
    match c {
        Command::Init => seq![Step::ReadRegs { reg: Register::PRODUCT_ID, len: 1 }],
        Command::GetVersion => seq![Step::ReadRegs { reg: Register::HW_VERSION, len: 2 }],
        Command::GetPos => pose_read(Register::POS, 1),
        Command::GetVel => pose_read(Register::VEL, 1),
        Command::GetAcc => pose_read(Register::ACCEL, 1),
        Command::GetPosVel => pose_read(Register::POS, 2),
        Command::GetPosVelAcc => pose_read(Register::POS, 3),
        Command::GetPosSd => pose_read(Register::POS_SD, 1),
        Command::GetVelSd => pose_read(Register::VEL_SD, 1),
        Command::GetAccSd => pose_read(Register::ACCEL_SD, 1),
        Command::GetPosVelSd => pose_read(Register::POS_SD, 2),
        Command::GetPosVelAccSd => pose_read(Register::POS_SD, 3),
        Command::SetPos(_) => seq![Step::WriteRegs { reg: Register::POS }],
        Command::SetVel(_) => seq![Step::WriteRegs { reg: Register::VEL }],
        Command::SetAcc(_) => seq![Step::WriteRegs { reg: Register::ACCEL }],
        Command::SetPosVelAcc(_, _, _) => seq![Step::WriteRegs { reg: Register::POS }],
        Command::SetPosSd(_) => seq![Step::WriteRegs { reg: Register::POS_SD }],
        Command::SetVelSd(_) => seq![Step::WriteRegs { reg: Register::VEL_SD }],
        Command::SetAccSd(_) => seq![Step::WriteRegs { reg: Register::ACCEL_SD }],
        Command::SetPosVelAccSd(_, _, _) => seq![Step::WriteRegs { reg: Register::POS_SD }],
        Command::GetOffsets => pose_read(Register::OFFSETS, 1),
        Command::SetOffset(_) => seq![Step::WriteRegs { reg: Register::OFFSETS }],
        Command::CalibrateImu(n) => seq![
            Step::WriteReg { reg: Register::IMU_CALIB, value: n },
            Step::WaitForData,
            Step::ReadRegs { reg: Register::IMU_CALIB, len: 1 },
        ],
        Command::ResetTracking => seq![
            Step::WriteReg { reg: Register::RESET, value: 0x01 },
            Step::WaitForData,
            Step::ReadRegs { reg: Register::POS, len: 6 },
        ],
        Command::GetConfig => seq![Step::ReadRegs { reg: Register::SIGNAL_PROCESS, len: 1 }],
        Command::SetConfig(config) => seq![
            Step::WriteReg { reg: Register::SIGNAL_PROCESS, value: config@ },
        ],
        Command::GetLinearScalar => seq![Step::ReadRegs { reg: Register::SCALAR_LINEAR, len: 1 }],
        Command::SetLinearScalar(v) => seq![
            Step::WriteReg { reg: Register::SCALAR_LINEAR, value: register_byte(v) },
        ],
        Command::GetAngularScalar => seq![Step::ReadRegs { reg: Register::SCALAR_ANGULAR, len: 1 }],
        Command::SetAngularScalar(v) => seq![
            Step::WriteReg { reg: Register::SCALAR_ANGULAR, value: register_byte(v) },
        ],
    }
}

/// The bytes that a command writes in its `WriteRegs` step: the encoded poses.
pub open spec fn payload(c: Command) -> Seq<u8> {
    match c {
        Command::SetPos(p) => encoded(p),
        Command::SetVel(p) => encoded(p),
        Command::SetAcc(p) => encoded(p),
        Command::SetPosSd(p) => encoded(p),
        Command::SetVelSd(p) => encoded(p),
        Command::SetAccSd(p) => encoded(p),
        Command::SetOffset(p) => encoded(p),
        Command::SetPosVelAcc(a, b, d) => encoded(a) + encoded(b) + encoded(d),
        Command::SetPosVelAccSd(a, b, d) => encoded(a) + encoded(b) + encoded(d),
        _ => Seq::empty(),
    }
}

/// The two's complement byte of a signed register value.
pub open spec fn register_byte(v: i8) -> u8 {
    if v < 0 {
        (v + 256) as u8
    } else {
        v as u8
    }
}

/// The signed value of a register byte.
pub open spec fn signed_byte(b: u8) -> i8 {
    if b < 128 {
        b as i8
    } else {
        (b - 256) as i8
    }
}

/// `r` is the result of command `c` whose last read gave `bytes`.
pub open spec fn replies(c: Command, bytes: Seq<u8>, r: Result<Reply, Error>) -> bool {
    match c {
        Command::Init => if bytes[0] == PRODUCT_ID {
            r == Ok::<Reply, Error>(Reply::Done)
        } else {
            r == Err::<Reply, Error>(Error::IncorrectProductID)
        },
        Command::GetVersion => r matches Ok(Reply::Versions(v)) && v.hw@ == bytes[0] && v.fw@
            == bytes[1],
        Command::GetPos | Command::GetVel | Command::GetAcc | Command::GetPosSd | Command::GetVelSd
        | Command::GetAccSd | Command::GetOffsets => r == Ok::<Reply, Error>(
            Reply::Pose(decoded(bytes)),
        ),
        Command::GetPosVel | Command::GetPosVelSd => r == Ok::<Reply, Error>(
            Reply::TwoPoses(decoded_at(bytes, 0), decoded_at(bytes, 6)),
        ),
        Command::GetPosVelAcc | Command::GetPosVelAccSd => r == Ok::<Reply, Error>(
            Reply::ThreePoses(decoded_at(bytes, 0), decoded_at(bytes, 6), decoded_at(bytes, 12)),
        ),
        Command::GetConfig => r matches Ok(Reply::Config(config)) && config@ == bytes[0],
        Command::GetLinearScalar | Command::GetAngularScalar => r == Ok::<Reply, Error>(
            Reply::Scalar(signed_byte(bytes[0])),
        ),
        _ => r == Ok::<Reply, Error>(Reply::Done),
    }
}

/// Where command `c` goes on after step `i` went through and its last read
/// gave `bytes`: the step to perform next, or none when it is finished.
/// The calibration polls again while its register is not zero.
pub open spec fn resume(c: Command, i: nat, bytes: Seq<u8>) -> Option<nat> {
    if c is CalibrateImu && i == 2 && bytes[0] != 0 {
        Some(1)
    } else if i + 1 < plan(c).len() {
        Some(i + 1)
    } else {
        None
    }
}

/// `e` is a possible outcome of step `s`.
pub open spec fn answers(e: Event, s: Step) -> bool {
    match s {
        Step::WaitForData => e is DataReady || e is PinFailed,
        Step::ReadRegs { len, .. } => (e matches Event::Received(v) && v@.len() == len)
            || e is BusFailed,
        Step::WriteReg { .. } | Step::WriteRegs { .. } => e is Sent || e is BusFailed,
    }
}

/// The bytes that a successful outcome brings: what was read, or nothing.
pub open spec fn received(e: Event) -> Seq<u8> {
    match e {
        Event::Received(v) => v@,
        _ => Seq::empty(),
    }
}

/// Action `a` performs step `s` of command `c`.
pub open spec fn performs(a: Action, c: Command, s: Step) -> bool {
    match s {
        Step::WaitForData => a is WaitForData,
        Step::ReadRegs { reg, len } => a == Action::ReadRegs { reg, len },
        Step::WriteReg { reg, value } => a == Action::WriteReg { reg, value },
        Step::WriteRegs { reg } => a matches Action::WriteRegs { reg: r, data } && r == reg
            && data@ == payload(c),
    }
}

/// The exec form of [`plan`].
fn plan_of(c: &Command) -> (p: Vec<Step>)
    ensures
        p@ == plan(*c),
{
    let pose = |reg: u8, count: usize| -> (p: Vec<Step>)
        requires
            count <= 3,
        ensures
            p@ == pose_read(reg, count),
        {
            let p = vec![Step::WaitForData, Step::ReadRegs { reg, len: 6 * count }];
            assert(p@ =~= pose_read(reg, count));
            p
        };
    let p = match *c {
        Command::Init => vec![Step::ReadRegs { reg: Register::PRODUCT_ID, len: 1 }],
        Command::GetVersion => vec![Step::ReadRegs { reg: Register::HW_VERSION, len: 2 }],
        Command::GetPos => pose(Register::POS, 1),
        Command::GetVel => pose(Register::VEL, 1),
        Command::GetAcc => pose(Register::ACCEL, 1),
        Command::GetPosVel => pose(Register::POS, 2),
        Command::GetPosVelAcc => pose(Register::POS, 3),
        Command::GetPosSd => pose(Register::POS_SD, 1),
        Command::GetVelSd => pose(Register::VEL_SD, 1),
        Command::GetAccSd => pose(Register::ACCEL_SD, 1),
        Command::GetPosVelSd => pose(Register::POS_SD, 2),
        Command::GetPosVelAccSd => pose(Register::POS_SD, 3),
        Command::SetPos(_) => vec![Step::WriteRegs { reg: Register::POS }],
        Command::SetVel(_) => vec![Step::WriteRegs { reg: Register::VEL }],
        Command::SetAcc(_) => vec![Step::WriteRegs { reg: Register::ACCEL }],
        Command::SetPosVelAcc(_, _, _) => vec![Step::WriteRegs { reg: Register::POS }],
        Command::SetPosSd(_) => vec![Step::WriteRegs { reg: Register::POS_SD }],
        Command::SetVelSd(_) => vec![Step::WriteRegs { reg: Register::VEL_SD }],
        Command::SetAccSd(_) => vec![Step::WriteRegs { reg: Register::ACCEL_SD }],
        Command::SetPosVelAccSd(_, _, _) => vec![Step::WriteRegs { reg: Register::POS_SD }],
        Command::GetOffsets => pose(Register::OFFSETS, 1),
        Command::SetOffset(_) => vec![Step::WriteRegs { reg: Register::OFFSETS }],
        Command::CalibrateImu(n) => vec![
            Step::WriteReg { reg: Register::IMU_CALIB, value: n },
            Step::WaitForData,
            Step::ReadRegs { reg: Register::IMU_CALIB, len: 1 },
        ],
        Command::ResetTracking => vec![
            Step::WriteReg { reg: Register::RESET, value: 0x01 },
            Step::WaitForData,
            Step::ReadRegs { reg: Register::POS, len: 6 },
        ],
        Command::GetConfig => vec![Step::ReadRegs { reg: Register::SIGNAL_PROCESS, len: 1 }],
        Command::SetConfig(config) => vec![
            Step::WriteReg { reg: Register::SIGNAL_PROCESS, value: config.into_bits() },
        ],
        Command::GetLinearScalar => vec![Step::ReadRegs { reg: Register::SCALAR_LINEAR, len: 1 }],
        Command::SetLinearScalar(v) => vec![
            Step::WriteReg { reg: Register::SCALAR_LINEAR, value: to_register_byte(v) },
        ],
        Command::GetAngularScalar => vec![
            Step::ReadRegs { reg: Register::SCALAR_ANGULAR, len: 1 },
        ],
        Command::SetAngularScalar(v) => vec![
            Step::WriteReg { reg: Register::SCALAR_ANGULAR, value: to_register_byte(v) },
        ],
    };
    assert(p@ =~= plan(*c));
    p
}

/// The two's complement byte of a signed register value.
pub fn to_register_byte(v: i8) -> (b: u8)
    ensures
        b == register_byte(v),
{
    if v < 0 {
        (v as i16 + 256) as u8
    } else {
        v as u8
    }
}

/// The signed value of a register byte.
pub fn from_register_byte(b: u8) -> (v: i8)
    ensures
        v == signed_byte(b),
{
    if b < 128 {
        b as i8
    } else {
        (b as i16 - 256) as i8
    }
}

/// The exec form of [`payload`].
fn payload_of(c: &Command) -> (data: Vec<u8>)
    ensures
        data@ == payload(*c),
{
    let mut data: Vec<u8> = Vec::new();
    match *c {
        Command::SetPos(p) | Command::SetVel(p) | Command::SetAcc(p) | Command::SetPosSd(p)
        | Command::SetVelSd(p) | Command::SetAccSd(p) | Command::SetOffset(p) => {
            p.encode_into(&mut data);
        },
        Command::SetPosVelAcc(a, b, d) | Command::SetPosVelAccSd(a, b, d) => {
            a.encode_into(&mut data);
            b.encode_into(&mut data);
            d.encode_into(&mut data);
        },
        _ => {},
    }
    assert(data@ =~= payload(*c));
    data
}

/// The action that performs step `s` of command `c`.
fn action_for(c: &Command, s: Step) -> (a: Action)
    ensures
        performs(a, *c, s),
{
    match s {
        Step::WaitForData => Action::WaitForData,
        Step::ReadRegs { reg, len } => Action::ReadRegs { reg, len },
        Step::WriteReg { reg, value } => Action::WriteReg { reg, value },
        Step::WriteRegs { reg } => Action::WriteRegs { reg, data: payload_of(c) },
    }
}

/// The result of command `c` whose last read gave `bytes`.
fn reply_for(c: &Command, bytes: &Vec<u8>) -> (r: Result<Reply, Error>)
    requires
        plan(*c).last() matches Step::ReadRegs { len, .. } ==> bytes@.len() == len,
    ensures
        replies(*c, bytes@, r),
{
    match *c {
        Command::Init => {
            if bytes[0] == PRODUCT_ID {
                Ok(Reply::Done)
            } else {
                Err(Error::IncorrectProductID)
            }
        },
        Command::GetVersion => Ok(
            Reply::Versions(
                Versions { hw: Version::from_bits(bytes[0]), fw: Version::from_bits(bytes[1]) },
            ),
        ),
        Command::GetPos | Command::GetVel | Command::GetAcc | Command::GetPosSd
        | Command::GetVelSd | Command::GetAccSd | Command::GetOffsets => {
            Ok(Reply::Pose(RawPose::parse_at(bytes.as_slice(), 0)))
        },
        Command::GetPosVel | Command::GetPosVelSd => {
            let first = RawPose::parse_at(bytes.as_slice(), 0);
            let second = RawPose::parse_at(bytes.as_slice(), 6);
            Ok(Reply::TwoPoses(first, second))
        },
        Command::GetPosVelAcc | Command::GetPosVelAccSd => {
            let first = RawPose::parse_at(bytes.as_slice(), 0);
            let second = RawPose::parse_at(bytes.as_slice(), 6);
            let third = RawPose::parse_at(bytes.as_slice(), 12);
            Ok(Reply::ThreePoses(first, second, third))
        },
        Command::GetConfig => Ok(Reply::Config(SignalProcessConfig::from_bits(bytes[0]))),
        Command::GetLinearScalar | Command::GetAngularScalar => Ok(
            Reply::Scalar(from_register_byte(bytes[0])),
        ),
        _ => Ok(Reply::Done),
    }
}

/// An operation under way: the command, and the step of its plan that is
/// being performed, until it is finished.
pub struct Exchange {
    command: Command,
    at: usize,
    done: bool,
}

impl Exchange {
    #[verifier::type_invariant]
    spec fn wf(self) -> bool {
        !self.done ==> self.at < plan(self.command).len()
    }

    /// The operation that this exchange performs.
    pub closed spec fn command(self) -> Command {
        self.command
    }

    /// The index in the plan of the step being performed.
    pub closed spec fn position(self) -> nat {
        self.at as nat
    }

    /// The operation has finished.
    pub closed spec fn is_done(self) -> bool {
        self.done
    }

    /// The step being performed.
    pub open spec fn pending(self) -> Step {
        plan(self.command())[self.position() as int]
    }

    /// `e` is an outcome that this exchange waits for.
    pub open spec fn awaits(self, e: Event) -> bool {
        !self.is_done() && answers(e, self.pending())
    }

    /// Starts command `c`: the exchange, and the action that performs the
    /// first step of its plan.
    pub fn start(c: Command) -> (r: (Exchange, Action))
        ensures
            r.0.command() == c,
            r.0.position() == 0,
            !r.0.is_done(),
            0 < plan(c).len(),
            performs(r.1, c, plan(c)[0]),
    {
        let p = plan_of(&c);
        let first = p[0];
        (Exchange { command: c, at: 0, done: false }, action_for(&c, first))
    }

    /// The operation has finished.
    pub fn finished(&self) -> (b: bool)
        ensures
            b == self.is_done(),
    {
        self.done
    }

    /// Whether `e` is an outcome that this exchange waits for.
    pub fn accepts(&self, e: &Event) -> (b: bool)
        ensures
            b == self.awaits(*e),
    {
        proof {
            use_type_invariant(self);
        }
        if self.done {
            return false;
        }
        let p = plan_of(&self.command);
        match p[self.at] {
            Step::WaitForData => match e {
                Event::DataReady | Event::PinFailed => true,
                _ => false,
            },
            Step::ReadRegs { len, .. } => match e {
                Event::Received(v) => v.len() == len,
                Event::BusFailed => true,
                _ => false,
            },
            Step::WriteReg { .. } | Step::WriteRegs { .. } => match e {
                Event::Sent | Event::BusFailed => true,
                _ => false,
            },
        }
    }

    /// Hands back the outcome of the pending step and gives the next action.
    /// A failed pin wait ends the operation with [`Error::PinError`], a bus
    /// error with [`Error::I2cError`]. Otherwise the plan goes on, or the
    /// operation finishes with its result.
    pub fn step(&mut self, e: Event) -> (a: Action)
        requires
            old(self).awaits(e),
        ensures
            final(self).command() == old(self).command(),
            e is PinFailed ==> final(self).is_done() && a == Action::Finish(
                Err(Error::PinError),
            ),
            e is BusFailed ==> final(self).is_done() && a == Action::Finish(
                Err(Error::I2cError),
            ),
            !(e is PinFailed || e is BusFailed) ==> match resume(
                old(self).command(),
                old(self).position(),
                received(e),
            ) {
                Some(n) => {
                    &&& !final(self).is_done()
                    &&& final(self).position() == n
                    &&& performs(a, old(self).command(), plan(old(self).command())[n as int])
                },
                None => {
                    &&& final(self).is_done()
                    &&& a matches Action::Finish(r) && replies(
                        old(self).command(),
                        received(e),
                        r,
                    )
                },
            },
    {
        proof {
            use_type_invariant(&*self);
        }
        let c = self.command;
        let at = self.at;
        let bytes: Vec<u8> = match e {
            Event::PinFailed => {
                *self = Exchange { command: c, at, done: true };
                return Action::Finish(Err(Error::PinError));
            },
            Event::BusFailed => {
                *self = Exchange { command: c, at, done: true };
                return Action::Finish(Err(Error::I2cError));
            },
            Event::Received(v) => v,
            Event::DataReady | Event::Sent => Vec::new(),
        };
        assert(bytes@ == received(e));
        let p = plan_of(&c);
        let again = match c {
            Command::CalibrateImu(_) => at == 2 && bytes[0] != 0,
            _ => false,
        };
        if again {
            *self = Exchange { command: c, at: 1, done: false };
            action_for(&c, p[1])
        } else if at + 1 < p.len() {
            *self = Exchange { command: c, at: at + 1, done: false };
            action_for(&c, p[at + 1])
        } else {
            *self = Exchange { command: c, at, done: true };
            Action::Finish(reply_for(&c, &bytes))
        }
    }
}


/// The setter that writes the registers that `get` reads, with pose `p`.
pub open spec fn pose_setter(get: Command, p: RawPose) -> Option<Command> {
    match get {
        Command::GetPos => Some(Command::SetPos(p)),
        Command::GetVel => Some(Command::SetVel(p)),
        Command::GetAcc => Some(Command::SetAcc(p)),
        Command::GetPosSd => Some(Command::SetPosSd(p)),
        Command::GetVelSd => Some(Command::SetVelSd(p)),
        Command::GetAccSd => Some(Command::SetAccSd(p)),
        Command::GetOffsets => Some(Command::SetOffset(p)),
        _ => None,
    }
}

/// Every read of pose registers, and only those are six bytes or a multiple
/// of them, waits for the data ready interrupt just before.
pub proof fn lemma_pose_reads_wait_first(c: Command, i: int)
    requires
        0 <= i < plan(c).len(),
        plan(c)[i] matches Step::ReadRegs { len, .. } && len % 6 == 0,
    ensures
        i > 0,
        plan(c)[i - 1] == Step::WaitForData,
{
}

/// A pose written by a setter is read back by its getter: both use the same
/// registers, the getter reads as many bytes as the setter writes, and the
/// bytes written are read as the pose.
pub proof fn lemma_pose_read_back(get: Command, p: RawPose)
    requires
        pose_setter(get, p) is Some,
    ensures
        ({
            let set = pose_setter(get, p)->Some_0;
            &&& plan(set) == seq![Step::WriteRegs { reg: plan(get)[1]->ReadRegs_reg }]
            &&& plan(get)[1]->ReadRegs_len == payload(set).len()
            &&& replies(get, payload(set), Ok(Reply::Pose(p)))
        }),
{
    crate::driver::codec::lemma_pose_round_trip(p);
}

/// Three poses written at once are read back at once, from the same
/// registers.
pub proof fn lemma_poses_read_back(a: RawPose, b: RawPose, d: RawPose)
    ensures
        plan(Command::SetPosVelAcc(a, b, d)) == seq![
            Step::WriteRegs { reg: plan(Command::GetPosVelAcc)[1]->ReadRegs_reg },
        ],
        plan(Command::SetPosVelAccSd(a, b, d)) == seq![
            Step::WriteRegs { reg: plan(Command::GetPosVelAccSd)[1]->ReadRegs_reg },
        ],
        plan(Command::GetPosVelAcc)[1]->ReadRegs_len == payload(Command::SetPosVelAcc(a, b, d)).len(),
        replies(
            Command::GetPosVelAcc,
            payload(Command::SetPosVelAcc(a, b, d)),
            Ok(Reply::ThreePoses(a, b, d)),
        ),
        replies(
            Command::GetPosVelAccSd,
            payload(Command::SetPosVelAccSd(a, b, d)),
            Ok(Reply::ThreePoses(a, b, d)),
        ),
{
    crate::driver::codec::lemma_packed_poses(a, b, d);
}

/// A config written is read back from the same register.
pub proof fn lemma_config_read_back(config: SignalProcessConfig, r: Result<Reply, Error>)
    ensures
        plan(Command::SetConfig(config)) == seq![
            Step::WriteReg { reg: Register::SIGNAL_PROCESS, value: config@ },
        ],
        plan(Command::GetConfig) == seq![Step::ReadRegs { reg: Register::SIGNAL_PROCESS, len: 1 }],
        replies(Command::GetConfig, seq![config@], r) ==> (r matches Ok(Reply::Config(c))
            && c@ == config@),
{
}

/// A scalar register value written is read back as the same value.
pub proof fn lemma_scalar_read_back(v: i8)
    ensures
        signed_byte(register_byte(v)) == v,
        plan(Command::SetLinearScalar(v)) == seq![
            Step::WriteReg { reg: Register::SCALAR_LINEAR, value: register_byte(v) },
        ],
        plan(Command::GetLinearScalar) == seq![
            Step::ReadRegs { reg: Register::SCALAR_LINEAR, len: 1 },
        ],
        plan(Command::SetAngularScalar(v)) == seq![
            Step::WriteReg { reg: Register::SCALAR_ANGULAR, value: register_byte(v) },
        ],
        plan(Command::GetAngularScalar) == seq![
            Step::ReadRegs { reg: Register::SCALAR_ANGULAR, len: 1 },
        ],
        replies(Command::GetLinearScalar, seq![register_byte(v)], Ok(Reply::Scalar(v))),
        replies(Command::GetAngularScalar, seq![register_byte(v)], Ok(Reply::Scalar(v))),
{
}

/// Every command but the calibration moves strictly forward through a plan
/// of at most three steps, so it finishes after at most three outcomes.
/// The calibration finishes exactly when its register reads zero.
pub proof fn lemma_progress(c: Command, i: nat, bytes: Seq<u8>)
    ensures
        1 <= plan(c).len() <= 3,
        !(c is CalibrateImu) ==> match resume(c, i, bytes) {
            Some(n) => n == i + 1 && n < plan(c).len(),
            None => i + 1 >= plan(c).len(),
        },
        c is CalibrateImu && i == 2 ==> (resume(c, i, bytes) is None <==> bytes[0] == 0),
        c is CalibrateImu && i < 2 ==> resume(c, i, bytes) == Some(i + 1),
{
}

/// What a pose register block holds, and so in which units its counts are.
#[derive(Clone, Copy, Debug, PartialEq, Eq, Structural)]
pub enum Quantity {
    /// Position (meters, radians); also its standard deviation and the offset.
    Position,
    /// Velocity (meters and radians per second); also its standard deviation.
    Velocity,
    /// Acceleration (meters and radians per second squared); also its
    /// standard deviation.
    Acceleration,
}

/// The quantity of the pose register block that starts at `reg`, if one
/// does.
pub open spec fn register_quantity(reg: int) -> Option<Quantity> {
    if reg == Register::POS || reg == Register::POS_SD || reg == Register::OFFSETS {
        Some(Quantity::Position)
    } else if reg == Register::VEL || reg == Register::VEL_SD {
        Some(Quantity::Velocity)
    } else if reg == Register::ACCEL || reg == Register::ACCEL_SD {
        Some(Quantity::Acceleration)
    } else {
        None
    }
}

/// The first register and the number of poses that a command reads or
/// writes, for the commands that hand poses over.
pub open spec fn pose_block(c: Command) -> Option<(u8, nat)> {
    match c {
        Command::GetPos | Command::GetVel | Command::GetAcc | Command::GetPosSd | Command::GetVelSd
        | Command::GetAccSd | Command::GetOffsets | Command::GetPosVel | Command::GetPosVelSd
        | Command::GetPosVelAcc | Command::GetPosVelAccSd => match plan(c)[1] {
            Step::ReadRegs { reg, len } => Some((reg, (len / 6) as nat)),
            _ => None,
        },
        Command::SetPos(_) | Command::SetVel(_) | Command::SetAcc(_) | Command::SetPosSd(_)
        | Command::SetVelSd(_) | Command::SetAccSd(_) | Command::SetOffset(_) => match plan(c)[0] {
            Step::WriteRegs { reg } => Some((reg, 1)),
            _ => None,
        },
        Command::SetPosVelAcc(_, _, _) | Command::SetPosVelAccSd(_, _, _) => match plan(c)[0] {
            Step::WriteRegs { reg } => Some((reg, 3)),
            _ => None,
        },
        _ => None,
    }
}

/// The quantity of the pose in place `slot` of what command `c` reads or
/// writes: that of the register block where the pose lies.
pub open spec fn slot_quantity(c: Command, slot: nat) -> Option<Quantity> {
    match pose_block(c) {
        Some((reg, count)) => if slot < count {
            register_quantity(reg + 6 * slot)
        } else {
            None
        },
        None => None,
    }
}

/// The quantity of the pose register block that starts at `reg`, if one
/// does.
pub fn quantity_of_register(reg: u8) -> (q: Option<Quantity>)
    ensures
        q == register_quantity(reg as int),
{
    if reg == Register::POS || reg == Register::POS_SD || reg == Register::OFFSETS {
        Some(Quantity::Position)
    } else if reg == Register::VEL || reg == Register::VEL_SD {
        Some(Quantity::Velocity)
    } else if reg == Register::ACCEL || reg == Register::ACCEL_SD {
        Some(Quantity::Acceleration)
    } else {
        None
    }
}

/// The quantity of the pose in place `slot` of what command `c` reads or
/// writes, and so the units of its counts; none where the command hands
/// over no pose there.
pub fn pose_quantity(c: &Command, slot: usize) -> (q: Option<Quantity>)
    ensures
        q == slot_quantity(*c, slot as nat),
{
    let p = plan_of(c);
    let block: Option<(u8, usize)> = match *c {
        Command::GetPos | Command::GetVel | Command::GetAcc | Command::GetPosSd
        | Command::GetVelSd | Command::GetAccSd | Command::GetOffsets | Command::GetPosVel
        | Command::GetPosVelSd | Command::GetPosVelAcc | Command::GetPosVelAccSd => match p[1] {
            Step::ReadRegs { reg, len } => Some((reg, len / 6)),
            _ => None,
        },
        Command::SetPos(_) | Command::SetVel(_) | Command::SetAcc(_) | Command::SetPosSd(_)
        | Command::SetVelSd(_) | Command::SetAccSd(_) | Command::SetOffset(_) => match p[0] {
            Step::WriteRegs { reg } => Some((reg, 1)),
            _ => None,
        },
        Command::SetPosVelAcc(_, _, _) | Command::SetPosVelAccSd(_, _, _) => match p[0] {
            Step::WriteRegs { reg } => Some((reg, 3)),
            _ => None,
        },
        _ => None,
    };
    match block {
        Some((reg, count)) => {
            if slot < count {
                let at: u64 = reg as u64 + 6 * (slot as u64);
                if at <= 0xFF {
                    quantity_of_register(at as u8)
                } else {
                    None
                }
            } else {
                None
            }
        },
        None => None,
    }
}

/// Each pose that a command hands over is in the units of its own
/// quantity: the combined reads and writes give position, then velocity,
/// then acceleration, as their register blocks lie one after another; the
/// standard deviations are in the units of what they are the deviation of,
/// and the offset is a position.
pub proof fn lemma_pose_quantities(p: RawPose, a: RawPose, b: RawPose, d: RawPose)
    ensures
        slot_quantity(Command::GetPos, 0) == Some(Quantity::Position),
        slot_quantity(Command::GetVel, 0) == Some(Quantity::Velocity),
        slot_quantity(Command::GetAcc, 0) == Some(Quantity::Acceleration),
        slot_quantity(Command::GetPosSd, 0) == Some(Quantity::Position),
        slot_quantity(Command::GetVelSd, 0) == Some(Quantity::Velocity),
        slot_quantity(Command::GetAccSd, 0) == Some(Quantity::Acceleration),
        slot_quantity(Command::GetOffsets, 0) == Some(Quantity::Position),
        slot_quantity(Command::GetPosVel, 0) == Some(Quantity::Position),
        slot_quantity(Command::GetPosVel, 1) == Some(Quantity::Velocity),
        slot_quantity(Command::GetPosVelSd, 0) == Some(Quantity::Position),
        slot_quantity(Command::GetPosVelSd, 1) == Some(Quantity::Velocity),
        slot_quantity(Command::GetPosVelAcc, 0) == Some(Quantity::Position),
        slot_quantity(Command::GetPosVelAcc, 1) == Some(Quantity::Velocity),
        slot_quantity(Command::GetPosVelAcc, 2) == Some(Quantity::Acceleration),
        slot_quantity(Command::GetPosVelAccSd, 0) == Some(Quantity::Position),
        slot_quantity(Command::GetPosVelAccSd, 1) == Some(Quantity::Velocity),
        slot_quantity(Command::GetPosVelAccSd, 2) == Some(Quantity::Acceleration),
        slot_quantity(Command::SetPos(p), 0) == Some(Quantity::Position),
        slot_quantity(Command::SetVel(p), 0) == Some(Quantity::Velocity),
        slot_quantity(Command::SetAcc(p), 0) == Some(Quantity::Acceleration),
        slot_quantity(Command::SetPosSd(p), 0) == Some(Quantity::Position),
        slot_quantity(Command::SetVelSd(p), 0) == Some(Quantity::Velocity),
        slot_quantity(Command::SetAccSd(p), 0) == Some(Quantity::Acceleration),
        slot_quantity(Command::SetOffset(p), 0) == Some(Quantity::Position),
        slot_quantity(Command::SetPosVelAcc(a, b, d), 0) == Some(Quantity::Position),
        slot_quantity(Command::SetPosVelAcc(a, b, d), 1) == Some(Quantity::Velocity),
        slot_quantity(Command::SetPosVelAcc(a, b, d), 2) == Some(Quantity::Acceleration),
        slot_quantity(Command::SetPosVelAccSd(a, b, d), 0) == Some(Quantity::Position),
        slot_quantity(Command::SetPosVelAccSd(a, b, d), 1) == Some(Quantity::Velocity),
        slot_quantity(Command::SetPosVelAccSd(a, b, d), 2) == Some(Quantity::Acceleration),
{
}

/// Two poses read at once are read back from their places: the first from
/// the first six bytes, the second from the next six, for the plain reads
/// and for the standard deviations alike; and nothing else is read back.
pub proof fn lemma_two_poses_read_back(a: RawPose, b: RawPose, r: Result<Reply, Error>)
    ensures
        replies(Command::GetPosVel, encoded(a) + encoded(b), Ok(Reply::TwoPoses(a, b))),
        replies(Command::GetPosVelSd, encoded(a) + encoded(b), Ok(Reply::TwoPoses(a, b))),
        replies(Command::GetPosVel, encoded(a) + encoded(b), r) ==> r == Ok::<Reply, Error>(
            Reply::TwoPoses(a, b),
        ),
        replies(Command::GetPosVelSd, encoded(a) + encoded(b), r) ==> r == Ok::<Reply, Error>(
            Reply::TwoPoses(a, b),
        ),
        plan(Command::GetPosVel) == seq![
            Step::WaitForData,
            Step::ReadRegs { reg: Register::POS, len: 12 },
        ],
        plan(Command::GetPosVelSd) == seq![
            Step::WaitForData,
            Step::ReadRegs { reg: Register::POS_SD, len: 12 },
        ],
{
    crate::driver::codec::lemma_packed_poses(a, b, a);
    let s2 = encoded(a) + encoded(b);
    let s3 = encoded(a) + encoded(b) + encoded(a);
    assert(s2 =~= s3.subrange(0, 12));
    assert(decoded_at(s2, 0) == decoded_at(s3, 0));
    assert(decoded_at(s2, 6) == decoded_at(s3, 6));
}

/// The pose at `start` of a read is the pose that a read of those six bytes
/// alone gives.
pub proof fn lemma_decoded_at_block(bytes: Seq<u8>, start: int)
    requires
        0 <= start,
        start + 6 <= bytes.len(),
    ensures
        decoded_at(bytes, start) == decoded(bytes.subrange(start, start + 6)),
{
}

/// Reading several poses at once gives what reading each of their register
/// blocks alone gives: position and velocity (and acceleration) of a
/// combined read are those of the single reads of the same bytes, and so
/// for the standard deviations.
pub proof fn lemma_combined_reads_split(bytes: Seq<u8>, x: RawPose, y: RawPose, z: RawPose)
    requires
        bytes.len() == 18,
    ensures
        replies(Command::GetPosVel, bytes.subrange(0, 12), Ok(Reply::TwoPoses(x, y))) <==> (
        replies(Command::GetPos, bytes.subrange(0, 6), Ok(Reply::Pose(x))) && replies(
            Command::GetVel,
            bytes.subrange(6, 12),
            Ok(Reply::Pose(y)),
        )),
        replies(Command::GetPosVelSd, bytes.subrange(0, 12), Ok(Reply::TwoPoses(x, y))) <==> (
        replies(Command::GetPosSd, bytes.subrange(0, 6), Ok(Reply::Pose(x))) && replies(
            Command::GetVelSd,
            bytes.subrange(6, 12),
            Ok(Reply::Pose(y)),
        )),
        replies(Command::GetPosVelAcc, bytes, Ok(Reply::ThreePoses(x, y, z))) <==> (replies(
            Command::GetPos,
            bytes.subrange(0, 6),
            Ok(Reply::Pose(x)),
        ) && replies(Command::GetVel, bytes.subrange(6, 12), Ok(Reply::Pose(y))) && replies(
            Command::GetAcc,
            bytes.subrange(12, 18),
            Ok(Reply::Pose(z)),
        )),
        replies(Command::GetPosVelAccSd, bytes, Ok(Reply::ThreePoses(x, y, z))) <==> (replies(
            Command::GetPosSd,
            bytes.subrange(0, 6),
            Ok(Reply::Pose(x)),
        ) && replies(Command::GetVelSd, bytes.subrange(6, 12), Ok(Reply::Pose(y))) && replies(
            Command::GetAccSd,
            bytes.subrange(12, 18),
            Ok(Reply::Pose(z)),
        )),
        plan(Command::GetPosVel)[1]->ReadRegs_reg + 6 == plan(Command::GetVel)[1]->ReadRegs_reg,
        plan(Command::GetPosVelAcc)[1]->ReadRegs_reg + 12 == plan(Command::GetAcc)[1]->ReadRegs_reg,
        plan(Command::GetPosVelSd)[1]->ReadRegs_reg + 6 == plan(Command::GetVelSd)[1]->ReadRegs_reg,
        plan(Command::GetPosVelAccSd)[1]->ReadRegs_reg + 12
            == plan(Command::GetAccSd)[1]->ReadRegs_reg,
{
    let b12 = bytes.subrange(0, 12);
    lemma_decoded_at_block(bytes, 0);
    lemma_decoded_at_block(bytes, 6);
    lemma_decoded_at_block(bytes, 12);
    lemma_decoded_at_block(b12, 0);
    lemma_decoded_at_block(b12, 6);
    assert(b12.subrange(0, 6) =~= bytes.subrange(0, 6));
    assert(b12.subrange(6, 12) =~= bytes.subrange(6, 12));
}

/// The calibration writes exactly the sample count asked for into the IMU
/// calibration register, then waits for data and polls that same register,
/// one byte at a time.
pub proof fn lemma_calibration_plan(n: u8)
    ensures
        plan(Command::CalibrateImu(n)).len() == 3,
        plan(Command::CalibrateImu(n))[0] == (Step::WriteReg { reg: Register::IMU_CALIB, value: n }),
        plan(Command::CalibrateImu(n))[1] == Step::WaitForData,
        plan(Command::CalibrateImu(n))[2] == (Step::ReadRegs { reg: Register::IMU_CALIB, len: 1 }),
        forall|m: u8|
            #![trigger plan(Command::CalibrateImu(m))]
            m != n ==> plan(Command::CalibrateImu(m))[0] != plan(Command::CalibrateImu(n))[0],
{
}

/// Resetting the tracking writes 1 into the reset register and then does
/// exactly what a position read does, whose pose it drops.
pub proof fn lemma_reset_tracking_plan(bytes: Seq<u8>, r: Result<Reply, Error>)
    ensures
        plan(Command::ResetTracking)[0] == (Step::WriteReg { reg: Register::RESET, value: 1 }),
        plan(Command::ResetTracking).subrange(1, 3) == plan(Command::GetPos),
        replies(Command::ResetTracking, bytes, r) ==> r == Ok::<Reply, Error>(Reply::Done),
{
    assert(plan(Command::ResetTracking).subrange(1, 3) =~= plan(Command::GetPos));
}

/// Initialisation reads the product id register alone and succeeds exactly
/// when it holds the product id; any other byte is an incorrect product.
pub proof fn lemma_init_checks_product_id(b: u8, r: Result<Reply, Error>)
    ensures
        plan(Command::Init) == seq![Step::ReadRegs { reg: Register::PRODUCT_ID, len: 1 }],
        replies(Command::Init, seq![b], r) ==> (r == Ok::<Reply, Error>(Reply::Done) <==> b
            == PRODUCT_ID),
        replies(Command::Init, seq![b], r) ==> (r is Ok || r == Err::<Reply, Error>(
            Error::IncorrectProductID,
        )),
        replies(Command::Init, seq![PRODUCT_ID], Ok(Reply::Done)),
        b != PRODUCT_ID ==> replies(Command::Init, seq![b], Err(Error::IncorrectProductID)),
{
}

/// A command that reads nothing back succeeds once its writes went through:
/// whatever it writes, its result is plain success.
pub proof fn lemma_writes_succeed(c: Command, bytes: Seq<u8>, r: Result<Reply, Error>)
    requires
        forall|i: int| 0 <= i < plan(c).len() ==> !(#[trigger] plan(c)[i] is ReadRegs),
    ensures
        replies(c, bytes, r) ==> r == Ok::<Reply, Error>(Reply::Done),
{
    match c {
        Command::Init | Command::GetVersion | Command::GetConfig | Command::GetLinearScalar
        | Command::GetAngularScalar => {
            assert(plan(c)[0] is ReadRegs);
        },
        Command::GetPos | Command::GetVel | Command::GetAcc | Command::GetPosVel
        | Command::GetPosVelAcc | Command::GetPosSd | Command::GetVelSd | Command::GetAccSd
        | Command::GetPosVelSd | Command::GetPosVelAccSd | Command::GetOffsets => {
            assert(plan(c)[1] is ReadRegs);
        },
        _ => {},
    }
}

/// Every setter succeeds once its write went through, for every value it
/// writes: poses, three poses, config and scalar offsets alike; and so do
/// the calibration once it ends and the reset of the tracking.
pub proof fn lemma_setters_succeed(
    p: RawPose,
    a: RawPose,
    b: RawPose,
    d: RawPose,
    config: SignalProcessConfig,
    v: i8,
    n: u8,
    bytes: Seq<u8>,
    r: Result<Reply, Error>,
)
    ensures
        replies(Command::SetPos(p), bytes, r) ==> r == Ok::<Reply, Error>(Reply::Done),
        replies(Command::SetVel(p), bytes, r) ==> r == Ok::<Reply, Error>(Reply::Done),
        replies(Command::SetAcc(p), bytes, r) ==> r == Ok::<Reply, Error>(Reply::Done),
        replies(Command::SetPosSd(p), bytes, r) ==> r == Ok::<Reply, Error>(Reply::Done),
        replies(Command::SetVelSd(p), bytes, r) ==> r == Ok::<Reply, Error>(Reply::Done),
        replies(Command::SetAccSd(p), bytes, r) ==> r == Ok::<Reply, Error>(Reply::Done),
        replies(Command::SetOffset(p), bytes, r) ==> r == Ok::<Reply, Error>(Reply::Done),
        replies(Command::SetPosVelAcc(a, b, d), bytes, r) ==> r == Ok::<Reply, Error>(Reply::Done),
        replies(Command::SetPosVelAccSd(a, b, d), bytes, r) ==> r == Ok::<Reply, Error>(
            Reply::Done,
        ),
        replies(Command::SetConfig(config), bytes, r) ==> r == Ok::<Reply, Error>(Reply::Done),
        replies(Command::SetLinearScalar(v), bytes, r) ==> r == Ok::<Reply, Error>(Reply::Done),
        replies(Command::SetAngularScalar(v), bytes, r) ==> r == Ok::<Reply, Error>(Reply::Done),
        replies(Command::CalibrateImu(n), bytes, r) ==> r == Ok::<Reply, Error>(Reply::Done),
        replies(Command::ResetTracking, bytes, r) ==> r == Ok::<Reply, Error>(Reply::Done),
{
}

/// Each pose setter writes exactly its pose's six bytes into the registers
/// that the matching getter reads; the combined setters write the three
/// poses' bytes one after another, position first.
pub proof fn lemma_setter_payloads(p: RawPose, a: RawPose, b: RawPose, d: RawPose)
    ensures
        payload(Command::SetPos(p)) == encoded(p),
        payload(Command::SetVel(p)) == encoded(p),
        payload(Command::SetAcc(p)) == encoded(p),
        payload(Command::SetPosSd(p)) == encoded(p),
        payload(Command::SetVelSd(p)) == encoded(p),
        payload(Command::SetAccSd(p)) == encoded(p),
        payload(Command::SetOffset(p)) == encoded(p),
        payload(Command::SetPosVelAcc(a, b, d)).subrange(0, 6) == encoded(a),
        payload(Command::SetPosVelAcc(a, b, d)).subrange(6, 12) == encoded(b),
        payload(Command::SetPosVelAcc(a, b, d)).subrange(12, 18) == encoded(d),
        payload(Command::SetPosVelAcc(a, b, d)).len() == 18,
        payload(Command::SetPosVelAccSd(a, b, d)) == payload(Command::SetPosVelAcc(a, b, d)),
{
    let s = payload(Command::SetPosVelAcc(a, b, d));
    assert(s.subrange(0, 6) =~= encoded(a));
    assert(s.subrange(6, 12) =~= encoded(b));
    assert(s.subrange(12, 18) =~= encoded(d));
}

/// The versions are read from the hardware version register and the one
/// after it, the firmware version: the first byte read is the hardware
/// version, the second the firmware version.
pub proof fn lemma_versions_read(h: u8, f: u8, r: Result<Reply, Error>)
    ensures
        plan(Command::GetVersion) == seq![Step::ReadRegs { reg: Register::HW_VERSION, len: 2 }],
        Register::FW_VERSION == Register::HW_VERSION + 1,
        replies(Command::GetVersion, seq![h, f], r) ==> (r matches Ok(Reply::Versions(v)) && v.hw@
            == h && v.fw@ == f),
{
}

/// A scalar register byte and its signed value are the same number modulo
/// 256, the signed value lying in -128..=127.
pub proof fn lemma_register_byte_is_twos_complement(v: i8, b: u8)
    ensures
        (register_byte(v) as int - v as int) % 256 == 0,
        (b as int - signed_byte(b) as int) % 256 == 0,
        -128 <= signed_byte(b) <= 127,
        register_byte(signed_byte(b)) == b,
{
}

} // verus!
