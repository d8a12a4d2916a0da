use sparkfun_otos::driver::protocol::{
    from_register_byte, pose_quantity, quantity_of_register, to_register_byte,
};
use sparkfun_otos::Quantity;
use sparkfun_otos::registers::Register;
use sparkfun_otos::{Action, Command, Error, Event, Exchange, RawPose, Reply, SignalProcessConfig};

/// A simulated sensor: answers each action from a script of register reads.
fn run(cmd: Command, reads: &[Vec<u8>]) -> (Vec<String>, Result<Reply, Error>) {
    let (mut ex, mut action) = Exchange::start(cmd);
    let mut log = Vec::new();
    let mut reads = reads.iter();
    loop {
        let event = match action {
            Action::WaitForData => {
                log.push("wait".to_string());
                Event::DataReady
            }
            Action::ReadRegs { reg, len } => {
                log.push(format!("read {:#04x} {}", reg, len));
                let data = reads.next().expect("script ran out").clone();
                assert_eq!(data.len(), len);
                Event::Received(data)
            }
            Action::WriteReg { reg, value } => {
                log.push(format!("write {:#04x} {:?}", reg, [value]));
                Event::Sent
            }
            Action::WriteRegs { reg, data } => {
                log.push(format!("write {:#04x} {:?}", reg, data));
                Event::Sent
            }
            Action::Finish(r) => {
                assert!(ex.finished());
                return (log, r);
            }
        };
        assert!(ex.accepts(&event));
        action = ex.step(event);
    }
}

#[test]
fn init_accepts_product_id() {
    let (log, r) = run(Command::Init, &[vec![0x5F]]);
    assert_eq!(log, vec!["read 0x00 1"]);
    assert_eq!(r, Ok(Reply::Done));
}

#[test]
fn init_rejects_other_id() {
    let (_, r) = run(Command::Init, &[vec![0x5E]]);
    assert_eq!(r, Err(Error::IncorrectProductID));
}

#[test]
fn get_version_reads_two_registers() {
    let (log, r) = run(Command::GetVersion, &[vec![0x10, 0x23]]);
    assert_eq!(log, vec!["read 0x01 2"]);
    match r {
        Ok(Reply::Versions(v)) => {
            assert_eq!(v.hw.major(), 1);
            assert_eq!(v.hw.minor(), 0);
            assert_eq!(v.fw.major(), 2);
            assert_eq!(v.fw.minor(), 3);
        }
        other => panic!("unexpected {:?}", other),
    }
}

#[test]
fn get_pos_waits_then_reads() {
    let (log, r) = run(Command::GetPos, &[vec![1, 0, 0xff, 0xff, 0, 0x80]]);
    assert_eq!(log, vec!["wait", "read 0x20 6"]);
    assert_eq!(r, Ok(Reply::Pose(RawPose::new(1, -1, i16::MIN))));
}

#[test]
fn pose_getters_use_their_registers() {
    let cases = [
        (Command::GetVel, "read 0x26 6"),
        (Command::GetAcc, "read 0x2c 6"),
        (Command::GetPosSd, "read 0x32 6"),
        (Command::GetVelSd, "read 0x38 6"),
        (Command::GetAccSd, "read 0x3e 6"),
        (Command::GetOffsets, "read 0x10 6"),
    ];
    for (cmd, line) in cases {
        let (log, r) = run(cmd, &[vec![0; 6]]);
        assert_eq!(log, vec!["wait".to_string(), line.to_string()]);
        assert_eq!(r, Ok(Reply::Pose(RawPose::new(0, 0, 0))));
    }
}

#[test]
fn get_pos_vel_reads_twelve_bytes() {
    let data: Vec<u8> = vec![1, 0, 2, 0, 3, 0, 4, 0, 5, 0, 6, 0];
    let (log, r) = run(Command::GetPosVel, &[data.clone()]);
    assert_eq!(log, vec!["wait", "read 0x20 12"]);
    assert_eq!(r, Ok(Reply::TwoPoses(RawPose::new(1, 2, 3), RawPose::new(4, 5, 6))));
    let (log, _) = run(Command::GetPosVelSd, &[data]);
    assert_eq!(log, vec!["wait", "read 0x32 12"]);
}

#[test]
fn get_pos_vel_acc_reads_eighteen_bytes() {
    let mut data = Vec::new();
    for v in 1..=9u8 {
        data.push(v);
        data.push(0);
    }
    let (log, r) = run(Command::GetPosVelAccSd, &[data]);
    assert_eq!(log, vec!["wait", "read 0x32 18"]);
    assert_eq!(
        r,
        Ok(Reply::ThreePoses(RawPose::new(1, 2, 3), RawPose::new(4, 5, 6), RawPose::new(7, 8, 9)))
    );
}

#[test]
fn set_offset_writes_encoded_pose() {
    let (log, r) = run(Command::SetOffset(RawPose::new(0, 178, 16384)), &[]);
    assert_eq!(log, vec!["write 0x10 [0, 0, 178, 0, 0, 64]"]);
    assert_eq!(r, Ok(Reply::Done));
}

#[test]
fn set_pos_vel_acc_writes_three_poses() {
    let cmd = Command::SetPosVelAcc(RawPose::new(1, 2, 3), RawPose::new(-1, 0, 0), RawPose::new(0, 0, 256));
    let (log, r) = run(cmd, &[]);
    assert_eq!(
        log,
        vec!["write 0x20 [1, 0, 2, 0, 3, 0, 255, 255, 0, 0, 0, 0, 0, 0, 0, 0, 0, 1]"]
    );
    assert_eq!(r, Ok(Reply::Done));
}

#[test]
fn written_pose_reads_back() {
    let p = RawPose::new(-300, 4000, 12);
    let (log, _) = run(Command::SetVelSd(p), &[]);
    assert_eq!(log, vec!["write 0x38 [212, 254, 160, 15, 12, 0]"]);
    let (log, r) = run(Command::GetVelSd, &[p.encode().to_vec()]);
    assert_eq!(log, vec!["wait", "read 0x38 6"]);
    assert_eq!(r, Ok(Reply::Pose(p)));
}

#[test]
fn calibrate_polls_until_zero() {
    let (log, r) = run(Command::CalibrateImu(255), &[vec![200], vec![17], vec![0]]);
    assert_eq!(
        log,
        vec![
            "write 0x06 [255]",
            "wait",
            "read 0x06 1",
            "wait",
            "read 0x06 1",
            "wait",
            "read 0x06 1",
        ]
    );
    assert_eq!(r, Ok(Reply::Done));
}

#[test]
fn reset_tracking_discards_a_pose() {
    let (log, r) = run(Command::ResetTracking, &[vec![0xbb; 6]]);
    assert_eq!(log, vec!["write 0x07 [1]", "wait", "read 0x20 6"]);
    assert_eq!(r, Ok(Reply::Done));
}

#[test]
fn config_round_trip() {
    let c = SignalProcessConfig::default().with_en_rot(false);
    let (log, r) = run(Command::SetConfig(c), &[]);
    assert_eq!(log, vec!["write 0x0e [11]"]);
    assert_eq!(r, Ok(Reply::Done));
    let (log, r) = run(Command::GetConfig, &[vec![11]]);
    assert_eq!(log, vec!["read 0x0e 1"]);
    assert_eq!(r, Ok(Reply::Config(c)));
}

#[test]
fn scalars() {
    let (log, r) = run(Command::GetLinearScalar, &[vec![0xff]]);
    assert_eq!(log, vec!["read 0x04 1"]);
    assert_eq!(r, Ok(Reply::Scalar(-1)));
    let (log, _) = run(Command::SetAngularScalar(-128), &[]);
    assert_eq!(log, vec!["write 0x05 [128]"]);
    let (log, r) = run(Command::GetAngularScalar, &[vec![127]]);
    assert_eq!(log, vec!["read 0x05 1"]);
    assert_eq!(r, Ok(Reply::Scalar(127)));
    let (log, _) = run(Command::SetLinearScalar(5), &[]);
    assert_eq!(log, vec!["write 0x04 [5]"]);
}

#[test]
fn register_bytes() {
    for v in i8::MIN..=i8::MAX {
        assert_eq!(to_register_byte(v), v as u8);
        assert_eq!(from_register_byte(v as u8), v);
    }
}

#[test]
fn pin_failure_aborts() {
    let (mut ex, a) = Exchange::start(Command::GetPos);
    assert!(matches!(a, Action::WaitForData));
    assert!(!ex.accepts(&Event::Sent));
    assert!(ex.accepts(&Event::PinFailed));
    match ex.step(Event::PinFailed) {
        Action::Finish(r) => assert_eq!(r, Err(Error::PinError)),
        other => panic!("unexpected {:?}", other),
    }
    assert!(ex.finished());
    assert!(!ex.accepts(&Event::DataReady));
}

#[test]
fn bus_failure_aborts() {
    let (mut ex, a) = Exchange::start(Command::CalibrateImu(10));
    assert!(matches!(a, Action::WriteReg { reg: 0x06, value: 10 }));
    let a = ex.step(Event::Sent);
    assert!(matches!(a, Action::WaitForData));
    let a = ex.step(Event::DataReady);
    assert!(matches!(a, Action::ReadRegs { reg: 0x06, len: 1 }));
    assert!(!ex.accepts(&Event::Received(vec![0, 0])));
    match ex.step(Event::BusFailed) {
        Action::Finish(r) => assert_eq!(r, Err(Error::I2cError)),
        other => panic!("unexpected {:?}", other),
    }
}

#[test]
fn register_constants_used_by_commands() {
    let (_, a) = Exchange::start(Command::SetAcc(RawPose::new(0, 0, 0)));
    match a {
        Action::WriteRegs { reg, data } => {
            assert_eq!(reg, Register::ACCEL);
            assert_eq!(data, vec![0; 6]);
        }
        other => panic!("unexpected {:?}", other),
    }
}

#[test]
fn pose_slots_have_their_own_quantity() {
    let z = RawPose::new(0, 0, 0);
    assert_eq!(pose_quantity(&Command::GetPosVel, 0), Some(Quantity::Position));
    assert_eq!(pose_quantity(&Command::GetPosVel, 1), Some(Quantity::Velocity));
    assert_eq!(pose_quantity(&Command::GetPosVel, 2), None);
    assert_eq!(pose_quantity(&Command::GetPosVelAccSd, 2), Some(Quantity::Acceleration));
    assert_eq!(pose_quantity(&Command::SetPosVelAcc(z, z, z), 1), Some(Quantity::Velocity));
    assert_eq!(pose_quantity(&Command::SetPosVelAcc(z, z, z), 2), Some(Quantity::Acceleration));
    assert_eq!(pose_quantity(&Command::GetAccSd, 0), Some(Quantity::Acceleration));
    assert_eq!(pose_quantity(&Command::SetVel(z), 0), Some(Quantity::Velocity));
    assert_eq!(pose_quantity(&Command::GetOffsets, 0), Some(Quantity::Position));
    assert_eq!(pose_quantity(&Command::Init, 0), None);
    assert_eq!(pose_quantity(&Command::ResetTracking, 0), None);
    assert_eq!(quantity_of_register(Register::VEL_SD), Some(Quantity::Velocity));
    assert_eq!(quantity_of_register(Register::IMU_CALIB), None);
}
