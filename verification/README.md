# sparkfun_otos

Driver logic for the SparkFun Optical Tracking Odometry Sensor (OTOS), verified
with Verus.

- `src/` is the verified library: the register map (`registers`), the
  little-endian encoding of the pose registers (`driver::codec`), the bit
  layouts of the version and signal-process registers and the driver handle
  (`driver::otos`), and the exchange that each driver operation performs on the
  bus and the data-ready pin (`driver::protocol`). Each operation is a
  `Command`; an `Exchange` says which bus action comes next and turns the
  outcomes into the operation's result. `pose_quantity` says whether each pose
  of a command is a position, a velocity or an acceleration, and so in which
  units its register counts are.
- `app/` runs those exchanges on an `embedded-hal-async` I2C bus and pin, and
  converts register counts to and from SI units in `f32` (`Pose`), including the
  `nalgebra` conversions.
- `tests/` runs the library on concrete values, including whole exchanges
  against a scripted sensor.
