//! Protocol core of the single-beam proximity sensor: its register map, the
//! bytes that go over the bus and what the bytes that come back mean.

use vstd::prelude::*;

verus! {

/// Bus address of the sensor.
pub const ADDRESS: u8 = 0x10;

/// Shortest sampling interval the sensor takes, in milliseconds.
pub const MIN_INTERVAL_MS: u128 = 10;

/// Longest sampling interval the sensor takes, in milliseconds.
pub const MAX_INTERVAL_MS: u128 = 1000;

/// Greatest proximity, in mm, that counts as a measurement.
pub const MAX_PROXIMITY_MM: u16 = 1000;

/// Value written to the reboot register.
pub const REBOOT: u8 = 0x02;

/// The registers of the sensor.
#[derive(Clone, Copy, Debug, PartialEq, Eq, Structural)]
pub enum Register {
    DistLow,
    DistHigh,
    AmpLow,
    AmpHigh,
    TempLow,
    TempHigh,
    TickLow,
    TickHigh,
    ErrorLow,
    ErrorHigh,
    VersionRevision,
    VersionMinor,
    VersionMajor,
    SerialNumber,
    UltraLowPower,
    Save,
    Reboot,
    SlaveAddr,
    Mode,
    TrigOneShot,
    Enable,
    FpsLow,
    FpsHigh,
    LowPower,
    RestoreFactory,
    AmpThrLow,
    AmpThrHigh,
    DummyDistLow,
    DummyDistHigh,
    MinDistLow,
    MinDistHigh,
    MaxDistLow,
    MaxDistHigh,
    Signature,
}

impl Register {
    /// The address of the register.
    pub open spec fn at(self) -> u8 {
        match self {
            Register::DistLow => 0x00,
            Register::DistHigh => 0x01,
            Register::AmpLow => 0x02,
            Register::AmpHigh => 0x03,
            Register::TempLow => 0x04,
            Register::TempHigh => 0x05,
            Register::TickLow => 0x06,
            Register::TickHigh => 0x07,
            Register::ErrorLow => 0x08,
            Register::ErrorHigh => 0x09,
            Register::VersionRevision => 0x0a,
            Register::VersionMinor => 0x0b,
            Register::VersionMajor => 0x0c,
            Register::SerialNumber => 0x10,
            Register::UltraLowPower => 0x1f,
            Register::Save => 0x20,
            Register::Reboot => 0x21,
            Register::SlaveAddr => 0x22,
            Register::Mode => 0x23,
            Register::TrigOneShot => 0x24,
            Register::Enable => 0x25,
            Register::FpsLow => 0x26,
            Register::FpsHigh => 0x27,
            Register::LowPower => 0x28,
            Register::RestoreFactory => 0x29,
            Register::AmpThrLow => 0x2a,
            Register::AmpThrHigh => 0x2b,
            Register::DummyDistLow => 0x2c,
            Register::DummyDistHigh => 0x2d,
            Register::MinDistLow => 0x2e,
            Register::MinDistHigh => 0x2f,
            Register::MaxDistLow => 0x30,
            Register::MaxDistHigh => 0x31,
            Register::Signature => 0x3c,
        }
    }

    /// The address of the register.
    pub fn address(&self) -> (address: u8)
        ensures
            address == self.at(),
    {
        match self {
            Register::DistLow => 0x00,
            Register::DistHigh => 0x01,
            Register::AmpLow => 0x02,
            Register::AmpHigh => 0x03,
            Register::TempLow => 0x04,
            Register::TempHigh => 0x05,
            Register::TickLow => 0x06,
            Register::TickHigh => 0x07,
            Register::ErrorLow => 0x08,
            Register::ErrorHigh => 0x09,
            Register::VersionRevision => 0x0a,
            Register::VersionMinor => 0x0b,
            Register::VersionMajor => 0x0c,
            Register::SerialNumber => 0x10,
            Register::UltraLowPower => 0x1f,
            Register::Save => 0x20,
            Register::Reboot => 0x21,
            Register::SlaveAddr => 0x22,
            Register::Mode => 0x23,
            Register::TrigOneShot => 0x24,
            Register::Enable => 0x25,
            Register::FpsLow => 0x26,
            Register::FpsHigh => 0x27,
            Register::LowPower => 0x28,
            Register::RestoreFactory => 0x29,
            Register::AmpThrLow => 0x2a,
            Register::AmpThrHigh => 0x2b,
            Register::DummyDistLow => 0x2c,
            Register::DummyDistHigh => 0x2d,
            Register::MinDistLow => 0x2e,
            Register::MinDistHigh => 0x2f,
            Register::MaxDistLow => 0x30,
            Register::MaxDistHigh => 0x31,
            Register::Signature => 0x3c,
        }
    }
}

/// Driver errors that the protocol itself gives rise to.
#[derive(Clone, Copy, Debug, PartialEq, Eq, Structural)]
pub enum LunaError {
    /// The device does not identify as the expected sensor.
    InvalidSignature,
    /// The device reports an operating mode that does not exist.
    InvalidMode(u8),
    /// The sampling interval, in milliseconds, is out of range.
    InvalidInterval(u128),
    /// The device reports a distance, in cm, that is out of range.
    InvalidDistance(u16),
}

/// Operating mode of the sensor.
#[derive(Clone, Copy, Debug, PartialEq, Eq, Structural)]
pub enum Mode {
    Continous,
    Trigger,
}

impl Mode {
    /// The value of the mode register that stands for the mode.
    pub open spec fn value(self) -> u8 {
        match self {
            Mode::Continous => 0x00,
            Mode::Trigger => 0x01,
        }
    }

    /// The value of the mode register that stands for the mode.
    pub fn code(&self) -> (code: u8)
        ensures
            code == self.value(),
    {
        match self {
            Mode::Continous => 0x00,
            Mode::Trigger => 0x01,
        }
    }

    /// The mode that a value of the mode register stands for.
    pub fn from_code(code: u8) -> (mode: Result<Mode, LunaError>)
        ensures
            match mode {
                Ok(found) => found.value() == code,
                Err(error) => code > 1 && error == LunaError::InvalidMode(code),
            },
    {
        if code == 0x00 {
            Ok(Mode::Continous)
        } else if code == 0x01 {
            Ok(Mode::Trigger)
        } else {
            Err(LunaError::InvalidMode(code))
        }
    }
}

/// The four identification bytes read from the sensor.
#[derive(Clone, Copy, Debug, PartialEq, Eq, Structural)]
pub struct Signature(pub u8, pub u8, pub u8, pub u8);

impl Signature {
    /// The bytes the genuine device reports: the ASCII letters `LUNA`.
    pub open spec fn genuine(self) -> bool {
        self.0 == 0x4c && self.1 == 0x55 && self.2 == 0x4e && self.3 == 0x41
    }

    /// The signature in the bytes of the signature register.
    pub fn from_bytes(bytes: [u8; 4]) -> (signature: Signature)
        ensures
            signature == Signature(bytes@[0], bytes@[1], bytes@[2], bytes@[3]),
    {
        Signature(bytes[0], bytes[1], bytes[2], bytes[3])
    }

    /// Whether the signature is that of the expected device.
    pub fn is_valid(&self) -> (ok: bool)
        ensures
            ok == self.genuine(),
    {
        self.0 == 0x4c && self.1 == 0x55 && self.2 == 0x4e && self.3 == 0x41
    }

    /// Accepts the expected device and refuses every other.
    pub fn check(&self) -> (outcome: Result<(), LunaError>)
        ensures
            outcome is Ok <==> self.genuine(),
            outcome matches Err(error) ==> error == LunaError::InvalidSignature,
    {
        if self.is_valid() {
            Ok(())
        } else {
            Err(LunaError::InvalidSignature)
        }
    }
}

/// Firmware version of the sensor.
#[derive(Clone, Copy, Debug, PartialEq, Eq, Structural)]
pub struct Version {
    pub major: u8,
    pub minor: u8,
    pub revision: u8,
}

impl Version {
    /// The version in the three bytes read from the revision register on:
    /// revision, minor, major.
    pub fn from_bytes(bytes: [u8; 3]) -> (version: Version)
        ensures
            version == (Version { major: bytes@[2], minor: bytes@[1], revision: bytes@[0] }),
    {
        Version { major: bytes[2], minor: bytes[1], revision: bytes[0] }
    }
}

/// The 16-bit word in two bytes, low byte first.
pub open spec fn word(low: u8, high: u8) -> int {
    low + 256 * high
}

/// Reads a 16-bit register pair from its two bytes, low byte first. This is
/// how the distance, in cm, and the frame rate come over the bus.
pub fn word_from(bytes: [u8; 2]) -> (value: u16)
    ensures
        value == word(bytes@[0], bytes@[1]),
{
    (bytes[1] as u16) * 256 + (bytes[0] as u16)
}

/// The bytes that ask for a register: its address.
pub fn read_request(register: Register) -> (frame: [u8; 1])
    ensures
        frame@ =~= seq![register.at()],
{
    [register.address()]
}

/// The bytes that write one byte to a register.
pub fn write_byte(register: Register, value: u8) -> (frame: [u8; 2])
    ensures
        frame@ =~= seq![register.at(), value],
{
    [register.address(), value]
}

/// The bytes that write a 16-bit word to a register pair, low byte first.
pub fn write_u16(register: Register, value: u16) -> (frame: [u8; 3])
    ensures
        frame@ =~= seq![register.at(), (value % 256) as u8, (value / 256) as u8],
        word(frame@[1], frame@[2]) == value,
{
    [register.address(), (value % 256) as u8, (value / 256) as u8]
}

/// The bytes that set the operating mode.
pub fn set_mode(mode: Mode) -> (frame: [u8; 2])
    ensures
        frame@ =~= seq![Register::Mode.at(), mode.value()],
{
    write_byte(Register::Mode, mode.code())
}

/// The bytes that reboot the sensor.
pub fn reboot() -> (frame: [u8; 2])
    ensures
        frame@ =~= seq![Register::Reboot.at(), REBOOT],
{
    write_byte(Register::Reboot, REBOOT)
}

/// The bytes that set the frame rate to `fps` measurements per second.
pub fn set_fps(fps: u16) -> (frame: [u8; 3])
    ensures
        frame@[0] == Register::FpsLow.at(),
        word(frame@[1], frame@[2]) == fps,
{
    write_u16(Register::FpsLow, fps)
}

/// Whether the sensor takes a sampling interval of this many milliseconds.
pub open spec fn interval_ok(milliseconds: u128) -> bool {
    MIN_INTERVAL_MS <= milliseconds <= MAX_INTERVAL_MS
}

/// The frame rate that gives one measurement every `milliseconds`: the
/// whole measurements per second. An interval outside of 10 to 1000 ms is
/// refused.
pub fn set_interval(milliseconds: u128) -> (fps: Result<u16, LunaError>)
    ensures
        match fps {
            Ok(rate) => interval_ok(milliseconds) && rate == 1000int / (milliseconds as int),
            Err(error) => !interval_ok(milliseconds) && error == LunaError::InvalidInterval(
                milliseconds,
            ),
        },
{
    if milliseconds < MIN_INTERVAL_MS || milliseconds > MAX_INTERVAL_MS {
        return Err(LunaError::InvalidInterval(milliseconds));
    }
    Ok(1000u16 / (milliseconds as u16))
}

/// The proximity in mm that a distance of `cm` stands for: ten times the
/// distance. A proximity above 1000 mm is an error, not a measurement, and
/// is never clamped.
pub fn get_proximity(cm: u16) -> (mm: Result<u16, LunaError>)
    ensures
        match mm {
            Ok(proximity) => cm * 10 <= MAX_PROXIMITY_MM && proximity == cm * 10,
            Err(error) => cm * 10 > MAX_PROXIMITY_MM && error == LunaError::InvalidDistance(cm),
        },
{
    if cm > MAX_PROXIMITY_MM / 10 {
        return Err(LunaError::InvalidDistance(cm));
    }
    Ok(cm * 10)
}

} // verus!
