use rover::luna::{
    get_proximity, read_request, reboot, set_fps, set_interval, set_mode, word_from, write_byte,
    write_u16, LunaError, Mode, Register, Signature, Version, ADDRESS, MAX_PROXIMITY_MM,
};

#[test]
fn signature_luna_is_valid() {
    assert!(Signature(b'L', b'U', b'N', b'A').is_valid());
    assert!(Signature::from_bytes(*b"LUNA").is_valid());
    assert_eq!(Signature::from_bytes(*b"LUNA").check(), Ok(()));
}

#[test]
fn any_other_signature_is_invalid() {
    for bytes in [*b"luna", *b"LUNB", *b"XUNA", *b"LXNA", *b"LUXA", *b"ANUL", [0, 0, 0, 0]] {
        let signature = Signature::from_bytes(bytes);
        assert_eq!(signature, Signature(bytes[0], bytes[1], bytes[2], bytes[3]));
        assert!(!signature.is_valid());
        assert_eq!(signature.check(), Err(LunaError::InvalidSignature));
    }
}

#[test]
fn version_bytes_come_revision_first() {
    let version = Version::from_bytes([7, 2, 3]);
    assert_eq!(version, Version { major: 3, minor: 2, revision: 7 });
}

#[test]
fn register_addresses() {
    assert_eq!(ADDRESS, 0x10);
    assert_eq!(Register::DistLow.address(), 0x00);
    assert_eq!(Register::DistHigh.address(), 0x01);
    assert_eq!(Register::VersionRevision.address(), 0x0a);
    assert_eq!(Register::SerialNumber.address(), 0x10);
    assert_eq!(Register::UltraLowPower.address(), 0x1f);
    assert_eq!(Register::Reboot.address(), 0x21);
    assert_eq!(Register::Mode.address(), 0x23);
    assert_eq!(Register::FpsLow.address(), 0x26);
    assert_eq!(Register::MaxDistHigh.address(), 0x31);
    assert_eq!(Register::Signature.address(), 0x3c);
}

#[test]
fn mode_codes() {
    assert_eq!(Mode::Continous.code(), 0);
    assert_eq!(Mode::Trigger.code(), 1);
    assert_eq!(Mode::from_code(0), Ok(Mode::Continous));
    assert_eq!(Mode::from_code(1), Ok(Mode::Trigger));
    assert_eq!(Mode::from_code(2), Err(LunaError::InvalidMode(2)));
    assert_eq!(Mode::from_code(255), Err(LunaError::InvalidMode(255)));
}

#[test]
fn words_are_low_byte_first() {
    assert_eq!(word_from([0x34, 0x12]), 0x1234);
    assert_eq!(word_from([0xff, 0x00]), 255);
    assert_eq!(word_from([0x00, 0x01]), 256);
    assert_eq!(word_from([0xff, 0xff]), 65535);
    assert_eq!(word_from([0, 0]), 0);
}

#[test]
fn frames_on_the_bus() {
    assert_eq!(read_request(Register::Signature), [0x3c]);
    assert_eq!(write_byte(Register::Enable, 1), [0x25, 1]);
    assert_eq!(write_u16(Register::FpsLow, 0x1234), [0x26, 0x34, 0x12]);
    assert_eq!(write_u16(Register::MinDistLow, 0xffff), [0x2e, 0xff, 0xff]);
    assert_eq!(set_mode(Mode::Trigger), [0x23, 0x01]);
    assert_eq!(set_mode(Mode::Continous), [0x23, 0x00]);
    assert_eq!(reboot(), [0x21, 0x02]);
    assert_eq!(set_fps(2), [0x26, 2, 0]);
    assert_eq!(set_fps(1000), [0x26, 0xe8, 0x03]);
}

#[test]
fn written_words_read_back() {
    for value in [0u16, 1, 255, 256, 999, 40_000, 65_535] {
        let frame = write_u16(Register::FpsLow, value);
        assert_eq!(word_from([frame[1], frame[2]]), value);
    }
}

#[test]
fn interval_gives_whole_frames_per_second() {
    assert_eq!(set_interval(500), Ok(2));
    assert_eq!(set_interval(25), Ok(40));
    assert_eq!(set_interval(10), Ok(100));
    assert_eq!(set_interval(1000), Ok(1));
    assert_eq!(set_interval(300), Ok(3));
    assert_eq!(set_interval(501), Ok(1));
}

#[test]
fn interval_out_of_range_is_refused() {
    assert_eq!(set_interval(9), Err(LunaError::InvalidInterval(9)));
    assert_eq!(set_interval(0), Err(LunaError::InvalidInterval(0)));
    assert_eq!(set_interval(1001), Err(LunaError::InvalidInterval(1001)));
    assert_eq!(set_interval(u128::MAX), Err(LunaError::InvalidInterval(u128::MAX)));
    assert_eq!(set_interval(65_536 + 100), Err(LunaError::InvalidInterval(65_636)));
}

#[test]
fn proximity_is_in_millimeters() {
    assert_eq!(get_proximity(0), Ok(0));
    assert_eq!(get_proximity(1), Ok(10));
    assert_eq!(get_proximity(57), Ok(570));
    assert_eq!(get_proximity(100), Ok(1000));
}

#[test]
fn proximity_beyond_one_meter_is_an_error() {
    assert_eq!(MAX_PROXIMITY_MM, 1000);
    assert_eq!(get_proximity(101), Err(LunaError::InvalidDistance(101)));
    assert_eq!(get_proximity(123), Err(LunaError::InvalidDistance(123)));
    assert_eq!(get_proximity(500), Err(LunaError::InvalidDistance(500)));
    assert_eq!(get_proximity(1000), Err(LunaError::InvalidDistance(1000)));
    assert_eq!(get_proximity(65_535), Err(LunaError::InvalidDistance(65_535)));
}

#[test]
fn proximity_is_never_clamped() {
    for cm in 0..=u16::MAX {
        match get_proximity(cm) {
            Ok(mm) => {
                assert!(mm <= 1000);
                assert_eq!(mm as u32, cm as u32 * 10);
            }
            Err(error) => {
                assert!(cm as u32 * 10 > 1000);
                assert_eq!(error, LunaError::InvalidDistance(cm));
            }
        }
    }
}
