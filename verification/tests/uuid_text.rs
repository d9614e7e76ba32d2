use uplift_desk::errors::{BluetoothError, DeskError};
use uplift_desk::uuid::{
    Uuid, DESK_DATA_IN_UUID_VALUE, DESK_DATA_OUT_UUID_VALUE, DESK_NAME_UUID_VALUE,
    DESK_SERVICE_UUID_VALUE,
};

#[test]
fn parse_expands_short_forms() {
    let service = Uuid::parse("ff12").unwrap();
    assert_eq!(service.value(), DESK_SERVICE_UUID_VALUE);
    assert_eq!(service, Uuid::from_short(0xff12));

    let eight = Uuid::parse("0000ff01").unwrap();
    assert_eq!(eight.value(), DESK_DATA_IN_UUID_VALUE);
}

#[test]
fn parse_accepts_full_hyphenated_forms() {
    let lower = Uuid::parse("0000ff02-0000-1000-8000-00805f9b34fb").unwrap();
    assert_eq!(lower.value(), DESK_DATA_OUT_UUID_VALUE);

    let upper = Uuid::parse("0000FF06-0000-1000-8000-00805F9B34FB").unwrap();
    assert_eq!(upper.value(), DESK_NAME_UUID_VALUE);

    let mixed = Uuid::parse("12345678-9abc-def0-1234-56789abcDEF0").unwrap();
    assert_eq!(mixed.value(), 0x12345678_9abc_def0_1234_56789abcdef0);
}

#[test]
fn parse_rejects_malformed_text() {
    assert!(Uuid::parse("").is_err());
    assert!(Uuid::parse("zzzz").is_err());
    assert!(Uuid::parse("ff1").is_err());
    assert!(Uuid::parse("0000ff12-0000-1000-8000-00805f9b34f").is_err());
    assert!(Uuid::parse("0000ff12_0000_1000_8000_00805f9b34fb").is_err());
    assert!(Uuid::parse("0000ff12-0000-1000-8000-00805f9b34fg").is_err());
}

#[test]
fn short_string_strips_the_bluetooth_base() {
    assert_eq!(Uuid::from_short(0xff12).to_short_string(), "ff12");
    assert_eq!(
        Uuid::from_value(0x12345678_0000_1000_8000_00805f9b34fb).to_short_string(),
        "12345678"
    );
    assert_eq!(
        Uuid::from_value(0x12345678_9abc_def0_1234_56789abcdef0).to_short_string(),
        "12345678-9abc-def0-1234-56789abcdef0"
    );
}

#[test]
fn parse_round_trips_the_short_string() {
    for value in [
        DESK_SERVICE_UUID_VALUE,
        DESK_DATA_IN_UUID_VALUE,
        0xdeadbeef_0000_1000_8000_00805f9b34fb,
        0x0a0b0c0d_1122_3344_5566_778899aabbcc,
    ] {
        let uuid = Uuid::from_value(value);
        let text = uuid.to_short_string();
        assert_eq!(Uuid::parse(&text).unwrap(), uuid);
    }
}

#[test]
fn bluetooth_error_keeps_its_message() {
    let error = BluetoothError::from("the adapter went away".to_string());
    assert_eq!(error.message(), "the adapter went away");

    let parse_error = Uuid::parse("not a uuid").unwrap_err();
    assert!(!parse_error.message().is_empty());
}

fn ensure_send_sync<T: Send + Sync>(_t: T) {}

#[test]
fn send_sync() {
    ensure_send_sync(DeskError::ConnectFailed { attempts: 3 });
    ensure_send_sync(BluetoothError::from("the adapter went away".to_string()));
}

#[test]
fn desk_error_descriptions_are_fixed() {
    assert!(!DeskError::AdapterUnavailable.describe().is_empty());
    assert!(!DeskError::ScanTerminated.describe().is_empty());
    assert!(!DeskError::ConnectFailed { attempts: 3 }.describe().is_empty());
    assert!(!DeskError::CharacteristicMissing.describe().is_empty());
    assert!(!DeskError::WriteFailed.describe().is_empty());
    assert!(!DeskError::Timeout.describe().is_empty());
    assert!(!DeskError::RetryExhausted { attempts: 3 }.describe().is_empty());
}
