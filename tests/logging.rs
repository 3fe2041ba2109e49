use physis_capi::logging::{line_for_host, msg_type_for_level, LogLevel, QtMsgType};

#[test]
fn levels_map_to_host_kinds() {
    assert_eq!(msg_type_for_level(LogLevel::Error), QtMsgType::Critical);
    assert_eq!(msg_type_for_level(LogLevel::Warn), QtMsgType::Warning);
    assert_eq!(msg_type_for_level(LogLevel::Info), QtMsgType::Info);
    assert_eq!(msg_type_for_level(LogLevel::Debug), QtMsgType::Debug);
    assert_eq!(msg_type_for_level(LogLevel::Trace), QtMsgType::Debug);
}

#[test]
fn host_codes_are_fixed() {
    assert_eq!(QtMsgType::Debug.code(), 0);
    assert_eq!(QtMsgType::Warning.code(), 1);
    assert_eq!(QtMsgType::Critical.code(), 2);
    assert_eq!(QtMsgType::Fatal.code(), 3);
    assert_eq!(QtMsgType::Info.code(), 4);
}

#[test]
fn missing_line_is_minus_one() {
    assert_eq!(line_for_host(None), -1);
    assert_eq!(line_for_host(Some(42)), 42);
    assert_eq!(line_for_host(Some(u32::MAX)), -1);
    assert_eq!(line_for_host(Some(0x8000_0000)), i32::MIN);
}
