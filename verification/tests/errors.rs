use wcdb::error::{
    EngineError, EngineValue, WCDBError, WCDBErrorCode, WCDBErrorKey, WCDBErrorLevel,
    WCDBExtendErrorCode, WCDBExtraInfoValue,
};

#[test]
fn decode_synthetic_engine_error() {
    // a synthetic engine record carrying Type=Busy(5), Message="locked", Tag=42
    let raw = EngineError {
        level: 5,
        code: 1,
        message: Some("locked".to_string()),
        infos: vec![
            ("Type".to_string(), EngineValue::Int(5)),
            ("Tag".to_string(), EngineValue::Int(42)),
        ],
    };
    let err = WCDBError::from(&raw);
    assert_eq!(err.code, WCDBErrorCode::Busy);
    assert_eq!(err.message.as_deref(), Some("locked"));
    assert_eq!(err.tag, Some(42));
    assert_eq!(err.level, WCDBErrorLevel::Error);
    assert!(err.extended_code.is_none());
    assert!(err.extra_info.is_empty());
}

#[test]
fn decode_recognized_keys() {
    let raw = EngineError {
        level: 4,
        code: 10,
        message: None,
        infos: vec![
            ("Path".to_string(), EngineValue::Text("/tmp/a.db".to_string())),
            ("Source".to_string(), EngineValue::Text("os".to_string())),
            ("SQL".to_string(), EngineValue::Text("select 1".to_string())),
            ("ExtCode".to_string(), EngineValue::Int(261)),
        ],
    };
    let err = WCDBError::from(&raw);
    assert_eq!(err.level, WCDBErrorLevel::Warning);
    assert_eq!(err.code, WCDBErrorCode::IOError);
    assert_eq!(err.path.as_deref(), Some("/tmp/a.db"));
    assert_eq!(err.source.as_deref(), Some("os"));
    assert_eq!(err.sql.as_deref(), Some("select 1"));
    assert_eq!(err.extended_code, Some(WCDBExtendErrorCode::BusyRecovery));
}

#[test]
fn decode_falls_back_on_unknown_numbers() {
    let raw = EngineError { level: 99, code: 77, message: None, infos: Vec::new() };
    let err = WCDBError::from(&raw);
    // unknown severity falls back to Error, unknown code to OK
    assert_eq!(err.level, WCDBErrorLevel::Error);
    assert_eq!(err.code, WCDBErrorCode::OK);
    // an unknown Type number falls back to the same safe default OK, an
    // unknown ExtCode to the first extended code
    let raw = EngineError {
        level: 5,
        code: 0,
        message: None,
        infos: vec![
            ("Type".to_string(), EngineValue::Int(999)),
            ("ExtCode".to_string(), EngineValue::Int(-3)),
        ],
    };
    let err = WCDBError::from(&raw);
    assert_eq!(err.code, WCDBErrorCode::OK);
    assert_eq!(err.extended_code, Some(WCDBExtendErrorCode::ErrorMissingCollseq));
}

#[test]
fn decode_last_writer_wins() {
    let raw = EngineError {
        level: 5,
        code: 1,
        message: None,
        infos: vec![
            ("Type".to_string(), EngineValue::Int(5)),
            ("Type".to_string(), EngineValue::Int(6)),
            ("Tag".to_string(), EngineValue::Int(1)),
            ("Tag".to_string(), EngineValue::Int(2)),
        ],
    };
    let err = WCDBError::from(&raw);
    assert_eq!(err.code, WCDBErrorCode::Locked);
    assert_eq!(err.tag, Some(2));
}

#[test]
fn decode_unrecognized_keys_into_extra_info() {
    let raw = EngineError {
        level: 5,
        code: 1,
        message: None,
        infos: vec![
            ("Attempts".to_string(), EngineValue::Int(3)),
            ("Ratio".to_string(), EngineValue::Double(0x3FF0000000000000)),
            ("Hint".to_string(), EngineValue::Text("retry".to_string())),
            ("Opaque".to_string(), EngineValue::Other),
            ("Message".to_string(), EngineValue::Text("ignored".to_string())),
        ],
    };
    let err = WCDBError::from(&raw);
    assert_eq!(err.extra_info.len(), 4);
    assert_eq!(err.extra_info[0].0, "Attempts");
    assert!(matches!(err.extra_info[0].1, WCDBExtraInfoValue::Int(3)));
    assert!(matches!(err.extra_info[1].1, WCDBExtraInfoValue::Double(0x3FF0000000000000)));
    match &err.extra_info[2].1 {
        WCDBExtraInfoValue::Text(t) => assert_eq!(t, "retry"),
        other => panic!("unexpected value: {:?}", other),
    }
    match &err.extra_info[3].1 {
        WCDBExtraInfoValue::Text(t) => assert_eq!(t, "Unknown"),
        other => panic!("unexpected value: {:?}", other),
    }
    // the Message key is carried by the record itself, never by the bag
    assert_eq!(err.message, None);
}

#[test]
fn error_code_values_roundtrip() {
    assert_eq!(WCDBErrorCode::OK.value(), 0);
    assert_eq!(WCDBErrorCode::Busy.value(), 5);
    assert_eq!(WCDBErrorCode::Warning.value(), 28);
    assert_eq!(WCDBErrorCode::Row.value(), 100);
    assert_eq!(WCDBErrorCode::Done.value(), 101);
    assert_eq!(WCDBErrorCode::from_raw(5), Some(WCDBErrorCode::Busy));
    assert_eq!(WCDBErrorCode::from_raw(29), None);
    assert_eq!(WCDBErrorCode::from_raw(-1), None);
}

#[test]
fn extended_code_values_decompose() {
    // each extended code is primary | (secondary << 8)
    assert_eq!(WCDBExtendErrorCode::ErrorMissingCollseq.value(), 257);
    assert_eq!(WCDBExtendErrorCode::BusyRecovery.value(), 261);
    assert_eq!(WCDBExtendErrorCode::IOErrorRollbackAtomic.value(), 10 | (31 << 8));
    assert_eq!(WCDBExtendErrorCode::OKLoadPermanently.value(), 256);
    assert_eq!(
        WCDBExtendErrorCode::ConstraintRowID.value(),
        WCDBErrorCode::Constraint.value() | (10 << 8)
    );
    assert_eq!(WCDBExtendErrorCode::from_raw(517), Some(WCDBExtendErrorCode::BusySnapshot));
    assert_eq!(WCDBExtendErrorCode::from_raw(2), None);
}

#[test]
fn level_values_are_ordered() {
    assert_eq!(WCDBErrorLevel::Ignore.value(), 1);
    assert_eq!(WCDBErrorLevel::Debug.value(), 2);
    assert_eq!(WCDBErrorLevel::Notice.value(), 3);
    assert_eq!(WCDBErrorLevel::Warning.value(), 4);
    assert_eq!(WCDBErrorLevel::Error.value(), 5);
    assert_eq!(WCDBErrorLevel::Fatal.value(), 6);
    assert!(WCDBErrorLevel::Ignore.value() < WCDBErrorLevel::Fatal.value());
    assert_eq!(WCDBErrorLevel::from_raw(6), Some(WCDBErrorLevel::Fatal));
    assert_eq!(WCDBErrorLevel::from_raw(0), None);
}

#[test]
fn error_keys_from_names() {
    assert_eq!(WCDBErrorKey::from("Tag"), WCDBErrorKey::Tag);
    assert_eq!(WCDBErrorKey::from("Path"), WCDBErrorKey::Path);
    assert_eq!(WCDBErrorKey::from("Type"), WCDBErrorKey::Type);
    assert_eq!(WCDBErrorKey::from("Source"), WCDBErrorKey::Source);
    assert_eq!(WCDBErrorKey::from("SQL"), WCDBErrorKey::Sql);
    assert_eq!(WCDBErrorKey::from("ExtCode"), WCDBErrorKey::ExtendedCode);
    assert_eq!(WCDBErrorKey::from("Message"), WCDBErrorKey::Message);
    assert_eq!(WCDBErrorKey::from("Whatever"), WCDBErrorKey::Invalid);
}

#[test]
fn default_error_record_is_empty() {
    let err = WCDBError::default();
    assert_eq!(err.level, WCDBErrorLevel::Error);
    assert_eq!(err.code, WCDBErrorCode::OK);
    assert!(err.tag.is_none());
    assert!(err.extended_code.is_none());
    assert!(err.message.is_none());
    assert!(err.extra_info.is_empty());
}
