use enchanting::callback::{sex_callback_payload, CallbackPart, InvalidCallbackData, SexCallbackData};

#[test]
fn callback_data_is_written_as_uid_and_sharpness() {
    let data = SexCallbackData { initiator: 123456789, sharpness: 7 };
    assert_eq!(data.to_string(), "123456789:7");
    assert_eq!(SexCallbackData::prefix(), "sex");
}

#[test]
fn callback_data_round_trip() {
    for data in [
        SexCallbackData { initiator: 0, sharpness: 0 },
        SexCallbackData { initiator: 42, sharpness: 1 },
        SexCallbackData { initiator: u64::MAX, sharpness: u16::MAX },
    ] {
        assert_eq!(SexCallbackData::try_from(data.to_string()), Ok(data));
    }
}

#[test]
fn callback_data_errors() {
    assert_eq!(
        SexCallbackData::try_from("x:1".to_string()),
        Err(InvalidCallbackData::Unparsable(CallbackPart::Uid))
    );
    assert_eq!(
        SexCallbackData::try_from("".to_string()),
        Err(InvalidCallbackData::Unparsable(CallbackPart::Uid))
    );
    assert_eq!(
        SexCallbackData::try_from("15".to_string()),
        Err(InvalidCallbackData::Missing(CallbackPart::Sharpness))
    );
    assert_eq!(
        SexCallbackData::try_from("15:70000".to_string()),
        Err(InvalidCallbackData::Unparsable(CallbackPart::Sharpness))
    );
    assert_eq!(
        SexCallbackData::try_from("15:".to_string()),
        Err(InvalidCallbackData::Unparsable(CallbackPart::Sharpness))
    );
}

#[test]
fn callback_data_ignores_further_parts() {
    assert_eq!(
        SexCallbackData::try_from("15:3:9".to_string()),
        Ok(SexCallbackData { initiator: 15, sharpness: 3 })
    );
    assert_eq!(
        SexCallbackData::try_from("+15:+3".to_string()),
        Ok(SexCallbackData { initiator: 15, sharpness: 3 })
    );
}

#[test]
fn button_prefix() {
    assert_eq!(sex_callback_payload("sex:15:3"), Some("15:3"));
    assert_eq!(sex_callback_payload("sex:"), Some(""));
    assert_eq!(sex_callback_payload("sexy:15:3"), None);
    assert_eq!(sex_callback_payload("loan:15:3"), None);
    assert_eq!(sex_callback_payload("sex"), None);
}
