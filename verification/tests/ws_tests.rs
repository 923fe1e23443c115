use blaulicht::signals::{FromFrontend, SystemMessage};
use blaulicht::ws::{
    WSFromFrontend, WSFromFrontendKind, WSSystemMessage, WSSystemMessageKind, WsValue,
};

#[test]
fn audio_selection_decodes_name_or_none() {
    let none = FromFrontend::from(WSFromFrontend {
        kind: WSFromFrontendKind::SelectAudioDevice,
        value: WsValue::Null,
    });
    assert_eq!(none, FromFrontend::SelectInputDevice(None));
    let some = FromFrontend::from(WSFromFrontend {
        kind: WSFromFrontendKind::SelectAudioDevice,
        value: WsValue::Text(String::from("mic")),
    });
    assert_eq!(some, FromFrontend::SelectInputDevice(Some(String::from("mic"))));
}

#[test]
fn serial_selection_decodes_name_or_none() {
    let none = FromFrontend::from(WSFromFrontend {
        kind: WSFromFrontendKind::SelectSerialDevice,
        value: WsValue::Null,
    });
    assert_eq!(none, FromFrontend::SelectSerialDevice(None));
    let some = FromFrontend::from(WSFromFrontend {
        kind: WSFromFrontendKind::SelectSerialDevice,
        value: WsValue::Text(String::from("ttyUSB0")),
    });
    assert_eq!(
        some,
        FromFrontend::SelectSerialDevice(Some(String::from("ttyUSB0")))
    );
}

#[test]
fn loop_speed_flattens_to_micros() {
    let r = WSSystemMessage::from(SystemMessage::LoopSpeed(1234));
    assert_eq!(
        r,
        WSSystemMessage { kind: WSSystemMessageKind::LoopSpeed, value: WsValue::Uint(1234) }
    );
}

#[test]
fn log_flattens_to_text() {
    let r = WSSystemMessage::from(SystemMessage::Log(String::from("hello")));
    assert_eq!(r.kind, WSSystemMessageKind::LoopSpeed);
    assert_eq!(r.value, WsValue::Text(String::from("hello")));
}

#[test]
fn audio_selection_notice_flattens_to_name_or_null() {
    let some = WSSystemMessage::from(SystemMessage::AudioSelected(Some(String::from("mic"))));
    assert_eq!(some.kind, WSSystemMessageKind::AudioDevicesView);
    assert_eq!(some.value, WsValue::Text(String::from("mic")));
    let none = WSSystemMessage::from(SystemMessage::AudioSelected(None));
    assert_eq!(none.value, WsValue::Null);
}

#[test]
fn device_lists_flatten_to_text_lists() {
    let audio = WSSystemMessage::from(SystemMessage::AudioDevicesView(vec![
        String::from("a"),
        String::from("b"),
    ]));
    assert_eq!(audio.kind, WSSystemMessageKind::AudioDevicesView);
    assert_eq!(
        audio.value,
        WsValue::TextList(vec![String::from("a"), String::from("b")])
    );
    let serial = WSSystemMessage::from(SystemMessage::SerialDevicesView(vec![String::from(
        "ttyUSB0",
    )]));
    assert_eq!(serial.kind, WSSystemMessageKind::AudioDevicesView);
    assert_eq!(serial.value, WsValue::TextList(vec![String::from("ttyUSB0")]));
}

#[test]
fn serial_selection_notice_keeps_its_kind() {
    let r = WSSystemMessage::from(SystemMessage::SerialSelected(Some(String::from("ttyUSB0"))));
    assert_eq!(r.kind, WSSystemMessageKind::SerialSelected);
    assert_eq!(r.value, WsValue::Text(String::from("ttyUSB0")));
}
