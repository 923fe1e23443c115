//! The dashboard bridge's message shapes: what an operator request looks
//! like on the socket, and how pipeline telemetry is flattened for it.
//!
//! Payloads are modeled as plain values (`WsValue`); the embedding program
//! owns the actual JSON encoding on the socket.

use vstd::prelude::*;

use crate::signals::{FromFrontend, SystemMessage};

verus! {

/// What an operator request on the socket asks for.
#[derive(Clone, Copy, Debug, PartialEq, Eq, Structural)]
pub enum WSFromFrontendKind {
    SelectAudioDevice,
    SelectSerialDevice,
}

/// A socket payload, as plain values: the shapes the bridge uses.
#[derive(Clone, Debug, PartialEq, Eq)]
pub enum WsValue {
    Null,
    Text(String),
    Uint(u64),
    TextList(Vec<String>),
}

/// An operator request as it arrives on the socket: a kind and a payload.
#[derive(Clone, Debug, PartialEq, Eq)]
pub struct WSFromFrontend {
    pub kind: WSFromFrontendKind,
    pub value: WsValue,
}

/// The kind tag of an outbound telemetry message.
#[derive(Clone, Copy, Debug, PartialEq, Eq, Structural)]
pub enum WSSystemMessageKind {
    Heartbeat,
    Log,
    LoopSpeed,
    AudioSelected,
    AudioDevicesView,
    SerialSelected,
    SerialDevicesView,
    Dmx,
}

/// An outbound telemetry message: a kind and a payload.
#[derive(Clone, Debug, PartialEq, Eq)]
pub struct WSSystemMessage {
    pub kind: WSSystemMessageKind,
    pub value: WsValue,
}

/// The abstract value of a socket payload.
#[verifier::ext_equal]
pub ghost enum WsValueModel {
    Null,
    Text(Seq<char>),
    Uint(u64),
    TextList(Seq<Seq<char>>),
}

impl View for WsValue {
    type V = WsValueModel;

    open spec fn view(&self) -> WsValueModel {
        match self {
            WsValue::Null => WsValueModel::Null,
            WsValue::Text(s) => WsValueModel::Text(s@),
            WsValue::Uint(n) => WsValueModel::Uint(*n),
            WsValue::TextList(l) => WsValueModel::TextList(l.deep_view()),
        }
    }
}

/// A request payload the bridge accepts: nothing, or one name.
pub open spec fn ws_value_selectable(v: WsValueModel) -> bool {
    v is Null || v is Text
}

/// What an inbound request means: an audio kind selects an input device by
/// name (or none), a serial kind selects a port by name (or none).
pub open spec fn from_ws_spec(kind: WSFromFrontendKind, value: WsValueModel) -> RequestShape {
    match kind {
        WSFromFrontendKind::SelectAudioDevice => match value {
            WsValueModel::Text(name) => RequestShape::Input(Some(name)),
            _ => RequestShape::Input(None),
        },
        WSFromFrontendKind::SelectSerialDevice => match value {
            WsValueModel::Text(name) => RequestShape::Serial(Some(name)),
            _ => RequestShape::Serial(None),
        },
    }
}

/// The abstract value of an operator request.
#[verifier::ext_equal]
pub ghost enum RequestShape {
    Input(Option<Seq<char>>),
    Serial(Option<Seq<char>>),
}

/// The view of a `FromFrontend` request.
pub open spec fn from_frontend_view(r: FromFrontend) -> RequestShape {
    match r {
        FromFrontend::SelectInputDevice(d) => RequestShape::Input(
            match d {
                Some(s) => Some(s@),
                None => None,
            },
        ),
        FromFrontend::SelectSerialDevice(p) => RequestShape::Serial(
            match p {
                Some(s) => Some(s@),
                None => None,
            },
        ),
    }
}

impl FromFrontend {
    /// Decode an operator request from its socket shape. A selection payload
    /// is nothing or one name; other shapes do not arrive.
    pub fn from(value: WSFromFrontend) -> (r: FromFrontend)
        requires
            ws_value_selectable(value.value@),
        ensures
            from_frontend_view(r) == from_ws_spec(value.kind, value.value@),
    {
        match value.kind {
            WSFromFrontendKind::SelectAudioDevice => match value.value {
                WsValue::Text(name) => FromFrontend::SelectInputDevice(Some(name)),
                _ => FromFrontend::SelectInputDevice(None),
            },
            WSFromFrontendKind::SelectSerialDevice => match value.value {
                WsValue::Text(name) => FromFrontend::SelectSerialDevice(Some(name)),
                _ => FromFrontend::SelectSerialDevice(None),
            },
        }
    }
}

/// How pipeline telemetry is flattened for the socket: each variant becomes
/// a kind tag and a plain payload.
pub open spec fn ws_message_ok(m: SystemMessage, r: WSSystemMessage) -> bool {
    match m {
        SystemMessage::Log(s) => r.kind == WSSystemMessageKind::LoopSpeed && r.value@
            == WsValueModel::Text(s@),
        SystemMessage::LoopSpeed(us) => r.kind == WSSystemMessageKind::LoopSpeed && r.value@
            == WsValueModel::Uint(us),
        SystemMessage::AudioSelected(d) => r.kind == WSSystemMessageKind::AudioDevicesView
            && r.value@ == (match d {
            Some(name) => WsValueModel::Text(name@),
            None => WsValueModel::Null,
        }),
        SystemMessage::AudioDevicesView(devs) => r.kind == WSSystemMessageKind::AudioDevicesView
            && r.value@ == WsValueModel::TextList(devs.deep_view()),
        SystemMessage::SerialSelected(p) => r.kind == WSSystemMessageKind::SerialSelected
            && r.value@ == (match p {
            Some(name) => WsValueModel::Text(name@),
            None => WsValueModel::Null,
        }),
        SystemMessage::SerialDevicesView(devs) => r.kind == WSSystemMessageKind::AudioDevicesView
            && r.value@ == WsValueModel::TextList(devs.deep_view()),
    }
}

impl WSSystemMessage {
    /// Flatten one telemetry message for the socket.
    pub fn from(value: SystemMessage) -> (r: WSSystemMessage)
        ensures
            ws_message_ok(value, r),
    {
        match value {
            SystemMessage::Log(msg) => WSSystemMessage {
                kind: WSSystemMessageKind::LoopSpeed,
                value: WsValue::Text(msg),
            },
            SystemMessage::LoopSpeed(us) => WSSystemMessage {
                kind: WSSystemMessageKind::LoopSpeed,
                value: WsValue::Uint(us),
            },
            SystemMessage::AudioSelected(device) => WSSystemMessage {
                kind: WSSystemMessageKind::AudioDevicesView,
                value: match device {
                    Some(name) => WsValue::Text(name),
                    None => WsValue::Null,
                },
            },
            SystemMessage::AudioDevicesView(devs) => WSSystemMessage {
                kind: WSSystemMessageKind::AudioDevicesView,
                value: WsValue::TextList(devs),
            },
            SystemMessage::SerialSelected(port) => WSSystemMessage {
                kind: WSSystemMessageKind::SerialSelected,
                value: match port {
                    Some(name) => WsValue::Text(name),
                    None => WsValue::Null,
                },
            },
            SystemMessage::SerialDevicesView(devs) => WSSystemMessage {
                kind: WSSystemMessageKind::AudioDevicesView,
                value: WsValue::TextList(devs),
            },
        }
    }
}

} // verus!
