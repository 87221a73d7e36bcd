//! The command catalogue: the logical commands a caller may issue and
//! their translation into the wire envelope (a request id, the fixed
//! request type, a service URI, and an optional payload).

use vstd::prelude::*;

verus! {

/// A logical remote-control command.
pub enum Command {
    CreateToast(String),
    OpenBrowser(String),
    TurnOff,
    SetChannel(String),
    SetInput(String),
    SetMute(bool),
    SetVolume(i8),
    GetChannelList,
    GetCurrentChannel,
    OpenChannel(String),
    GetExternalInputList,
    SwitchInput(String),
    IsMuted,
    GetVolume,
    PlayMedia,
    StopMedia,
    PauseMedia,
    RewindMedia,
    ForwardMedia,
    ChannelUp,
    ChannelDown,
    Turn3DOn,
    Turn3DOff,
    GetServicesList,
}

/// The payload of a request envelope: one named argument, or none.
/// Each variant fixes the key under which the value is serialized.
pub enum Payload {
    /// `{"message": <text>}`
    Message(String),
    /// `{"target": <text>}`
    Target(String),
    /// `{"channelId": <text>}`
    ChannelId(String),
    /// `{"inputId": <text>}`
    InputId(String),
    /// `{"mute": <bool>}`
    Mute(bool),
    /// `{"volume": <int>}`
    Volume(i8),
}

/// An outbound request envelope, ready for serialization.
pub struct CommandRequest {
    pub id: u8,
    pub request_type: String,
    pub uri: String,
    pub payload: Option<Payload>,
}

/// The service URI that a command addresses.
pub open spec fn uri_of(cmd: Command) -> Seq<char> {
    match cmd {
        Command::CreateToast(_) => "ssap://system.notifications/createToast"@,
        Command::OpenBrowser(_) => "ssap://system.launcher/open"@,
        Command::TurnOff => "ssap://system/turnOff"@,
        Command::SetChannel(_) => "ssap://tv/openChannel"@,
        Command::SetInput(_) => "ssap://tv/switchInput"@,
        Command::SetMute(_) => "ssap://audio/setMute"@,
        Command::SetVolume(_) => "ssap://audio/setVolume"@,
        Command::GetChannelList => "ssap://tv/getChannelList"@,
        Command::GetCurrentChannel => "ssap://tv/getCurrentChannel"@,
        Command::OpenChannel(_) => "ssap://tv/openChannel"@,
        Command::GetExternalInputList => "ssap://tv/getExternalInputList"@,
        Command::SwitchInput(_) => "ssap://tv/switchInput"@,
        Command::IsMuted => "ssap://audio/getStatus"@,
        Command::GetVolume => "ssap://audio/getVolume"@,
        Command::PlayMedia => "ssap://media.controls/play"@,
        Command::StopMedia => "ssap://media.controls/stop"@,
        Command::PauseMedia => "ssap://media.controls/pause"@,
        Command::RewindMedia => "ssap://media.controls/rewind"@,
        Command::ForwardMedia => "ssap://media.controls/fastForward"@,
        Command::ChannelUp => "ssap://tv/channelUp"@,
        Command::ChannelDown => "ssap://tv/channelDown"@,
        Command::Turn3DOn => "ssap://com.webos.service.tv.display/set3DOn"@,
        Command::Turn3DOff => "ssap://com.webos.service.tv.display/set3DOff"@,
        Command::GetServicesList => "ssap://com.webos.service.update/getCurrentSWInformation"@,
    }
}

/// The payload a command carries, reusing the command's own argument.
pub open spec fn payload_of(cmd: Command) -> Option<Payload> {
    match cmd {
        Command::CreateToast(text) => Some(Payload::Message(text)),
        Command::OpenBrowser(url) => Some(Payload::Target(url)),
        Command::SetChannel(channel_id) => Some(Payload::ChannelId(channel_id)),
        Command::SetInput(input_id) => Some(Payload::InputId(input_id)),
        Command::SetMute(mute) => Some(Payload::Mute(mute)),
        Command::SetVolume(volume) => Some(Payload::Volume(volume)),
        Command::OpenChannel(channel_id) => Some(Payload::ChannelId(channel_id)),
        Command::SwitchInput(input_id) => Some(Payload::InputId(input_id)),
        _ => None,
    }
}

/// Translate a command into the request envelope carrying the given id.
/// Every command has an envelope; the URI and payload are exactly the
/// catalogue's entry for the command.
pub fn create_command(id: u8, cmd: Command) -> (r: Option<CommandRequest>)
    ensures
        r matches Some(req) && req.id == id && req.request_type@ == "request"@ && req.uri@
            == uri_of(cmd) && req.payload == payload_of(cmd),
{
    let request_type = "request".to_owned();
    match cmd {
        Command::CreateToast(text) => Some(CommandRequest {
            id,
            request_type,
            uri: "ssap://system.notifications/createToast".to_owned(),
            payload: Some(Payload::Message(text)),
        }),
        Command::OpenBrowser(url) => Some(CommandRequest {
            id,
            request_type,
            uri: "ssap://system.launcher/open".to_owned(),
            payload: Some(Payload::Target(url)),
        }),
        Command::TurnOff => Some(CommandRequest {
            id,
            request_type,
            uri: "ssap://system/turnOff".to_owned(),
            payload: None,
        }),
        Command::SetChannel(channel_id) => Some(CommandRequest {
            id,
            request_type,
            uri: "ssap://tv/openChannel".to_owned(),
            payload: Some(Payload::ChannelId(channel_id)),
        }),
        Command::SetInput(input_id) => Some(CommandRequest {
            id,
            request_type,
            uri: "ssap://tv/switchInput".to_owned(),
            payload: Some(Payload::InputId(input_id)),
        }),
        Command::SetMute(mute) => Some(CommandRequest {
            id,
            request_type,
            uri: "ssap://audio/setMute".to_owned(),
            payload: Some(Payload::Mute(mute)),
        }),
        Command::SetVolume(volume) => Some(CommandRequest {
            id,
            request_type,
            uri: "ssap://audio/setVolume".to_owned(),
            payload: Some(Payload::Volume(volume)),
        }),
        Command::GetChannelList => Some(CommandRequest {
            id,
            request_type,
            uri: "ssap://tv/getChannelList".to_owned(),
            payload: None,
        }),
        Command::GetCurrentChannel => Some(CommandRequest {
            id,
            request_type,
            uri: "ssap://tv/getCurrentChannel".to_owned(),
            payload: None,
        }),
        Command::OpenChannel(channel_id) => Some(CommandRequest {
            id,
            request_type,
            uri: "ssap://tv/openChannel".to_owned(),
            payload: Some(Payload::ChannelId(channel_id)),
        }),
        Command::GetExternalInputList => Some(CommandRequest {
            id,
            request_type,
            uri: "ssap://tv/getExternalInputList".to_owned(),
            payload: None,
        }),
        Command::SwitchInput(input_id) => Some(CommandRequest {
            id,
            request_type,
            uri: "ssap://tv/switchInput".to_owned(),
            payload: Some(Payload::InputId(input_id)),
        }),
        Command::IsMuted => Some(CommandRequest {
            id,
            request_type,
            uri: "ssap://audio/getStatus".to_owned(),
            payload: None,
        }),
        Command::GetVolume => Some(CommandRequest {
            id,
            request_type,
            uri: "ssap://audio/getVolume".to_owned(),
            payload: None,
        }),
        Command::PlayMedia => Some(CommandRequest {
            id,
            request_type,
            uri: "ssap://media.controls/play".to_owned(),
            payload: None,
        }),
        Command::StopMedia => Some(CommandRequest {
            id,
            request_type,
            uri: "ssap://media.controls/stop".to_owned(),
            payload: None,
        }),
        Command::PauseMedia => Some(CommandRequest {
            id,
            request_type,
            uri: "ssap://media.controls/pause".to_owned(),
            payload: None,
        }),
        Command::RewindMedia => Some(CommandRequest {
            id,
            request_type,
            uri: "ssap://media.controls/rewind".to_owned(),
            payload: None,
        }),
        Command::ForwardMedia => Some(CommandRequest {
            id,
            request_type,
            uri: "ssap://media.controls/fastForward".to_owned(),
            payload: None,
        }),
        Command::ChannelUp => Some(CommandRequest {
            id,
            request_type,
            uri: "ssap://tv/channelUp".to_owned(),
            payload: None,
        }),
        Command::ChannelDown => Some(CommandRequest {
            id,
            request_type,
            uri: "ssap://tv/channelDown".to_owned(),
            payload: None,
        }),
        Command::Turn3DOn => Some(CommandRequest {
            id,
            request_type,
            uri: "ssap://com.webos.service.tv.display/set3DOn".to_owned(),
            payload: None,
        }),
        Command::Turn3DOff => Some(CommandRequest {
            id,
            request_type,
            uri: "ssap://com.webos.service.tv.display/set3DOff".to_owned(),
            payload: None,
        }),
        Command::GetServicesList => Some(CommandRequest {
            id,
            request_type,
            uri: "ssap://com.webos.service.update/getCurrentSWInformation".to_owned(),
            payload: None,
        }),
    }
}

} // verus!
