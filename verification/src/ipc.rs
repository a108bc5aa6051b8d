//! The player's side of the conversation with mpv: how it is started, what
//! it is sent, and how its replies are read.
use vstd::prelude::*;

use crate::config::opt_string_view;
use crate::player::{MetadataUpdate, PlayerCommand};
use crate::text::{decimal_spec, owned, push_decimal, push_str};

verus! {

/// One element of an mpv IPC command array.
#[derive(Debug)]
pub enum IpcArg {
    Text(String),
    Number(u8),
}

/// The value of an IPC command element.
pub enum IpcArgV {
    Text(Seq<char>),
    Number(u8),
}

impl View for IpcArg {
    type V = IpcArgV;

    open spec fn view(&self) -> IpcArgV {
        match self {
            IpcArg::Text(s) => IpcArgV::Text(s@),
            IpcArg::Number(n) => IpcArgV::Number(*n),
        }
    }
}

/// The values of an IPC command array.
pub open spec fn ipc_args_view(s: Seq<IpcArg>) -> Seq<IpcArgV> {
    s.map_values(|a: IpcArg| a@)
}

/// The socket through which the player of process `pid` talks to mpv.
pub open spec fn ipc_socket_path_spec(pid: u32) -> Seq<char> {
    "/tmp/lofigirl_ipc_"@ + decimal_spec(pid as nat) + ".sock"@
}

/// The socket through which the player of process `pid` talks to mpv.
pub fn ipc_socket_path(pid: u32) -> (r: String)
    ensures
        r@ == ipc_socket_path_spec(pid),
{
    let mut s = owned("/tmp/lofigirl_ipc_");
    push_decimal(&mut s, pid as u128);
    push_str(&mut s, ".sock");
    s
}

/// The arguments mpv is started with to play `url`: audio only, the best
/// audio format or else the smallest stream, bounded demuxer buffers, the
/// volume, the IPC socket, quiet output, then the URL.
pub open spec fn mpv_args_spec(url: Seq<char>, volume: u8, ipc: Seq<char>) -> Seq<Seq<char>> {
    seq![
        "--no-video"@,
        "--ytdl-format=bestaudio/worst"@,
        "--demuxer-max-bytes=50MiB"@,
        "--demuxer-max-back-bytes=10MiB"@,
        "--volume="@ + decimal_spec(volume as nat),
        "--input-ipc-server="@ + ipc,
        "--quiet"@,
        url,
    ]
}

/// The arguments mpv is started with (see `mpv_args_spec`).
pub fn mpv_args(url: &str, volume: u8, ipc: &str) -> (r: Vec<String>)
    ensures
        crate::config::strings_view(r@) == mpv_args_spec(url@, volume, ipc@),
{
    let mut v: Vec<String> = Vec::new();
    v.push(owned("--no-video"));
    v.push(owned("--ytdl-format=bestaudio/worst"));
    v.push(owned("--demuxer-max-bytes=50MiB"));
    v.push(owned("--demuxer-max-back-bytes=10MiB"));
    let mut vol = owned("--volume=");
    push_decimal(&mut vol, volume as u128);
    v.push(vol);
    let mut server = owned("--input-ipc-server=");
    push_str(&mut server, ipc);
    v.push(server);
    v.push(owned("--quiet"));
    v.push(owned(url));
    assert(crate::config::strings_view(v@) =~= mpv_args_spec(url@, volume, ipc@));
    v
}

/// The IPC command that carries a player instruction to a running mpv:
/// pausing cycles the `pause` property, a volume sets the `volume`
/// property, quitting is `quit`; playing a stream restarts mpv instead.
pub open spec fn ipc_command_spec(cmd: crate::player::PlayerCommandV) -> Option<Seq<IpcArgV>> {
    match cmd {
        crate::player::PlayerCommandV::Play(_, _) => None,
        crate::player::PlayerCommandV::TogglePause => Some(
            seq![IpcArgV::Text("cycle"@), IpcArgV::Text("pause"@)],
        ),
        crate::player::PlayerCommandV::SetVolume(v) => Some(
            seq![IpcArgV::Text("set_property"@), IpcArgV::Text("volume"@), IpcArgV::Number(v)],
        ),
        crate::player::PlayerCommandV::Quit => Some(seq![IpcArgV::Text("quit"@)]),
    }
}

/// The IPC command for a player instruction (see `ipc_command_spec`).
pub fn ipc_command(cmd: &PlayerCommand) -> (r: Option<Vec<IpcArg>>)
    ensures
        match r {
            Some(v) => ipc_command_spec(cmd@) == Some(ipc_args_view(v@)),
            None => ipc_command_spec(cmd@) is None,
        },
{
    match cmd {
        PlayerCommand::Play(_, _) => None,
        PlayerCommand::TogglePause => {
            let v = vec![IpcArg::Text(owned("cycle")), IpcArg::Text(owned("pause"))];
            assert(ipc_args_view(v@) =~= seq![IpcArgV::Text("cycle"@), IpcArgV::Text("pause"@)]);
            Some(v)
        },
        PlayerCommand::SetVolume(vol) => {
            let v = vec![
                IpcArg::Text(owned("set_property")),
                IpcArg::Text(owned("volume")),
                IpcArg::Number(*vol),
            ];
            assert(ipc_args_view(v@) =~= seq![
                IpcArgV::Text("set_property"@),
                IpcArgV::Text("volume"@),
                IpcArgV::Number(*vol),
            ]);
            Some(v)
        },
        PlayerCommand::Quit => {
            let v = vec![IpcArg::Text(owned("quit"))];
            assert(ipc_args_view(v@) =~= seq![IpcArgV::Text("quit"@)]);
            Some(v)
        },
    }
}

/// The IPC command that asks mpv for a property.
pub fn property_query(property: &str) -> (r: Vec<IpcArg>)
    ensures
        ipc_args_view(r@) == seq![IpcArgV::Text("get_property"@), IpcArgV::Text(property@)],
{
    let v = vec![IpcArg::Text(owned("get_property")), IpcArg::Text(owned(property))];
    assert(ipc_args_view(v@) =~= seq![IpcArgV::Text("get_property"@), IpcArgV::Text(property@)]);
    v
}

/// Whether a line from mpv answers a property query: its `error` field is
/// `"success"`, or it carries `data`. Anything else is an event, skipped.
pub fn is_property_reply(error: Option<&str>, has_data: bool) -> (r: bool)
    ensures
        r == ((error matches Some(e) && e@ == "success"@) || has_data),
{
    let ok = match error {
        Some(e) => crate::text::str_eq(e, "success"),
        None => false,
    };
    ok || has_data
}

/// What mpv's IPC replies hold that the library reads: the `error`
/// field where it is a string, whether there is a `data` field, and the
/// `data` field where it is a string or a boolean.
#[derive(Clone, Debug)]
pub struct MpvReply {
    pub error: Option<String>,
    pub has_data: bool,
    pub data_text: Option<String>,
    pub data_flag: Option<bool>,
}

/// The value of a reply.
pub struct MpvReplyV {
    pub error: Option<Seq<char>>,
    pub has_data: bool,
    pub data_text: Option<Seq<char>>,
    pub data_flag: Option<bool>,
}

impl View for MpvReply {
    type V = MpvReplyV;

    open spec fn view(&self) -> MpvReplyV {
        MpvReplyV {
            error: opt_string_view(self.error),
            has_data: self.has_data,
            data_text: opt_string_view(self.data_text),
            data_flag: self.data_flag,
        }
    }
}

/// The value of an optional reply.
pub open spec fn opt_reply_view(r: Option<MpvReply>) -> Option<MpvReplyV> {
    match r {
        Some(r) => Some(r@),
        None => None,
    }
}

/// What `serde_json::from_str` makes of a text, as the fields of
/// `MpvReply`; `None` where the text is not JSON.
pub uninterp spec fn spec_mpv_reply(text: Seq<char>) -> Option<MpvReplyV>;

/// Calls `serde_json::from_str` on the text and reads the fields of
/// `MpvReply` from the JSON value. The parse is named, not stated.
#[verifier::external_body]
pub fn parse_mpv_reply(text: &str) -> (r: Option<MpvReply>)
    ensures
        opt_reply_view(r) == spec_mpv_reply(text@),
{
    let v: serde_json::Value = serde_json::from_str(text).ok()?;
    let data = v.get("data");
    Some(MpvReply {
        error: v.get("error").and_then(serde_json::Value::as_str).map(str::to_string),
        has_data: data.is_some(),
        data_text: data.and_then(serde_json::Value::as_str).map(str::to_string),
        data_flag: data.and_then(serde_json::Value::as_bool),
    })
}

/// A line from mpv that answers a property query: a line that, without
/// its surrounding whitespace, is JSON whose `error` is `"success"` or that
/// carries `data`; other lines are events, or not JSON, and are skipped.
pub open spec fn property_reply_spec(line: Seq<char>) -> Option<MpvReplyV> {
    match spec_mpv_reply(crate::text::trim_spec(line)) {
        Some(r) => if r.error == Some("success"@) || r.has_data {
            Some(r)
        } else {
            None
        },
        None => None,
    }
}

/// The reply that a line from mpv gives to a property query, if it is one
/// (see `property_reply_spec`).
pub fn property_reply(line: &str) -> (r: Option<MpvReply>)
    ensures
        opt_reply_view(r) == property_reply_spec(line@),
{
    let text = crate::text::trim(line);
    match parse_mpv_reply(text.as_str()) {
        Some(reply) => {
            let error: Option<&str> = match &reply.error {
                Some(e) => Some(e.as_str()),
                None => None,
            };
            if is_property_reply(error, reply.has_data) {
                Some(reply)
            } else {
                None
            }
        },
        None => None,
    }
}

/// The text that a property reply carries (the stream's title), if any.
pub fn reply_text(reply: Option<MpvReply>) -> (r: Option<String>)
    ensures
        opt_string_view(r) == match opt_reply_view(reply) {
            Some(x) => x.data_text,
            None => None,
        },
{
    match reply {
        Some(x) => x.data_text,
        None => None,
    }
}

/// The flag that a property reply carries (whether mpv is paused); false
/// where there is no reply or it carries no boolean.
pub fn reply_flag(reply: Option<MpvReply>) -> (r: bool)
    ensures
        r == match reply {
            Some(x) => x.data_flag == Some(true),
            None => false,
        },
{
    match reply {
        Some(x) => match x.data_flag {
            Some(b) => b,
            None => false,
        },
        None => false,
    }
}

/// The JSON text that `serde_json` writes for the object `{key: args}`,
/// texts as JSON strings and numbers as JSON numbers.
pub uninterp spec fn spec_json_object(key: Seq<char>, args: Seq<IpcArgV>) -> Seq<char>;

/// Calls `serde_json` to write the object `{key: args}` as JSON text. The
/// text is named, not stated.
#[verifier::external_body]
fn json_object(key: &str, args: &Vec<IpcArg>) -> (r: String)
    ensures
        r@ == spec_json_object(key@, ipc_args_view(args@)),
{
    let values: Vec<serde_json::Value> = args.iter().map(|a| match a {
        IpcArg::Text(s) => serde_json::Value::String(s.clone()),
        IpcArg::Number(n) => serde_json::Value::from(*n),
    }).collect();
    let mut obj = serde_json::Map::new();
    obj.insert(key.to_string(), serde_json::Value::Array(values));
    serde_json::Value::Object(obj).to_string()
}

/// The line mpv's socket takes for a command: the JSON object
/// `{"command": args}`, then a newline.
pub open spec fn json_line_spec(args: Seq<IpcArgV>) -> Seq<char> {
    spec_json_object("command"@, args).push('\n')
}

/// The line sent over mpv's socket for a command (see `json_line_spec`).
pub fn json_line(args: &Vec<IpcArg>) -> (r: String)
    ensures
        r@ == json_line_spec(ipc_args_view(args@)),
{
    let mut line = json_object("command", args);
    crate::text::push_char(&mut line, '\n');
    line
}

/// A polling round whose title, position and length queries all failed
/// means the connection to mpv is gone.
pub fn connection_lost(title: &Option<String>, time_pos: Option<u64>, duration: Option<u64>) -> (r:
    bool)
    ensures
        r == (title is None && time_pos is None && duration is None),
{
    title.is_none() && time_pos.is_none() && duration.is_none()
}

/// The report sent when mpv cannot be started, with the system's reason.
pub fn spawn_failure(reason: &str) -> (r: MetadataUpdate)
    ensures
        r@ == (crate::player::MetadataUpdateV {
            title: None,
            time_pos: None,
            duration: None,
            paused: false,
            error: Some("Failed to start mpv: "@ + reason@),
        }),
{
    let mut msg = owned("Failed to start mpv: ");
    push_str(&mut msg, reason);
    MetadataUpdate { title: None, time_pos: None, duration: None, paused: false, error: Some(msg) }
}

/// One thing the player task does with mpv.
#[derive(Debug)]
pub enum PlayerAction {
    /// Stop the task that polls mpv for the stream's state.
    CancelPolling,
    /// Send this line over mpv's socket.
    Send(String),
    /// End the running mpv: with `true`, give it up to half a second to
    /// quit on its own first; then kill it and wait for it.
    StopChild(bool),
    /// Remove the socket file.
    RemoveSocket,
    /// Start mpv with these arguments; once it runs, poll it.
    Spawn(Vec<String>),
    /// End the player task.
    Finish,
}

/// The value of a player action.
pub enum PlayerActionV {
    CancelPolling,
    Send(Seq<char>),
    StopChild(bool),
    RemoveSocket,
    Spawn(Seq<Seq<char>>),
    Finish,
}

impl View for PlayerAction {
    type V = PlayerActionV;

    open spec fn view(&self) -> PlayerActionV {
        match self {
            PlayerAction::CancelPolling => PlayerActionV::CancelPolling,
            PlayerAction::Send(s) => PlayerActionV::Send(s@),
            PlayerAction::StopChild(g) => PlayerActionV::StopChild(*g),
            PlayerAction::RemoveSocket => PlayerActionV::RemoveSocket,
            PlayerAction::Spawn(a) => PlayerActionV::Spawn(crate::config::strings_view(a@)),
            PlayerAction::Finish => PlayerActionV::Finish,
        }
    }
}

/// The values of a sequence of player actions.
pub open spec fn actions_view(s: Seq<PlayerAction>) -> Seq<PlayerActionV> {
    s.map_values(|a: PlayerAction| a@)
}

/// The line that asks mpv to quit.
pub open spec fn quit_line() -> Seq<char> {
    json_line_spec(seq![IpcArgV::Text("quit"@)])
}

/// What the player task does for an instruction, with `has_child` telling
/// whether an mpv is running and `ipc` the socket path. Playing stops the
/// polling, asks a running mpv to quit and ends it (with time to quit on
/// its own), removes the socket and starts a new mpv. Pausing and volume
/// are single socket lines. Quitting stops the polling, asks mpv to quit,
/// kills a running one at once, removes the socket and ends the task.
pub open spec fn player_step_spec(has_child: bool, cmd: crate::player::PlayerCommandV, ipc: Seq<char>) -> Seq<
    PlayerActionV,
> {
    match cmd {
        crate::player::PlayerCommandV::Play(url, vol) => seq![PlayerActionV::CancelPolling] + (if has_child {
            seq![PlayerActionV::Send(quit_line()), PlayerActionV::StopChild(true)]
        } else {
            Seq::empty()
        }) + seq![PlayerActionV::RemoveSocket, PlayerActionV::Spawn(mpv_args_spec(url, vol, ipc))],
        crate::player::PlayerCommandV::Quit => seq![
            PlayerActionV::CancelPolling,
            PlayerActionV::Send(quit_line()),
        ] + (if has_child {
            seq![PlayerActionV::StopChild(false)]
        } else {
            Seq::empty()
        }) + seq![PlayerActionV::RemoveSocket, PlayerActionV::Finish],
        _ => match ipc_command_spec(cmd) {
            Some(args) => seq![PlayerActionV::Send(json_line_spec(args))],
            None => Seq::empty(),
        },
    }
}

/// The line asking mpv to quit.
fn quit_message() -> (r: String)
    ensures
        r@ == quit_line(),
{
    let args = vec![IpcArg::Text(owned("quit"))];
    assert(ipc_args_view(args@) =~= seq![IpcArgV::Text("quit"@)]);
    json_line(&args)
}

/// What the player task does for an instruction (see `player_step_spec`).
pub fn player_step(has_child: bool, cmd: PlayerCommand, ipc: &str) -> (r: Vec<PlayerAction>)
    ensures
        actions_view(r@) == player_step_spec(has_child, cmd@, ipc@),
{
    let mut out: Vec<PlayerAction> = Vec::new();
    match cmd {
        PlayerCommand::Play(url, vol) => {
            out.push(PlayerAction::CancelPolling);
            if has_child {
                out.push(PlayerAction::Send(quit_message()));
                out.push(PlayerAction::StopChild(true));
            }
            out.push(PlayerAction::RemoveSocket);
            out.push(PlayerAction::Spawn(mpv_args(url.as_str(), vol, ipc)));
        },
        PlayerCommand::Quit => {
            out.push(PlayerAction::CancelPolling);
            out.push(PlayerAction::Send(quit_message()));
            if has_child {
                out.push(PlayerAction::StopChild(false));
            }
            out.push(PlayerAction::RemoveSocket);
            out.push(PlayerAction::Finish);
        },
        other => {
            match ipc_command(&other) {
                Some(args) => {
                    out.push(PlayerAction::Send(json_line(&args)));
                },
                None => {},
            }
        },
    }
    assert(actions_view(out@) =~= player_step_spec(has_child, cmd@, ipc@));
    out
}

} // verus!
