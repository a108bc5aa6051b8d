use lofigirl_cli::ipc::{player_step, PlayerAction};
use lofigirl_cli::text::trim;
use lofigirl_cli::ipc::json_line;
use lofigirl_cli::ipc::{parse_mpv_reply, property_reply, reply_flag, reply_text};
use lofigirl_cli::ipc::{
    connection_lost, ipc_command, ipc_socket_path, is_property_reply, mpv_args, property_query,
    spawn_failure, IpcArg,
};
use lofigirl_cli::player::PlayerCommand;

fn texts(v: &[IpcArg]) -> Vec<String> {
    v.iter()
        .map(|a| match a {
            IpcArg::Text(s) => s.clone(),
            IpcArg::Number(n) => format!("#{}", n),
        })
        .collect()
}

#[test]
fn socket_path() {
    assert_eq!(ipc_socket_path(42), "/tmp/lofigirl_ipc_42.sock");
}

#[test]
fn mpv_start_arguments() {
    let args = mpv_args("http://x", 35, "/tmp/s.sock");
    assert_eq!(
        args,
        vec![
            "--no-video",
            "--ytdl-format=bestaudio/worst",
            "--demuxer-max-bytes=50MiB",
            "--demuxer-max-back-bytes=10MiB",
            "--volume=35",
            "--input-ipc-server=/tmp/s.sock",
            "--quiet",
            "http://x",
        ]
    );
}

#[test]
fn ipc_commands() {
    assert_eq!(texts(&ipc_command(&PlayerCommand::TogglePause).unwrap()), vec!["cycle", "pause"]);
    assert_eq!(
        texts(&ipc_command(&PlayerCommand::SetVolume(55)).unwrap()),
        vec!["set_property", "volume", "#55"]
    );
    assert_eq!(texts(&ipc_command(&PlayerCommand::Quit).unwrap()), vec!["quit"]);
    assert!(ipc_command(&PlayerCommand::Play("u".to_string(), 1)).is_none());
    assert_eq!(texts(&property_query("pause")), vec!["get_property", "pause"]);
}

#[test]
fn reply_recognition() {
    assert!(is_property_reply(Some("success"), false));
    assert!(is_property_reply(None, true));
    assert!(!is_property_reply(Some("property unavailable"), false));
    assert!(!is_property_reply(None, false));
    assert!(connection_lost(&None, None, None));
    assert!(!connection_lost(&Some("t".to_string()), None, None));
    assert!(!connection_lost(&None, Some(1), None));
}

#[test]
fn spawn_failure_report() {
    let m = spawn_failure("not found");
    assert_eq!(m.error.as_deref(), Some("Failed to start mpv: not found"));
    assert!(!m.paused);
    assert!(m.title.is_none());
}

#[test]
fn reply_parsing() {
    let r = parse_mpv_reply("  {\"data\":\"Song\",\"error\":\"success\"}\n").unwrap();
    assert_eq!(r.error.as_deref(), Some("success"));
    assert!(r.has_data);
    assert_eq!(r.data_text.as_deref(), Some("Song"));
    assert_eq!(r.data_flag, None);
    assert!(parse_mpv_reply("not json").is_none());
    assert!(property_reply("{\"event\":\"idle\"}").is_none());
    assert!(property_reply("{\"error\":\"property unavailable\"}").is_none());
    assert!(property_reply("{\"data\":null}").is_some());
    let paused = property_reply("{\"data\":true,\"error\":\"success\"}");
    assert!(reply_flag(paused));
    assert!(!reply_flag(None));
    let title = property_reply("{\"data\":\"Lofi\",\"error\":\"success\"}");
    assert_eq!(reply_text(title).as_deref(), Some("Lofi"));
    assert_eq!(reply_text(None), None);
}

#[test]
fn command_lines() {
    assert_eq!(
        json_line(&ipc_command(&PlayerCommand::TogglePause).unwrap()),
        "{\"command\":[\"cycle\",\"pause\"]}\n"
    );
    assert_eq!(
        json_line(&ipc_command(&PlayerCommand::SetVolume(40)).unwrap()),
        "{\"command\":[\"set_property\",\"volume\",40]}\n"
    );
    assert_eq!(json_line(&property_query("pause")), "{\"command\":[\"get_property\",\"pause\"]}\n");
}

#[test]
fn reply_lines_are_trimmed() {
    assert!(property_reply("  {\"data\":1}\r\n").is_some());
    assert_eq!(trim(" \t hi there \n"), "hi there");
    assert_eq!(trim("\u{a0}x\u{2003}"), "x");
    assert_eq!(trim("   "), "");
    assert_eq!(trim(""), "");
}

fn kinds(actions: &[PlayerAction]) -> Vec<String> {
    actions
        .iter()
        .map(|a| match a {
            PlayerAction::CancelPolling => "cancel".to_string(),
            PlayerAction::Send(s) => format!("send {}", s.trim_end()),
            PlayerAction::StopChild(g) => format!("stop {}", g),
            PlayerAction::RemoveSocket => "remove".to_string(),
            PlayerAction::Spawn(args) => format!("spawn {}", args.last().unwrap()),
            PlayerAction::Finish => "finish".to_string(),
        })
        .collect()
}

#[test]
fn player_steps() {
    let play = player_step(true, PlayerCommand::Play("http://x".to_string(), 50), "/tmp/s");
    assert_eq!(
        kinds(&play),
        vec!["cancel", "send {\"command\":[\"quit\"]}", "stop true", "remove", "spawn http://x"]
    );
    match &play[4] {
        PlayerAction::Spawn(args) => assert_eq!(args, &mpv_args("http://x", 50, "/tmp/s")),
        _ => panic!("expected a spawn"),
    }
    let first = player_step(false, PlayerCommand::Play("http://x".to_string(), 50), "/tmp/s");
    assert_eq!(kinds(&first), vec!["cancel", "remove", "spawn http://x"]);
    let quit = player_step(true, PlayerCommand::Quit, "/tmp/s");
    assert_eq!(
        kinds(&quit),
        vec!["cancel", "send {\"command\":[\"quit\"]}", "stop false", "remove", "finish"]
    );
    let quit_idle = player_step(false, PlayerCommand::Quit, "/tmp/s");
    assert_eq!(kinds(&quit_idle), vec!["cancel", "send {\"command\":[\"quit\"]}", "remove", "finish"]);
    let vol = player_step(true, PlayerCommand::SetVolume(30), "/tmp/s");
    assert_eq!(kinds(&vol), vec!["send {\"command\":[\"set_property\",\"volume\",30]}"]);
    let pause = player_step(false, PlayerCommand::TogglePause, "/tmp/s");
    assert_eq!(kinds(&pause), vec!["send {\"command\":[\"cycle\",\"pause\"]}"]);
}
