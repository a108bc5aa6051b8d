use lofigirl_cli::app::{App, AppState, Screen};
use lofigirl_cli::config::Config;
use lofigirl_cli::events::{handle_now_playing_input, handle_station_list_input, KeyCode};
use lofigirl_cli::player::PlayerCommand;
use lofigirl_cli::session::LoopFlow;

fn fresh() -> App {
    App::new(&Config::default())
}

#[test]
fn now_playing_quit() {
    let mut app = fresh();
    let (stop, cmd) = handle_now_playing_input(&mut app, KeyCode::Char('q'), 0);
    assert_eq!(stop, Some(true));
    assert!(cmd.is_none());
    assert!(app.quit);
}

#[test]
fn now_playing_volume_and_pause() {
    let mut app = fresh();
    let (stop, cmd) = handle_now_playing_input(&mut app, KeyCode::Up, 0);
    assert_eq!(stop, Some(false));
    assert!(matches!(cmd, Some(PlayerCommand::SetVolume(75))));
    let (_, cmd) = handle_now_playing_input(&mut app, KeyCode::Char('h'), 0);
    assert!(matches!(cmd, Some(PlayerCommand::SetVolume(70))));
    app.state = AppState::Playing;
    let (_, cmd) = handle_now_playing_input(&mut app, KeyCode::Char(' '), 0);
    assert!(matches!(cmd, Some(PlayerCommand::TogglePause)));
    assert_eq!(app.state, AppState::Paused);
}

#[test]
fn now_playing_screens_and_search() {
    let mut app = fresh();
    handle_now_playing_input(&mut app, KeyCode::Tab, 0);
    assert_eq!(app.screen, Screen::StationList);
    let mut app = fresh();
    handle_now_playing_input(&mut app, KeyCode::Char('/'), 0);
    assert_eq!(app.screen, Screen::StationList);
    assert!(app.is_searching);
    app.screen = Screen::NowPlaying;
    handle_now_playing_input(&mut app, KeyCode::Char('q'), 0);
    assert_eq!(app.search_query, "q");
    assert!(!app.quit);
    handle_now_playing_input(&mut app, KeyCode::Backspace, 0);
    assert_eq!(app.search_query, "");
    handle_now_playing_input(&mut app, KeyCode::Esc, 0);
    assert!(!app.is_searching);
    handle_now_playing_input(&mut app, KeyCode::Char('?'), 0);
    assert!(app.help_visible);
}

#[test]
fn timer_prompt_entry() {
    let mut app = fresh();
    handle_now_playing_input(&mut app, KeyCode::Char('t'), 0);
    assert!(app.show_timer_prompt);
    handle_now_playing_input(&mut app, KeyCode::Char('1'), 0);
    handle_now_playing_input(&mut app, KeyCode::Char('5'), 0);
    handle_now_playing_input(&mut app, KeyCode::Char('9'), 0);
    handle_now_playing_input(&mut app, KeyCode::Backspace, 0);
    assert_eq!(app.timer_input, "15");
    handle_now_playing_input(&mut app, KeyCode::Enter, 7);
    assert!(!app.show_timer_prompt);
    assert_eq!(app.timer_input, "");
    assert_eq!(app.sleep_timer_end, Some(7 + 15 * 60_000_000_000));
    handle_now_playing_input(&mut app, KeyCode::Char('c'), 0);
    assert_eq!(app.sleep_timer_end, None);
}

#[test]
fn timer_prompt_zero_and_invalid() {
    let mut app = fresh();
    app.show_timer_prompt = true;
    handle_now_playing_input(&mut app, KeyCode::Char('0'), 0);
    handle_now_playing_input(&mut app, KeyCode::Enter, 0);
    assert_eq!(app.sleep_timer_end, None);
    assert_eq!(app.status_msg, "Buffering ...");
    app.show_timer_prompt = true;
    handle_now_playing_input(&mut app, KeyCode::Enter, 0);
    assert_eq!(app.status_msg, "Invalid timer input");
    assert!(!app.show_timer_prompt);
}

#[test]
fn timer_prompt_lets_other_keys_through() {
    let mut app = fresh();
    app.show_timer_prompt = true;
    let (stop, _) = handle_now_playing_input(&mut app, KeyCode::Char('q'), 0);
    assert_eq!(stop, Some(true));
}

#[test]
fn station_list_add_form() {
    let mut app = fresh();
    let mut cfg = Config::default();
    app.screen = Screen::StationList;
    handle_station_list_input(&mut app, &mut cfg, KeyCode::Char('a'), 0);
    assert!(app.show_add_station);
    handle_station_list_input(&mut app, &mut cfg, KeyCode::Char('N'), 0);
    handle_station_list_input(&mut app, &mut cfg, KeyCode::Enter, 0);
    assert!(app.add_station_focus);
    handle_station_list_input(&mut app, &mut cfg, KeyCode::Enter, 0);
    assert!(app.show_add_station);
    handle_station_list_input(&mut app, &mut cfg, KeyCode::Char('u'), 0);
    handle_station_list_input(&mut app, &mut cfg, KeyCode::Char('x'), 0);
    handle_station_list_input(&mut app, &mut cfg, KeyCode::Backspace, 0);
    assert_eq!(app.add_station_url, "u");
    handle_station_list_input(&mut app, &mut cfg, KeyCode::Tab, 0);
    assert!(!app.add_station_focus);
    handle_station_list_input(&mut app, &mut cfg, KeyCode::Tab, 0);
    handle_station_list_input(&mut app, &mut cfg, KeyCode::Enter, 0);
    assert!(!app.show_add_station);
    assert_eq!(app.stations.len(), 9);
    assert_eq!(app.stations[8].name, "N");
    assert_eq!(cfg.custom_stations.len(), 1);
    assert_eq!(cfg.custom_stations[0].url, "u");
    assert!(app.config_changed);
}

#[test]
fn station_list_add_form_escape() {
    let mut app = fresh();
    let mut cfg = Config::default();
    app.show_add_station = true;
    app.add_station_name = "x".to_string();
    handle_station_list_input(&mut app, &mut cfg, KeyCode::Esc, 0);
    assert!(!app.show_add_station);
    assert_eq!(app.add_station_name, "");
    assert!(cfg.custom_stations.is_empty());
}

#[test]
fn station_list_browse_and_play() {
    let mut app = fresh();
    let mut cfg = Config::default();
    app.screen = Screen::StationList;
    handle_station_list_input(&mut app, &mut cfg, KeyCode::Down, 0);
    handle_station_list_input(&mut app, &mut cfg, KeyCode::Char('j'), 0);
    assert_eq!(app.selected_idx, 2);
    handle_station_list_input(&mut app, &mut cfg, KeyCode::Char('k'), 0);
    assert_eq!(app.selected_idx, 1);
    let cmd = handle_station_list_input(&mut app, &mut cfg, KeyCode::Enter, 0);
    match cmd {
        Some(PlayerCommand::Play(url, vol)) => {
            assert_eq!(url, "https://www.youtube.com/@ChillhopMusic/live");
            assert_eq!(vol, 70);
        }
        _ => panic!("expected a play command"),
    }
    assert_eq!(app.current_station_idx, Some(1));
    handle_station_list_input(&mut app, &mut cfg, KeyCode::Char('f'), 0);
    assert_eq!(app.favorite_urls.len(), 1);
    let cmd = handle_station_list_input(&mut app, &mut cfg, KeyCode::Right, 0);
    assert!(matches!(cmd, Some(PlayerCommand::SetVolume(75))));
    handle_station_list_input(&mut app, &mut cfg, KeyCode::Char('q'), 0);
    assert!(app.quit);
    handle_station_list_input(&mut app, &mut cfg, KeyCode::Tab, 0);
    assert_eq!(app.screen, Screen::NowPlaying);
}

#[test]
fn station_list_search_enter_plays() {
    let mut app = fresh();
    let mut cfg = Config::default();
    app.screen = Screen::StationList;
    handle_station_list_input(&mut app, &mut cfg, KeyCode::Char('s'), 0);
    assert!(app.is_searching);
    for c in "jazz".chars() {
        handle_station_list_input(&mut app, &mut cfg, KeyCode::Char(c), 0);
    }
    assert_eq!(app.visible_stations(), vec![4]);
    let cmd = handle_station_list_input(&mut app, &mut cfg, KeyCode::Enter, 0);
    assert!(matches!(cmd, Some(PlayerCommand::Play(_, 70))));
    assert_eq!(app.current_station_idx, Some(4));
    assert!(!app.is_searching);
    assert_eq!(app.search_query, "");
}

#[test]
fn station_list_timer_prompt_swallows_keys() {
    let mut app = fresh();
    let mut cfg = Config::default();
    app.screen = Screen::StationList;
    app.show_timer_prompt = true;
    handle_station_list_input(&mut app, &mut cfg, KeyCode::Char('q'), 0);
    assert!(!app.quit);
    handle_station_list_input(&mut app, &mut cfg, KeyCode::Char('3'), 0);
    assert_eq!(app.timer_input, "3");
    handle_station_list_input(&mut app, &mut cfg, KeyCode::Esc, 0);
    assert!(!app.show_timer_prompt);
    assert_eq!(app.timer_input, "");
}

#[test]
fn station_list_delete_custom() {
    let mut app = fresh();
    let mut cfg = Config::default();
    app.screen = Screen::StationList;
    app.add_custom_station("Mine", "http://m");
    app.selected_idx = 8;
    handle_station_list_input(&mut app, &mut cfg, KeyCode::Char('d'), 0);
    assert_eq!(app.stations.len(), 8);
}

#[test]
fn key_dispatch() {
    let mut app = fresh();
    let mut cfg = Config::default();
    app.needs_redraw = false;
    let out = app.handle_key(&mut cfg, KeyCode::Char('q'), false);
    assert_eq!(out.flow, LoopFlow::Continue);
    assert!(app.needs_redraw);
    assert!(!app.quit);
    app.help_visible = true;
    let out = app.handle_key(&mut cfg, KeyCode::Char('q'), true);
    assert_eq!(out.flow, LoopFlow::Continue);
    assert!(!app.help_visible);
    assert!(!app.quit);
    let out = app.handle_key(&mut cfg, KeyCode::Char('q'), true);
    assert_eq!(out.flow, LoopFlow::Break);
    let mut app = fresh();
    app.screen = Screen::StationList;
    let out = app.handle_key(&mut cfg, KeyCode::Char('q'), true);
    assert_eq!(out.flow, LoopFlow::Proceed);
    assert!(app.quit);
    let mut app = fresh();
    app.screen = Screen::Help;
    let out = app.handle_key_at(&mut cfg, KeyCode::Char('q'), true, 0);
    assert_eq!(out.flow, LoopFlow::Proceed);
    assert!(!app.quit);
}

#[test]
fn timer_overflow_is_detected() {
    let mut app = fresh();
    app.show_timer_prompt = true;
    app.timer_input = "999999999999999999".to_string();
    assert!(app.key_event_overflows(KeyCode::Enter, true));
    assert!(!app.key_event_overflows(KeyCode::Char('1'), true));
    assert!(!app.key_event_overflows(KeyCode::Enter, false));
    app.timer_input = "307445734561825860".to_string();
    assert!(!app.key_event_overflows(KeyCode::Enter, true));
}

#[test]
fn timer_entry_keeps_only_digits() {
    let mut app = fresh();
    let mut cfg = Config::default();
    app.show_timer_prompt = true;
    for c in ['1', 'x', '2', ' ', '+'] {
        if !app.key_event_overflows(KeyCode::Char(c), true) {
            app.handle_key(&mut cfg, KeyCode::Char(c), true);
        }
    }
    assert_eq!(app.timer_input, "12");
    assert!(app.needs_redraw);
}
