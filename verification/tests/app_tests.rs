use lofigirl_cli::ui::center_labels;
use lofigirl_cli::app::{App, AppState, MpvMetadata, Screen};
use lofigirl_cli::config::{Config, SavedStation};
use lofigirl_cli::player::MetadataUpdate;
use lofigirl_cli::session::LoopFlow;
use lofigirl_cli::stations::Category;
use lofigirl_cli::ui::{state_label, station_rows, track_title};

fn config_with_custom() -> Config {
    let mut c = Config::default();
    c.volume = 40;
    c.favorites = vec!["x".to_string(), "x".to_string(), "y".to_string()];
    c.custom_stations.push(SavedStation { name: "Mine".to_string(), url: "http://m".to_string() });
    c.last_station_url = Some("https://www.youtube.com/@lofigeek/live".to_string());
    c
}

#[test]
fn new_app_from_settings() {
    let app = App::new(&config_with_custom());
    assert_eq!(app.stations.len(), 9);
    assert_eq!(app.stations[8].name, "Mine");
    assert!(app.stations[8].is_custom);
    assert_eq!(app.stations[8].category, Category::Lofi);
    assert_eq!(app.selected_idx, 2);
    assert_eq!(app.favorite_urls, vec!["x".to_string(), "y".to_string()]);
    assert_eq!(app.volume, 40);
    assert_eq!(app.state, AppState::Buffering);
    assert_eq!(app.screen, Screen::NowPlaying);
    assert_eq!(app.status_msg, "Buffering ...");
    assert_eq!(app.play_time_str, "00:00 / 00:00");
    assert!(app.show_splash);
    assert!(app.needs_redraw);
    assert!(!app.config_changed);
    assert!(app.current_station().is_none());
}

#[test]
fn unknown_last_station_selects_first() {
    let mut c = Config::default();
    c.last_station_url = Some("nowhere".to_string());
    assert_eq!(App::new(&c).selected_idx, 0);
}

#[test]
fn volume_steps() {
    let mut app = App::new(&Config::default());
    app.volume = 98;
    app.volume_up();
    assert_eq!(app.volume, 100);
    assert!(app.config_changed);
    app.config_changed = false;
    app.volume_up();
    assert_eq!(app.volume, 100);
    assert!(!app.config_changed);
    app.volume = 3;
    app.volume_down();
    assert_eq!(app.volume, 0);
    app.config_changed = false;
    app.volume_down();
    assert_eq!(app.volume, 0);
    assert!(!app.config_changed);
}

#[test]
fn volume_up_then_down() {
    let mut app = App::new(&Config::default());
    app.volume_up();
    app.volume_down();
    assert_eq!(app.volume, 70);
}

#[test]
fn pause_toggles() {
    let mut app = App::new(&Config::default());
    app.toggle_pause();
    assert_eq!(app.state, AppState::Buffering);
    app.state = AppState::Playing;
    app.toggle_pause();
    assert_eq!(app.state, AppState::Paused);
    app.toggle_pause();
    assert_eq!(app.state, AppState::Playing);
}

#[test]
fn search_filters_by_name_and_category() {
    let mut app = App::new(&Config::default());
    assert_eq!(app.visible_stations(), (0..8).collect::<Vec<usize>>());
    app.search_query = "jazz".to_string();
    assert_eq!(app.visible_stations(), vec![4]);
    app.search_query = "LOFI".to_string();
    assert_eq!(app.visible_stations(), vec![0, 1, 2]);
    app.search_query = "ambient".to_string();
    assert_eq!(app.visible_stations(), vec![3, 7]);
    app.search_query = "zzz".to_string();
    assert!(app.visible_stations().is_empty());
    app.search_query = String::new();
    app.filter_category = Some(Category::Lofi);
    assert_eq!(app.visible_stations(), vec![0, 1, 2]);
}

#[test]
fn selection_stays_in_list() {
    let mut app = App::new(&Config::default());
    app.selected_idx = 7;
    app.select_next();
    assert_eq!(app.selected_idx, 7);
    app.select_prev();
    assert_eq!(app.selected_idx, 6);
    app.search_query = "lofi".to_string();
    app.select_next();
    assert_eq!(app.selected_idx, 2);
    app.selected_idx = 9;
    app.select_prev();
    assert_eq!(app.selected_idx, 1);
    app.selected_idx = 0;
    app.select_prev();
    assert_eq!(app.selected_idx, 0);
    app.search_query = "zzz".to_string();
    app.selected_idx = 4;
    app.select_next();
    assert_eq!(app.selected_idx, 0);
}

#[test]
fn favorite_toggled_twice() {
    let mut app = App::new(&Config::default());
    app.selected_idx = 1;
    app.toggle_favorite();
    assert_eq!(app.favorite_urls, vec!["https://www.youtube.com/@ChillhopMusic/live".to_string()]);
    assert!(app.is_favorite(1));
    assert!(app.config_changed);
    app.toggle_favorite();
    assert!(app.favorite_urls.is_empty());
    assert!(!app.is_favorite(1));
}

#[test]
fn playing_records_history_once() {
    let mut app = App::new(&Config::default());
    app.state = AppState::Playing;
    app.play_station(3);
    app.play_station(3);
    app.play_station(0);
    assert_eq!(app.current_station_idx, Some(0));
    assert_eq!(app.state, AppState::Buffering);
    assert_eq!(app.history.len(), 2);
    assert_eq!(app.history[0], "https://www.youtube.com/@CafeMusicBGMchannel/live");
    assert_eq!(app.current_station().unwrap().name, "Lofi Girl");
    assert!(app.metadata.is_none());
}

#[test]
fn custom_stations_add_and_delete() {
    let mut app = App::new(&Config::default());
    app.add_custom_station("Mine", "http://m");
    assert_eq!(app.stations.len(), 9);
    app.selected_idx = 0;
    app.config_changed = false;
    app.delete_selected_station();
    assert_eq!(app.stations.len(), 9);
    assert!(!app.config_changed);
    app.selected_idx = 8;
    app.delete_selected_station();
    assert_eq!(app.stations.len(), 8);
    assert_eq!(app.selected_idx, 7);
    assert!(app.config_changed);
}

#[test]
fn sleep_timer_at_fixed_times() {
    let mut app = App::new(&Config::default());
    assert!(!app.timer_expired_at(5));
    app.set_timer_at(2, 1_000);
    assert_eq!(app.sleep_timer_end, Some(1_000 + 120_000_000_000));
    assert!(!app.timer_expired_at(120_000_000_999));
    assert!(app.timer_expired_at(120_000_001_000));
    assert_eq!(app.remaining_sleep_time_at(1_000), Some(120_000_000_000));
    assert_eq!(app.remaining_sleep_time_at(u128::MAX), Some(0));
    app.clear_timer();
    assert!(!app.timer_expired_at(u128::MAX));
    assert_eq!(app.remaining_sleep_time_at(0), None);
    assert!(!app.timer_expired());
    assert!(app.remaining_sleep_time().is_none());
}

#[test]
fn sleep_timer_from_now() {
    let mut app = App::new(&Config::default());
    app.set_timer(1);
    assert!(!app.timer_expired());
    let left = app.remaining_sleep_time().unwrap();
    assert!(left > 0 && left <= 60_000_000_000);
}

#[test]
fn splash_timing() {
    assert!(!App::splash_done_at(1_200_000_000));
    assert!(App::splash_done_at(1_200_000_001));
    let app = App::new(&Config::default());
    assert!(!app.splash_done());
    assert!(!app.is_searching());
}

#[test]
fn player_reports() {
    let mut app = App::new(&Config::default());
    let report = |paused: bool, error: Option<&str>| MetadataUpdate {
        title: Some("Track".to_string()),
        time_pos: Some(1.5f64.to_bits()),
        duration: None,
        paused,
        error: error.map(|e| e.to_string()),
    };
    app.apply_metadata(report(false, None));
    assert_eq!(app.state, AppState::Playing);
    assert_eq!(app.metadata.as_ref().unwrap().title.as_deref(), Some("Track"));
    assert_eq!(f64::from_bits(app.metadata.as_ref().unwrap().time_pos.unwrap()), 1.5);
    app.apply_metadata(report(true, None));
    assert_eq!(app.state, AppState::Paused);
    app.apply_metadata(report(false, None));
    assert_eq!(app.state, AppState::Paused);
    app.apply_metadata(report(false, Some("boom")));
    assert_eq!(app.state, AppState::Error("boom".to_string()));
    app.apply_metadata(report(false, None));
    assert_eq!(app.state, AppState::Error("boom".to_string()));
}

#[test]
fn buffering_clock() {
    let mut app = App::new(&Config::default());
    let mut ticks: i32 = 0;
    app.tick_buffering(&mut ticks);
    assert_eq!(ticks, 1);
    assert_eq!(app.status_msg, "Buffering stream... (0s)");
    for _ in 0..59 {
        app.tick_buffering(&mut ticks);
    }
    assert_eq!(ticks, 60);
    assert_eq!(app.buffering_timer, 10);
    assert_eq!(app.status_msg, "Buffering stream... (10s)");
    assert_eq!(app.state, AppState::Buffering);
    app.tick_buffering(&mut ticks);
    assert_eq!(app.state, AppState::Playing);
    app.tick_buffering(&mut ticks);
    assert_eq!(ticks, 61);
}

#[test]
fn clock_closes_splash_and_quits() {
    let mut app = App::new(&Config::default());
    app.advance_clock_at(1_000);
    assert!(app.show_splash);
    app.advance_clock_at(2_000_000_000);
    assert!(!app.show_splash);
    assert!(!app.quit);
    app.set_timer_at(1, 0);
    app.advance_clock_at(60_000_000_000);
    assert!(app.quit);
    let mut fresh = App::new(&Config::default());
    fresh.advance_clock();
    assert!(!fresh.quit);
}

#[test]
fn settings_written_from_state() {
    let mut app = App::new(&config_with_custom());
    app.play_station(8);
    app.volume_up();
    let mut cfg = Config::default();
    assert!(app.sync_config(&mut cfg));
    assert!(!app.config_changed);
    assert_eq!(cfg.volume, 45);
    assert_eq!(cfg.last_station_url.as_deref(), Some("http://m"));
    assert_eq!(cfg.favorites, vec!["x".to_string(), "y".to_string()]);
    assert_eq!(cfg.custom_stations.len(), 1);
    assert_eq!(cfg.custom_stations[0].name, "Mine");
    let mut untouched = Config::default();
    assert!(!app.sync_config(&mut untouched));
    assert_eq!(untouched.volume, 70);
}

#[test]
fn settings_round_trip() {
    let mut app = App::new(&config_with_custom());
    app.add_custom_station("Second", "http://s");
    app.play_station(9);
    let mut cfg = Config::default();
    app.write_config(&mut cfg);
    let again = App::new(&cfg);
    assert_eq!(again.stations, app.stations);
    assert_eq!(again.favorite_urls, app.favorite_urls);
    assert_eq!(again.volume, app.volume);
    assert_eq!(again.stations[again.selected_idx].url, "http://s");
}

#[test]
fn start_playback_picks_last_station() {
    let mut app = App::new(&config_with_custom());
    let cmd = app.start_playback(&config_with_custom());
    assert_eq!(app.current_station_idx, Some(2));
    match cmd {
        lofigirl_cli::player::PlayerCommand::Play(url, vol) => {
            assert_eq!(url, "https://www.youtube.com/@lofigeek/live");
            assert_eq!(vol, 40);
        }
        _ => panic!("expected a play command"),
    }
    let mut fresh = App::new(&Config::default());
    fresh.start_playback(&Config::default());
    assert_eq!(fresh.current_station_idx, Some(0));
}

#[test]
fn screen_text() {
    let mut app = App::new(&Config::default());
    assert_eq!(state_label(&app), "● Buffering ...");
    app.state = AppState::Error("bad".to_string());
    assert_eq!(state_label(&app), "● bad");
    app.state = AppState::Paused;
    assert_eq!(state_label(&app), "● Paused");
    assert_eq!(track_title(&app), "Waiting for stream...");
    app.metadata = Some(MpvMetadata { title: None, time_pos: None, duration: None, paused: false });
    assert_eq!(track_title(&app), "Loading track info...");
    app.play_station(1);
    app.toggle_favorite();
    app.selected_idx = 1;
    let rows = station_rows(&app);
    assert_eq!(rows.len(), 8);
    assert!(rows[1].selected && rows[1].playing);
    assert!(rows[0].favorite && !rows[0].selected && !rows[0].playing);
    assert_eq!(lofigirl_cli::ui::favorite_icon(true), "♥ ");
    assert_eq!(lofigirl_cli::ui::play_icon(false), "   ");
}

#[test]
fn loop_flow_values() {
    assert_ne!(LoopFlow::Proceed, LoopFlow::Break);
}

#[test]
fn visible_for_a_lowercased_filter() {
    let app = App::new(&Config::default());
    assert_eq!(app.visible_stations_for("jazz"), vec![4]);
    assert_eq!(app.visible_stations_for("JAZZ"), Vec::<usize>::new());
    assert_eq!(app.visible_stations_for(""), (0..8).collect::<Vec<usize>>());
}

#[test]
fn centre_labels() {
    let mut app = App::new(&Config::default());
    assert_eq!(center_labels(&app), ("Select a Station".to_string(), String::new()));
    app.play_station(4);
    assert_eq!(center_labels(&app), ("Jazz Vibes".to_string(), "Jazz".to_string()));
}
