//! Key handling: what each key does on each screen, and what the player is told.
use vstd::prelude::*;

use crate::app::{App, AppV, Screen};
use crate::clock::max_duration_nanos;
use crate::config::{saved_view, Config, SavedStation, SavedStationV};
use crate::player::{opt_command_view, PlayerCommand, PlayerCommandV};
use crate::text::{owned, parse_u64, parse_u64_spec, pop_char, push_char};

verus! {

/// A key, as the terminal reports it.
#[derive(Clone, Copy, PartialEq, Eq, Debug, Structural)]
pub enum KeyCode {
    Char(char),
    Enter,
    Esc,
    Backspace,
    Tab,
    Up,
    Down,
    Left,
    Right,
    /// Any key that the application does not use.
    Other,
}

/// `s` without its last character, if it has one.
pub open spec fn seq_pop(s: Seq<char>) -> Seq<char> {
    if s.len() > 0 {
        s.drop_last()
    } else {
        s
    }
}

/// An ASCII decimal digit.
pub open spec fn is_ascii_digit(c: char) -> bool {
    '0' <= c && c <= '9'
}

/// The keys that the sleep-timer prompt takes for itself.
pub open spec fn timer_prompt_takes(code: KeyCode) -> bool {
    match code {
        KeyCode::Char(c) => is_ascii_digit(c),
        KeyCode::Backspace | KeyCode::Enter | KeyCode::Esc => true,
        _ => false,
    }
}

/// The keys that the search field takes for itself on the now-playing screen.
pub open spec fn search_takes(code: KeyCode) -> bool {
    match code {
        KeyCode::Char(_) | KeyCode::Backspace | KeyCode::Esc => true,
        _ => false,
    }
}

impl AppV {
    /// Enter in the sleep-timer prompt: a positive whole number of minutes
    /// sets the timer, zero does nothing, anything else reports an invalid
    /// entry; the prompt closes and its text is cleared.
    pub open spec fn timer_enter(self, now: u128) -> AppV {
        let a = match parse_u64_spec(self.timer_input) {
            Some(m) => if m > 0 {
                self.set_timer_at(m, now)
            } else {
                self
            },
            None => AppV { status_msg: "Invalid timer input"@, ..self },
        };
        AppV { show_timer_prompt: false, timer_input: Seq::empty(), ..a }
    }

    /// A key that the sleep-timer prompt takes.
    pub open spec fn timer_prompt_key(self, code: KeyCode, now: u128) -> AppV {
        match code {
            KeyCode::Char(c) => AppV { timer_input: self.timer_input.push(c), ..self },
            KeyCode::Backspace => AppV { timer_input: seq_pop(self.timer_input), ..self },
            KeyCode::Enter => self.timer_enter(now),
            KeyCode::Esc => AppV { show_timer_prompt: false, timer_input: Seq::empty(), ..self },
            _ => self,
        }
    }

    /// Enter in the sleep-timer prompt would ask for more minutes than
    /// `minutes * 60` can hold in a `u64`: a timer that cannot be set.
    pub open spec fn timer_entry_overflows(self) -> bool {
        parse_u64_spec(self.timer_input) matches Some(m) && m > u64::MAX / 60
    }

    /// A search-field key on the now-playing screen.
    pub open spec fn search_key(self, code: KeyCode) -> AppV {
        match code {
            KeyCode::Char(c) => AppV { search_query: self.search_query.push(c), ..self },
            KeyCode::Backspace => AppV { search_query: seq_pop(self.search_query), ..self },
            KeyCode::Esc => AppV { is_searching: false, search_query: Seq::empty(), ..self },
            _ => self,
        }
    }

    /// Plays the selected visible station, if there is one; the command for the player.
    pub open spec fn play_selected(self) -> (AppV, Option<PlayerCommandV>) {
        let vis = self.visible();
        if self.selected_idx < vis.len() {
            let idx = vis[self.selected_idx as int];
            let a = self.play_station(idx);
            (a, Some(PlayerCommandV::Play(a.stations[idx as int].url, a.volume)))
        } else {
            (self, None)
        }
    }

    /// A key on the now-playing screen: the new state, whether the run ends
    /// at once, and the command for the player.
    pub open spec fn now_playing_key(self, code: KeyCode, now: u128) -> (
        AppV,
        bool,
        Option<PlayerCommandV>,
    ) {
        if self.show_timer_prompt && timer_prompt_takes(code) {
            (self.timer_prompt_key(code, now), false, None)
        } else if self.is_searching && search_takes(code) {
            (self.search_key(code), false, None)
        } else {
            match code {
                KeyCode::Char('q') | KeyCode::Esc => (AppV { quit: true, ..self }, true, None),
                KeyCode::Char(' ') => (self.toggle_pause(), false, Some(PlayerCommandV::TogglePause)),
                KeyCode::Left | KeyCode::Char('h') | KeyCode::Down | KeyCode::Char('j') => (
                    self.volume_down(),
                    false,
                    Some(PlayerCommandV::SetVolume(self.volume_down().volume)),
                ),
                KeyCode::Right | KeyCode::Char('l') | KeyCode::Up | KeyCode::Char('k') => (
                    self.volume_up(),
                    false,
                    Some(PlayerCommandV::SetVolume(self.volume_up().volume)),
                ),
                KeyCode::Tab => (AppV { screen: Screen::StationList, ..self }, false, None),
                KeyCode::Char('?') => (AppV { help_visible: true, ..self }, false, None),
                KeyCode::Char('t') => (AppV { show_timer_prompt: true, ..self }, false, None),
                KeyCode::Char('c') => (self.clear_timer(), false, None),
                KeyCode::Char('/') => (
                    AppV { screen: Screen::StationList, is_searching: true, ..self },
                    false,
                    None,
                ),
                _ => (self, false, None),
            }
        }
    }

    /// A key in the add-station form: the new state and, where the form is
    /// submitted, the station to keep in the settings.
    pub open spec fn add_station_key(self, code: KeyCode) -> (AppV, Option<SavedStationV>) {
        match code {
            KeyCode::Esc => (
                AppV {
                    show_add_station: false,
                    add_station_name: Seq::empty(),
                    add_station_url: Seq::empty(),
                    add_station_focus: false,
                    ..self
                },
                None,
            ),
            KeyCode::Enter => if !self.add_station_focus {
                (AppV { add_station_focus: true, ..self }, None)
            } else if self.add_station_name.len() > 0 && self.add_station_url.len() > 0 {
                let a = self.add_custom_station(self.add_station_name, self.add_station_url);
                (
                    AppV {
                        show_add_station: false,
                        add_station_name: Seq::empty(),
                        add_station_url: Seq::empty(),
                        add_station_focus: false,
                        ..a
                    },
                    Some(SavedStationV { name: self.add_station_name, url: self.add_station_url }),
                )
            } else {
                (self, None)
            },
            KeyCode::Char(c) => if self.add_station_focus {
                (AppV { add_station_url: self.add_station_url.push(c), ..self }, None)
            } else {
                (AppV { add_station_name: self.add_station_name.push(c), ..self }, None)
            },
            KeyCode::Backspace => if self.add_station_focus {
                (AppV { add_station_url: seq_pop(self.add_station_url), ..self }, None)
            } else {
                (AppV { add_station_name: seq_pop(self.add_station_name), ..self }, None)
            },
            KeyCode::Tab => (AppV { add_station_focus: !self.add_station_focus, ..self }, None),
            _ => (self, None),
        }
    }

    /// A key in the station-list search field.
    pub open spec fn list_search_key(self, code: KeyCode) -> (AppV, Option<PlayerCommandV>) {
        match code {
            KeyCode::Enter => {
                let (a, cmd) = self.play_selected();
                (AppV { is_searching: false, search_query: Seq::empty(), ..a }, cmd)
            },
            _ => (self.search_key(code), None),
        }
    }

    /// A key in the station list when no form, prompt or search has it.
    pub open spec fn list_browse_key(self, code: KeyCode) -> (AppV, Option<PlayerCommandV>) {
        match code {
            KeyCode::Char('q') | KeyCode::Esc => (AppV { quit: true, ..self }, None),
            KeyCode::Char(' ') => (self.toggle_pause(), Some(PlayerCommandV::TogglePause)),
            KeyCode::Char('f') => (self.toggle_favorite(), None),
            KeyCode::Char('a') => (
                AppV {
                    show_add_station: true,
                    add_station_name: Seq::empty(),
                    add_station_url: Seq::empty(),
                    add_station_focus: false,
                    ..self
                },
                None,
            ),
            KeyCode::Char('d') => (self.delete_selected_station(), None),
            KeyCode::Char('/') | KeyCode::Char('s') => (AppV { is_searching: true, ..self }, None),
            KeyCode::Char('?') => (AppV { help_visible: true, ..self }, None),
            KeyCode::Char('t') => (AppV { show_timer_prompt: true, ..self }, None),
            KeyCode::Char('c') => (self.clear_timer(), None),
            KeyCode::Up | KeyCode::Char('k') => (self.select_prev(), None),
            KeyCode::Down | KeyCode::Char('j') => (self.select_next(), None),
            KeyCode::Left | KeyCode::Char('h') => (
                self.volume_down(),
                Some(PlayerCommandV::SetVolume(self.volume_down().volume)),
            ),
            KeyCode::Right | KeyCode::Char('l') => (
                self.volume_up(),
                Some(PlayerCommandV::SetVolume(self.volume_up().volume)),
            ),
            KeyCode::Enter => self.play_selected(),
            KeyCode::Tab => (AppV { screen: Screen::NowPlaying, ..self }, None),
            _ => (self, None),
        }
    }

    /// A key on the station-list screen: the new state, the command for the
    /// player, and the station to keep in the settings where one was added.
    pub open spec fn station_list_key(self, code: KeyCode, now: u128) -> (
        AppV,
        Option<PlayerCommandV>,
        Option<SavedStationV>,
    ) {
        if self.show_add_station {
            let (a, saved) = self.add_station_key(code);
            (a, None, saved)
        } else if self.show_timer_prompt {
            if timer_prompt_takes(code) {
                (self.timer_prompt_key(code, now), None, None)
            } else {
                (self, None, None)
            }
        } else if self.is_searching {
            let (a, cmd) = self.list_search_key(code);
            (a, cmd, None)
        } else {
            let (a, cmd) = self.list_browse_key(code);
            (a, cmd, None)
        }
    }

    /// The station-list key would ask for a timer that cannot be set.
    pub open spec fn station_list_key_overflows(self, code: KeyCode) -> bool {
        !self.show_add_station && self.show_timer_prompt && code == KeyCode::Enter
            && self.timer_entry_overflows()
    }

    /// The now-playing key would ask for a timer that cannot be set.
    pub open spec fn now_playing_key_overflows(self, code: KeyCode) -> bool {
        self.show_timer_prompt && code == KeyCode::Enter && self.timer_entry_overflows()
    }
}

/// A key that the sleep-timer prompt takes (see `AppV::timer_prompt_key`).
fn timer_prompt_input(app: &mut App, code: KeyCode, now: u128)
    requires
        now <= max_duration_nanos(),
        timer_prompt_takes(code),
        code == KeyCode::Enter ==> !old(app)@.timer_entry_overflows(),
    ensures
        final(app)@ == old(app)@.timer_prompt_key(code, now),
{
    match code {
        KeyCode::Char(c) => {
            push_char(&mut app.timer_input, c);
        },
        KeyCode::Backspace => {
            pop_char(&mut app.timer_input);
        },
        KeyCode::Enter => {
            timer_enter(app, now);
        },
        _ => {
            app.show_timer_prompt = false;
            app.timer_input = String::new();
        },
    }
}

/// A search-field key on the now-playing screen (see `AppV::search_key`).
fn search_input(app: &mut App, code: KeyCode)
    requires
        search_takes(code),
    ensures
        final(app)@ == old(app)@.search_key(code),
{
    match code {
        KeyCode::Char(c) => {
            push_char(&mut app.search_query, c);
        },
        KeyCode::Backspace => {
            pop_char(&mut app.search_query);
        },
        _ => {
            app.is_searching = false;
            app.search_query = String::new();
        },
    }
}

/// The keys of the now-playing screen that neither the prompt nor the search field took.
fn now_playing_command(app: &mut App, code: KeyCode) -> (r: (bool, Option<PlayerCommand>))
    requires
        !(old(app).show_timer_prompt && timer_prompt_takes(code)),
        !(old(app).is_searching && search_takes(code)),
    ensures
        ({
            let (a, stop, cmd) = old(app)@.now_playing_key(code, 0);
            &&& final(app)@ == a
            &&& r.0 == stop
            &&& opt_command_view(r.1) == cmd
        }),
{
    match code {
        KeyCode::Char('q') | KeyCode::Esc => {
            app.quit = true;
            (true, None)
        },
        KeyCode::Char(' ') => {
            app.toggle_pause();
            (false, Some(PlayerCommand::TogglePause))
        },
        KeyCode::Left | KeyCode::Char('h') | KeyCode::Down | KeyCode::Char('j') => {
            app.volume_down();
            (false, Some(PlayerCommand::SetVolume(app.volume)))
        },
        KeyCode::Right | KeyCode::Char('l') | KeyCode::Up | KeyCode::Char('k') => {
            app.volume_up();
            (false, Some(PlayerCommand::SetVolume(app.volume)))
        },
        KeyCode::Tab => {
            app.screen = Screen::StationList;
            (false, None)
        },
        KeyCode::Char('?') => {
            app.help_visible = true;
            (false, None)
        },
        KeyCode::Char('t') => {
            app.show_timer_prompt = true;
            (false, None)
        },
        KeyCode::Char('c') => {
            app.clear_timer();
            (false, None)
        },
        KeyCode::Char('/') => {
            app.screen = Screen::StationList;
            app.is_searching = true;
            (false, None)
        },
        _ => (false, None),
    }
}

/// Handles a key on the now-playing screen: `Some(true)` where the run ends
/// at once, `Some(false)` otherwise, with the command for the player.
pub fn handle_now_playing_input(app: &mut App, code: KeyCode, now: u128) -> (r: (
    Option<bool>,
    Option<PlayerCommand>,
))
    requires
        now <= max_duration_nanos(),
        !old(app)@.now_playing_key_overflows(code),
    ensures
        ({
            let (a, stop, cmd) = old(app)@.now_playing_key(code, now);
            &&& final(app)@ == a
            &&& r.0 == Some(stop)
            &&& opt_command_view(r.1) == cmd
        }),
{
    let is_digit = match code {
        KeyCode::Char(c) => '0' <= c && c <= '9',
        _ => false,
    };
    let prompt_takes = is_digit || code == KeyCode::Backspace || code == KeyCode::Enter || code
        == KeyCode::Esc;
    if app.show_timer_prompt && prompt_takes {
        timer_prompt_input(app, code, now);
        return (Some(false), None);
    }
    let search_takes_key = match code {
        KeyCode::Char(_) | KeyCode::Backspace | KeyCode::Esc => true,
        _ => false,
    };
    if app.is_searching() && search_takes_key {
        search_input(app, code);
        return (Some(false), None);
    }
    let (stop, cmd) = now_playing_command(app, code);
    (Some(stop), cmd)
}

/// Enter in the sleep-timer prompt (see `AppV::timer_enter`).
fn timer_enter(app: &mut App, now: u128)
    requires
        now <= max_duration_nanos(),
        !old(app)@.timer_entry_overflows(),
    ensures
        final(app)@ == old(app)@.timer_enter(now),
{
    match parse_u64(app.timer_input.as_str()) {
        Some(minutes) => {
            if minutes > 0 {
                app.set_timer_at(minutes, now);
            }
        },
        None => {
            app.status_msg = owned("Invalid timer input");
        },
    }
    app.show_timer_prompt = false;
    app.timer_input = String::new();
}

/// Plays the selected visible station, if there is one (see `AppV::play_selected`).
fn play_selected(app: &mut App) -> (r: Option<PlayerCommand>)
    ensures
        final(app)@ == old(app)@.play_selected().0,
        opt_command_view(r) == old(app)@.play_selected().1,
{
    let visible = app.visible_stations();
    if app.selected_idx < visible.len() {
        let idx = visible[app.selected_idx];
        proof {
            crate::app::lemma_visible_in_range(
                app@.stations,
                crate::text::spec_lowercase(app@.search_query),
                app.filter_category,
                app@.stations.len() as int,
            );
        }
        app.play_station(idx);
        let url = app.stations[idx].url.clone();
        Some(PlayerCommand::Play(url, app.volume))
    } else {
        None
    }
}

/// A key in the add-station form (see `AppV::add_station_key`); a submitted
/// station is also kept in the settings.
fn add_station_input(app: &mut App, config: &mut Config, code: KeyCode)
    ensures
        final(app)@ == old(app)@.add_station_key(code).0,
        final(config)@.volume == old(config)@.volume,
        final(config)@.last_station_url == old(config)@.last_station_url,
        final(config)@.favorites == old(config)@.favorites,
        final(config)@.custom_stations == match old(app)@.add_station_key(code).1 {
            Some(sv) => old(config)@.custom_stations.push(sv),
            None => old(config)@.custom_stations,
        },
{
    match code {
        KeyCode::Esc => {
            app.show_add_station = false;
            app.add_station_name = String::new();
            app.add_station_url = String::new();
            app.add_station_focus = false;
        },
        KeyCode::Enter => {
            if !app.add_station_focus {
                app.add_station_focus = true;
            } else if !app.add_station_name.as_str().is_empty()
                && !app.add_station_url.as_str().is_empty() {
                let name = app.add_station_name.clone();
                let url = app.add_station_url.clone();
                app.add_custom_station(name.as_str(), url.as_str());
                let ghost before = config.custom_stations@;
                let saved = SavedStation { name, url };
                config.custom_stations.push(saved);
                assert(saved_view(config.custom_stations@) =~= saved_view(before).push(saved@));
                app.show_add_station = false;
                app.add_station_name = String::new();
                app.add_station_url = String::new();
                app.add_station_focus = false;
            }
        },
        KeyCode::Char(c) => {
            if app.add_station_focus {
                push_char(&mut app.add_station_url, c);
            } else {
                push_char(&mut app.add_station_name, c);
            }
        },
        KeyCode::Backspace => {
            if app.add_station_focus {
                pop_char(&mut app.add_station_url);
            } else {
                pop_char(&mut app.add_station_name);
            }
        },
        KeyCode::Tab => {
            app.add_station_focus = !app.add_station_focus;
        },
        _ => {},
    }
}

/// A key in the station-list search field (see `AppV::list_search_key`).
fn list_search_input(app: &mut App, code: KeyCode) -> (r: Option<PlayerCommand>)
    ensures
        final(app)@ == old(app)@.list_search_key(code).0,
        opt_command_view(r) == old(app)@.list_search_key(code).1,
{
    match code {
        KeyCode::Enter => {
            let cmd = play_selected(app);
            app.is_searching = false;
            app.search_query = String::new();
            cmd
        },
        KeyCode::Char(_) | KeyCode::Backspace | KeyCode::Esc => {
            search_input(app, code);
            None
        },
        _ => None,
    }
}

/// A key in the station list when nothing else has it (see `AppV::list_browse_key`).
#[verifier::rlimit(50)]
fn list_browse_input(app: &mut App, code: KeyCode) -> (r: Option<PlayerCommand>)
    ensures
        final(app)@ == old(app)@.list_browse_key(code).0,
        opt_command_view(r) == old(app)@.list_browse_key(code).1,
{
    match code {
        KeyCode::Char('q') | KeyCode::Esc => {
            app.quit = true;
            None
        },
        KeyCode::Char(' ') => {
            app.toggle_pause();
            Some(PlayerCommand::TogglePause)
        },
        KeyCode::Char('f') => {
            app.toggle_favorite();
            None
        },
        KeyCode::Char('a') => {
            app.show_add_station = true;
            app.add_station_name = String::new();
            app.add_station_url = String::new();
            app.add_station_focus = false;
            None
        },
        KeyCode::Char('d') => {
            app.delete_selected_station();
            None
        },
        KeyCode::Char('/') | KeyCode::Char('s') => {
            app.is_searching = true;
            None
        },
        KeyCode::Char('?') => {
            app.help_visible = true;
            None
        },
        KeyCode::Char('t') => {
            app.show_timer_prompt = true;
            None
        },
        KeyCode::Char('c') => {
            app.clear_timer();
            None
        },
        KeyCode::Up | KeyCode::Char('k') => {
            app.select_prev();
            None
        },
        KeyCode::Down | KeyCode::Char('j') => {
            app.select_next();
            None
        },
        KeyCode::Left | KeyCode::Char('h') => {
            app.volume_down();
            Some(PlayerCommand::SetVolume(app.volume))
        },
        KeyCode::Right | KeyCode::Char('l') => {
            app.volume_up();
            Some(PlayerCommand::SetVolume(app.volume))
        },
        KeyCode::Enter => play_selected(app),
        KeyCode::Tab => {
            app.screen = Screen::NowPlaying;
            None
        },
        _ => None,
    }
}

/// Handles a key on the station-list screen, with the command for the
/// player; a station added through the form is also kept in the settings.
pub fn handle_station_list_input(
    app: &mut App,
    config: &mut Config,
    code: KeyCode,
    now: u128,
) -> (r: Option<PlayerCommand>)
    requires
        now <= max_duration_nanos(),
        !old(app)@.station_list_key_overflows(code),
    ensures
        ({
            let (a, cmd, saved) = old(app)@.station_list_key(code, now);
            &&& final(app)@ == a
            &&& opt_command_view(r) == cmd
            &&& final(config)@.volume == old(config)@.volume
            &&& final(config)@.last_station_url == old(config)@.last_station_url
            &&& final(config)@.favorites == old(config)@.favorites
            &&& final(config)@.custom_stations == match saved {
                Some(sv) => old(config)@.custom_stations.push(sv),
                None => old(config)@.custom_stations,
            }
        }),
{
    if app.show_add_station {
        add_station_input(app, config, code);
        None
    } else if app.show_timer_prompt {
        let is_digit = match code {
            KeyCode::Char(c) => '0' <= c && c <= '9',
            _ => false,
        };
        if is_digit || code == KeyCode::Backspace || code == KeyCode::Enter || code
            == KeyCode::Esc {
            timer_prompt_input(app, code, now);
        }
        None
    } else if app.is_searching {
        list_search_input(app, code)
    } else {
        list_browse_input(app, code)
    }
}

} // verus!
