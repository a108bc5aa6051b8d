//! The decisions of the main loop: which key goes where, what the player's
//! reports do, the buffering clock, the timers, and what the settings keep.
use vstd::prelude::*;

use crate::app::{App, AppState, AppStateV, AppV, MpvMetadata, MpvMetadataV, Screen};
use crate::clock::{max_duration_nanos, nanos_since};
use crate::config::{saved_view, Config, ConfigV, SavedStation, SavedStationV, strings_view};
use crate::events::{handle_now_playing_input, handle_station_list_input, KeyCode};
use crate::player::{opt_command_view, MetadataUpdate, MetadataUpdateV, PlayerCommand, PlayerCommandV};
use crate::stations::StationV;
use crate::text::{decimal_spec, owned, push_decimal, push_str};

verus! {

/// What the main loop does after a key.
#[derive(Clone, Copy, PartialEq, Eq, Debug, Structural)]
pub enum LoopFlow {
    /// Go on with the rest of this round (settings, clock, quit check).
    Proceed,
    /// Start the next round at once.
    Continue,
    /// Leave the loop at once.
    Break,
}

/// The result of a key: how the loop goes on, and the command for the player.
#[derive(Debug)]
pub struct KeyOutcome {
    pub flow: LoopFlow,
    pub command: Option<PlayerCommand>,
}

impl AppV {
    /// A key event: every key asks for a redraw; only presses count; a key
    /// closes the help overlay where it is open; otherwise the screen's own
    /// handling applies. Gives the new state, the loop flow, the command
    /// for the player and the station to keep in the settings.
    pub open spec fn key_event(self, code: KeyCode, is_press: bool, now: u128) -> (
        AppV,
        LoopFlow,
        Option<PlayerCommandV>,
        Option<SavedStationV>,
    ) {
        let a = AppV { needs_redraw: true, ..self };
        if !is_press {
            (a, LoopFlow::Continue, None, None)
        } else if a.help_visible {
            (AppV { help_visible: false, ..a }, LoopFlow::Continue, None, None)
        } else {
            match a.screen {
                Screen::NowPlaying => {
                    let (b, stop, cmd) = a.now_playing_key(code, now);
                    (
                        b,
                        if stop {
                            LoopFlow::Break
                        } else {
                            LoopFlow::Proceed
                        },
                        cmd,
                        None,
                    )
                },
                Screen::StationList => {
                    let (b, cmd, saved) = a.station_list_key(code, now);
                    (b, LoopFlow::Proceed, cmd, saved)
                },
                Screen::Help => (a, LoopFlow::Proceed, None, None),
            }
        }
    }

    /// The key event would ask for a sleep timer that cannot be set (more
    /// minutes than `minutes * 60` holds in a `u64`).
    pub open spec fn key_event_overflows(self, code: KeyCode, is_press: bool) -> bool {
        &&& is_press
        &&& !self.help_visible
        &&& match self.screen {
            Screen::NowPlaying => self.now_playing_key_overflows(code),
            Screen::StationList => self.station_list_key_overflows(code),
            Screen::Help => false,
        }
    }

    /// A report from the player: it is kept, an error in it becomes the
    /// state, a paused player pauses the state, and a playing player turns
    /// buffering or playing into playing.
    pub open spec fn apply_metadata(self, m: MetadataUpdateV) -> AppV {
        let a = AppV {
            needs_redraw: true,
            metadata: Some(
                MpvMetadataV {
                    title: m.title,
                    time_pos: m.time_pos,
                    duration: m.duration,
                    paused: m.paused,
                },
            ),
            ..self
        };
        match m.error {
            Some(e) => AppV { state: AppStateV::Error(e), ..a },
            None => if m.paused && !(a.state is Paused) {
                AppV { state: AppStateV::Paused, ..a }
            } else if !m.paused && (a.state is Buffering || a.state is Playing) {
                AppV { state: AppStateV::Playing, ..a }
            } else {
                a
            },
        }
    }

    /// One tick of the buffering clock with `ticks` counted before it: while
    /// buffering, the count goes up by one, the seconds shown are the count
    /// over six (at most 255), and after sixty ticks playback is assumed.
    pub open spec fn tick_buffering(self, ticks: i32) -> (AppV, i32) {
        if self.state is Buffering {
            let t = ticks + 1;
            let secs: u8 = if t / 6 <= 255 {
                (t / 6) as u8
            } else {
                255
            };
            (
                AppV {
                    buffering_timer: secs,
                    status_msg: "Buffering stream... ("@ + decimal_spec(secs as nat) + "s)"@,
                    state: if t > 60 {
                        AppStateV::Playing
                    } else {
                        self.state
                    },
                    needs_redraw: true,
                    ..self
                },
                t as i32,
            )
        } else {
            (self, ticks)
        }
    }

    /// The clock at `now`: the splash screen closes once it has been shown
    /// long enough, and an expired sleep timer ends the run.
    pub open spec fn advance_clock_at(self, now: u128) -> AppV {
        let a = if self.show_splash && AppV::splash_done_at(now) {
            AppV { show_splash: false, needs_redraw: true, ..self }
        } else {
            self
        };
        if a.timer_expired_at(now) {
            AppV { quit: true, ..a }
        } else {
            a
        }
    }
}

/// The user's own stations among `s`, as the settings keep them, in order.
pub open spec fn customs_saved(s: Seq<StationV>) -> Seq<SavedStationV>
    decreases s.len(),
{
    if s.len() == 0 {
        Seq::empty()
    } else if s.last().is_custom {
        customs_saved(s.drop_last()).push(SavedStationV { name: s.last().name, url: s.last().url })
    } else {
        customs_saved(s.drop_last())
    }
}

/// The settings that the state gives: its volume, the URL of the playing
/// station, its favorites and the user's own stations.
pub open spec fn config_of(a: AppV) -> ConfigV {
    ConfigV {
        volume: a.volume,
        last_station_url: match a.current_station_idx {
            Some(i) => Some(a.stations[i as int].url),
            None => None,
        },
        favorites: a.favorite_urls,
        custom_stations: customs_saved(a.stations),
    }
}

impl App {
    /// Handles a key event at `now` (see `AppV::key_event`); a station added
    /// through the form is also kept in the settings.
    pub fn handle_key_at(&mut self, config: &mut Config, code: KeyCode, is_press: bool, now: u128) -> (r: KeyOutcome)
        requires
            now <= max_duration_nanos(),
            !old(self)@.key_event_overflows(code, is_press),
        ensures
            ({
                let (a, flow, cmd, saved) = old(self)@.key_event(code, is_press, now);
                &&& final(self)@ == a
                &&& r.flow == flow
                &&& opt_command_view(r.command) == cmd
                &&& final(config)@ == match saved {
                    Some(sv) => ConfigV {
                        custom_stations: old(config)@.custom_stations.push(sv),
                        ..old(config)@
                    },
                    None => old(config)@,
                }
            }),
    {
        self.needs_redraw = true;
        if !is_press {
            return KeyOutcome { flow: LoopFlow::Continue, command: None };
        }
        if self.help_visible {
            self.help_visible = false;
            return KeyOutcome { flow: LoopFlow::Continue, command: None };
        }
        match self.screen {
            Screen::NowPlaying => {
                let (stop, command) = handle_now_playing_input(self, code, now);
                let flow = match stop {
                    Some(true) => LoopFlow::Break,
                    _ => LoopFlow::Proceed,
                };
                KeyOutcome { flow, command }
            },
            Screen::StationList => {
                let command = handle_station_list_input(self, config, code, now);
                KeyOutcome { flow: LoopFlow::Proceed, command }
            },
            Screen::Help => KeyOutcome { flow: LoopFlow::Proceed, command: None },
        }
    }

    /// Whether the key event would ask for a sleep timer that cannot be
    /// set; the caller must not hand such an event to `handle_key`.
    pub fn key_event_overflows(&self, code: KeyCode, is_press: bool) -> (r: bool)
        ensures
            r == self@.key_event_overflows(code, is_press),
    {
        if !is_press || self.help_visible {
            return false;
        }
        let prompt_enter = self.show_timer_prompt && code == KeyCode::Enter;
        let on_screen = match self.screen {
            Screen::NowPlaying => prompt_enter,
            Screen::StationList => !self.show_add_station && prompt_enter,
            Screen::Help => false,
        };
        if !on_screen {
            return false;
        }
        match crate::text::parse_u64(self.timer_input.as_str()) {
            Some(m) => m > u64::MAX / 60,
            None => false,
        }
    }

    /// Handles a key event now (see `handle_key_at`).
    pub fn handle_key(&mut self, config: &mut Config, code: KeyCode, is_press: bool) -> (r: KeyOutcome)
        requires
            !old(self)@.key_event_overflows(code, is_press),
        ensures
            exists|now: u128|
                {
                    let (a, flow, cmd, saved) = #[trigger] old(self)@.key_event(code, is_press, now);
                    &&& final(self)@ == a
                    &&& r.flow == flow
                    &&& opt_command_view(r.command) == cmd
                    &&& final(config)@ == match saved {
                        Some(sv) => ConfigV {
                            custom_stations: old(config)@.custom_stations.push(sv),
                            ..old(config)@
                        },
                        None => old(config)@,
                    }
                },
    {
        let now = nanos_since(&self.splash_start);
        let r = self.handle_key_at(config, code, is_press, now);
        r
    }
}

impl App {
    /// Takes in a report from the player (see `AppV::apply_metadata`).
    pub fn apply_metadata(&mut self, meta: MetadataUpdate)
        ensures
            final(self)@ == old(self)@.apply_metadata(meta@),
    {
        self.needs_redraw = true;
        self.metadata = Some(
            MpvMetadata {
                title: meta.title,
                time_pos: meta.time_pos,
                duration: meta.duration,
                paused: meta.paused,
            },
        );
        match meta.error {
            Some(err) => {
                self.state = AppState::Error(err);
            },
            None => {
                let is_paused = match self.state {
                    AppState::Paused => true,
                    _ => false,
                };
                let is_live = match self.state {
                    AppState::Buffering | AppState::Playing => true,
                    _ => false,
                };
                if meta.paused && !is_paused {
                    self.state = AppState::Paused;
                } else if !meta.paused && is_live {
                    self.state = AppState::Playing;
                }
            },
        }
    }

    /// One tick of the buffering clock (see `AppV::tick_buffering`).
    pub fn tick_buffering(&mut self, buffering_ticks: &mut i32)
        requires
            0 <= *old(buffering_ticks) < i32::MAX,
        ensures
            (final(self)@, *final(buffering_ticks)) == old(self)@.tick_buffering(
                *old(buffering_ticks),
            ),
    {
        if let AppState::Buffering = self.state {
            *buffering_ticks = *buffering_ticks + 1;
            let t = *buffering_ticks / 6;
            let secs: u8 = if t <= 255 {
                t as u8
            } else {
                255
            };
            self.buffering_timer = secs;
            let mut msg = owned("Buffering stream... (");
            push_decimal(&mut msg, secs as u128);
            push_str(&mut msg, "s)");
            self.status_msg = msg;
            if *buffering_ticks > 60 {
                self.state = AppState::Playing;
            }
            self.needs_redraw = true;
        }
    }

    /// The splash screen and the sleep timer at `now` (see `AppV::advance_clock_at`).
    pub fn advance_clock_at(&mut self, now: u128)
        ensures
            final(self)@ == old(self)@.advance_clock_at(now),
    {
        if self.show_splash && Self::splash_done_at(now) {
            self.show_splash = false;
            self.needs_redraw = true;
        }
        if self.timer_expired_at(now) {
            self.quit = true;
        }
    }

    /// The splash screen and the sleep timer now.
    pub fn advance_clock(&mut self)
        ensures
            exists|now: u128| final(self)@ == old(self)@.advance_clock_at(now),
    {
        let now = nanos_since(&self.splash_start);
        self.advance_clock_at(now);
    }

    /// Writes the state's settings into `config` (see `config_of`).
    pub fn write_config(&self, config: &mut Config)
        requires
            self@.current_in_range(),
        ensures
            final(config)@ == config_of(self@),
    {
        config.volume = self.volume;
        config.last_station_url = match self.current_station() {
            Some(s) => Some(s.url.clone()),
            None => None,
        };
        let mut favorites: Vec<String> = Vec::new();
        let mut i: usize = 0;
        while i < self.favorite_urls.len()
            invariant
                i <= self.favorite_urls.len(),
                strings_view(favorites@) == strings_view(self.favorite_urls@).take(i as int),
            decreases self.favorite_urls.len() - i,
        {
            let ghost before = favorites@;
            let f = self.favorite_urls[i].clone();
            favorites.push(f);
            assert(strings_view(favorites@) =~= strings_view(before).push(f@));
            assert(strings_view(favorites@) =~= strings_view(self.favorite_urls@).take(i + 1));
            i = i + 1;
        }
        assert(strings_view(self.favorite_urls@).take(i as int) =~= strings_view(self.favorite_urls@));
        config.favorites = favorites;
        let mut customs: Vec<SavedStation> = Vec::new();
        let mut j: usize = 0;
        while j < self.stations.len()
            invariant
                j <= self.stations.len(),
                saved_view(customs@) == customs_saved(self@.stations.take(j as int)),
            decreases self.stations.len() - j,
        {
            let ghost t = self@.stations.take(j + 1);
            assert(t.drop_last() =~= self@.stations.take(j as int));
            assert(t.last() == self.stations@[j as int]@);
            if self.stations[j].is_custom {
                let saved = SavedStation {
                    name: self.stations[j].name.clone(),
                    url: self.stations[j].url.clone(),
                };
                let ghost before = customs@;
                customs.push(saved);
                assert(saved_view(customs@) =~= saved_view(before).push(saved@));
            }
            j = j + 1;
        }
        assert(self@.stations.take(j as int) =~= self@.stations);
        config.custom_stations = customs;
        assert(config@ =~= config_of(self@));
    }

    /// Where the settings changed, writes them into `config`, clears the
    /// mark and answers that they are to be saved.
    pub fn sync_config(&mut self, config: &mut Config) -> (r: bool)
        requires
            old(self).config_changed ==> old(self)@.current_in_range(),
        ensures
            r == old(self).config_changed,
            final(self)@ == (AppV { config_changed: false, ..old(self)@ }),
            r ==> final(config)@ == config_of(old(self)@),
            !r ==> final(config)@ == old(config)@,
    {
        if self.config_changed {
            self.config_changed = false;
            self.write_config(config);
            true
        } else {
            false
        }
    }

    /// The station a run starts with: the one whose URL the settings name
    /// last, or the first; it is played and the player is told to start it.
    pub fn start_playback(&mut self, config: &Config) -> (r: PlayerCommand)
        requires
            old(self).stations.len() > 0,
        ensures
            ({
                let idx = match config@.last_station_url {
                    Some(u) => match crate::app::url_position(old(self)@.stations, u) {
                        Some(i) => i,
                        None => 0,
                    },
                    None => 0,
                };
                &&& final(self)@ == old(self)@.play_station(idx)
                &&& r@ == PlayerCommandV::Play(old(self)@.stations[idx as int].url, old(self).volume)
            }),
    {
        let idx = match &config.last_station_url {
            Some(u) => match crate::app::position_of_url(&self.stations, u.as_str()) {
                Some(i) => i,
                None => 0,
            },
            None => 0,
        };
        proof {
            if let Some(u) = config@.last_station_url {
                crate::app::lemma_url_position_in_range(self@.stations, u);
            }
        }
        self.play_station(idx);
        PlayerCommand::Play(self.stations[idx].url.clone(), self.volume)
    }
}

} // verus!
