//! The application state and the operations that the user's keys trigger.
use vstd::prelude::*;

use crate::clock::{clock_now, max_duration_nanos, nanos_since};
use crate::config::{opt_string_view, strings_view, Config, ConfigV, SavedStationV};
use crate::lists::{contains_string, dedup, dedup_strings, remove_string, without};
use crate::stations::{
    category_label, custom_station_view, get_preset_stations, preset_stations_view, stations_view,
    Category, Station, StationV,
};
use crate::text::{lowercase, occurs_in, owned, spec_lowercase, str_contains};

verus! {

/// The screen that is shown.
#[derive(Clone, Copy, PartialEq, Eq, Debug, Structural)]
pub enum Screen {
    NowPlaying,
    StationList,
    Help,
}

/// Where playback stands.
#[derive(Clone, Debug)]
pub enum AppState {
    Playing,
    Paused,
    Buffering,
    Error(String),
}

impl PartialEq for AppState {
    fn eq(&self, other: &AppState) -> (r: bool) {
        match self {
            AppState::Playing => match other {
                AppState::Playing => true,
                _ => false,
            },
            AppState::Paused => match other {
                AppState::Paused => true,
                _ => false,
            },
            AppState::Buffering => match other {
                AppState::Buffering => true,
                _ => false,
            },
            AppState::Error(a) => match other {
                AppState::Error(b) => {
                    crate::text::str_eq(a.as_str(), b.as_str())
                },
                _ => false,
            },
        }
    }
}

impl vstd::std_specs::cmp::PartialEqSpecImpl for AppState {
    open spec fn obeys_eq_spec() -> bool {
        true
    }

    open spec fn eq_spec(&self, other: &AppState) -> bool {
        self@ == other@
    }
}

impl Eq for AppState {

}

/// The value of a playback state.
pub enum AppStateV {
    Playing,
    Paused,
    Buffering,
    Error(Seq<char>),
}

impl View for AppState {
    type V = AppStateV;

    open spec fn view(&self) -> AppStateV {
        match self {
            AppState::Playing => AppStateV::Playing,
            AppState::Paused => AppStateV::Paused,
            AppState::Buffering => AppStateV::Buffering,
            AppState::Error(e) => AppStateV::Error(e@),
        }
    }
}

/// What the player last reported about the stream. Position and length
/// are the bit patterns of the player's `f64` seconds (`f64::to_bits`).
#[derive(Debug)]
pub struct MpvMetadata {
    pub title: Option<String>,
    pub time_pos: Option<u64>,
    pub duration: Option<u64>,
    pub paused: bool,
}

/// The value of a stream report.
pub struct MpvMetadataV {
    pub title: Option<Seq<char>>,
    pub time_pos: Option<u64>,
    pub duration: Option<u64>,
    pub paused: bool,
}

impl View for MpvMetadata {
    type V = MpvMetadataV;

    open spec fn view(&self) -> MpvMetadataV {
        MpvMetadataV {
            title: opt_string_view(self.title),
            time_pos: self.time_pos,
            duration: self.duration,
            paused: self.paused,
        }
    }
}

/// The value of an optional stream report.
pub open spec fn opt_metadata_view(m: Option<MpvMetadata>) -> Option<MpvMetadataV> {
    match m {
        Some(m) => Some(m@),
        None => None,
    }
}

/// The whole state of the application. Times are whole nanoseconds on the
/// monotonic clock, counted from `splash_start`, the moment the state was made.
pub struct App {
    pub screen: Screen,
    pub state: AppState,
    pub stations: Vec<Station>,
    pub selected_idx: usize,
    pub current_station_idx: Option<usize>,
    /// URLs of the favorite stations; no URL occurs twice.
    pub favorite_urls: Vec<String>,
    pub metadata: Option<MpvMetadata>,
    pub volume: u8,
    pub quit: bool,
    pub status_msg: String,
    pub play_time_str: String,
    pub buffering_timer: u8,
    pub help_visible: bool,
    pub search_query: String,
    pub is_searching: bool,
    pub show_timer_prompt: bool,
    pub timer_input: String,
    pub sleep_timer_end: Option<u128>,
    pub show_add_station: bool,
    pub add_station_name: String,
    pub add_station_url: String,
    pub add_station_focus: bool,
    /// URLs of the stations played, first play first; no URL occurs twice.
    pub history: Vec<String>,
    pub filter_category: Option<Category>,
    pub show_splash: bool,
    pub splash_start: std::time::Instant,
    pub config_changed: bool,
    pub needs_redraw: bool,
}

/// The value of the application state.
#[verifier::ext_equal]
pub struct AppV {
    pub screen: Screen,
    pub state: AppStateV,
    pub stations: Seq<StationV>,
    pub selected_idx: usize,
    pub current_station_idx: Option<usize>,
    pub favorite_urls: Seq<Seq<char>>,
    pub metadata: Option<MpvMetadataV>,
    pub volume: u8,
    pub quit: bool,
    pub status_msg: Seq<char>,
    pub play_time_str: Seq<char>,
    pub buffering_timer: u8,
    pub help_visible: bool,
    pub search_query: Seq<char>,
    pub is_searching: bool,
    pub show_timer_prompt: bool,
    pub timer_input: Seq<char>,
    pub sleep_timer_end: Option<u128>,
    pub show_add_station: bool,
    pub add_station_name: Seq<char>,
    pub add_station_url: Seq<char>,
    pub add_station_focus: bool,
    pub history: Seq<Seq<char>>,
    pub filter_category: Option<Category>,
    pub show_splash: bool,
    pub splash_start: std::time::Instant,
    pub config_changed: bool,
    pub needs_redraw: bool,
}

impl View for App {
    type V = AppV;

    open spec fn view(&self) -> AppV {
        AppV {
            screen: self.screen,
            state: self.state@,
            stations: stations_view(self.stations@),
            selected_idx: self.selected_idx,
            current_station_idx: self.current_station_idx,
            favorite_urls: strings_view(self.favorite_urls@),
            metadata: opt_metadata_view(self.metadata),
            volume: self.volume,
            quit: self.quit,
            status_msg: self.status_msg@,
            play_time_str: self.play_time_str@,
            buffering_timer: self.buffering_timer,
            help_visible: self.help_visible,
            search_query: self.search_query@,
            is_searching: self.is_searching,
            show_timer_prompt: self.show_timer_prompt,
            timer_input: self.timer_input@,
            sleep_timer_end: self.sleep_timer_end,
            show_add_station: self.show_add_station,
            add_station_name: self.add_station_name@,
            add_station_url: self.add_station_url@,
            add_station_focus: self.add_station_focus,
            history: strings_view(self.history@),
            filter_category: self.filter_category,
            show_splash: self.show_splash,
            splash_start: self.splash_start,
            config_changed: self.config_changed,
            needs_redraw: self.needs_redraw,
        }
    }
}

/// Nanoseconds in a minute.
pub open spec fn nanos_per_minute() -> int {
    60_000_000_000
}

/// The splash screen shows for this many nanoseconds.
pub open spec fn splash_nanos() -> int {
    1_200_000_000
}

/// A station passes the search filter (already lowercased) and the category filter.
pub open spec fn station_visible(st: StationV, filter: Seq<char>, cat: Option<Category>) -> bool {
    &&& (filter.len() == 0 || occurs_in(spec_lowercase(st.name), filter) || occurs_in(
        spec_lowercase(category_label(st.category)),
        filter,
    ))
    &&& (cat matches Some(c) ==> st.category == c)
}

/// Indices below `n` of the stations that pass both filters, in increasing order.
pub open spec fn visible_upto(
    stations: Seq<StationV>,
    filter: Seq<char>,
    cat: Option<Category>,
    n: int,
) -> Seq<usize>
    decreases n,
{
    if n <= 0 {
        Seq::empty()
    } else if station_visible(stations[n - 1], filter, cat) {
        visible_upto(stations, filter, cat, n - 1).push((n - 1) as usize)
    } else {
        visible_upto(stations, filter, cat, n - 1)
    }
}

/// The index of the first station with the given URL.
pub open spec fn url_position(stations: Seq<StationV>, url: Seq<char>) -> Option<usize>
    decreases stations.len(),
{
    if stations.len() == 0 {
        None
    } else {
        match url_position(stations.drop_last(), url) {
            Some(i) => Some(i),
            None => if stations.last().url == url {
                Some((stations.len() - 1) as usize)
            } else {
                None
            },
        }
    }
}

/// The stations named by saved entries, as the user's own.
pub open spec fn saved_to_stations(s: Seq<SavedStationV>) -> Seq<StationV> {
    s.map_values(|x: SavedStationV| custom_station_view(x.name, x.url))
}

/// The state a run starts in, from its settings and the moment it starts.
pub open spec fn new_app_view(c: ConfigV, start: std::time::Instant) -> AppV {
    let stations = preset_stations_view() + saved_to_stations(c.custom_stations);
    AppV {
        screen: Screen::NowPlaying,
        state: AppStateV::Buffering,
        stations,
        selected_idx: match c.last_station_url {
            Some(u) => match url_position(stations, u) {
                Some(i) => i,
                None => 0,
            },
            None => 0,
        },
        current_station_idx: None,
        favorite_urls: dedup(c.favorites),
        metadata: None,
        volume: c.volume,
        quit: false,
        status_msg: "Buffering ..."@,
        play_time_str: "00:00 / 00:00"@,
        buffering_timer: 0,
        help_visible: false,
        search_query: Seq::empty(),
        is_searching: false,
        show_timer_prompt: false,
        timer_input: Seq::empty(),
        sleep_timer_end: None,
        show_add_station: false,
        add_station_name: Seq::empty(),
        add_station_url: Seq::empty(),
        add_station_focus: false,
        history: Seq::empty(),
        filter_category: None,
        show_splash: true,
        splash_start: start,
        config_changed: false,
        needs_redraw: true,
    }
}

impl AppV {
    /// The indices of the stations the list shows.
    pub open spec fn visible(self) -> Seq<usize> {
        visible_upto(
            self.stations,
            spec_lowercase(self.search_query),
            self.filter_category,
            self.stations.len() as int,
        )
    }

    /// The index of the playing station refers to a station.
    pub open spec fn current_in_range(self) -> bool {
        self.current_station_idx matches Some(i) ==> i < self.stations.len()
    }

    /// What every operation keeps: no URL is twice a favorite or twice in
    /// the history; the built-in stations come first, in catalogue order,
    /// and every station after them is one of the user's own, filed under Lofi.
    pub open spec fn wf(self) -> bool {
        &&& self.favorite_urls.no_duplicates()
        &&& self.history.no_duplicates()
        &&& self.stations.len() >= preset_stations_view().len()
        &&& self.stations.take(preset_stations_view().len() as int) == preset_stations_view()
        &&& forall|i: int|
            preset_stations_view().len() <= i < self.stations.len() ==> #[trigger] self.stations[i]
                == custom_station_view(self.stations[i].name, self.stations[i].url)
    }

    pub open spec fn volume_up(self) -> AppV {
        if self.volume < 100 {
            AppV {
                volume: if self.volume + 5 <= 100 {
                    (self.volume + 5) as u8
                } else {
                    100
                },
                config_changed: true,
                ..self
            }
        } else {
            self
        }
    }

    pub open spec fn volume_down(self) -> AppV {
        if self.volume > 0 {
            AppV {
                volume: if self.volume >= 5 {
                    (self.volume - 5) as u8
                } else {
                    0
                },
                config_changed: true,
                ..self
            }
        } else {
            self
        }
    }

    pub open spec fn toggle_pause(self) -> AppV {
        match self.state {
            AppStateV::Playing => AppV { state: AppStateV::Paused, ..self },
            AppStateV::Paused => AppV { state: AppStateV::Playing, ..self },
            _ => self,
        }
    }

    pub open spec fn select_next(self) -> AppV {
        let n = self.visible().len();
        if n > 0 {
            let clamped = if self.selected_idx <= n - 1 {
                self.selected_idx as int
            } else {
                n - 1
            };
            AppV {
                selected_idx: (if clamped + 1 <= n - 1 {
                    clamped + 1
                } else {
                    n - 1
                }) as usize,
                ..self
            }
        } else {
            AppV { selected_idx: 0, ..self }
        }
    }

    pub open spec fn select_prev(self) -> AppV {
        let n = self.visible().len();
        let clamped = if n > 0 && self.selected_idx > n - 1 {
            n - 1
        } else {
            self.selected_idx as int
        };
        AppV {
            selected_idx: (if clamped >= 1 {
                clamped - 1
            } else {
                0
            }) as usize,
            ..self
        }
    }

    /// The favorites after toggling the URL `url`.
    pub open spec fn toggled(favs: Seq<Seq<char>>, url: Seq<char>) -> Seq<Seq<char>> {
        if favs.contains(url) {
            without(favs, url)
        } else {
            favs.push(url)
        }
    }

    pub open spec fn toggle_favorite(self) -> AppV {
        let vis = self.visible();
        if self.selected_idx < vis.len() {
            let url = self.stations[vis[self.selected_idx as int] as int].url;
            AppV {
                favorite_urls: AppV::toggled(self.favorite_urls, url),
                config_changed: true,
                ..self
            }
        } else {
            self
        }
    }

    pub open spec fn play_station(self, idx: usize) -> AppV {
        let url = self.stations[idx as int].url;
        AppV {
            current_station_idx: Some(idx),
            state: AppStateV::Buffering,
            buffering_timer: 0,
            status_msg: "Buffering ..."@,
            play_time_str: "00:00 / 00:00"@,
            metadata: None,
            config_changed: true,
            history: if self.history.contains(url) {
                self.history
            } else {
                self.history.push(url)
            },
            ..self
        }
    }

    pub open spec fn add_custom_station(self, name: Seq<char>, url: Seq<char>) -> AppV {
        AppV {
            stations: self.stations.push(custom_station_view(name, url)),
            config_changed: true,
            ..self
        }
    }

    pub open spec fn delete_selected_station(self) -> AppV {
        let vis = self.visible();
        if self.selected_idx < vis.len() {
            let idx = vis[self.selected_idx as int] as int;
            if idx < self.stations.len() && self.stations[idx].is_custom {
                AppV {
                    stations: self.stations.remove(idx),
                    selected_idx: if self.selected_idx >= 1 {
                        (self.selected_idx - 1) as usize
                    } else {
                        0
                    },
                    config_changed: true,
                    ..self
                }
            } else {
                self
            }
        } else {
            self
        }
    }

    pub open spec fn set_timer_at(self, minutes: u64, now: u128) -> AppV {
        AppV { sleep_timer_end: Some((now + minutes * nanos_per_minute()) as u128), ..self }
    }

    pub open spec fn clear_timer(self) -> AppV {
        AppV { sleep_timer_end: None, ..self }
    }

    pub open spec fn timer_expired_at(self, now: u128) -> bool {
        self.sleep_timer_end matches Some(end) && now >= end
    }

    pub open spec fn remaining_sleep_time_at(self, now: u128) -> Option<u128> {
        match self.sleep_timer_end {
            Some(end) => Some(
                if end >= now {
                    (end - now) as u128
                } else {
                    0
                },
            ),
            None => None,
        }
    }

    pub open spec fn splash_done_at(now: u128) -> bool {
        now > splash_nanos()
    }
}


proof fn lemma_url_position_extend(s: Seq<StationV>, k: int, url: Seq<char>)
    requires
        0 <= k <= s.len(),
        url_position(s.take(k), url) is Some,
    ensures
        url_position(s, url) == url_position(s.take(k), url),
    decreases s.len() - k,
{
    if k < s.len() {
        assert(s.take(k + 1).take(k) =~= s.take(k));
        assert(s.take(k + 1).drop_last() =~= s.take(k));
        lemma_url_position_extend(s, k + 1, url);
    } else {
        assert(s.take(k) =~= s);
    }
}

/// The index of the first station whose URL is `url`.
pub fn position_of_url(stations: &Vec<Station>, url: &str) -> (r: Option<usize>)
    ensures
        r == url_position(stations_view(stations@), url@),
{
    let ghost sv = stations_view(stations@);
    let mut i: usize = 0;
    while i < stations.len()
        invariant
            sv == stations_view(stations@),
            i <= stations.len(),
            url_position(sv.take(i as int), url@) is None,
        decreases stations.len() - i,
    {
        assert(sv.take(i + 1).drop_last() =~= sv.take(i as int));
        if crate::text::str_eq(stations[i].url.as_str(), url) {
            assert(url_position(sv.take(i + 1), url@) == Some(i));
            proof {
                lemma_url_position_extend(sv, i + 1, url@);
            }
            return Some(i);
        }
        i = i + 1;
    }
    assert(sv.take(i as int) =~= sv);
    None
}

impl App {
    /// The state a run starts in: the built-in stations followed by the
    /// user's own from the settings, the favorites from the settings, the
    /// last played station selected, the settings' volume, buffering.
    pub fn new(config: &Config) -> (r: App)
        ensures
            r@ == new_app_view(config@, r.splash_start),
    {
        let mut stations = get_preset_stations();
        let mut i: usize = 0;
        while i < config.custom_stations.len()
            invariant
                i <= config.custom_stations.len(),
                stations_view(stations@) == preset_stations_view() + saved_to_stations(
                    config@.custom_stations.take(i as int),
                ),
            decreases config.custom_stations.len() - i,
        {
            let saved = &config.custom_stations[i];
            let ghost before = stations@;
            let st = Station::new_custom(saved.name.as_str(), saved.url.as_str());
            stations.push(st);
            assert(stations_view(stations@) =~= stations_view(before).push(st@));
            assert(config@.custom_stations[i as int] == saved@);
            assert(config@.custom_stations.take(i + 1) =~= config@.custom_stations.take(
                i as int,
            ).push(config@.custom_stations[i as int]));
            assert(saved_to_stations(config@.custom_stations.take(i + 1)) =~= saved_to_stations(
                config@.custom_stations.take(i as int),
            ).push(
                custom_station_view(
                    config@.custom_stations[i as int].name,
                    config@.custom_stations[i as int].url,
                ),
            ));
            assert(stations_view(stations@) =~= preset_stations_view() + saved_to_stations(
                config@.custom_stations.take(i + 1),
            ));
            i = i + 1;
        }
        assert(config@.custom_stations.take(i as int) =~= config@.custom_stations);
        let favorite_urls = dedup_strings(&config.favorites);
        let selected_idx = match &config.last_station_url {
            Some(u) => match position_of_url(&stations, u.as_str()) {
                Some(k) => k,
                None => 0,
            },
            None => 0,
        };
        let r = App {
            screen: Screen::NowPlaying,
            state: AppState::Buffering,
            stations,
            selected_idx,
            current_station_idx: None,
            favorite_urls,
            metadata: None,
            volume: config.volume,
            quit: false,
            status_msg: owned("Buffering ..."),
            play_time_str: owned("00:00 / 00:00"),
            buffering_timer: 0,
            help_visible: false,
            search_query: String::new(),
            is_searching: false,
            show_timer_prompt: false,
            timer_input: String::new(),
            sleep_timer_end: None,
            show_add_station: false,
            add_station_name: String::new(),
            add_station_url: String::new(),
            add_station_focus: false,
            history: Vec::new(),
            filter_category: None,
            show_splash: true,
            splash_start: clock_now(),
            config_changed: false,
            needs_redraw: true,
        };
        assert(r@ =~= new_app_view(config@, r.splash_start));
        r
    }
}


impl App {
    /// The station that is playing, if any.
    pub fn current_station(&self) -> (r: Option<&Station>)
        requires
            self@.current_in_range(),
        ensures
            match self.current_station_idx {
                Some(i) => r matches Some(st) && st@ == self@.stations[i as int],
                None => r is None,
            },
    {
        match self.current_station_idx {
            Some(i) => Some(&self.stations[i]),
            None => None,
        }
    }

    /// Five steps louder, up to 100; a volume of 100 or more is left as it is.
    pub fn volume_up(&mut self)
        ensures
            final(self)@ == old(self)@.volume_up(),
    {
        if self.volume < 100 {
            self.volume = if self.volume + 5 <= 100 {
                self.volume + 5
            } else {
                100
            };
            self.config_changed = true;
        }
    }

    /// Five steps quieter, down to 0.
    pub fn volume_down(&mut self)
        ensures
            final(self)@ == old(self)@.volume_down(),
    {
        if self.volume > 0 {
            self.volume = self.volume.saturating_sub(5);
            self.config_changed = true;
        }
    }

    /// Playing becomes paused and paused becomes playing; other states stay.
    pub fn toggle_pause(&mut self)
        ensures
            final(self)@ == old(self)@.toggle_pause(),
    {
        match self.state {
            AppState::Playing => self.state = AppState::Paused,
            AppState::Paused => self.state = AppState::Playing,
            _ => {},
        }
    }

    /// Whether station `st` passes the (lowercased) search filter and the category filter.
    fn station_passes(&self, st: &Station, filter: &str) -> (r: bool)
        ensures
            r == station_visible(st@, filter@, self.filter_category),
    {
        let matches_filter = if filter.is_empty() {
            true
        } else {
            let name = lowercase(st.name.as_str());
            if str_contains(name.as_str(), filter) {
                true
            } else {
                let cat = lowercase(st.category.label());
                str_contains(cat.as_str(), filter)
            }
        };
        let matches_cat = match &self.filter_category {
            Some(c) => st.category == *c,
            None => true,
        };
        matches_filter && matches_cat
    }

    /// The indices of the stations whose lowercased name or category holds
    /// `filter` (a search text already lowercased) and that are in the
    /// chosen category, in order.
    pub fn visible_stations_for(&self, filter: &str) -> (r: Vec<usize>)
        ensures
            r@ == visible_upto(
                self@.stations,
                filter@,
                self.filter_category,
                self@.stations.len() as int,
            ),
    {
        let ghost sv = self@.stations;
        let mut out: Vec<usize> = Vec::new();
        let mut i: usize = 0;
        while i < self.stations.len()
            invariant
                sv == self@.stations,
                i <= self.stations.len(),
                out@ == visible_upto(sv, filter@, self.filter_category, i as int),
            decreases self.stations.len() - i,
        {
            assert(sv[i as int] == self.stations@[i as int]@);
            if self.station_passes(&self.stations[i], filter) {
                out.push(i);
            }
            i = i + 1;
        }
        out
    }

    /// The indices of the stations whose lowercased name or category holds
    /// the lowercased search text and that are in the chosen category, in order.
    pub fn visible_stations(&self) -> (r: Vec<usize>)
        ensures
            r@ == self@.visible(),
    {
        let filter = lowercase(self.search_query.as_str());
        self.visible_stations_for(filter.as_str())
    }

    /// Moves the selection one down the visible list, stopping at its end.
    pub fn select_next(&mut self)
        ensures
            final(self)@ == old(self)@.select_next(),
    {
        let visible = self.visible_stations();
        if visible.len() > 0 {
            let last = visible.len() - 1;
            let clamped = if self.selected_idx <= last {
                self.selected_idx
            } else {
                last
            };
            self.selected_idx = if clamped + 1 <= last {
                clamped + 1
            } else {
                last
            };
        } else {
            self.selected_idx = 0;
        }
    }

    /// Moves the selection one up the visible list, stopping at its start.
    pub fn select_prev(&mut self)
        ensures
            final(self)@ == old(self)@.select_prev(),
    {
        let visible = self.visible_stations();
        if visible.len() > 0 && self.selected_idx > visible.len() - 1 {
            self.selected_idx = visible.len() - 1;
        }
        self.selected_idx = self.selected_idx.saturating_sub(1);
    }
}


impl App {
    /// Adds the selected visible station's URL to the favorites, or takes
    /// it out where it is there already.
    pub fn toggle_favorite(&mut self)
        ensures
            final(self)@ == old(self)@.toggle_favorite(),
    {
        let visible = self.visible_stations();
        if self.selected_idx < visible.len() {
            let idx = visible[self.selected_idx];
            proof {
                lemma_visible_in_range(self@.stations, spec_lowercase(self@.search_query), self.filter_category, self@.stations.len() as int);
            }
            let url = self.stations[idx].url.clone();
            if contains_string(&self.favorite_urls, url.as_str()) {
                self.favorite_urls = remove_string(&self.favorite_urls, url.as_str());
            } else {
                let ghost before = self.favorite_urls@;
                self.favorite_urls.push(url);
                assert(strings_view(self.favorite_urls@) =~= strings_view(before).push(url@));
            }
            self.config_changed = true;
        }
    }

    /// Whether the station at `idx` is a favorite.
    pub fn is_favorite(&self, idx: usize) -> (r: bool)
        requires
            idx < self.stations.len(),
        ensures
            r == self@.favorite_urls.contains(self@.stations[idx as int].url),
    {
        contains_string(&self.favorite_urls, self.stations[idx].url.as_str())
    }

    /// Starts the station at `idx`: it becomes the current one, playback is
    /// buffering again, the stream report is dropped, and its URL joins the
    /// history unless it is there already.
    pub fn play_station(&mut self, station_idx: usize)
        requires
            station_idx < old(self).stations.len(),
        ensures
            final(self)@ == old(self)@.play_station(station_idx),
    {
        self.current_station_idx = Some(station_idx);
        self.state = AppState::Buffering;
        self.buffering_timer = 0;
        self.status_msg = owned("Buffering ...");
        self.play_time_str = owned("00:00 / 00:00");
        self.metadata = None;
        self.config_changed = true;
        let url = self.stations[station_idx].url.clone();
        if !contains_string(&self.history, url.as_str()) {
            let ghost before = self.history@;
            self.history.push(url);
            assert(strings_view(self.history@) =~= strings_view(before).push(url@));
        }
    }

    /// Appends a station of the user's own.
    pub fn add_custom_station(&mut self, name: &str, url: &str)
        ensures
            final(self)@ == old(self)@.add_custom_station(name@, url@),
    {
        let station = Station::new_custom(name, url);
        let ghost before = self.stations@;
        self.stations.push(station);
        assert(stations_view(self.stations@) =~= stations_view(before).push(station@));
        self.config_changed = true;
    }

    /// Removes the selected visible station where it is one of the user's
    /// own, and moves the selection one up.
    pub fn delete_selected_station(&mut self)
        ensures
            final(self)@ == old(self)@.delete_selected_station(),
    {
        let visible = self.visible_stations();
        if self.selected_idx < visible.len() {
            let idx = visible[self.selected_idx];
            if idx < self.stations.len() && self.stations[idx].is_custom {
                let ghost before = self.stations@;
                self.stations.remove(idx);
                assert(stations_view(self.stations@) =~= stations_view(before).remove(idx as int));
                self.selected_idx = self.selected_idx.saturating_sub(1);
                self.config_changed = true;
            }
        }
    }

    /// Sets the sleep timer to end `minutes` minutes after `now`.
    pub fn set_timer_at(&mut self, minutes: u64, now: u128)
        requires
            minutes <= u64::MAX / 60,
            now <= max_duration_nanos(),
        ensures
            final(self)@ == old(self)@.set_timer_at(minutes, now),
    {
        let span: u128 = minutes as u128 * 60_000_000_000u128;
        self.sleep_timer_end = Some(now + span);
    }

    /// Sets the sleep timer to end `minutes` minutes from now.
    pub fn set_timer(&mut self, minutes: u64)
        requires
            minutes <= u64::MAX / 60,
        ensures
            exists|now: u128| final(self)@ == old(self)@.set_timer_at(minutes, now),
    {
        let now = nanos_since(&self.splash_start);
        self.set_timer_at(minutes, now);
    }

    /// How long the sleep timer still runs at `now`; zero once it has ended.
    pub fn remaining_sleep_time_at(&self, now: u128) -> (r: Option<u128>)
        ensures
            r == self@.remaining_sleep_time_at(now),
    {
        match self.sleep_timer_end {
            Some(end) => Some(end.saturating_sub(now)),
            None => None,
        }
    }

    /// How long the sleep timer still runs, in nanoseconds.
    pub fn remaining_sleep_time(&self) -> (r: Option<u128>)
        ensures
            exists|now: u128| r == self@.remaining_sleep_time_at(now),
    {
        let now = nanos_since(&self.splash_start);
        self.remaining_sleep_time_at(now)
    }

    /// Switches the sleep timer off.
    pub fn clear_timer(&mut self)
        ensures
            final(self)@ == old(self)@.clear_timer(),
    {
        self.sleep_timer_end = None;
    }

    /// Whether the sleep timer has run out at `now`.
    pub fn timer_expired_at(&self, now: u128) -> (r: bool)
        ensures
            r == self@.timer_expired_at(now),
    {
        match self.sleep_timer_end {
            Some(end) => now >= end,
            None => false,
        }
    }

    /// Whether the sleep timer has run out.
    pub fn timer_expired(&self) -> (r: bool)
        ensures
            exists|now: u128| r == self@.timer_expired_at(now),
            self.sleep_timer_end is None ==> !r,
    {
        let now = nanos_since(&self.splash_start);
        self.timer_expired_at(now)
    }

    /// Whether the splash screen has been shown long enough at `now`.
    pub fn splash_done_at(now: u128) -> (r: bool)
        ensures
            r == AppV::splash_done_at(now),
    {
        now > 1_200_000_000
    }

    /// Whether the splash screen has been shown long enough.
    pub fn splash_done(&self) -> (r: bool)
        ensures
            exists|now: u128| r == AppV::splash_done_at(now),
    {
        let now = nanos_since(&self.splash_start);
        Self::splash_done_at(now)
    }

    /// Whether the search field takes the keys.
    pub fn is_searching(&self) -> (r: bool)
        ensures
            r == self.is_searching,
    {
        self.is_searching
    }
}

pub proof fn lemma_visible_in_range(
    stations: Seq<StationV>,
    filter: Seq<char>,
    cat: Option<Category>,
    n: int,
)
    requires
        n <= stations.len(),
    ensures
        forall|k: int|
            0 <= k < visible_upto(stations, filter, cat, n).len() ==> #[trigger] visible_upto(
                stations,
                filter,
                cat,
                n,
            )[k] < n,
    decreases n,
{
    if n > 0 {
        lemma_visible_in_range(stations, filter, cat, n - 1);
        let prev = visible_upto(stations, filter, cat, n - 1);
        let cur = visible_upto(stations, filter, cat, n);
        assert forall|k: int| 0 <= k < cur.len() implies #[trigger] cur[k] < n by {
            if k < prev.len() {
                assert(cur[k] == prev[k]);
            }
        }
    }
}

pub proof fn lemma_url_position_in_range(s: Seq<StationV>, url: Seq<char>)
    requires
        s.len() <= usize::MAX,
    ensures
        url_position(s, url) matches Some(i) ==> i < s.len() && s[i as int].url == url,
    decreases s.len(),
{
    if s.len() > 0 {
        lemma_url_position_in_range(s.drop_last(), url);
        if let Some(i) = url_position(s.drop_last(), url) {
            assert(s[i as int] == s.drop_last()[i as int]);
        }
    }
}

} // verus!
