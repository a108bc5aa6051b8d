//! What holds across the operations of the library.
use vstd::prelude::*;

use crate::app::{new_app_view, saved_to_stations, url_position, AppStateV, AppV, MpvMetadataV};
use crate::session::{config_of, customs_saved};
use crate::config::ConfigV;
use crate::events::KeyCode;
use crate::lists::{
    lemma_dedup_props, lemma_push_no_duplicates, lemma_without_absent,
    lemma_without_contains, lemma_without_no_duplicates, without,
};
use crate::player::{MetadataUpdateV, PlayerCommandV};
use crate::text::{all_digits, decimal_spec, digit_char, digits_value, is_digit, parse_u64_spec};
use crate::stations::{category_label, custom_station_view, preset_stations_view, StationV};
use crate::text::spec_lowercase;
use crate::ui::state_label_spec;

verus! {

/// A state made from any settings is well formed: no favorite or history
/// entry twice, the built-in stations first and the user's own after them.
pub proof fn law_new_app_wf(c: ConfigV, start: std::time::Instant)
    ensures
        new_app_view(c, start).wf(),
{
    let a = new_app_view(c, start);
    lemma_dedup_props(c.favorites);
    assert(a.stations.take(preset_stations_view().len() as int) =~= preset_stations_view());
    assert forall|i: int|
        preset_stations_view().len() <= i < a.stations.len() implies #[trigger] a.stations[i]
        == custom_station_view(a.stations[i].name, a.stations[i].url) by {
        let k = i - preset_stations_view().len();
        assert(a.stations[i] == saved_to_stations(c.custom_stations)[k]);
    }
}

proof fn lemma_favorites_toggled_no_duplicates(favs: Seq<Seq<char>>, url: Seq<char>)
    requires
        favs.no_duplicates(),
    ensures
        AppV::toggled(favs, url).no_duplicates(),
{
    if favs.contains(url) {
        lemma_without_no_duplicates(favs, url);
    } else {
        lemma_push_no_duplicates(favs, url);
    }
}

proof fn lemma_delete_keeps_stations(a: AppV)
    requires
        a.wf(),
    ensures
        a.delete_selected_station().wf(),
{
    let vis = a.visible();
    if a.selected_idx < vis.len() {
        let idx = vis[a.selected_idx as int] as int;
        if idx < a.stations.len() && a.stations[idx].is_custom {
            let n = preset_stations_view().len() as int;
            if idx < n {
                assert(a.stations.take(n)[idx] == preset_stations_view()[idx]);
            }
            assert(idx >= n);
            let b = a.delete_selected_station();
            assert(b.stations.take(n) =~= a.stations.take(n));
            assert forall|i: int| n <= i < b.stations.len() implies #[trigger] b.stations[i]
                == custom_station_view(b.stations[i].name, b.stations[i].url) by {
                if i < idx {
                    assert(b.stations[i] == a.stations[i]);
                } else {
                    assert(b.stations[i] == a.stations[i + 1]);
                }
            }
        }
    }
}

proof fn lemma_add_keeps_stations(a: AppV, name: Seq<char>, url: Seq<char>)
    requires
        a.wf(),
    ensures
        a.add_custom_station(name, url).wf(),
{
    let n = preset_stations_view().len() as int;
    let b = a.add_custom_station(name, url);
    assert(b.stations.take(n) =~= a.stations.take(n));
    assert forall|i: int| n <= i < b.stations.len() implies #[trigger] b.stations[i]
        == custom_station_view(b.stations[i].name, b.stations[i].url) by {
        if i < a.stations.len() {
            assert(b.stations[i] == a.stations[i]);
        }
    }
}

proof fn lemma_play_keeps_history(a: AppV, idx: usize)
    requires
        a.wf(),
    ensures
        a.play_station(idx).wf(),
{
    let url = a.stations[idx as int].url;
    if !a.history.contains(url) {
        lemma_push_no_duplicates(a.history, url);
    }
}

/// Every operation on the state keeps it well formed (see `AppV::wf`).
pub proof fn law_operations_keep_wf(a: AppV, idx: usize, name: Seq<char>, url: Seq<char>, minutes: u64, now: u128)
    requires
        a.wf(),
    ensures
        a.volume_up().wf(),
        a.volume_down().wf(),
        a.toggle_pause().wf(),
        a.select_next().wf(),
        a.select_prev().wf(),
        a.toggle_favorite().wf(),
        a.play_station(idx).wf(),
        a.add_custom_station(name, url).wf(),
        a.delete_selected_station().wf(),
        a.set_timer_at(minutes, now).wf(),
        a.clear_timer().wf(),
{
    let vis = a.visible();
    if a.selected_idx < vis.len() {
        lemma_favorites_toggled_no_duplicates(
            a.favorite_urls,
            a.stations[vis[a.selected_idx as int] as int].url,
        );
    }
    lemma_play_keeps_history(a, idx);
    lemma_add_keeps_stations(a, name, url);
    lemma_delete_keeps_stations(a);
}

proof fn lemma_play_selected_wf(a: AppV)
    requires
        a.wf(),
    ensures
        a.play_selected().0.wf(),
{
    let vis = a.visible();
    if a.selected_idx < vis.len() {
        lemma_play_keeps_history(a, vis[a.selected_idx as int]);
    }
}

proof fn lemma_now_playing_wf(a: AppV, code: KeyCode, now: u128)
    requires
        a.wf(),
    ensures
        a.now_playing_key(code, now).0.wf(),
{
    law_operations_keep_wf(a, 0, Seq::empty(), Seq::empty(), 0, now);
}

proof fn lemma_station_list_wf(a: AppV, code: KeyCode, now: u128)
    requires
        a.wf(),
    ensures
        a.station_list_key(code, now).0.wf(),
{
    law_operations_keep_wf(a, 0, a.add_station_name, a.add_station_url, 0, now);
    lemma_play_selected_wf(a);
    let b = AppV { is_searching: false, search_query: Seq::empty(), ..a.play_selected().0 };
    assert(b.wf());
}

/// Every key event keeps the state well formed.
pub proof fn law_key_event_keeps_wf(a: AppV, code: KeyCode, is_press: bool, now: u128)
    requires
        a.wf(),
    ensures
        a.key_event(code, is_press, now).0.wf(),
{
    let b = AppV { needs_redraw: true, ..a };
    lemma_now_playing_wf(b, code, now);
    lemma_station_list_wf(b, code, now);
}

/// Player reports, buffering ticks and the clock keep the state well formed.
pub proof fn law_background_keeps_wf(a: AppV, m: MetadataUpdateV, ticks: i32, now: u128)
    requires
        a.wf(),
    ensures
        a.apply_metadata(m).wf(),
        a.tick_buffering(ticks).0.wf(),
        a.advance_clock_at(now).wf(),
{
}

/// Toggling the favorite of the same selection twice leaves the set of
/// favorites as it was.
pub proof fn law_toggle_favorite_twice(a: AppV)
    ensures
        a.toggle_favorite().toggle_favorite().favorite_urls.to_set() == a.favorite_urls.to_set(),
{
    let vis = a.visible();
    if a.selected_idx < vis.len() {
        let url = a.stations[vis[a.selected_idx as int] as int].url;
        let b = a.toggle_favorite();
        assert(b.visible() == vis);
        assert(b.stations == a.stations);
        let c = b.toggle_favorite();
        if a.favorite_urls.contains(url) {
            lemma_without_contains(a.favorite_urls, url, url);
            assert(c.favorite_urls == without(a.favorite_urls, url).push(url));
            assert forall|y: Seq<char>| c.favorite_urls.to_set().contains(y) <==> a.favorite_urls.to_set().contains(y) by {
                lemma_without_contains(a.favorite_urls, url, y);
                if c.favorite_urls.contains(y) && y != url {
                    let k = choose|k: int| 0 <= k < c.favorite_urls.len() && c.favorite_urls[k] == y;
                    assert(without(a.favorite_urls, url)[k] == y);
                }
                if without(a.favorite_urls, url).contains(y) {
                    let k = choose|k: int| 0 <= k < without(a.favorite_urls, url).len() && without(a.favorite_urls, url)[k] == y;
                    assert(c.favorite_urls[k] == y);
                }
                if y == url {
                    assert(c.favorite_urls[c.favorite_urls.len() - 1] == y);
                }
            }
            assert(c.favorite_urls.to_set() =~= a.favorite_urls.to_set());
        } else {
            assert(b.favorite_urls == a.favorite_urls.push(url));
            assert(b.favorite_urls[a.favorite_urls.len() as int] == url);
            assert(b.favorite_urls.contains(url));
            assert(a.favorite_urls.push(url).drop_last() =~= a.favorite_urls);
            assert(without(a.favorite_urls.push(url), url) == without(a.favorite_urls, url));
            lemma_without_absent(a.favorite_urls, url);
        }
    }
}

/// Pausing twice leaves the playback state as it was.
pub proof fn law_toggle_pause_twice(a: AppV)
    ensures
        a.toggle_pause().toggle_pause() == a,
{
}

/// One step up and one step down give the volume back, for a volume of at most 95.
pub proof fn law_volume_up_down(a: AppV)
    requires
        a.volume <= 95,
    ensures
        a.volume_up().volume_down().volume == a.volume,
{
}

/// The volume never leaves 0 to 100 once it is in that range.
pub proof fn law_volume_in_range(a: AppV)
    requires
        a.volume <= 100,
    ensures
        a.volume_up().volume <= 100,
        a.volume_down().volume <= 100,
{
}

proof fn lemma_customs_saved_append(s: Seq<StationV>, t: Seq<StationV>)
    ensures
        customs_saved(s + t) == customs_saved(s) + customs_saved(t),
    decreases t.len(),
{
    if t.len() == 0 {
        assert(s + t =~= s);
        assert(customs_saved(s) + customs_saved(t) =~= customs_saved(s));
    } else {
        lemma_customs_saved_append(s, t.drop_last());
        assert((s + t).drop_last() =~= s + t.drop_last());
        assert((s + t).last() == t.last());
        if t.last().is_custom {
            assert(customs_saved(s) + customs_saved(t) =~= (customs_saved(s) + customs_saved(
                t.drop_last(),
            )).push(crate::config::SavedStationV { name: t.last().name, url: t.last().url }));
        }
    }
}

proof fn lemma_customs_saved_none(s: Seq<StationV>)
    requires
        forall|i: int| 0 <= i < s.len() ==> !(#[trigger] s[i]).is_custom,
    ensures
        customs_saved(s) == Seq::<crate::config::SavedStationV>::empty(),
    decreases s.len(),
{
    if s.len() > 0 {
        assert(!s[s.len() - 1].is_custom);
        lemma_customs_saved_none(s.drop_last());
    }
}

proof fn lemma_customs_roundtrip(c: Seq<StationV>)
    requires
        forall|i: int|
            0 <= i < c.len() ==> #[trigger] c[i] == custom_station_view(c[i].name, c[i].url),
    ensures
        saved_to_stations(customs_saved(c)) == c,
    decreases c.len(),
{
    if c.len() > 0 {
        lemma_customs_roundtrip(c.drop_last());
        assert(c[c.len() - 1] == custom_station_view(c.last().name, c.last().url));
        let sv = crate::config::SavedStationV { name: c.last().name, url: c.last().url };
        assert(saved_to_stations(customs_saved(c.drop_last()).push(sv)) =~= saved_to_stations(
            customs_saved(c.drop_last()),
        ).push(custom_station_view(sv.name, sv.url)));
        assert(c.drop_last().push(c.last()) =~= c);
    }
}

proof fn lemma_url_position_found(s: Seq<StationV>, i: int)
    requires
        0 <= i < s.len(),
        s.len() <= usize::MAX,
    ensures
        url_position(s, s[i].url) is Some,
    decreases s.len(),
{
    if i < s.len() - 1 {
        lemma_url_position_found(s.drop_last(), i);
    }
}

/// The settings round trip: a state started from the settings that a
/// well-formed state writes has the same stations, in the same order, the
/// same favorites and the same volume; where a station was playing, the
/// station selected at the start has its URL.
pub proof fn law_settings_round_trip(a: AppV, start: std::time::Instant)
    requires
        a.wf(),
        a.current_in_range(),
        a.stations.len() <= usize::MAX,
    ensures
        new_app_view(config_of(a), start).stations == a.stations,
        new_app_view(config_of(a), start).favorite_urls == a.favorite_urls,
        new_app_view(config_of(a), start).volume == a.volume,
        a.current_station_idx matches Some(i) ==> new_app_view(config_of(a), start).stations[new_app_view(
            config_of(a),
            start,
        ).selected_idx as int].url == a.stations[i as int].url,
{
    let n = preset_stations_view().len() as int;
    let p = a.stations.take(n);
    let c = a.stations.skip(n);
    assert(a.stations =~= p + c);
    assert forall|i: int| 0 <= i < p.len() implies !(#[trigger] p[i]).is_custom by {
        assert(p[i] == preset_stations_view()[i]);
    }
    lemma_customs_saved_none(p);
    lemma_customs_saved_append(p, c);
    assert(customs_saved(p) + customs_saved(c) =~= customs_saved(c));
    assert forall|i: int| 0 <= i < c.len() implies #[trigger] c[i] == custom_station_view(
        c[i].name,
        c[i].url,
    ) by {
        assert(c[i] == a.stations[i + n]);
    }
    lemma_customs_roundtrip(c);
    let b = new_app_view(config_of(a), start);
    assert(b.stations =~= a.stations);
    crate::lists::lemma_dedup_unique(a.favorite_urls);
    if let Some(i) = a.current_station_idx {
        lemma_url_position_found(a.stations, i as int);
        crate::app::lemma_url_position_in_range(a.stations, a.stations[i as int].url);
    }
}

proof fn lemma_decimal_digits(n: nat)
    ensures
        decimal_spec(n).len() > 0,
        all_digits(decimal_spec(n)),
        digits_value(decimal_spec(n)) == n,
    decreases n,
{
    let d = digit_char(n % 10);
    assert(d as int == n % 10 + 48);
    if n < 10 {
        assert(decimal_spec(n).drop_last() =~= Seq::<char>::empty());
        assert(n % 10 == n);
        assert(decimal_spec(n).last() == d);
        assert(digits_value(decimal_spec(n)) == 10 * digits_value(Seq::<char>::empty()) + (n % 10));
    } else {
        lemma_decimal_digits(n / 10);
        let s = decimal_spec(n / 10).push(d);
        assert(s.drop_last() =~= decimal_spec(n / 10));
        assert(s.last() == d);
        assert(digits_value(s) == 10 * digits_value(decimal_spec(n / 10)) + (n % 10));
        assert(10 * (n / 10) + n % 10 == n);
        assert(decimal_spec(n) == s);
        assert forall|i: int| 0 <= i < s.len() implies is_digit(#[trigger] s[i]) by {
            if i < s.len() - 1 {
                assert(s[i] == decimal_spec(n / 10)[i]);
            }
        }
    }
}

/// Reading back a number written in decimal gives the number:
/// `parse_u64(decimal(n)) == Some(n)`.
pub proof fn law_decimal_parse_round_trip(n: u64)
    ensures
        parse_u64_spec(decimal_spec(n as nat)) == Some(n),
{
    lemma_decimal_digits(n as nat);
    assert(is_digit(decimal_spec(n as nat)[0]));
}

/// Selecting the next or the previous station keeps the selection inside
/// a non-empty visible list.
pub proof fn law_selection_in_range(a: AppV)
    requires
        a.visible().len() > 0,
    ensures
        a.select_next().selected_idx < a.visible().len(),
        a.select_prev().selected_idx < a.visible().len(),
        a.select_next().visible() == a.visible(),
        a.select_prev().visible() == a.visible(),
{
}

/// The visible list names, in increasing order, exactly the stations that
/// pass the search and category filters.
pub proof fn law_visible_stations_exact(a: AppV)
    requires
        a.stations.len() <= usize::MAX,
    ensures
        forall|i: int, j: int|
            0 <= i < j < a.visible().len() ==> a.visible()[i] < a.visible()[j],
        forall|k: int|
            0 <= k < a.stations.len() ==> (a.visible().contains(k as usize)
                <==> crate::app::station_visible(
                a.stations[k],
                crate::text::spec_lowercase(a.search_query),
                a.filter_category,
            )),
{
    lemma_visible_upto_exact(
        a.stations,
        crate::text::spec_lowercase(a.search_query),
        a.filter_category,
        a.stations.len() as int,
    );
}

proof fn lemma_visible_upto_exact(
    stations: Seq<StationV>,
    filter: Seq<char>,
    cat: Option<crate::stations::Category>,
    n: int,
)
    requires
        0 <= n <= stations.len(),
        stations.len() <= usize::MAX,
    ensures
        forall|i: int, j: int|
            0 <= i < j < crate::app::visible_upto(stations, filter, cat, n).len() ==> crate::app::visible_upto(
                stations,
                filter,
                cat,
                n,
            )[i] < crate::app::visible_upto(stations, filter, cat, n)[j],
        forall|k: int|
            0 <= k < stations.len() ==> (crate::app::visible_upto(stations, filter, cat, n).contains(
                k as usize,
            ) <==> (k < n && crate::app::station_visible(stations[k], filter, cat))),
    decreases n,
{
    crate::app::lemma_visible_in_range(stations, filter, cat, n);
    if n > 0 {
        lemma_visible_upto_exact(stations, filter, cat, n - 1);
        crate::app::lemma_visible_in_range(stations, filter, cat, n - 1);
        let prev = crate::app::visible_upto(stations, filter, cat, n - 1);
        let cur = crate::app::visible_upto(stations, filter, cat, n);
        assert forall|k: int| 0 <= k < stations.len() implies (cur.contains(k as usize) <==> (k < n
            && crate::app::station_visible(stations[k], filter, cat))) by {
            if cur.contains(k as usize) {
                let m = choose|m: int| 0 <= m < cur.len() && cur[m] == k as usize;
                if m < prev.len() {
                    assert(prev[m] == cur[m]);
                    assert(prev.contains(k as usize));
                }
            }
            if k < n && crate::app::station_visible(stations[k], filter, cat) {
                if k < n - 1 {
                    assert(prev.contains(k as usize));
                    let m = choose|m: int| 0 <= m < prev.len() && prev[m] == k as usize;
                    assert(cur[m] == k as usize);
                } else {
                    assert(cur[cur.len() - 1] == k as usize);
                }
            }
        }
        assert forall|i: int, j: int| 0 <= i < j < cur.len() implies cur[i] < cur[j] by {
            if j < prev.len() {
                assert(cur[i] == prev[i] && cur[j] == prev[j]);
            } else {
                assert(cur[i] == prev[i]);
                assert(prev[i] < n - 1);
            }
        }
    }
}

/// The sleep timer: once set at `now` for `minutes`, it has run out exactly
/// from `now + minutes` minutes on, and until then the time left and the
/// time passed add up to its end; once cleared, it never runs out.
pub proof fn law_sleep_timer(a: AppV, minutes: u64, now: u128, later: u128)
    requires
        minutes <= u64::MAX / 60,
        now <= crate::clock::max_duration_nanos(),
    ensures
        a.set_timer_at(minutes, now).timer_expired_at(later) <==> later >= now + minutes
            * crate::app::nanos_per_minute(),
        later <= now + minutes * crate::app::nanos_per_minute() ==> a.set_timer_at(
            minutes,
            now,
        ).remaining_sleep_time_at(later) == Some(
            (now + minutes * crate::app::nanos_per_minute() - later) as u128,
        ),
        !a.clear_timer().timer_expired_at(later),
        a.clear_timer().remaining_sleep_time_at(later) is None,
{
    assert(minutes * crate::app::nanos_per_minute() <= (u64::MAX as int) * 1_000_000_000) by (nonlinear_arith)
        requires minutes <= u64::MAX / 60;
}

/// Every key event, pressed or not, leaves a redraw requested.
pub proof fn law_key_event_redraws(a: AppV, code: KeyCode, is_press: bool, now: u128)
    ensures
        a.key_event(code, is_press, now).0.needs_redraw,
{
}

/// The sleep-timer entry only ever holds decimal digits: every key event
/// keeps it so.
pub proof fn law_timer_input_digits(a: AppV, code: KeyCode, is_press: bool, now: u128)
    requires
        all_digits(a.timer_input),
    ensures
        all_digits(a.key_event(code, is_press, now).0.timer_input),
{
    if let KeyCode::Char(c) = code {
        if crate::events::is_ascii_digit(c) {
            let t = a.timer_input.push(c);
            assert forall|i: int| 0 <= i < t.len() implies is_digit(#[trigger] t[i]) by {
                if i < a.timer_input.len() {
                    assert(t[i] == a.timer_input[i]);
                }
            }
        }
    }
    let p = crate::events::seq_pop(a.timer_input);
    assert forall|i: int| 0 <= i < p.len() implies is_digit(#[trigger] p[i]) by {
        assert(p[i] == a.timer_input[i]);
    }
    assert(all_digits(Seq::<char>::empty()));
}

/// At most one mpv runs: playing a stream starts exactly one new mpv, as
/// the last step, and a running one is stopped before it starts.
pub proof fn law_play_replaces_player(has_child: bool, url: Seq<char>, vol: u8, ipc: Seq<char>)
    ensures
        ({
            let acts = crate::ipc::player_step_spec(
                has_child,
                crate::player::PlayerCommandV::Play(url, vol),
                ipc,
            );
            &&& acts.len() > 0
            &&& acts.last() is Spawn
            &&& forall|i: int| 0 <= i < acts.len() - 1 ==> !(#[trigger] acts[i] is Spawn)
            &&& has_child ==> exists|i: int|
                0 <= i < acts.len() - 1 && #[trigger] acts[i] == crate::ipc::PlayerActionV::StopChild(
                    true,
                )
        }),
{
    let acts = crate::ipc::player_step_spec(
        has_child,
        crate::player::PlayerCommandV::Play(url, vol),
        ipc,
    );
    if has_child {
        assert(acts[2] == crate::ipc::PlayerActionV::StopChild(true));
    }
}

/// Quitting ends a running mpv and then the player task, and starts none.
pub proof fn law_quit_ends_player(has_child: bool, ipc: Seq<char>)
    ensures
        ({
            let acts = crate::ipc::player_step_spec(has_child, crate::player::PlayerCommandV::Quit, ipc);
            &&& acts.len() > 0
            &&& acts.last() is Finish
            &&& forall|i: int| 0 <= i < acts.len() ==> !(#[trigger] acts[i] is Spawn)
            &&& has_child ==> exists|i: int|
                0 <= i < acts.len() && #[trigger] acts[i] == crate::ipc::PlayerActionV::StopChild(false)
        }),
{
    let acts = crate::ipc::player_step_spec(has_child, crate::player::PlayerCommandV::Quit, ipc);
    if has_child {
        assert(acts[2] == crate::ipc::PlayerActionV::StopChild(false));
    }
}

/// The search is a plain substring search: a station is listed exactly when
/// the lowercased search text is empty or appears, at some position, in its
/// lowercased name or in its lowercased category label, and, where a
/// category is chosen, the station is filed under it.
pub proof fn law_search_matches_anywhere(a: AppV)
    requires
        a.stations.len() <= usize::MAX,
    ensures
        forall|k: int|
            0 <= k < a.stations.len() ==> (#[trigger] a.visible().contains(k as usize) <==> {
                let f = spec_lowercase(a.search_query);
                let name = spec_lowercase(a.stations[k].name);
                let label = spec_lowercase(category_label(a.stations[k].category));
                &&& (f.len() == 0 || (exists|i: int|
                    0 <= i && i + f.len() <= name.len() && #[trigger] name.subrange(i, i + f.len())
                        == f) || (exists|i: int|
                    0 <= i && i + f.len() <= label.len() && #[trigger] label.subrange(i, i + f.len())
                        == f))
                &&& (a.filter_category matches Some(c) ==> a.stations[k].category == c)
            }),
{
    lemma_visible_upto_exact(
        a.stations,
        spec_lowercase(a.search_query),
        a.filter_category,
        a.stations.len() as int,
    );
}

/// On the now-playing screen Left and Down, and 'h' and 'j' where the search
/// field does not take them, lower the volume by five, not below zero, and
/// tell the player the new volume; the run goes on and nothing else changes
/// but the note that the settings changed.
pub proof fn law_now_playing_volume_down_keys(a: AppV, code: KeyCode, now: u128)
    requires
        code == KeyCode::Left || code == KeyCode::Down || (!a.is_searching && (code
            == KeyCode::Char('h') || code == KeyCode::Char('j'))),
    ensures
        ({
            let v: u8 = if a.volume >= 5 {
                (a.volume - 5) as u8
            } else {
                0
            };
            let r = a.now_playing_key(code, now);
            &&& r.0 == (AppV { volume: v, config_changed: a.config_changed || a.volume > 0, ..a })
            &&& !r.1
            &&& r.2 == Some(PlayerCommandV::SetVolume(v))
            &&& r.0 == a.volume_down()
        }),
{
}

/// On the now-playing screen Right and Up, and 'l' and 'k' where the search
/// field does not take them, raise the volume by five, not above 100, and
/// tell the player the new volume; the run goes on and nothing else changes
/// but the note that the settings changed.
pub proof fn law_now_playing_volume_up_keys(a: AppV, code: KeyCode, now: u128)
    requires
        code == KeyCode::Right || code == KeyCode::Up || (!a.is_searching && (code
            == KeyCode::Char('l') || code == KeyCode::Char('k'))),
    ensures
        ({
            let v: u8 = if a.volume >= 100 {
                a.volume
            } else if a.volume + 5 <= 100 {
                (a.volume + 5) as u8
            } else {
                100
            };
            let r = a.now_playing_key(code, now);
            &&& r.0 == (AppV { volume: v, config_changed: a.config_changed || a.volume < 100, ..a })
            &&& !r.1
            &&& r.2 == Some(PlayerCommandV::SetVolume(v))
            &&& r.0 == a.volume_up()
        }),
{
}

/// Browsing the station list (no form, prompt or search open), Up and 'k'
/// move the selection one row up and Down and 'j' one row down, stopping at
/// the ends of the list; nothing else changes and the player is told nothing.
pub proof fn law_station_list_browse_moves(a: AppV, code: KeyCode, now: u128)
    requires
        !a.show_add_station,
        !a.show_timer_prompt,
        !a.is_searching,
    ensures
        (code == KeyCode::Up || code == KeyCode::Char('k')) ==> ({
            let r = a.station_list_key(code, now);
            &&& r.0 == a.select_prev()
            &&& r.1 is None
            &&& r.2 is None
            &&& (0 < a.selected_idx < a.visible().len() ==> r.0 == (AppV {
                selected_idx: (a.selected_idx - 1) as usize,
                ..a
            }))
            &&& (a.selected_idx == 0 ==> r.0 == a)
        }),
        (code == KeyCode::Down || code == KeyCode::Char('j')) ==> ({
            let r = a.station_list_key(code, now);
            &&& r.0 == a.select_next()
            &&& r.1 is None
            &&& r.2 is None
            &&& (a.selected_idx + 1 < a.visible().len() ==> r.0 == (AppV {
                selected_idx: (a.selected_idx + 1) as usize,
                ..a
            }))
            &&& (a.selected_idx + 1 == a.visible().len() ==> r.0 == a)
        }),
{
}

/// A player report is kept as the track metadata and asks for a redraw. A
/// reported error becomes the state; otherwise a paused report pauses the
/// player whatever its state, and a playing report makes a buffering or
/// playing player play and leaves a paused or failed one as it was.
pub proof fn law_player_report_state(a: AppV, m: MetadataUpdateV)
    ensures
        ({
            let b = a.apply_metadata(m);
            &&& b == (AppV {
                state: b.state,
                needs_redraw: true,
                metadata: Some(
                    MpvMetadataV {
                        title: m.title,
                        time_pos: m.time_pos,
                        duration: m.duration,
                        paused: m.paused,
                    },
                ),
                ..a
            })
            &&& (m.error matches Some(e) ==> b.state == AppStateV::Error(e))
            &&& (m.error is None && m.paused ==> b.state == AppStateV::Paused)
            &&& (m.error is None && !m.paused && (a.state is Buffering || a.state is Playing)
                ==> b.state == AppStateV::Playing)
            &&& (m.error is None && !m.paused && (a.state is Paused || a.state is Error) ==> b.state
                == a.state)
        }),
{
}

/// The header's playback line names the state: "● Playing" while playing,
/// "● Paused" while paused, the status message while buffering and the
/// error's text after a failure; playing and paused never read the same.
pub proof fn law_state_line(a: AppV, b: AppV)
    ensures
        a.state is Playing ==> state_label_spec(a) == "● Playing"@,
        a.state is Paused ==> state_label_spec(a) == "● Paused"@,
        a.state is Buffering ==> state_label_spec(a) == "● "@ + a.status_msg,
        a.state matches AppStateV::Error(e) ==> state_label_spec(a) == "● "@ + e,
        a.state is Playing && b.state is Paused ==> state_label_spec(a) != state_label_spec(b),
{
    reveal_strlit("● ");
    reveal_strlit("Playing");
    reveal_strlit("Paused");
    reveal_strlit("● Playing");
    reveal_strlit("● Paused");
    assert("● "@ + "Playing"@ =~= "● Playing"@);
    assert("● "@ + "Paused"@ =~= "● Paused"@);
    assert("● Playing"@[3] != "● Paused"@[3]);
}

} // verus!
