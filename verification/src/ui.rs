//! The text that the screens show, computed apart from drawing it.
use vstd::prelude::*;

use crate::app::{App, AppStateV, AppV};
use crate::text::{chars_of, decimal, decimal_spec, owned, push_char, push_str};

verus! {

/// What `UnicodeWidthStr::width` gives for a string: its width in terminal columns.
pub uninterp spec fn spec_str_width(s: Seq<char>) -> usize;

/// What `UnicodeWidthChar::width` gives for a character: its width in
/// terminal columns, or `None` for a control character.
pub uninterp spec fn spec_char_width(c: char) -> Option<usize>;

/// Calls `UnicodeWidthStr::width` (unicode-width): the displayed width of
/// a string. Its value is named, not stated (it is more than the sum of the
/// character widths: emoji and script ligatures count as one glyph).
#[verifier::external_body]
fn str_width(s: &str) -> (r: usize)
    ensures
        r == spec_str_width(s@),
{
    unicode_width::UnicodeWidthStr::width(s)
}

/// Calls `UnicodeWidthChar::width` (unicode-width): the displayed width of
/// a character, or `None` for a control character. Its value is named; the
/// one fact stated is the crate's bound: no character is wider than three
/// columns (U+17D8 is the one that wide).
#[verifier::external_body]
fn char_width(c: char) -> (r: Option<usize>)
    ensures
        r == spec_char_width(c),
        r matches Some(w) ==> w <= 3,
{
    unicode_width::UnicodeWidthChar::width(c)
}

/// The columns that a character adds while a string is cut: its width, or
/// nothing for a control character.
pub open spec fn columns_of(c: char) -> nat {
    match spec_char_width(c) {
        Some(w) => w as nat,
        None => 0,
    }
}

/// How many characters of `cs` are kept when cutting to `limit` columns,
/// with `used` columns already taken: characters are taken while fewer
/// than `limit` columns are used.
pub open spec fn kept_chars(cs: Seq<char>, used: nat, limit: nat) -> nat
    decreases cs.len(),
{
    if cs.len() == 0 || used >= limit {
        0
    } else {
        1 + kept_chars(cs.drop_first(), used + columns_of(cs[0]), limit)
    }
}

/// A string fitted into `max_len` columns: kept whole where it fits;
/// otherwise cut to the characters that start before column `max_len - 3`,
/// followed by `...`.
pub open spec fn truncate_spec(s: Seq<char>, max_len: usize) -> Seq<char> {
    fit_spec(s, spec_str_width(s), max_len)
}

/// A string of `width` columns fitted into `max_len` columns: kept whole
/// where it fits; otherwise cut to the characters that start before column
/// `max_len - 3`, followed by `...`.
pub open spec fn fit_spec(s: Seq<char>, width: usize, max_len: usize) -> Seq<char> {
    if width <= max_len {
        s
    } else {
        s.take(kept_chars(s, 0, (max_len - 3) as nat) as int) + "..."@
    }
}

/// The arguments on which a string can be fitted: three columns are kept
/// for the ellipsis, so a string that is too wide needs at least three.
pub open spec fn truncate_defined(s: Seq<char>, max_len: usize) -> bool {
    max_len >= 3 || spec_str_width(s) <= max_len
}

/// Fits a string into `max_len` terminal columns (see `truncate_spec`).
pub fn truncate_str(s: &str, max_len: usize) -> (r: String)
    requires
        truncate_defined(s@, max_len),
    ensures
        r@ == truncate_spec(s@, max_len),
{
    let width = str_width(s);
    fit_to_width(s, width, max_len)
}

/// Fits a string whose width is `width` columns into `max_len` columns
/// (see `fit_spec`).
pub fn fit_to_width(s: &str, width: usize, max_len: usize) -> (r: String)
    requires
        max_len >= 3 || width <= max_len,
    ensures
        r@ == fit_spec(s@, width, max_len),
{
    if width <= max_len {
        return owned(s);
    }
    let limit = max_len - 3;
    let cs = chars_of(s);
    let mut result = String::new();
    let mut current: usize = 0;
    let mut i: usize = 0;
    assert(s@.skip(0) =~= s@);
    while i < cs.len()
        invariant
            cs@ == s@,
            limit == max_len - 3,
            i <= cs.len(),
            current <= limit + 3,
            result@ == s@.take(i as int),
            kept_chars(s@, 0, limit as nat) == i + kept_chars(
                s@.skip(i as int),
                current as nat,
                limit as nat,
            ),
        ensures
            i == cs.len() || current >= limit,
        decreases cs.len() - i,
    {
        if current >= limit {
            break;
        }
        let c = cs[i];
        assert(s@.skip(i as int).drop_first() =~= s@.skip(i + 1));
        assert(s@.skip(i as int)[0] == c);
        match char_width(c) {
            Some(w) => {
                current = current + w;
            },
            None => {},
        }
        push_char(&mut result, c);
        assert(result@ =~= s@.take(i + 1));
        i = i + 1;
    }
    proof {
        if i == cs.len() {
            assert(s@.skip(i as int).len() == 0);
        }
        reveal_strlit("...");
    }
    push_str(&mut result, "...");
    result
}

/// `truncate_str` where it can fit the string, `None` where it cannot (a
/// string wider than `max_len` with `max_len` below three).
pub fn try_truncate_str(s: &str, max_len: usize) -> (r: Option<String>)
    ensures
        truncate_defined(s@, max_len) ==> (r matches Some(t) && t@ == truncate_spec(s@, max_len)),
        !truncate_defined(s@, max_len) ==> r is None,
{
    if max_len >= 3 || str_width(s) <= max_len {
        Some(truncate_str(s, max_len))
    } else {
        None
    }
}

/// `n` written with at least two digits, as `{:02}` writes it.
pub open spec fn two_digits(n: nat) -> Seq<char> {
    if n < 10 {
        seq!['0'] + decimal_spec(n)
    } else {
        decimal_spec(n)
    }
}

/// `n` right-aligned in three columns, as `{:>3}` writes it.
pub open spec fn right3(n: nat) -> Seq<char> {
    let d = decimal_spec(n);
    if d.len() < 3 {
        Seq::new((3 - d.len()) as nat, |i: int| ' ') + d
    } else {
        d
    }
}

/// Appends `n` with at least two digits.
fn push_two_digits(s: &mut String, n: u128)
    ensures
        final(s)@ == old(s)@ + two_digits(n as nat),
{
    if n < 10 {
        push_char(s, '0');
    }
    crate::text::push_decimal(s, n);
    assert(final(s)@ =~= old(s)@ + two_digits(n as nat));
}

/// The sleep-timer line for the time left in nanoseconds: minutes and
/// seconds while it runs, an expiry note once fewer than a second is left,
/// nothing where no timer is set.
pub open spec fn sleep_timer_label_spec(remaining: Option<u128>) -> Seq<char> {
    match remaining {
        Some(r) => {
            let secs = r as nat / 1_000_000_000;
            if secs > 0 {
                " ⏲ Sleep: "@ + two_digits(secs / 60) + ":"@ + two_digits(secs % 60) + " "@
            } else {
                " ⏲ Timer expired "@
            }
        },
        None => Seq::empty(),
    }
}

/// The sleep-timer line (see `sleep_timer_label_spec`).
pub fn sleep_timer_label(remaining: Option<u128>) -> (r: String)
    ensures
        r@ == sleep_timer_label_spec(remaining),
{
    match remaining {
        Some(rem) => {
            let secs = rem / 1_000_000_000;
            if secs > 0 {
                let mut s = owned(" ⏲ Sleep: ");
                push_two_digits(&mut s, secs / 60);
                push_str(&mut s, ":");
                push_two_digits(&mut s, secs % 60);
                push_str(&mut s, " ");
                s
            } else {
                owned(" ⏲ Timer expired ")
            }
        },
        None => String::new(),
    }
}

/// The number of bar cells lit for a volume, out of forty.
pub open spec fn volume_cells(volume: u8) -> nat {
    (volume as nat * 40) / 100
}

/// The volume bar: lit cells, unlit cells, and the volume right-aligned
/// in three columns followed by `%`.
pub open spec fn volume_bar_spec(volume: u8) -> (Seq<char>, Seq<char>, Seq<char>) {
    (
        Seq::new(volume_cells(volume), |i: int| '█'),
        Seq::new((40 - volume_cells(volume)) as nat, |i: int| '░'),
        " "@ + right3(volume as nat) + "%"@,
    )
}

/// A string of `n` copies of `c`.
fn repeated(c: char, n: usize) -> (r: String)
    ensures
        r@ == Seq::new(n as nat, |i: int| c),
{
    let mut s = String::new();
    let mut i: usize = 0;
    while i < n
        invariant
            i <= n,
            s@ == Seq::new(i as nat, |k: int| c),
        decreases n - i,
    {
        push_char(&mut s, c);
        i = i + 1;
        assert(s@ =~= Seq::new(i as nat, |k: int| c));
    }
    s
}

/// The volume bar (see `volume_bar_spec`); a volume above 102 would light
/// more than forty cells and has no bar.
pub fn volume_bar(volume: u8) -> (r: (String, String, String))
    requires
        volume <= 102,
    ensures
        (r.0@, r.1@, r.2@) == volume_bar_spec(volume),
{
    let cells: usize = (volume as usize * 40) / 100;
    let lit = repeated('█', cells);
    let unlit = repeated('░', 40 - cells);
    let mut label = owned(" ");
    let d = decimal(volume as u64);
    let dc = chars_of(d.as_str());
    let mut pad: usize = 0;
    while pad + dc.len() < 3
        invariant
            dc@ == decimal_spec(volume as nat),
            pad == 0 || pad + dc.len() <= 3,
            label@ == " "@ + Seq::new(pad as nat, |i: int| ' '),
        decreases 3 - pad - dc.len(),
    {
        push_char(&mut label, ' ');
        pad = pad + 1;
        assert(label@ =~= " "@ + Seq::new(pad as nat, |i: int| ' '));
    }
    push_str(&mut label, d.as_str());
    push_str(&mut label, "%");
    proof {
        reveal_strlit(" ");
        assert(label@ =~= " "@ + right3(volume as nat) + "%"@);
    }
    (lit, unlit, label)
}

/// The playback line of the header: a dot, then the state, where
/// buffering shows the status message and an error its text.
pub open spec fn state_label_spec(a: AppV) -> Seq<char> {
    "● "@ + match a.state {
        AppStateV::Playing => "Playing"@,
        AppStateV::Paused => "Paused"@,
        AppStateV::Buffering => a.status_msg,
        AppStateV::Error(e) => e,
    }
}

/// The playback line of the header (see `state_label_spec`).
pub fn state_label(app: &App) -> (r: String)
    ensures
        r@ == state_label_spec(app@),
{
    let mut s = owned("● ");
    match &app.state {
        crate::app::AppState::Playing => push_str(&mut s, "Playing"),
        crate::app::AppState::Paused => push_str(&mut s, "Paused"),
        crate::app::AppState::Buffering => push_str(&mut s, app.status_msg.as_str()),
        crate::app::AppState::Error(e) => push_str(&mut s, e.as_str()),
    }
    s
}

/// The track line: the reported title, a loading note where the player
/// reported no title, a waiting note before any report.
pub open spec fn track_title_spec(a: AppV) -> Seq<char> {
    match a.metadata {
        Some(m) => match m.title {
            Some(t) => t,
            None => "Loading track info..."@,
        },
        None => "Waiting for stream..."@,
    }
}

/// The track line (see `track_title_spec`).
pub fn track_title(app: &App) -> (r: String)
    ensures
        r@ == track_title_spec(app@),
{
    match &app.metadata {
        Some(m) => match &m.title {
            Some(t) => t.clone(),
            None => owned("Loading track info..."),
        },
        None => owned("Waiting for stream..."),
    }
}

/// The count line of the station list.
pub fn stations_visible_label(count: usize) -> (r: String)
    ensures
        r@ == decimal_spec(count as nat) + " stations visible"@,
{
    let mut s = decimal(count as u64);
    push_str(&mut s, " stations visible");
    s
}

/// One line of the station list: which station, and whether it is the
/// selected, the playing and a favorite one.
#[derive(Clone, Copy, Debug, PartialEq, Eq, Structural)]
pub struct StationRow {
    pub station_idx: usize,
    pub selected: bool,
    pub playing: bool,
    pub favorite: bool,
}

/// The lines of the station list: one per visible station, in order.
pub fn station_rows(app: &App) -> (r: Vec<StationRow>)
    ensures
        r@.len() == app@.visible().len(),
        forall|k: int|
            0 <= k < r@.len() ==> {
                let idx = app@.visible()[k];
                #[trigger] r@[k] == StationRow {
                    station_idx: idx,
                    selected: k == app.selected_idx,
                    playing: app.current_station_idx == Some(idx),
                    favorite: app@.favorite_urls.contains(app@.stations[idx as int].url),
                }
            },
{
    let visible = app.visible_stations();
    proof {
        crate::app::lemma_visible_in_range(
            app@.stations,
            crate::text::spec_lowercase(app@.search_query),
            app.filter_category,
            app@.stations.len() as int,
        );
    }
    let mut rows: Vec<StationRow> = Vec::new();
    let mut k: usize = 0;
    while k < visible.len()
        invariant
            visible@ == app@.visible(),
            forall|j: int| 0 <= j < visible@.len() ==> #[trigger] visible@[j] < app.stations.len(),
            k <= visible.len(),
            rows@.len() == k,
            forall|j: int|
                0 <= j < k ==> {
                    let idx = app@.visible()[j];
                    #[trigger] rows@[j] == StationRow {
                        station_idx: idx,
                        selected: j == app.selected_idx,
                        playing: app.current_station_idx == Some(idx),
                        favorite: app@.favorite_urls.contains(app@.stations[idx as int].url),
                    }
                },
        decreases visible.len() - k,
    {
        let idx = visible[k];
        let playing = match app.current_station_idx {
            Some(c) => c == idx,
            None => false,
        };
        let row = StationRow {
            station_idx: idx,
            selected: k == app.selected_idx,
            playing,
            favorite: app.is_favorite(idx),
        };
        rows.push(row);
        k = k + 1;
    }
    rows
}

/// The mark in front of a favorite station.
pub fn favorite_icon(favorite: bool) -> (r: &'static str)
    ensures
        r@ == (if favorite { "♥ "@ } else { "  "@ }),
{
    if favorite {
        "♥ "
    } else {
        "  "
    }
}

/// The mark in front of the playing station.
pub fn play_icon(playing: bool) -> (r: &'static str)
    ensures
        r@ == (if playing { "▶ "@ } else { "   "@ }),
{
    if playing {
        "▶ "
    } else {
        "   "
    }
}

/// The centre of the now-playing screen: the playing station's name and
/// category, or an invitation to pick one and no category.
pub open spec fn center_labels_spec(a: AppV) -> (Seq<char>, Seq<char>) {
    match a.current_station_idx {
        Some(i) => (
            a.stations[i as int].name,
            crate::stations::category_label(a.stations[i as int].category),
        ),
        None => ("Select a Station"@, Seq::empty()),
    }
}

/// The centre of the now-playing screen (see `center_labels_spec`).
pub fn center_labels(app: &App) -> (r: (String, String))
    requires
        app@.current_in_range(),
    ensures
        (r.0@, r.1@) == center_labels_spec(app@),
{
    match app.current_station() {
        Some(st) => (st.name.clone(), st.category.to_string()),
        None => (owned("Select a Station"), String::new()),
    }
}

} // verus!
