//! The station catalogue: categories, stations and the built-in presets.
use vstd::prelude::*;

use crate::text::owned;

verus! {

/// The musical category a station belongs to.
#[derive(Clone, Copy, Debug, PartialEq, Eq, Structural)]
pub enum Category {
    Lofi,
    Jazz,
    Classical,
    Ambient,
    Synthwave,
    Nature,
}

/// The display name of a category.
pub open spec fn category_label(c: Category) -> Seq<char> {
    match c {
        Category::Lofi => "Lofi"@,
        Category::Jazz => "Jazz"@,
        Category::Classical => "Classical"@,
        Category::Ambient => "Ambient"@,
        Category::Synthwave => "Synthwave"@,
        Category::Nature => "Nature"@,
    }
}

impl Category {
    /// The display name of the category, as shown in the station list.
    pub fn label(&self) -> (r: &'static str)
        ensures
            r@ == category_label(*self),
    {
        match self {
            Category::Lofi => "Lofi",
            Category::Jazz => "Jazz",
            Category::Classical => "Classical",
            Category::Ambient => "Ambient",
            Category::Synthwave => "Synthwave",
            Category::Nature => "Nature",
        }
    }

    /// The display name of the category as an owned string.
    pub fn to_string(&self) -> (r: String)
        ensures
            r@ == category_label(*self),
    {
        owned(self.label())
    }
}

/// A radio station: a named stream URL with a category.
#[derive(Clone, Debug)]
pub struct Station {
    pub name: String,
    pub url: String,
    pub category: Category,
    pub is_custom: bool,
}

impl PartialEq for Station {
    fn eq(&self, other: &Station) -> (r: bool) {
        crate::text::str_eq(self.name.as_str(), other.name.as_str()) && crate::text::str_eq(
            self.url.as_str(),
            other.url.as_str(),
        ) && self.category == other.category && self.is_custom == other.is_custom
    }
}

impl vstd::std_specs::cmp::PartialEqSpecImpl for Station {
    open spec fn obeys_eq_spec() -> bool {
        true
    }

    open spec fn eq_spec(&self, other: &Station) -> bool {
        self@ == other@
    }
}

impl Eq for Station {

}

/// The mathematical value of a station.
#[verifier::ext_equal]
pub struct StationV {
    pub name: Seq<char>,
    pub url: Seq<char>,
    pub category: Category,
    pub is_custom: bool,
}

impl View for Station {
    type V = StationV;

    open spec fn view(&self) -> StationV {
        StationV { name: self.name@, url: self.url@, category: self.category, is_custom: self.is_custom }
    }
}

/// The values of a sequence of stations.
pub open spec fn stations_view(s: Seq<Station>) -> Seq<StationV> {
    s.map_values(|st: Station| st@)
}

/// A station as a user adds it: category Lofi, marked custom.
pub open spec fn custom_station_view(name: Seq<char>, url: Seq<char>) -> StationV {
    StationV { name, url, category: Category::Lofi, is_custom: true }
}

impl Station {
    /// A built-in station.
    pub fn new(name: &str, url: &str, category: Category) -> (r: Station)
        ensures
            r@ == (StationV { name: name@, url: url@, category, is_custom: false }),
    {
        Station { name: owned(name), url: owned(url), category, is_custom: false }
    }

    /// A station the user added; it is filed under Lofi.
    pub fn new_custom(name: &str, url: &str) -> (r: Station)
        ensures
            r@ == custom_station_view(name@, url@),
    {
        Station { name: owned(name), url: owned(url), category: Category::Lofi, is_custom: true }
    }
}

/// A built-in station, as a value.
pub open spec fn preset(name: Seq<char>, url: Seq<char>, category: Category) -> StationV {
    StationV { name, url, category, is_custom: false }
}

/// The built-in stations, in the order the catalogue lists them.
pub open spec fn preset_stations_view() -> Seq<StationV> {
    seq![
        preset("Lofi Girl"@, "https://www.youtube.com/@LofiGirl/live"@, Category::Lofi),
        preset("Chillhop Music"@, "https://www.youtube.com/@ChillhopMusic/live"@, Category::Lofi),
        preset("Anime Lofi"@, "https://www.youtube.com/@lofigeek/live"@, Category::Lofi),
        preset(
            "Coffee Shop Ambience"@,
            "https://www.youtube.com/@CafeMusicBGMchannel/live"@,
            Category::Ambient,
        ),
        preset("Jazz Vibes"@, "https://www.youtube.com/@TheJazzHopCafe/live"@, Category::Jazz),
        preset(
            "Classical Focus"@,
            "https://www.youtube.com/channel/UCFd5q5UWWV0RpSpPkTFOtRg/live"@,
            Category::Classical,
        ),
        preset("Synthwave City"@, "https://www.youtube.com/@NightrideFM/live"@, Category::Synthwave),
        preset("Ambient Study"@, "https://www.youtube.com/@TheBootlegBoy/live"@, Category::Nature),
    ]
}

/// The built-in stations.
pub fn get_preset_stations() -> (r: Vec<Station>)
    ensures
        stations_view(r@) == preset_stations_view(),
{
    let mut v: Vec<Station> = Vec::new();
    v.push(Station::new("Lofi Girl", "https://www.youtube.com/@LofiGirl/live", Category::Lofi));
    v.push(
        Station::new("Chillhop Music", "https://www.youtube.com/@ChillhopMusic/live", Category::Lofi),
    );
    v.push(Station::new("Anime Lofi", "https://www.youtube.com/@lofigeek/live", Category::Lofi));
    v.push(
        Station::new(
            "Coffee Shop Ambience",
            "https://www.youtube.com/@CafeMusicBGMchannel/live",
            Category::Ambient,
        ),
    );
    v.push(
        Station::new("Jazz Vibes", "https://www.youtube.com/@TheJazzHopCafe/live", Category::Jazz),
    );
    v.push(
        Station::new(
            "Classical Focus",
            "https://www.youtube.com/channel/UCFd5q5UWWV0RpSpPkTFOtRg/live",
            Category::Classical,
        ),
    );
    v.push(
        Station::new(
            "Synthwave City",
            "https://www.youtube.com/@NightrideFM/live",
            Category::Synthwave,
        ),
    );
    v.push(
        Station::new("Ambient Study", "https://www.youtube.com/@TheBootlegBoy/live", Category::Nature),
    );
    assert(stations_view(v@) =~= preset_stations_view());
    v
}

} // verus!
