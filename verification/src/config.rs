//! Persistent settings: their shape, their defaults and where they are kept.
use vstd::prelude::*;
use vstd::string::StringSliceAdditionalSpecFns;


verus! {

/// A user-added station as it is kept in the settings file.
#[derive(Clone, Debug)]
pub struct SavedStation {
    pub name: String,
    pub url: String,
}

/// The value of a saved station: its name and its URL.
#[verifier::ext_equal]
pub struct SavedStationV {
    pub name: Seq<char>,
    pub url: Seq<char>,
}

impl View for SavedStation {
    type V = SavedStationV;

    open spec fn view(&self) -> SavedStationV {
        SavedStationV { name: self.name@, url: self.url@ }
    }
}

/// The values of a sequence of saved stations.
pub open spec fn saved_view(s: Seq<SavedStation>) -> Seq<SavedStationV> {
    s.map_values(|x: SavedStation| x@)
}

/// The values of a sequence of strings.
pub open spec fn strings_view(s: Seq<String>) -> Seq<Seq<char>> {
    s.map_values(|x: String| x@)
}

/// The value of an optional string.
pub open spec fn opt_string_view(s: Option<String>) -> Option<Seq<char>> {
    match s {
        Some(x) => Some(x@),
        None => None,
    }
}

/// The settings that survive between runs.
#[derive(Clone, Debug)]
pub struct Config {
    pub volume: u8,
    pub last_station_url: Option<String>,
    pub favorites: Vec<String>,
    pub custom_stations: Vec<SavedStation>,
}

/// The value of the settings.
#[verifier::ext_equal]
pub struct ConfigV {
    pub volume: u8,
    pub last_station_url: Option<Seq<char>>,
    pub favorites: Seq<Seq<char>>,
    pub custom_stations: Seq<SavedStationV>,
}

impl View for Config {
    type V = ConfigV;

    open spec fn view(&self) -> ConfigV {
        ConfigV {
            volume: self.volume,
            last_station_url: opt_string_view(self.last_station_url),
            favorites: strings_view(self.favorites@),
            custom_stations: saved_view(self.custom_stations@),
        }
    }
}

/// The settings of a first run: volume 70, no last station, no favorites,
/// no stations of the user's own.
pub open spec fn default_config_view() -> ConfigV {
    ConfigV {
        volume: 70,
        last_station_url: None,
        favorites: Seq::empty(),
        custom_stations: Seq::empty(),
    }
}

impl Default for Config {
    fn default() -> (r: Config)
        ensures
            r@ == default_config_view(),
    {
        let r = Config {
            volume: 70,
            last_station_url: None,
            favorites: Vec::new(),
            custom_stations: Vec::new(),
        };
        assert(r@ =~= default_config_view());
        r
    }
}

/// The byte `/`, the path separator.
pub open spec fn slash() -> u8 {
    47
}

/// The path that joining `comp` onto `base` gives on a Unix system, as
/// `Path::join` does: an absolute `comp` replaces `base`; otherwise a `/`
/// separates them unless `base` is empty or already ends with one. Paths
/// are bytes, as Unix keeps them.
pub open spec fn path_join_spec(base: Seq<u8>, comp: Seq<u8>) -> Seq<u8> {
    if comp.len() > 0 && comp[0] == slash() {
        comp
    } else if base.len() == 0 || base.last() == slash() {
        base + comp
    } else {
        base + seq![slash()] + comp
    }
}

/// Appends the bytes of `s` to `v`.
fn append_bytes(v: &mut Vec<u8>, s: &[u8])
    ensures
        final(v)@ == old(v)@ + s@,
{
    let mut i: usize = 0;
    while i < s.len()
        invariant
            i <= s.len(),
            v@ == old(v)@ + s@.take(i as int),
        decreases s.len() - i,
    {
        v.push(s[i]);
        i = i + 1;
        assert(v@ =~= old(v)@ + s@.take(i as int));
    }
    assert(s@.take(i as int) =~= s@);
}

/// Joins a path component onto a base path (see `path_join_spec`).
pub fn path_join(base: &[u8], comp: &[u8]) -> (r: Vec<u8>)
    ensures
        r@ == path_join_spec(base@, comp@),
{
    let mut r: Vec<u8> = Vec::new();
    if comp.len() > 0 && comp[0] == 47u8 {
        append_bytes(&mut r, comp);
        assert(r@ =~= comp@);
        return r;
    }
    append_bytes(&mut r, base);
    if base.len() > 0 && base[base.len() - 1] != 47u8 {
        r.push(47u8);
    }
    append_bytes(&mut r, comp);
    assert(r@ =~= path_join_spec(base@, comp@));
    r
}

/// Calls `dirs::config_dir`, giving the path's bytes; `None` where `dirs`
/// finds no directory. The answer comes from the environment and the
/// platform, so nothing is stated of it.
#[verifier::external_body]
fn user_config_dir() -> Option<Vec<u8>> {
    match dirs::config_dir() {
        Some(p) => Some(p.into_os_string().into_encoded_bytes()),
        None => None,
    }
}

/// The value of an optional byte string.
pub open spec fn opt_bytes_view(s: Option<Vec<u8>>) -> Option<Seq<u8>> {
    match s {
        Some(x) => Some(x@),
        None => None,
    }
}

/// The directory that holds the settings, under the given user
/// configuration directory, or under `.` where there is none.
pub open spec fn config_dir_spec(base: Option<Seq<u8>>) -> Seq<u8> {
    let b = match base {
        Some(b) => b,
        None => ".".spec_bytes(),
    };
    path_join_spec(b, "lofigirl-cli".spec_bytes())
}

/// The settings file under the given user configuration directory.
pub open spec fn config_path_spec(base: Option<Seq<u8>>) -> Seq<u8> {
    path_join_spec(config_dir_spec(base), "config.toml".spec_bytes())
}

impl Config {
    /// The settings directory under the given user configuration directory.
    pub fn config_dir_in(base: Option<Vec<u8>>) -> (r: Vec<u8>)
        ensures
            r@ == config_dir_spec(opt_bytes_view(base)),
    {
        match base {
            Some(b) => path_join(b.as_slice(), "lofigirl-cli".as_bytes()),
            None => path_join(".".as_bytes(), "lofigirl-cli".as_bytes()),
        }
    }

    /// The settings file under the given user configuration directory.
    pub fn config_path_in(base: Option<Vec<u8>>) -> (r: Vec<u8>)
        ensures
            r@ == config_path_spec(opt_bytes_view(base)),
    {
        let dir = Self::config_dir_in(base);
        path_join(dir.as_slice(), "config.toml".as_bytes())
    }

    /// The settings directory of this user.
    pub fn config_dir() -> (r: Vec<u8>)
        ensures
            exists|base: Option<Seq<u8>>| r@ == config_dir_spec(base),
    {
        let base = user_config_dir();
        Self::config_dir_in(base)
    }

    /// The settings file of this user.
    pub fn config_path() -> (r: Vec<u8>)
        ensures
            exists|base: Option<Seq<u8>>| r@ == config_path_spec(base),
    {
        let base = user_config_dir();
        Self::config_path_in(base)
    }

    /// The settings to start with: those read from the settings file, or the
    /// defaults where it could not be read or parsed.
    pub fn load(parsed: Option<Config>) -> (r: Config)
        ensures
            parsed matches Some(c) ==> r@ == c@,
            parsed is None ==> r@ == default_config_view(),
    {
        match parsed {
            Some(c) => c,
            None => Config::default(),
        }
    }
}

} // verus!
