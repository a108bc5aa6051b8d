use lofigirl_cli::config::{path_join, Config, SavedStation};
use lofigirl_cli::stations::{get_preset_stations, Category, Station};

#[test]
fn preset_stations_are_the_catalogue() {
    let s = get_preset_stations();
    assert_eq!(s.len(), 8);
    assert_eq!(s[0].name, "Lofi Girl");
    assert_eq!(s[0].url, "https://www.youtube.com/@LofiGirl/live");
    assert_eq!(s[3].name, "Coffee Shop Ambience");
    assert_eq!(s[3].category, Category::Ambient);
    assert_eq!(s[5].url, "https://www.youtube.com/channel/UCFd5q5UWWV0RpSpPkTFOtRg/live");
    assert_eq!(s[7].name, "Ambient Study");
    assert_eq!(s[7].category, Category::Nature);
    assert!(s.iter().all(|st| !st.is_custom));
}

#[test]
fn station_constructors() {
    let a = Station::new("Jazz", "http://j", Category::Jazz);
    assert_eq!(a.name, "Jazz");
    assert_eq!(a.url, "http://j");
    assert_eq!(a.category, Category::Jazz);
    assert!(!a.is_custom);
    let b = Station::new_custom("Mine", "http://m");
    assert_eq!(b.category, Category::Lofi);
    assert!(b.is_custom);
    assert!(a != b);
    assert!(b == Station::new_custom("Mine", "http://m"));
}

#[test]
fn category_labels() {
    assert_eq!(Category::Lofi.to_string(), "Lofi");
    assert_eq!(Category::Classical.to_string(), "Classical");
    assert_eq!(Category::Synthwave.label(), "Synthwave");
    assert_eq!(Category::Nature.label(), "Nature");
}

#[test]
fn default_settings() {
    let c = Config::default();
    assert_eq!(c.volume, 70);
    assert!(c.last_station_url.is_none());
    assert!(c.favorites.is_empty());
    assert!(c.custom_stations.is_empty());
}

#[test]
fn load_takes_parsed_or_default() {
    let mut c = Config::default();
    c.volume = 12;
    c.favorites.push("u".to_string());
    let loaded = Config::load(Some(c));
    assert_eq!(loaded.volume, 12);
    assert_eq!(loaded.favorites, vec!["u".to_string()]);
    let d = Config::load(None);
    assert_eq!(d.volume, 70);
}

#[test]
fn path_joining() {
    assert_eq!(path_join(b"a", b"b"), b"a/b".to_vec());
    assert_eq!(path_join(b"a/", b"b"), b"a/b".to_vec());
    assert_eq!(path_join(b"", b"b"), b"b".to_vec());
    assert_eq!(path_join(b"a", b"/b"), b"/b".to_vec());
    assert_eq!(path_join(b"\xff\xfe", b"c"), b"\xff\xfe/c".to_vec());
}

#[test]
fn settings_paths() {
    assert_eq!(
        Config::config_path_in(Some(b"/home/u/.config".to_vec())),
        b"/home/u/.config/lofigirl-cli/config.toml".to_vec()
    );
    assert_eq!(
        Config::config_path_in(Some(b"/home/\xe9t\xe9".to_vec())),
        b"/home/\xe9t\xe9/lofigirl-cli/config.toml".to_vec()
    );
    assert_eq!(Config::config_path_in(None), b"./lofigirl-cli/config.toml".to_vec());
    assert_eq!(Config::config_dir_in(None), b"./lofigirl-cli".to_vec());
    assert!(Config::config_dir().ends_with(b"/lofigirl-cli"));
    assert!(Config::config_path().ends_with(b"/lofigirl-cli/config.toml"));
}

#[test]
fn saved_station_clone() {
    let s = SavedStation { name: "n".to_string(), url: "u".to_string() };
    let t = s.clone();
    assert_eq!(t.name, "n");
    assert_eq!(t.url, "u");
}
