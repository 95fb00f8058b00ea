use user_colors::colors::ColorOverrides;
use user_colors::config::{Config, Loaded, CONFIG_NAME};

fn day_and_night() -> Config {
    Config::new(String::from("day"), String::from("night"))
}

#[test]
fn new_keeps_both_names() {
    let config = day_and_night();
    assert_eq!(config.light, "day");
    assert_eq!(config.dark, "night");
}

#[test]
fn default_names_no_theme() {
    let config = Config::default();
    assert_eq!(config.light, "");
    assert_eq!(config.dark, "");
    assert!(!config.is_initialized());
}

#[test]
fn active_name_follows_the_display_mode() {
    let config = day_and_night();
    assert_eq!(config.active_name(true), "night");
    assert_eq!(config.active_name(false), "day");
    assert_eq!(config.active_name(true), config.dark);
    assert_eq!(config.active_name(false), config.light);
}

#[test]
fn active_name_of_a_first_run_is_blank() {
    let config = Config::default();
    assert_eq!(config.active_name(true), "");
    assert_eq!(config.active_name(false), "");
}

#[test]
fn set_active_light_leaves_dark_alone() {
    let mut config = day_and_night();
    config.set_active_light("dawn");
    assert_eq!(config.light, "dawn");
    assert_eq!(config.dark, "night");
    assert_eq!(config.active_name(false), "dawn");
    assert_eq!(config.active_name(true), "night");
}

#[test]
fn set_active_dark_leaves_light_alone() {
    let mut config = day_and_night();
    config.set_active_dark("night2");
    assert_eq!(config.light, "day");
    assert_eq!(config.dark, "night2");
    assert_eq!(config.active_name(true), "night2");
    assert_eq!(config.active_name(false), "day");
}

#[test]
fn is_initialized_wants_both_names() {
    assert!(day_and_night().is_initialized());
    assert!(!Config::new(String::from("day"), String::new()).is_initialized());
    assert!(!Config::new(String::new(), String::from("night")).is_initialized());
    let mut config = Config::default();
    config.set_active_light("day");
    assert!(!config.is_initialized());
    config.set_active_dark("night");
    assert!(config.is_initialized());
}

#[test]
fn load_takes_what_is_stored() {
    let Loaded { config, persist } = Config::load(Some(day_and_night()));
    assert_eq!(config.light, "day");
    assert_eq!(config.dark, "night");
    assert!(!persist);
}

#[test]
fn load_makes_up_the_selection_of_a_first_run() {
    let Loaded { config, persist } = Config::load(None);
    assert_eq!(config.light, "");
    assert_eq!(config.dark, "");
    assert!(persist);
}

#[test]
fn the_selection_is_kept_in_one_file() {
    assert_eq!(CONFIG_NAME, "config.ron");
    assert_eq!(Config::file_name(), "config.ron.toml");
}

#[test]
fn clone_copies_both_names() {
    let config = day_and_night();
    let copy = config.clone();
    assert_eq!(copy.light, "day");
    assert_eq!(copy.dark, "night");
}

#[test]
fn from_one_theme_selects_it_for_both_modes() {
    let theme = ColorOverrides { name: String::from("solar"), ..ColorOverrides::default() };
    let config = Config::from(theme);
    assert_eq!(config.light, "solar");
    assert_eq!(config.dark, "solar");
}

#[test]
fn from_two_themes_selects_light_then_dark() {
    let light = ColorOverrides { name: String::from("day"), ..ColorOverrides::default() };
    let dark = ColorOverrides { name: String::from("night"), ..ColorOverrides::default() };
    let config = Config::from((light, dark));
    assert_eq!(config.light, "day");
    assert_eq!(config.dark, "night");
}
