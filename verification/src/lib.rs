//! Keeps a generated stylesheet in step with the active color theme.
//!
//! A theme is a named bundle of color overrides, kept in a file of its own.
//! A selection names the theme for light mode and the theme for dark mode.
//! Whenever the selection, a theme file or the display mode changes, the
//! active theme is resolved anew and its stylesheet is published.
//!
//! This library holds the decisions: what a stylesheet says ([`css`]), which
//! theme is active ([`config`]), and when to reload, what to watch and what
//! to publish ([`coordinator`], over the state machine of [`machine`]). It
//! reads no file and watches none; its caller does, as the library tells it.

use vstd::prelude::*;

use crate::coordinator::Coordinator;
use crate::machine::{State, WatchMode};
use crate::text::{copy_of, text_of};

pub mod colors;
pub mod config;
pub mod coordinator;
pub mod css;
pub mod keys;
pub mod machine;
pub mod text;

verus! {

/// The directory, below the user's configuration and data directories, that
/// holds what belongs to this library.
pub const NAME: &'static str = "adwaita-user-colors";

/// The directory, below [`NAME`], that holds the theme files.
pub const THEME_DIR: &'static str = "color-overrides";

/// The directory, below the user's configuration directory, that holds the
/// stylesheet.
pub const OUTPUT_DIR: &'static str = "gtk-4.0";

/// The name of the stylesheet.
pub const OUTPUT_FILE: &'static str = "gtk.css";

/// How long, in milliseconds, events are gathered before they are answered
/// with one reload: long enough to take a save that touches its file twice
/// for one change.
pub const DEBOUNCE_MILLIS: u64 = 50;

/// One of the two directories that are watched from start to end.
#[derive(Clone, Copy, Debug, PartialEq, Eq, Structural)]
pub enum Place {
    /// The directory of the selection.
    ConfigDir,
    /// The directory of the theme files.
    ThemeDir,
}

/// A watch to set up at the start.
#[derive(Clone, Copy, Debug, PartialEq, Eq, Structural)]
pub struct Watch {
    pub place: Place,
    /// Whether the watch covers what lies below the directory too.
    pub recursive: bool,
}

/// What to release at the end.
#[derive(Debug)]
pub struct Teardown {
    /// The directories to stop watching.
    pub places: Vec<Place>,
    /// The theme file to stop watching, if one is watched by itself.
    pub theme_file: Option<String>,
}

/// The watches that the start sets up: one on the directory of the
/// selection, which has nothing below it to cover, and one on the directory
/// of the theme files, which covers the files too unless they are watched
/// one by one.
pub open spec fn startup_watches(mode: WatchMode) -> Seq<Watch> {
    seq![
        Watch { place: Place::ConfigDir, recursive: false },
        Watch { place: Place::ThemeDir, recursive: mode is Directory },
    ]
}

/// Starts: hands out a coordinator at its start, with the first reload due,
/// and the watches to set up before that reload. A watch that cannot be set
/// up ends the process.
pub fn load(mode: WatchMode) -> (start: (Coordinator, Vec<Watch>))
    ensures
        start.0@ == State::initial(mode),
        start.1@ == startup_watches(mode),
{
    let coordinator = Coordinator::new(mode);
    let watches = vec![
        Watch { place: Place::ConfigDir, recursive: false },
        Watch { place: Place::ThemeDir, recursive: mode == WatchMode::Directory },
    ];
    assert(watches@ =~= startup_watches(mode));
    (coordinator, watches)
}

/// Stops: takes the coordinator out of service and tells what to release,
/// namely the watches on the two directories and, under per-file watching,
/// the watch on the theme file. The caller also ends its subscription to the
/// display mode.
pub fn unload(coordinator: Coordinator) -> (teardown: Teardown)
    ensures
        teardown.places@ == seq![Place::ConfigDir, Place::ThemeDir],
        coordinator@.mode is PerFile ==> text_of(teardown.theme_file) == coordinator@.target,
        coordinator@.mode is Directory ==> teardown.theme_file is None,
{
    let theme_file = if coordinator.mode() == WatchMode::PerFile {
        coordinator.target()
    } else {
        None
    };
    let places = vec![Place::ConfigDir, Place::ThemeDir];
    assert(places@ =~= seq![Place::ConfigDir, Place::ThemeDir]);
    Teardown { places, theme_file }
}

} // verus!
