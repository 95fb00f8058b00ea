//! The reload state machine as mathematics: its states, its transitions,
//! and what holds of them.
//!
//! The machine reacts to three kinds of input. Events mark a reload as
//! pending. A reload, made once per burst of events, is handed the name of
//! the active theme and the outcome of loading it, and answers with a plan:
//! which theme file to stop watching, which to watch, and what text to
//! publish. The outcome of the write settles what the output holds.

use vstd::prelude::*;

use crate::colors::{lemma_theme_file_injective, theme_file, Theme};
use crate::config::Selection;
use crate::css::{published_text, IMPORT_DIRECTIVE};

verus! {

/// How changes to theme files are learnt of.
#[derive(Clone, Copy, Debug, PartialEq, Eq, Structural)]
pub enum WatchMode {
    /// The theme directory is watched with all that is in it. Every change in
    /// it calls for a reload, and no theme file is watched by itself.
    Directory,
    /// The file of the active theme is watched by itself, and the watch moves
    /// when another theme becomes active. Changes to other theme files are
    /// passed over.
    PerFile,
}

/// Where the machine stands in its life.
#[derive(Clone, Copy, Debug, PartialEq, Eq, Structural)]
pub enum Phase {
    /// Nothing has been resolved yet. Failing to set up what the machine
    /// cannot do without ends the process.
    Starting,
    /// The first reload is over. From here on nothing ends the process.
    Steady,
}

/// What happened to a watched file or directory.
#[derive(Clone, Copy, Debug, PartialEq, Eq, Structural)]
pub enum ChangeKind {
    Created,
    Modified,
    Removed,
    /// Anything that leaves the contents as they were, such as a read.
    Other,
}

impl ChangeKind {
    /// Whether the change can alter what a reload finds.
    pub open spec fn alters(self) -> bool {
        self != ChangeKind::Other
    }

    /// Tells whether the change can alter what a reload finds.
    pub fn is_alteration(self) -> (alters: bool)
        ensures
            alters == self.alters(),
    {
        match self {
            ChangeKind::Other => false,
            _ => true,
        }
    }
}

/// Why a theme document could not be loaded.
#[derive(Clone, Copy, Debug, PartialEq, Eq, Structural)]
pub enum LoadError {
    /// There is no file for the theme.
    NotFound,
    /// The file does not hold a theme document.
    Invalid,
}

/// What can go wrong, as far as the machine tells failures apart.
#[derive(Clone, Copy, Debug, PartialEq, Eq, Structural)]
pub enum Failure {
    /// No selection is stored. The selection of a first run takes its place.
    ConfigMissing,
    /// The selection of a first run could not be stored.
    ConfigBootstrap,
    /// There is no file for the active theme.
    ThemeNotFound,
    /// The file of the active theme does not hold a theme document.
    ThemeParse,
    /// A watch could not be set up. `required` tells the watches on the two
    /// directories, which the machine cannot do without, from the watch on a
    /// single theme file.
    WatchSetup { required: bool },
    /// The stylesheet could not be written.
    OutputWrite,
}

impl LoadError {
    /// The failure that this load error amounts to.
    pub fn failure(self) -> (failure: Failure)
        ensures
            self == LoadError::NotFound ==> failure == Failure::ThemeNotFound,
            self == LoadError::Invalid ==> failure == Failure::ThemeParse,
    {
        match self {
            LoadError::NotFound => Failure::ThemeNotFound,
            LoadError::Invalid => Failure::ThemeParse,
        }
    }
}

/// An input that may call for a reload.
pub enum Signal {
    /// Something changed in the directory of the selection.
    Config(ChangeKind),
    /// The theme file of the given name changed.
    Theme(Seq<char>, ChangeKind),
    /// The platform went from light to dark or back.
    Mode,
}

/// What a published stylesheet was made from: the name under which the theme
/// was active, and the theme.
pub struct Rendition {
    pub name: Seq<char>,
    pub theme: Theme,
}

/// What a reload asks for.
pub struct Plan {
    /// The theme file to stop watching.
    pub unwatch: Option<Seq<char>>,
    /// The theme file to start watching.
    pub watch: Option<Seq<char>>,
    /// The text to put in place of the stylesheet.
    pub publish: Option<Seq<char>>,
}

/// A state of the machine.
pub struct State {
    pub mode: WatchMode,
    pub phase: Phase,
    /// The name of the active theme, as the last reload resolved it.
    pub active: Option<Seq<char>>,
    /// The theme file that is being watched for the active theme.
    pub target: Option<Seq<char>>,
    /// What the stylesheet on disk was made from, if this machine made it.
    pub published: Option<Rendition>,
    /// What the text handed out by the last reload was made from, until the
    /// outcome of its write is known.
    pub staged: Option<Rendition>,
    /// Whether an event has called for a reload that has not begun yet.
    pub pending: bool,
}

impl State {
    /// The state in which the machine starts: nothing resolved, watched or
    /// published, and the first reload due.
    pub open spec fn initial(mode: WatchMode) -> State {
        State {
            mode,
            phase: Phase::Starting,
            active: None,
            target: None,
            published: None,
            staged: None,
            pending: true,
        }
    }

    /// What holds of every state that the machine reaches. The watched theme
    /// file is the file of the active theme; what is being written was made
    /// for the active theme; and before the first reload nothing is resolved,
    /// watched or published.
    pub open spec fn wf(self) -> bool {
        &&& self.target matches Some(file) ==> self.follows(file)
        &&& self.staged matches Some(rendition) ==> self.active == Some(rendition.name)
        &&& self.phase is Starting ==> self.active is None && self.published is None
    }

    /// Whether `file` is the file of the active theme.
    pub open spec fn follows(self, file: Seq<char>) -> bool {
        match self.active {
            Some(name) => file == theme_file(name),
            None => false,
        }
    }

    /// Whether a signal calls for a reload. A change of display mode always
    /// does. A change to a file does where it can alter what a reload finds;
    /// under per-file watching a theme file must also be that of the active
    /// theme.
    pub open spec fn triggers(self, signal: Signal) -> bool {
        match signal {
            Signal::Mode => true,
            Signal::Config(kind) => kind.alters(),
            Signal::Theme(file, kind) => kind.alters() && (self.mode is Directory || self.follows(
                file,
            )),
        }
    }

    /// Whether a signal tells that the watch on the theme file is gone: under
    /// per-file watching, the removal of the watched file.
    pub open spec fn invalidates(self, signal: Signal) -> bool {
        match signal {
            Signal::Theme(file, kind) => self.mode is PerFile && kind == ChangeKind::Removed
                && self.target == Some(file),
            _ => false,
        }
    }

    /// The state after a signal.
    pub open spec fn after_event(self, signal: Signal) -> State {
        State {
            pending: self.pending || self.triggers(signal),
            target: if self.invalidates(signal) {
                None
            } else {
                self.target
            },
            ..self
        }
    }

    /// The state after a sequence of signals.
    pub open spec fn after_events(self, signals: Seq<Signal>) -> State
        decreases signals.len(),
    {
        if signals.len() == 0 {
            self
        } else {
            self.after_events(signals.drop_last()).after_event(signals.last())
        }
    }

    /// The state after the pending reload has been taken up.
    pub open spec fn after_take(self) -> State {
        State { pending: false, ..self }
    }

    /// Whether a reload for the theme called `name` has to move the watch.
    pub open spec fn retargets(self, name: Seq<char>) -> bool {
        self.mode is PerFile && self.target != Some(theme_file(name))
    }

    /// Whether a reload has something to publish: the theme was loaded, and
    /// the stylesheet on disk was not made from it under the same name.
    pub open spec fn fresh(self, name: Seq<char>, loaded: Result<Theme, LoadError>) -> bool {
        match loaded {
            Ok(theme) => self.published != Some(Rendition { name, theme }),
            Err(_) => false,
        }
    }

    /// What a reload asks for, given the name of the active theme and the
    /// outcome of loading it.
    pub open spec fn plan(self, name: Seq<char>, loaded: Result<Theme, LoadError>) -> Plan {
        Plan {
            unwatch: if self.retargets(name) {
                self.target
            } else {
                None
            },
            watch: if self.retargets(name) {
                Some(theme_file(name))
            } else {
                None
            },
            publish: if self.fresh(name, loaded) {
                Some(published_text(loaded->Ok_0.colors))
            } else {
                None
            },
        }
    }

    /// The state after a reload.
    pub open spec fn after_reload(
        self,
        name: Seq<char>,
        loaded: Result<Theme, LoadError>,
    ) -> State {
        State {
            phase: Phase::Steady,
            active: Some(name),
            target: Some(theme_file(name)),
            staged: if self.fresh(name, loaded) {
                Some(Rendition { name, theme: loaded->Ok_0 })
            } else {
                None
            },
            ..self
        }
    }

    /// The theme files that are watched one by one, as far as the machine
    /// knows: under per-file watching the target, if there is one.
    pub open spec fn watched(self) -> Set<Seq<char>> {
        if self.mode is PerFile && self.target is Some {
            set![self.target->0]
        } else {
            Set::empty()
        }
    }

    /// The state after the write of the published text has ended, well or
    /// not.
    pub open spec fn after_write(self, ok: bool) -> State {
        State {
            published: if ok && self.staged is Some {
                self.staged
            } else {
                self.published
            },
            staged: None,
            ..self
        }
    }

    /// The state after the watch on the theme file could not be set up, or
    /// was lost.
    pub open spec fn after_watch_lost(self) -> State {
        State { target: None, ..self }
    }

    /// The state after a reload was given up because the selection could not
    /// be read.
    pub open spec fn after_abandon(self) -> State {
        State { phase: Phase::Steady, ..self }
    }

    /// Whether a failure ends the process. Only at the start, and only what
    /// the machine cannot run without: the stored selection of a first run
    /// and the watches on the two directories.
    pub open spec fn fatal(self, failure: Failure) -> bool {
        self.phase is Starting && (failure == Failure::ConfigBootstrap || failure
            == Failure::WatchSetup { required: true })
    }
}

/// The machine starts well-formed and every transition keeps it so. Once it
/// has left its start it never returns there.
pub proof fn lemma_transitions_keep_wf(
    s: State,
    mode: WatchMode,
    signal: Signal,
    name: Seq<char>,
    loaded: Result<Theme, LoadError>,
    ok: bool,
)
    requires
        s.wf(),
    ensures
        State::initial(mode).wf(),
        s.after_event(signal).wf(),
        s.after_take().wf(),
        s.after_reload(name, loaded).wf(),
        s.after_write(ok).wf(),
        s.after_watch_lost().wf(),
        s.after_abandon().wf(),
        s.phase is Steady ==> s.after_event(signal).phase is Steady,
        s.phase is Steady ==> s.after_take().phase is Steady,
        s.phase is Steady ==> s.after_write(ok).phase is Steady,
        s.phase is Steady ==> s.after_watch_lost().phase is Steady,
        s.after_reload(name, loaded).phase is Steady,
        s.after_abandon().phase is Steady,
{
}

/// Events by themselves publish nothing and resolve nothing. However many
/// arrive, the stylesheet on disk, the active theme and the phase stay what
/// they were: all that events do is to mark one reload as due and to end a
/// watch.
pub proof fn lemma_events_only_mark(s: State, signals: Seq<Signal>)
    ensures
        s.after_events(signals).published == s.published,
        s.after_events(signals).staged == s.staged,
        s.after_events(signals).active == s.active,
        s.after_events(signals).phase == s.phase,
        s.after_events(signals).mode == s.mode,
        s.pending ==> s.after_events(signals).pending,
        s.wf() ==> s.after_events(signals).wf(),
    decreases signals.len(),
{
    if signals.len() > 0 {
        lemma_events_only_mark(s, signals.drop_last());
    }
}

/// A burst of events alike is one event. Any number of copies of a signal,
/// one at least, leaves the machine where a single copy leaves it. If the
/// signal calls for a reload, one reload is due after the burst; once that
/// reload is taken up, made and written out, none is due.
pub proof fn lemma_burst_coalesces(
    s: State,
    signal: Signal,
    burst: Seq<Signal>,
    name: Seq<char>,
    loaded: Result<Theme, LoadError>,
    ok: bool,
)
    requires
        burst.len() >= 1,
        forall|i: int| 0 <= i < burst.len() ==> burst[i] == signal,
    ensures
        s.after_events(burst) == s.after_event(signal),
        s.triggers(signal) ==> s.after_events(burst).pending,
        !s.after_events(burst).after_take().pending,
        !s.after_events(burst).after_take().after_reload(name, loaded).after_write(ok).pending,
    decreases burst.len(),
{
    let earlier = burst.drop_last();
    assert(burst.last() == signal);
    if burst.len() > 1 {
        lemma_burst_coalesces(s, signal, earlier, name, loaded, ok);
        assert(s.after_event(signal).after_event(signal) == s.after_event(signal));
    } else {
        assert(s.after_events(earlier) == s);
    }
}

/// When another theme becomes active, the machine turns to its file. After a
/// reload that resolved the theme `b` where `a` was active, the file of `b`
/// is the watched one. Under per-file watching the plan moves the watch
/// there, and events about the file of `a` no longer call for a reload nor
/// change anything. Under directory watching no watch moves; an event about
/// the file of `a` calls for a reload, which finds `b` again and, where `b`
/// is published and unchanged, publishes nothing.
pub proof fn lemma_retarget(
    s: State,
    a: Seq<char>,
    b: Seq<char>,
    loaded: Result<Theme, LoadError>,
    kind: ChangeKind,
)
    requires
        s.wf(),
        s.active == Some(a),
        a != b,
    ensures
        s.after_reload(b, loaded).active == Some(b),
        s.after_reload(b, loaded).target == Some(theme_file(b)),
        s.after_reload(b, loaded).target != Some(theme_file(a)),
        s.mode is PerFile ==> s.plan(b, loaded).watch == Some(theme_file(b)) && s.plan(
            b,
            loaded,
        ).unwatch == s.target,
        s.mode is PerFile ==> !s.after_reload(b, loaded).triggers(
            Signal::Theme(theme_file(a), kind),
        ),
        s.mode is PerFile ==> s.after_reload(b, loaded).after_event(
            Signal::Theme(theme_file(a), kind),
        ) == s.after_reload(b, loaded),
        s.mode is Directory ==> s.plan(b, loaded).watch is None,
        s.mode is Directory ==> s.plan(b, loaded).unwatch is None,
        loaded is Ok ==> s.after_reload(b, loaded).after_write(true).after_event(
            Signal::Theme(theme_file(a), kind),
        ).plan(b, loaded).publish is None,
{
    if theme_file(a) == theme_file(b) {
        lemma_theme_file_injective(a, b);
    }
}

/// The theme files under watch once a plan is carried out: those that were,
/// without the one to stop watching and with the one to start watching.
pub open spec fn watched_after(watched: Set<Seq<char>>, plan: Plan) -> Set<Seq<char>> {
    let kept = match plan.unwatch {
        Some(file) => watched.remove(file),
        None => watched,
    };
    match plan.watch {
        Some(file) => kept.insert(file),
        None => kept,
    }
}

/// Under per-file watching one theme file at most is watched at a time, and
/// after a reload it is the file of the active theme. Where the files under
/// watch are those that the machine knows of, carrying out the plan of a
/// reload leaves the file of the resolved theme under watch and no other.
pub proof fn lemma_one_theme_file_watched(
    s: State,
    watched: Set<Seq<char>>,
    name: Seq<char>,
    loaded: Result<Theme, LoadError>,
)
    requires
        s.mode is PerFile,
        watched == s.watched(),
    ensures
        watched_after(watched, s.plan(name, loaded)) == set![theme_file(name)],
        watched_after(watched, s.plan(name, loaded)) == s.after_reload(name, loaded).watched(),
{
    assert(watched_after(watched, s.plan(name, loaded)) =~= set![theme_file(name)]);
}

/// A theme that cannot be loaded leaves the stylesheet alone. Whatever the
/// reason, the reload publishes nothing, hands out nothing to write, and what
/// the stylesheet on disk was made from stays what it was.
pub proof fn lemma_missing_theme_keeps_output(
    s: State,
    name: Seq<char>,
    error: LoadError,
    ok: bool,
)
    ensures
        s.plan(name, Err(error)).publish is None,
        s.after_reload(name, Err(error)).staged is None,
        s.after_reload(name, Err(error)).published == s.published,
        s.after_reload(name, Err(error)).after_write(ok).published == s.published,
{
}

/// Nothing blank or partial is ever published. A reload publishes only after
/// the theme was loaded, and then the whole text for it, which is never
/// empty.
pub proof fn lemma_publishes_whole_text(
    s: State,
    name: Seq<char>,
    loaded: Result<Theme, LoadError>,
)
    requires
        s.plan(name, loaded).publish is Some,
    ensures
        loaded is Ok,
        s.plan(name, loaded).publish == Some(published_text(loaded->Ok_0.colors)),
        s.plan(name, loaded).publish->0.len() > 0,
{
    reveal_strlit("\n@import url(\"custom.css\");\n");
}

/// A reload converges on what it was given. Whatever came before, after a
/// reload that loaded the active theme and a write that went well, the
/// stylesheet on disk is the one made from that theme under that name; and a
/// further reload that finds the same publishes nothing.
pub proof fn lemma_reload_converges(s: State, name: Seq<char>, theme: Theme)
    ensures
        s.after_reload(name, Ok(theme)).after_write(true).published == Some(
            Rendition { name, theme },
        ),
        s.after_reload(name, Ok(theme)).after_write(true).plan(name, Ok(theme)).publish is None,
{
}

/// A change of display mode is answered with the theme of the new mode, and
/// needs no change of the selection. After the signal a reload is due; what
/// it is handed is the theme that the selection names for the new mode; and
/// unless the stylesheet on disk was made from just that, it is published.
pub proof fn lemma_mode_change_regenerates(
    s: State,
    selection: Selection,
    dark_mode: bool,
    theme: Theme,
)
    requires
        s.published != Some(Rendition { name: selection.active(dark_mode), theme }),
    ensures
        s.after_event(Signal::Mode).pending,
        s.after_event(Signal::Mode).after_take().plan(
            selection.active(dark_mode),
            Ok(theme),
        ).publish == Some(published_text(theme.colors)),
        dark_mode ==> selection.active(dark_mode) == selection.dark,
        !dark_mode ==> selection.active(dark_mode) == selection.light,
{
}

/// A newly selected theme whose file arrives later is published once the
/// file is there. Let a change of the selection make the theme `name`
/// active while it has no file, so that the reload finds nothing. Then the
/// creation of the file calls for a reload, under either way of watching,
/// and that reload with its write leaves the stylesheet made from the
/// theme.
pub proof fn lemma_theme_arrives_after_selection(
    s: State,
    kind: ChangeKind,
    name: Seq<char>,
    error: LoadError,
    theme: Theme,
    waiting: State,
)
    requires
        waiting == s.after_event(Signal::Config(kind)).after_take().after_reload(name, Err(error)),
    ensures
        kind.alters() ==> s.after_event(Signal::Config(kind)).pending,
        waiting.after_event(Signal::Theme(theme_file(name), ChangeKind::Created)).pending,
        waiting.after_event(
            Signal::Theme(theme_file(name), ChangeKind::Created),
        ).after_take().after_reload(name, Ok(theme)).after_write(true).published == Some(
            Rendition { name, theme },
        ),
{
}

/// A theme whose file is there before it is selected is published once it
/// is selected. Whatever happened since the file arrived, a change of the
/// selection calls for a reload, and that reload with its write leaves the
/// stylesheet made from the theme.
pub proof fn lemma_selection_arrives_after_theme(
    s: State,
    kind: ChangeKind,
    name: Seq<char>,
    theme: Theme,
    settled: State,
)
    requires
        kind.alters(),
        settled == s.after_event(Signal::Theme(theme_file(name), ChangeKind::Created)),
    ensures
        settled.after_event(Signal::Config(kind)).pending,
        settled.after_event(Signal::Config(kind)).after_take().after_reload(
            name,
            Ok(theme),
        ).after_write(true).published == Some(Rendition { name, theme }),
{
}

/// A write that failed is made up for: the next reload that loads the theme
/// publishes it again, unless the stylesheet on disk was made from it
/// already.
pub proof fn lemma_failed_write_is_retried(s: State, name: Seq<char>, theme: Theme)
    requires
        s.published != Some(Rendition { name, theme }),
    ensures
        s.after_reload(name, Ok(theme)).after_write(false).plan(name, Ok(theme)).publish == Some(
            published_text(theme.colors),
        ),
{
}

/// Once the machine has left its start, no failure ends the process.
pub proof fn lemma_steady_survives(s: State, failure: Failure)
    requires
        s.phase is Steady,
    ensures
        !s.fatal(failure),
{
}

} // verus!
