//! The reload coordinator: the state machine at work.
//!
//! The coordinator decides and its caller acts. The caller watches the
//! directories and, once per scheduling turn, hands what has arrived to
//! [`Coordinator::gather`], which tells whether a reload is due. For a
//! reload the caller reads the selection and the display mode, loads the
//! active theme, and hands name and outcome to [`Coordinator::reload`]. It
//! then carries out the reaction, and reports how the write ended with
//! [`Coordinator::written`].

use vstd::prelude::*;
use vstd::string::*;

use crate::colors::{theme_file, theme_file_name, ColorOverrides, Theme};
use crate::css::stylesheet;
use crate::machine::{
    ChangeKind, Failure, LoadError, Phase, Plan, Rendition, Signal, State, WatchMode,
};
use crate::text::{copy_of, same_text, text_of};

verus! {

/// An event of one of the three sources that the coordinator listens to.
#[derive(Debug)]
pub enum Event {
    /// Something changed in the directory of the selection.
    ConfigChanged { kind: ChangeKind },
    /// The theme file called `file` changed.
    ThemeChanged { file: String, kind: ChangeKind },
    /// The platform went from light to dark or back.
    ModeChanged,
}

impl View for Event {
    type V = Signal;

    open spec fn view(&self) -> Signal {
        match *self {
            Event::ConfigChanged { kind } => Signal::Config(kind),
            Event::ThemeChanged { file, kind } => Signal::Theme(file@, kind),
            Event::ModeChanged => Signal::Mode,
        }
    }
}

/// The signals that a sequence of events stands for.
pub open spec fn signals_of(events: Seq<Event>) -> Seq<Signal> {
    events.map_values(|event: Event| event@)
}

/// What the caller has to do after a reload, in the order of the fields.
#[derive(Debug)]
pub struct Reaction {
    /// The theme file to stop watching.
    pub unwatch: Option<String>,
    /// The theme file to start watching.
    pub watch: Option<String>,
    /// The text to put in place of the stylesheet, all at once.
    pub publish: Option<String>,
}

impl View for Reaction {
    type V = Plan;

    open spec fn view(&self) -> Plan {
        Plan {
            unwatch: text_of(self.unwatch),
            watch: text_of(self.watch),
            publish: text_of(self.publish),
        }
    }
}

/// What loading a theme document came to, as the machine sees it.
pub open spec fn outcome_of(loaded: Result<ColorOverrides, LoadError>) -> Result<Theme, LoadError> {
    match loaded {
        Ok(document) => Ok(document@),
        Err(error) => Err(error),
    }
}

/// A theme document together with the name under which it was active.
struct Rendered {
    name: String,
    document: ColorOverrides,
}

impl Clone for Rendered {
    fn clone(&self) -> (copy: Self)
        ensures
            copy == *self,
    {
        Rendered { name: self.name.clone(), document: self.document.clone() }
    }
}

impl View for Rendered {
    type V = Rendition;

    closed spec fn view(&self) -> Rendition {
        Rendition { name: self.name@, theme: self.document@ }
    }
}

spec fn rendition_of(rendered: Option<Rendered>) -> Option<Rendition> {
    match rendered {
        Some(rendered) => Some(rendered@),
        None => None,
    }
}

/// The one owner of the reload state.
pub struct Coordinator {
    mode: WatchMode,
    phase: Phase,
    active: Option<String>,
    target: Option<String>,
    published: Option<Rendered>,
    staged: Option<Rendered>,
    pending: bool,
}

impl View for Coordinator {
    type V = State;

    closed spec fn view(&self) -> State {
        State {
            mode: self.mode,
            phase: self.phase,
            active: text_of(self.active),
            target: text_of(self.target),
            published: rendition_of(self.published),
            staged: rendition_of(self.staged),
            pending: self.pending,
        }
    }
}

impl Coordinator {
    #[verifier::type_invariant]
    spec fn well_formed(&self) -> bool {
        self@.wf()
    }

    /// A coordinator at its start: nothing resolved, and the first reload
    /// due.
    pub fn new(mode: WatchMode) -> (coordinator: Self)
        ensures
            coordinator@ == State::initial(mode),
            coordinator@.wf(),
    {
        Coordinator {
            mode,
            phase: Phase::Starting,
            active: None,
            target: None,
            published: None,
            staged: None,
            pending: true,
        }
    }

    /// Takes note of an event. Nothing is reloaded yet: the event at most
    /// marks a reload as due, and a removed theme file ends its watch.
    pub fn notify(&mut self, event: &Event)
        ensures
            final(self)@ == old(self)@.after_event(event@),
            final(self)@.wf(),
    {
        proof {
            use_type_invariant(&*self);
        }
        match event {
            Event::ModeChanged => {
                self.pending = true;
            },
            Event::ConfigChanged { kind } => {
                if kind.is_alteration() {
                    self.pending = true;
                }
            },
            Event::ThemeChanged { file, kind } => {
                if kind.is_alteration() && (self.mode == WatchMode::Directory || self.follows(
                    file.as_str(),
                )) {
                    self.pending = true;
                }
                if self.mode == WatchMode::PerFile && *kind == ChangeKind::Removed
                    && self.watches(file.as_str()) {
                    self.target = None;
                }
            },
        }
    }

    /// Takes in all the events of one scheduling turn and takes up the
    /// reload that they call for, if any does: tells whether a reload is due,
    /// and marks none as due. However many events there are, one reload
    /// answers them.
    pub fn gather(&mut self, events: &Vec<Event>) -> (due: bool)
        ensures
            due == old(self)@.after_events(signals_of(events@)).pending,
            final(self)@ == old(self)@.after_events(signals_of(events@)).after_take(),
            final(self)@.wf(),
    {
        let ghost signals = signals_of(events@);
        let mut seen: usize = 0;
        while seen < events.len()
            invariant
                seen <= events.len(),
                signals == signals_of(events@),
                self@ == old(self)@.after_events(signals.take(seen as int)),
            decreases events.len() - seen,
        {
            self.notify(&events[seen]);
            proof {
                let upto = signals.take(seen + 1);
                assert(upto.drop_last() =~= signals.take(seen as int));
                assert(upto.last() == events@[seen as int]@);
            }
            seen += 1;
        }
        assert(signals.take(seen as int) =~= signals);
        self.take_trigger()
    }

    /// Tells whether `file` is the file of the active theme.
    pub fn follows(&self, file: &str) -> (follows: bool)
        ensures
            follows == self@.follows(file@),
    {
        match &self.active {
            Some(name) => {
                let own = theme_file_name(name.as_str());
                same_text(file, own.as_str())
            },
            None => false,
        }
    }

    /// Tells whether `file` is the theme file being watched.
    pub fn watches(&self, file: &str) -> (watches: bool)
        ensures
            watches == (self@.target == Some(file@)),
    {
        match &self.target {
            Some(target) => same_text(file, target.as_str()),
            None => false,
        }
    }

    /// Reloads: settles on what is watched and what is published, now that
    /// the theme called `name` is active and loading it came to `loaded`.
    ///
    /// Under per-file watching the watch moves to the file of the theme,
    /// unless it is there already. The theme is published unless the
    /// stylesheet on disk was made from the same document under the same
    /// name. A theme that could not be loaded publishes nothing: what is on
    /// disk stays.
    pub fn reload(&mut self, name: &str, loaded: Result<ColorOverrides, LoadError>) -> (reaction:
        Reaction)
        ensures
            final(self)@ == old(self)@.after_reload(name@, outcome_of(loaded)),
            reaction@ == old(self)@.plan(name@, outcome_of(loaded)),
            final(self)@.wf(),
    {
        proof {
            use_type_invariant(&*self);
        }
        let file = theme_file_name(name);
        let retarget = self.mode == WatchMode::PerFile && !self.watches(file.as_str());
        let unwatch = if retarget {
            copy_of(&self.target)
        } else {
            None
        };
        let watch = if retarget {
            Some(theme_file_name(name))
        } else {
            None
        };
        let mut publish: Option<String> = None;
        let mut staged: Option<Rendered> = None;
        match loaded {
            Ok(document) => {
                let current = match &self.published {
                    Some(rendered) => same_text(rendered.name.as_str(), name)
                        && rendered.document.same_content(&document),
                    None => false,
                };
                if !current {
                    publish = Some(stylesheet(&document));
                    staged = Some(Rendered { name: String::from_str(name), document });
                }
            },
            Err(_) => {},
        }
        self.staged = None;
        self.target = None;
        self.phase = Phase::Steady;
        self.active = Some(String::from_str(name));
        self.target = Some(file);
        self.staged = staged;
        Reaction { unwatch, watch, publish }
    }

    /// Takes note of how the write of the published text ended. After a
    /// write that went well the stylesheet on disk is the one that the last
    /// reload handed out; after one that failed it is what it was, and the
    /// next reload will publish again.
    pub fn written(&mut self, ok: bool)
        ensures
            final(self)@ == old(self)@.after_write(ok),
            final(self)@.wf(),
    {
        proof {
            use_type_invariant(&*self);
        }
        let staged = match &self.staged {
            Some(rendered) => Some(rendered.clone()),
            None => None,
        };
        self.staged = None;
        if ok {
            match staged {
                Some(rendered) => {
                    self.published = Some(rendered);
                },
                None => {},
            }
        }
    }

    /// Takes note that the watch on the theme file could not be set up, or
    /// was lost. The next reload will ask for it again.
    pub fn watch_lost(&mut self)
        ensures
            final(self)@ == old(self)@.after_watch_lost(),
            final(self)@.wf(),
    {
        proof {
            use_type_invariant(&*self);
        }
        self.target = None;
    }

    /// Gives up the reload that was taken up, because the selection could not
    /// be read. Nothing is watched or published anew.
    pub fn abandon(&mut self)
        ensures
            final(self)@ == old(self)@.after_abandon(),
            final(self)@.wf(),
    {
        proof {
            use_type_invariant(&*self);
        }
        self.phase = Phase::Steady;
    }

    /// Tells whether a failure ends the process.
    pub fn is_fatal(&self, failure: Failure) -> (fatal: bool)
        ensures
            fatal == self@.fatal(failure),
    {
        self.phase == Phase::Starting && (failure == Failure::ConfigBootstrap || failure
            == Failure::WatchSetup { required: true })
    }

    /// How changes to theme files are learnt of.
    pub fn mode(&self) -> (mode: WatchMode)
        ensures
            mode == self@.mode,
    {
        self.mode
    }

    /// Where the coordinator stands in its life.
    pub fn phase(&self) -> (phase: Phase)
        ensures
            phase == self@.phase,
    {
        self.phase
    }

    /// Tells whether a reload is due.
    pub fn is_pending(&self) -> (pending: bool)
        ensures
            pending == self@.pending,
    {
        self.pending
    }

    /// The name of the active theme, as the last reload resolved it.
    pub fn active(&self) -> (name: Option<String>)
        ensures
            text_of(name) == self@.active,
    {
        copy_of(&self.active)
    }

    /// The theme file that is being watched for the active theme.
    pub fn target(&self) -> (file: Option<String>)
        ensures
            text_of(file) == self@.target,
    {
        copy_of(&self.target)
    }

    /// The name under which the stylesheet on disk was made, if this
    /// coordinator made it.
    pub fn published_name(&self) -> (name: Option<String>)
        ensures
            self@.published matches Some(rendition) ==> text_of(name) == Some(rendition.name),
            self@.published is None ==> name is None,
    {
        match &self.published {
            Some(rendered) => Some(rendered.name.clone()),
            None => None,
        }
    }

    /// The document from which the stylesheet on disk was made, if this
    /// coordinator made it.
    pub fn published_document(&self) -> (document: Option<ColorOverrides>)
        ensures
            self@.published matches Some(rendition) ==> document matches Some(found) && found@
                == rendition.theme,
            self@.published is None ==> document is None,
    {
        match &self.published {
            Some(rendered) => Some(rendered.document.clone()),
            None => None,
        }
    }

    /// Takes up the pending reload, if there is one: tells whether a reload
    /// is due, and marks none as due.
    pub fn take_trigger(&mut self) -> (due: bool)
        ensures
            due == old(self)@.pending,
            final(self)@ == old(self)@.after_take(),
            final(self)@.wf(),
    {
        proof {
            use_type_invariant(&*self);
        }
        let due = self.pending;
        self.pending = false;
        due
    }
}

} // verus!
