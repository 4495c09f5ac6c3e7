//! The provisioning procedure as a state machine. The caller performs each
//! action the machine asks for (a filesystem check, a directory creation, a
//! file write, a message) and reports its outcome as an event; the machine
//! decides what comes next.
use vstd::prelude::*;
use vstd::string::StringExecFns;
use crate::config::{config_of, info_of, settings_of, opt_text, Args, ArgsView, ServerConfig};
use crate::docker::{create_docker_compose, descriptor_of};

verus! {

/// Name of the settings file inside the target directory.
pub const SETTINGS_FILE: &'static str = "server.toml";

/// Name of the descriptor file inside the target directory.
pub const DESCRIPTOR_FILE: &'static str = "docker-compose.yml";

/// What to do when the target directory already holds files.
#[derive(Clone, Copy, Debug, PartialEq, Eq, Structural)]
pub enum NonEmptyPolicy {
    /// Warn and go on.
    Warn,
    /// Ask the user, and go on only on a yes.
    Prompt,
    /// Stop with an error.
    Abort,
}

/// The two files a run writes.
#[derive(Clone, Copy, Debug, PartialEq, Eq, Structural)]
pub enum Artifact {
    Settings,
    Descriptor,
}

/// Why a run stopped.
#[derive(Debug)]
pub enum ProvisionError {
    /// A filesystem operation failed; the cause as reported.
    Filesystem(String),
    /// The target directory has no final path segment that is non-empty text.
    Naming,
    /// The directory is not empty and the policy is to abort.
    NotEmpty,
    /// The directory is not empty and the user declined to go on.
    Declined,
}

pub enum ErrorView {
    Filesystem(Seq<char>),
    Naming,
    NotEmpty,
    Declined,
}

impl View for ProvisionError {
    type V = ErrorView;

    open spec fn view(&self) -> ErrorView {
        match self {
            ProvisionError::Filesystem(m) => ErrorView::Filesystem(m@),
            ProvisionError::Naming => ErrorView::Naming,
            ProvisionError::NotEmpty => ErrorView::NotEmpty,
            ProvisionError::Declined => ErrorView::Declined,
        }
    }
}

/// The outcome of the action last asked for.
pub enum Event {
    /// Whether the named target path exists.
    Exists(bool),
    /// The target directory was created, with its parents.
    Created,
    /// The working directory was taken as target; how it is displayed.
    Resolved(String),
    /// Whether the target directory is empty.
    Listed(bool),
    /// The user's answer to a confirmation.
    Answered(bool),
    /// The target's final path segment, if it has one that is valid text.
    Named(Option<String>),
    /// The file of the artifact was written.
    Wrote(Artifact),
    /// The action failed; the cause.
    Failed(String),
}

pub enum EventView {
    Exists(bool),
    Created,
    Resolved(Seq<char>),
    Listed(bool),
    Answered(bool),
    Named(Option<Seq<char>>),
    Wrote(Artifact),
    Failed(Seq<char>),
}

impl View for Event {
    type V = EventView;

    open spec fn view(&self) -> EventView {
        match self {
            Event::Exists(b) => EventView::Exists(*b),
            Event::Created => EventView::Created,
            Event::Resolved(s) => EventView::Resolved(s@),
            Event::Listed(b) => EventView::Listed(*b),
            Event::Answered(b) => EventView::Answered(*b),
            Event::Named(o) => EventView::Named(opt_text(*o)),
            Event::Wrote(a) => EventView::Wrote(*a),
            Event::Failed(m) => EventView::Failed(m@),
        }
    }
}

/// What the machine asks of its caller. A `note`, when present, is shown to
/// the user before the action is performed.
pub enum Action {
    /// Report whether this path exists.
    CheckExists(String),
    /// Create this directory and its parents.
    CreateDir(String),
    /// Take the working directory as target and report how it is displayed.
    ResolveCurrentDir,
    /// Report whether the target directory is empty.
    ListDir { note: Option<String> },
    /// Ask the user whether to go on, with this warning.
    AskConfirm(String),
    /// Report the target's final path segment.
    NameTarget { note: Option<String> },
    /// Write `contents` to `file` inside the target, replacing what is there.
    Write { artifact: Artifact, file: String, contents: String, note: Option<String> },
    /// The run is over: the closing message, or the error.
    Finish(Result<String, ProvisionError>),
}

pub enum ActionView {
    CheckExists(Seq<char>),
    CreateDir(Seq<char>),
    ResolveCurrentDir,
    ListDir { note: Option<Seq<char>> },
    AskConfirm(Seq<char>),
    NameTarget { note: Option<Seq<char>> },
    Write { artifact: Artifact, file: Seq<char>, contents: Seq<char>, note: Option<Seq<char>> },
    Finish(Result<Seq<char>, ErrorView>),
}

impl View for Action {
    type V = ActionView;

    open spec fn view(&self) -> ActionView {
        match self {
            Action::CheckExists(p) => ActionView::CheckExists(p@),
            Action::CreateDir(p) => ActionView::CreateDir(p@),
            Action::ResolveCurrentDir => ActionView::ResolveCurrentDir,
            Action::ListDir { note } => ActionView::ListDir { note: opt_text(*note) },
            Action::AskConfirm(w) => ActionView::AskConfirm(w@),
            Action::NameTarget { note } => ActionView::NameTarget { note: opt_text(*note) },
            Action::Write { artifact, file, contents, note } => ActionView::Write {
                artifact: *artifact,
                file: file@,
                contents: contents@,
                note: opt_text(*note),
            },
            Action::Finish(Ok(m)) => ActionView::Finish(Ok(m@)),
            Action::Finish(Err(e)) => ActionView::Finish(Err(e@)),
        }
    }
}

/// What a run has learned so far. Each field is filled by one kind of event.
pub struct Provision {
    pub args: Args,
    pub policy: NonEmptyPolicy,
    pub exists: Option<bool>,
    pub created: bool,
    pub shown: Option<String>,
    pub empty: Option<bool>,
    pub confirmed: Option<bool>,
    pub segment: Option<Option<String>>,
    pub settings_written: bool,
    pub descriptor_written: bool,
    pub failure: Option<String>,
}

pub struct ProvisionView {
    pub args: ArgsView,
    pub policy: NonEmptyPolicy,
    pub exists: Option<bool>,
    pub created: bool,
    pub shown: Option<Seq<char>>,
    pub empty: Option<bool>,
    pub confirmed: Option<bool>,
    pub segment: Option<Option<Seq<char>>>,
    pub settings_written: bool,
    pub descriptor_written: bool,
    pub failure: Option<Seq<char>>,
}

impl View for Provision {
    type V = ProvisionView;

    open spec fn view(&self) -> ProvisionView {
        ProvisionView {
            args: self.args@,
            policy: self.policy,
            exists: self.exists,
            created: self.created,
            shown: opt_text(self.shown),
            empty: self.empty,
            confirmed: self.confirmed,
            segment: match self.segment {
                Some(o) => Some(opt_text(o)),
                None => None,
            },
            settings_written: self.settings_written,
            descriptor_written: self.descriptor_written,
            failure: opt_text(self.failure),
        }
    }
}

/// The state of a run that has learned nothing yet.
pub open spec fn initial_of(args: ArgsView, policy: NonEmptyPolicy) -> ProvisionView {
    ProvisionView {
        args,
        policy,
        exists: None,
        created: false,
        shown: None,
        empty: None,
        confirmed: None,
        segment: None,
        settings_written: false,
        descriptor_written: false,
        failure: None,
    }
}

pub open spec fn created_note_of(path: Seq<char>) -> Seq<char> {
    "Created new directory: "@ + path
}

pub open spec fn warning_of(dir: Seq<char>) -> Seq<char> {
    "Warning: Directory '"@ + dir + "' is not empty!"@
}

pub open spec fn report_of(dir: Seq<char>) -> Seq<char> {
    "Server created at: "@ + dir + "\nTo start the server: cd "@ + dir + " && docker-compose up -d"@
}

/// How the target directory is displayed: the given path, or the working
/// directory as reported.
pub open spec fn shown_of(v: ProvisionView) -> Seq<char> {
    match v.args.name {
        Some(n) => n,
        None => match v.shown {
            Some(s) => s,
            None => Seq::empty(),
        },
    }
}

/// Whether the target directory is known to be there: it existed, was
/// created, or is the working directory.
pub open spec fn dir_ready(v: ProvisionView) -> bool {
    match v.args.name {
        Some(_) => v.exists == Some(true) || v.created,
        None => v.shown is Some,
    }
}

/// Whether a non-empty directory stops the run, and with which error.
pub open spec fn refusal_of(v: ProvisionView) -> Option<ErrorView> {
    if v.empty == Some(false) && v.policy == NonEmptyPolicy::Abort {
        Some(ErrorView::NotEmpty)
    } else if v.empty == Some(false) && v.policy == NonEmptyPolicy::Prompt && v.confirmed == Some(false) {
        Some(ErrorView::Declined)
    } else {
        None
    }
}

/// The next action once the configuration `name` is known.
pub open spec fn write_step(v: ProvisionView, name: Seq<char>) -> ActionView {
    let c = config_of(name, v.args.mc_version, v.args.jar, v.args.port);
    if !v.settings_written {
        ActionView::Write {
            artifact: Artifact::Settings,
            file: SETTINGS_FILE@,
            contents: settings_of(c),
            note: Some(info_of(c)),
        }
    } else if !v.descriptor_written {
        ActionView::Write {
            artifact: Artifact::Descriptor,
            file: DESCRIPTOR_FILE@,
            contents: descriptor_of(c),
            note: None,
        }
    } else {
        ActionView::Finish(Ok(report_of(shown_of(v))))
    }
}

/// The action a run takes next, from what it has learned.
pub open spec fn next_of(v: ProvisionView) -> ActionView {
    if v.failure is Some {
        ActionView::Finish(Err(ErrorView::Filesystem(v.failure->Some_0)))
    } else if !dir_ready(v) {
        match v.args.name {
            Some(n) => if v.exists is None {
                ActionView::CheckExists(n)
            } else {
                ActionView::CreateDir(n)
            },
            None => ActionView::ResolveCurrentDir,
        }
    } else if v.empty is None {
        ActionView::ListDir {
            note: if v.created { Some(created_note_of(shown_of(v))) } else { None },
        }
    } else if refusal_of(v) is Some {
        ActionView::Finish(Err(refusal_of(v)->Some_0))
    } else if v.empty == Some(false) && v.policy == NonEmptyPolicy::Prompt && v.confirmed is None {
        ActionView::AskConfirm(warning_of(shown_of(v)))
    } else if v.segment is None {
        ActionView::NameTarget {
            note: if v.empty == Some(false) && v.policy == NonEmptyPolicy::Warn {
                Some(warning_of(shown_of(v)))
            } else {
                None
            },
        }
    } else {
        match v.segment->Some_0 {
            Some(s) if s.len() > 0 => write_step(v, s),
            _ => ActionView::Finish(Err(ErrorView::Naming)),
        }
    }
}

/// What a run has learned after event `e`.
pub open spec fn record_of(v: ProvisionView, e: EventView) -> ProvisionView {
    match e {
        EventView::Exists(b) => ProvisionView { exists: Some(b), ..v },
        EventView::Created => ProvisionView { created: true, ..v },
        EventView::Resolved(s) => ProvisionView { shown: Some(s), ..v },
        EventView::Listed(b) => ProvisionView { empty: Some(b), ..v },
        EventView::Answered(b) => ProvisionView { confirmed: Some(b), ..v },
        EventView::Named(o) => ProvisionView { segment: Some(o), ..v },
        EventView::Wrote(Artifact::Settings) => ProvisionView { settings_written: true, ..v },
        EventView::Wrote(Artifact::Descriptor) => ProvisionView { descriptor_written: true, ..v },
        EventView::Failed(m) => ProvisionView { failure: Some(m), ..v },
    }
}

fn created_note(path: &str) -> (r: String)
    ensures
        r@ == created_note_of(path@),
{
    let mut out = String::from_str("Created new directory: ");
    out.append(path);
    out
}

fn warning(dir: &str) -> (r: String)
    ensures
        r@ == warning_of(dir@),
{
    let mut out = String::from_str("Warning: Directory '");
    out.append(dir);
    out.append("' is not empty!");
    assert(out@ =~= warning_of(dir@));
    out
}

fn report(dir: &str) -> (r: String)
    ensures
        r@ == report_of(dir@),
{
    let mut out = String::from_str("Server created at: ");
    out.append(dir);
    out.append("\nTo start the server: cd ");
    out.append(dir);
    out.append(" && docker-compose up -d");
    assert(out@ =~= report_of(dir@));
    out
}


fn clone_opt(o: &Option<String>) -> (r: Option<String>)
    ensures
        opt_text(r) == opt_text(*o),
{
    match o {
        Some(s) => Some(s.clone()),
        None => None,
    }
}

impl Provision {
    /// A run with the given parameters that has done nothing yet.
    pub fn new(args: Args, policy: NonEmptyPolicy) -> (r: Provision)
        ensures
            r@ == initial_of(args@, policy),
    {
        Provision {
            args,
            policy,
            exists: None,
            created: false,
            shown: None,
            empty: None,
            confirmed: None,
            segment: None,
            settings_written: false,
            descriptor_written: false,
            failure: None,
        }
    }

    fn shown_text(&self) -> (r: String)
        ensures
            r@ == shown_of(self@),
    {
        match &self.args.name {
            Some(n) => n.clone(),
            None => match &self.shown {
                Some(s) => s.clone(),
                None => String::new(),
            },
        }
    }

    fn is_dir_ready(&self) -> (r: bool)
        ensures
            r == dir_ready(self@),
    {
        match &self.args.name {
            Some(_) => self.exists == Some(true) || self.created,
            None => self.shown.is_some(),
        }
    }

    fn write_action(&self, name: &String) -> (r: Action)
        requires
            name@.len() > 0,
        ensures
            r@ == write_step(self@, name@),
    {
        let c = ServerConfig::build(name.clone(), self.args.mc_version.clone(), self.args.jar.clone(), self.args.port);
        if !self.settings_written {
            Action::Write {
                artifact: Artifact::Settings,
                file: String::from_str(SETTINGS_FILE),
                contents: c.settings_text(),
                note: Some(c.server_info()),
            }
        } else if !self.descriptor_written {
            Action::Write {
                artifact: Artifact::Descriptor,
                file: String::from_str(DESCRIPTOR_FILE),
                contents: create_docker_compose(&c),
                note: None,
            }
        } else {
            Action::Finish(Ok(report(self.shown_text().as_str())))
        }
    }

    /// The action to perform next.
    pub fn next_action(&self) -> (r: Action)
        ensures
            r@ == next_of(self@),
    {
        if let Some(m) = &self.failure {
            return Action::Finish(Err(ProvisionError::Filesystem(m.clone())));
        }
        if !self.is_dir_ready() {
            return match &self.args.name {
                Some(n) => if self.exists.is_none() {
                    Action::CheckExists(n.clone())
                } else {
                    Action::CreateDir(n.clone())
                },
                None => Action::ResolveCurrentDir,
            };
        }
        if self.empty.is_none() {
            let note = if self.created { Some(created_note(self.shown_text().as_str())) } else { None };
            return Action::ListDir { note };
        }
        let non_empty = self.empty == Some(false);
        if non_empty && self.policy == NonEmptyPolicy::Abort {
            return Action::Finish(Err(ProvisionError::NotEmpty));
        }
        if non_empty && self.policy == NonEmptyPolicy::Prompt {
            match self.confirmed {
                Some(false) => return Action::Finish(Err(ProvisionError::Declined)),
                None => return Action::AskConfirm(warning(self.shown_text().as_str())),
                Some(true) => {},
            }
        }
        match &self.segment {
            None => {
                let note = if non_empty && self.policy == NonEmptyPolicy::Warn {
                    Some(warning(self.shown_text().as_str()))
                } else {
                    None
                };
                Action::NameTarget { note }
            },
            Some(Some(s)) => if !s.as_str().is_empty() {
                self.write_action(s)
            } else {
                Action::Finish(Err(ProvisionError::Naming))
            },
            Some(None) => Action::Finish(Err(ProvisionError::Naming)),
        }
    }

    /// Takes in the outcome of the last action.
    pub fn record(&mut self, e: Event)
        ensures
            final(self)@ == record_of(old(self)@, e@),
    {
        match e {
            Event::Exists(b) => self.exists = Some(b),
            Event::Created => self.created = true,
            Event::Resolved(s) => self.shown = Some(s),
            Event::Listed(b) => self.empty = Some(b),
            Event::Answered(b) => self.confirmed = Some(b),
            Event::Named(o) => self.segment = Some(o),
            Event::Wrote(Artifact::Settings) => self.settings_written = true,
            Event::Wrote(Artifact::Descriptor) => self.descriptor_written = true,
            Event::Failed(m) => self.failure = Some(m),
        }
    }

    /// Takes in the outcome of the last action and returns the next one.
    pub fn step(&mut self, e: Event) -> (r: Action)
        ensures
            final(self)@ == record_of(old(self)@, e@),
            r@ == next_of(final(self)@),
    {
        self.record(e);
        self.next_action()
    }
}

} // verus!
