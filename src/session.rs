use vstd::prelude::*;
use vstd::map::*;
use crate::errors::{DomainError, ErrorKind, ErrorView};
use crate::text::joined;

verus! {

/// One piece of work on the host that an installation needs done.
#[derive(Debug, Clone, PartialEq, Eq)]
pub enum HostAction {
    /// Create a directory and any missing parents; an existing one is fine.
    CreateDirAll { path: String },
    /// Remove the directory tree at `path`; nothing at `path` is fine.
    RemoveTree { path: String },
    /// Create or truncate the file at `path` and write `contents` to it.
    WriteFile { path: String, contents: Vec<u8> },
    /// Run `program` with `args`, wait for it, and report its exit.
    RunCommand { program: String, args: Vec<String> },
    /// Remove the file at `path`.
    RemoveFile { path: String },
}

/// How a host action went.
#[derive(Debug, Clone, PartialEq, Eq)]
pub enum HostOutcome {
    /// The action was carried out.
    Done,
    /// The action failed, for the reason given.
    Failed { message: String },
    /// The command ran to its end; `stderr` is what it wrote there.
    Exited { success: bool, stderr: String },
}

/// What an installation asks for next.
#[derive(Debug)]
pub enum SessionStep {
    /// Carry out this action and report how it went.
    Perform(HostAction),
    /// The installation is over, with this result.
    Finish(Result<(), DomainError>),
}

/// A host action as a value of the model.
pub enum ActionView {
    CreateDirAll(Seq<char>),
    RemoveTree(Seq<char>),
    WriteFile(Seq<char>, Seq<u8>),
    RunCommand(Seq<char>, Seq<Seq<char>>),
    RemoveFile(Seq<char>),
}

/// An outcome as a value of the model.
pub enum OutcomeView {
    Done,
    Failed(Seq<char>),
    Exited(bool, Seq<char>),
}

/// A step as a value of the model.
pub enum StepView {
    Perform(ActionView),
    Finish(Result<(), ErrorView>),
}

impl View for HostAction {
    type V = ActionView;

    open spec fn view(&self) -> ActionView {
        match self {
            HostAction::CreateDirAll { path } => ActionView::CreateDirAll(path@),
            HostAction::RemoveTree { path } => ActionView::RemoveTree(path@),
            HostAction::WriteFile { path, contents } => ActionView::WriteFile(path@, contents@),
            HostAction::RunCommand { program, args } => ActionView::RunCommand(
                program@,
                args@.map_values(|a: String| a@),
            ),
            HostAction::RemoveFile { path } => ActionView::RemoveFile(path@),
        }
    }
}

impl View for HostOutcome {
    type V = OutcomeView;

    open spec fn view(&self) -> OutcomeView {
        match self {
            HostOutcome::Done => OutcomeView::Done,
            HostOutcome::Failed { message } => OutcomeView::Failed(message@),
            HostOutcome::Exited { success, stderr } => OutcomeView::Exited(*success, stderr@),
        }
    }
}

/// A result as a value of the model.
pub open spec fn result_view(r: Result<(), DomainError>) -> Result<(), ErrorView> {
    match r {
        Ok(()) => Ok(()),
        Err(e) => Err(e@),
    }
}

impl View for SessionStep {
    type V = StepView;

    open spec fn view(&self) -> StepView {
        match self {
            SessionStep::Perform(a) => StepView::Perform(a@),
            SessionStep::Finish(r) => StepView::Finish(result_view(*r)),
        }
    }
}

/// The detail of the error for an editor command that exited unsuccessfully.
pub open spec fn cli_failure_detail(stderr: Seq<char>) -> Seq<char> {
    "Failed to install extension via CLI: "@ + stderr
}

/// Where an installation stands, as a value of the model.
pub struct SessionView {
    /// The actions still to hand out, in order.
    pub pending: Seq<ActionView>,
    /// The clean-up actions to hand out once `pending` is done or abandoned;
    /// a failure of one of them is ignored.
    pub cleanup: Seq<ActionView>,
    /// Whether a failure of the action in flight is to be ignored.
    pub tolerant: bool,
    /// The error that an earlier outcome settled on.
    pub failure: Option<ErrorView>,
    /// The result once every action has gone through.
    pub outcome: Result<(), ErrorView>,
}

impl SessionView {
    /// Takes in how the action in flight went. A failed action that may not
    /// fail abandons the rest of `pending`, but not the clean-up; nothing
    /// reported of a clean-up action changes the result.
    pub open spec fn absorb(self, o: OutcomeView) -> SessionView {
        match o {
            OutcomeView::Done => self,
            OutcomeView::Failed(m) => if self.tolerant {
                self
            } else {
                SessionView {
                    pending: Seq::empty(),
                    cleanup: self.cleanup,
                    tolerant: false,
                    failure: Some(ErrorView { kind: ErrorKind::Io, detail: m }),
                    outcome: self.outcome,
                }
            },
            OutcomeView::Exited(success, stderr) => if success || self.tolerant {
                self
            } else {
                SessionView {
                    pending: self.pending,
                    cleanup: self.cleanup,
                    tolerant: self.tolerant,
                    failure: Some(
                        ErrorView { kind: ErrorKind::Installation, detail: cli_failure_detail(stderr) },
                    ),
                    outcome: self.outcome,
                }
            },
        }
    }

    /// Hands out the next action, then the clean-up, then the result.
    pub open spec fn emit(self) -> (SessionView, StepView) {
        if self.pending.len() > 0 {
            (
                SessionView {
                    pending: self.pending.drop_first(),
                    cleanup: self.cleanup,
                    tolerant: false,
                    failure: self.failure,
                    outcome: self.outcome,
                },
                StepView::Perform(self.pending[0]),
            )
        } else if self.cleanup.len() > 0 {
            (
                SessionView {
                    pending: self.pending,
                    cleanup: self.cleanup.drop_first(),
                    tolerant: true,
                    failure: self.failure,
                    outcome: self.outcome,
                },
                StepView::Perform(self.cleanup[0]),
            )
        } else {
            (
                self,
                StepView::Finish(
                    match self.failure {
                        Some(e) => Err(e),
                        None => self.outcome,
                    },
                ),
            )
        }
    }

    /// A session that hands out `actions` in order, then `cleanup` whatever
    /// happened, and then ends with `outcome` unless something failed on the
    /// way.
    pub open spec fn planned(
        actions: Seq<ActionView>,
        cleanup: Seq<ActionView>,
        outcome: Result<(), ErrorView>,
    ) -> SessionView {
        SessionView { pending: actions, cleanup, tolerant: false, failure: None, outcome }
    }
}

/// An installation in progress: it hands out host actions one at a time and
/// decides, from how each went, what comes next and how the whole ends.
#[derive(Debug)]
pub struct InstallSession {
    pub pending: Vec<HostAction>,
    pub cleanup: Vec<HostAction>,
    pub tolerant: bool,
    pub failure: Option<DomainError>,
    pub outcome: Result<(), DomainError>,
}

impl View for InstallSession {
    type V = SessionView;

    open spec fn view(&self) -> SessionView {
        SessionView {
            pending: self.pending@.map_values(|a: HostAction| a@),
            cleanup: self.cleanup@.map_values(|a: HostAction| a@),
            tolerant: self.tolerant,
            failure: match self.failure {
                Some(e) => Some(e@),
                None => None,
            },
            outcome: result_view(self.outcome),
        }
    }
}

impl DomainError {
    /// An error equal to this one.
    pub fn duplicate(&self) -> (r: DomainError)
        ensures
            r@ == self@,
    {
        match self {
            DomainError::NetworkError(s) => DomainError::NetworkError(s.clone()),
            DomainError::ExtensionNotFound(s) => DomainError::ExtensionNotFound(s.clone()),
            DomainError::InvalidExtensionFormat(s) => DomainError::InvalidExtensionFormat(s.clone()),
            DomainError::InstallationFailed(s) => DomainError::InstallationFailed(s.clone()),
            DomainError::DirectoryNotFound(s) => DomainError::DirectoryNotFound(s.clone()),
            DomainError::IoError(s) => DomainError::IoError(s.clone()),
            DomainError::ParseError(s) => DomainError::ParseError(s.clone()),
            DomainError::Unknown(s) => DomainError::Unknown(s.clone()),
        }
    }
}

impl InstallSession {
    /// A session that hands out `actions` in order, then `cleanup` whatever
    /// happened, and then ends with `outcome` unless something failed on the
    /// way.
    pub fn planned(
        actions: Vec<HostAction>,
        cleanup: Vec<HostAction>,
        outcome: Result<(), DomainError>,
    ) -> (r: InstallSession)
        ensures
            r@ == SessionView::planned(
                actions@.map_values(|a: HostAction| a@),
                cleanup@.map_values(|a: HostAction| a@),
                result_view(outcome),
            ),
    {
        InstallSession { pending: actions, cleanup, tolerant: false, failure: None, outcome }
    }

    /// The first step of the session.
    pub fn begin(&mut self) -> (r: SessionStep)
        ensures
            (final(self)@, r@) == old(self)@.emit(),
    {
        if self.pending.len() > 0 {
            let ghost before = self@;
            let action = self.pending.remove(0);
            self.tolerant = false;
            assert(self@.pending =~= before.pending.drop_first());
            SessionStep::Perform(action)
        } else if self.cleanup.len() > 0 {
            let ghost before = self@;
            let action = self.cleanup.remove(0);
            self.tolerant = true;
            assert(self@.cleanup =~= before.cleanup.drop_first());
            SessionStep::Perform(action)
        } else {
            let result = match &self.failure {
                Some(e) => Err(e.duplicate()),
                None => match &self.outcome {
                    Ok(()) => Ok(()),
                    Err(e) => Err(e.duplicate()),
                },
            };
            SessionStep::Finish(result)
        }
    }

    /// The step that follows the action in flight, given how it went.
    pub fn advance(&mut self, outcome: HostOutcome) -> (r: SessionStep)
        ensures
            (final(self)@, r@) == old(self)@.absorb(outcome@).emit(),
    {
        match outcome {
            HostOutcome::Done => {},
            HostOutcome::Failed { message } => {
                if !self.tolerant {
                    self.pending = Vec::new();
                    self.failure = Some(DomainError::IoError(message));
                    assert(self@.pending =~= Seq::<ActionView>::empty());
                }
            },
            HostOutcome::Exited { success, stderr } => {
                if !success && !self.tolerant {
                    let detail = joined("Failed to install extension via CLI: ", stderr.as_str());
                    self.failure = Some(DomainError::InstallationFailed(detail));
                }
            },
        }
        self.begin()
    }
}

} // verus!
