//! What the module runtime reports of a module.

use vstd::prelude::*;
use crate::time::Timestamp;

verus! {

/// A JSON value. It is carried through as it is.
#[verifier::external_type_specification]
#[verifier::external_body]
pub struct ExJsonValue(serde_json::Value);

/// `serde_json::Value::clone` gives a value equal to the one it was called
/// on.
pub assume_specification[ <serde_json::Value as Clone>::clone ](value: &serde_json::Value) -> (copy:
    serde_json::Value)
    ensures
        copy == *value,
;

/// The text that a string holds, where there is a string.
pub open spec fn option_text(s: Option<String>) -> Option<Seq<char>> {
    match s {
        Some(s) => Some(s@),
        None => None,
    }
}

/// Whether a module runs.
#[derive(Clone, Copy, Debug, PartialEq, Eq, Structural)]
pub enum ModuleStatus {
    Unknown,
    Running,
    Stopped,
    Failed,
    Dead,
}

impl ModuleStatus {
    /// The word that stands for the status.
    pub open spec fn name(self) -> Seq<char> {
        match self {
            ModuleStatus::Unknown => "unknown"@,
            ModuleStatus::Running => "running"@,
            ModuleStatus::Stopped => "stopped"@,
            ModuleStatus::Failed => "failed"@,
            ModuleStatus::Dead => "dead"@,
        }
    }

    /// The word that stands for the status.
    pub fn as_str(self) -> (r: &'static str)
        ensures
            r@ == self.name(),
    {
        match self {
            ModuleStatus::Unknown => "unknown",
            ModuleStatus::Running => "running",
            ModuleStatus::Stopped => "stopped",
            ModuleStatus::Failed => "failed",
            ModuleStatus::Dead => "dead",
        }
    }
}

/// The state of a module as the runtime sees it.
#[derive(Debug)]
pub struct ModuleRuntimeState {
    pub status: ModuleStatus,
    pub exit_code: Option<i64>,
    pub status_description: Option<String>,
    pub started_at: Option<Timestamp>,
    pub finished_at: Option<Timestamp>,
    pub image_id: Option<String>,
    pub pid: Option<i32>,
}

impl Clone for ModuleRuntimeState {
    fn clone(&self) -> (r: Self)
        ensures
            r == *self,
    {
        ModuleRuntimeState {
            status: self.status,
            exit_code: self.exit_code,
            status_description: match &self.status_description {
                Some(text) => Some(text.clone()),
                None => None,
            },
            started_at: self.started_at,
            finished_at: self.finished_at,
            image_id: match &self.image_id {
                Some(text) => Some(text.clone()),
                None => None,
            },
            pid: self.pid,
        }
    }
}

impl Default for ModuleRuntimeState {
    /// The state of a module of which nothing is known.
    fn default() -> (state: Self)
        ensures
            state.status == ModuleStatus::Unknown,
            state.exit_code is None,
            state.status_description is None,
            state.started_at is None,
            state.finished_at is None,
            state.image_id is None,
            state.pid is None,
    {
        ModuleRuntimeState {
            status: ModuleStatus::Unknown,
            exit_code: None,
            status_description: None,
            started_at: None,
            finished_at: None,
            image_id: None,
            pid: None,
        }
    }
}

impl ModuleRuntimeState {
    pub fn status(&self) -> (r: ModuleStatus)
        ensures
            r == self.status,
    {
        self.status
    }

    pub fn exit_code(&self) -> (r: Option<i64>)
        ensures
            r == self.exit_code,
    {
        self.exit_code
    }

    pub fn status_description(&self) -> (r: Option<&str>)
        ensures
            match r {
                Some(text) => self.status_description matches Some(s) && text@ == s@,
                None => self.status_description is None,
            },
    {
        match &self.status_description {
            Some(s) => Some(s.as_str()),
            None => None,
        }
    }

    pub fn started_at(&self) -> (r: Option<Timestamp>)
        ensures
            r == self.started_at,
    {
        self.started_at
    }

    pub fn finished_at(&self) -> (r: Option<Timestamp>)
        ensures
            r == self.finished_at,
    {
        self.finished_at
    }

    pub fn with_status(self, status: ModuleStatus) -> (r: Self)
        ensures
            r == (ModuleRuntimeState { status, ..self }),
    {
        let mut state = self;
        state.status = status;
        state
    }

    pub fn with_exit_code(self, exit_code: Option<i64>) -> (r: Self)
        ensures
            r == (ModuleRuntimeState { exit_code, ..self }),
    {
        let mut state = self;
        state.exit_code = exit_code;
        state
    }

    pub fn with_status_description(self, status_description: Option<String>) -> (r: Self)
        ensures
            r == (ModuleRuntimeState { status_description, ..self }),
    {
        let mut state = self;
        state.status_description = status_description;
        state
    }

    pub fn with_started_at(self, started_at: Option<Timestamp>) -> (r: Self)
        ensures
            r == (ModuleRuntimeState { started_at, ..self }),
    {
        let mut state = self;
        state.started_at = started_at;
        state
    }

    pub fn with_finished_at(self, finished_at: Option<Timestamp>) -> (r: Self)
        ensures
            r == (ModuleRuntimeState { finished_at, ..self }),
    {
        let mut state = self;
        state.finished_at = finished_at;
        state
    }
}

/// A module as the runtime describes it.
#[derive(Debug)]
pub struct Module {
    pub name: String,
    pub type_: String,
    pub config: serde_json::Value,
}

impl Clone for Module {
    fn clone(&self) -> (r: Self)
        ensures
            r == *self,
    {
        Module {
            name: self.name.clone(),
            type_: self.type_.clone(),
            config: self.config.clone(),
        }
    }
}

impl Module {
    /// The module of the given name and type with the given settings.
    pub fn new(name: String, type_: String, config: serde_json::Value) -> (module: Self)
        ensures
            module.name == name,
            module.type_ == type_,
            module.config == config,
    {
        Module { name, type_, config }
    }

    pub fn name(&self) -> (r: &str)
        ensures
            r@ == self.name@,
    {
        self.name.as_str()
    }

    pub fn type_(&self) -> (r: &str)
        ensures
            r@ == self.type_@,
    {
        self.type_.as_str()
    }

    pub fn config(&self) -> (r: &serde_json::Value)
        ensures
            *r == self.config,
    {
        &self.config
    }
}

} // verus!
