//! The list of modules as the workload API reports it.

use vstd::prelude::*;
use vstd::string::StringExecFns;
use crate::response::{ErrorResponse, ErrorResponseView};
use crate::route::{lemma_single_segment_path, match_path, single_segment_pattern};
use crate::runtime::{option_text, Module, ModuleRuntimeState};
use crate::text::{decimal_text, format_decimal};

verus! {

/// How a module ended, as plain text.
pub struct ExitStatusView {
    pub exit_time: Seq<char>,
    pub status_code: Seq<char>,
}

/// How a module ended: when, and with which code.
#[derive(Debug, PartialEq)]
pub struct ExitStatus {
    pub exit_time: String,
    pub status_code: String,
}

impl View for ExitStatus {
    type V = ExitStatusView;

    open spec fn view(&self) -> ExitStatusView {
        ExitStatusView { exit_time: self.exit_time@, status_code: self.status_code@ }
    }
}

/// Whether a module runs, as plain text.
pub struct RuntimeStatusView {
    pub status: Seq<char>,
    pub description: Option<Seq<char>>,
}

/// Whether a module runs, in a word, and what the runtime says of it.
#[derive(Debug, PartialEq)]
pub struct RuntimeStatus {
    pub status: String,
    pub description: Option<String>,
}

impl View for RuntimeStatus {
    type V = RuntimeStatusView;

    open spec fn view(&self) -> RuntimeStatusView {
        RuntimeStatusView { status: self.status@, description: option_text(self.description) }
    }
}

/// The status of a module, as plain text.
pub struct ModuleStatusView {
    pub start_time: Option<Seq<char>>,
    pub exit_status: Option<ExitStatusView>,
    pub runtime_status: RuntimeStatusView,
}

/// The status of a module as it is reported.
#[derive(Debug, PartialEq)]
pub struct ModuleStatus {
    pub start_time: Option<String>,
    pub exit_status: Option<ExitStatus>,
    pub runtime_status: RuntimeStatus,
}

impl View for ModuleStatus {
    type V = ModuleStatusView;

    open spec fn view(&self) -> ModuleStatusView {
        ModuleStatusView {
            start_time: option_text(self.start_time),
            exit_status: match self.exit_status {
                Some(exit) => Some(exit@),
                None => None,
            },
            runtime_status: self.runtime_status@,
        }
    }
}

/// The time at which a module started, written out.
pub open spec fn start_time_of(state: ModuleRuntimeState) -> Option<Seq<char>> {
    match state.started_at {
        Some(moment) => moment.text(),
        None => None,
    }
}

/// How a module ended. There is an exit status only where the runtime
/// reports both an exit code and the time at which the module finished.
pub open spec fn exit_status_of(state: ModuleRuntimeState) -> Option<ExitStatusView> {
    match (state.exit_code, state.finished_at) {
        (Some(code), Some(moment)) => match moment.text() {
            Some(exit_time) => Some(
                ExitStatusView { exit_time, status_code: decimal_text(code as int) },
            ),
            None => None,
        },
        _ => None,
    }
}

/// The status that is reported of a module in the given state.
pub open spec fn module_status_of(state: ModuleRuntimeState) -> ModuleStatusView {
    ModuleStatusView {
        start_time: start_time_of(state),
        exit_status: exit_status_of(state),
        runtime_status: RuntimeStatusView {
            status: state.status.name(),
            description: option_text(state.status_description),
        },
    }
}

impl From<ModuleRuntimeState> for ModuleStatus {
    fn from(state: ModuleRuntimeState) -> (status: ModuleStatus)
        ensures
            status@ == module_status_of(state),
    {
        let start_time = match state.started_at {
            Some(moment) => moment.to_rfc3339(),
            None => None,
        };
        let exit_status = match (state.exit_code, state.finished_at) {
            (Some(code), Some(moment)) => match moment.to_rfc3339() {
                Some(exit_time) => Some(ExitStatus { exit_time, status_code: format_decimal(code) }),
                None => None,
            },
            _ => None,
        };
        ModuleStatus {
            start_time,
            exit_status,
            runtime_status: RuntimeStatus {
                status: String::from_str(state.status.as_str()),
                description: state.status_description,
            },
        }
    }
}

impl vstd::std_specs::convert::FromSpecImpl<ModuleRuntimeState> for ModuleStatus {
    open spec fn obeys_from_spec() -> bool {
        false
    }

    open spec fn from_spec(state: ModuleRuntimeState) -> ModuleStatus {
        arbitrary()
    }
}

/// One variable of a module's environment.
#[derive(Debug)]
pub struct EnvVar {
    pub key: String,
    pub value: String,
}

/// How a module is set up.
#[derive(Debug)]
pub struct ModuleConfig {
    pub settings: serde_json::Value,
    pub env: Option<Vec<EnvVar>>,
}

/// What is reported of one module.
#[derive(Debug)]
pub struct ModuleDetails {
    pub id: String,
    pub name: String,
    pub type_: String,
    pub config: ModuleConfig,
    pub status: ModuleStatus,
}

/// `details` is what is reported of `module` in state `state`: its name and
/// type, its settings as they are, an empty environment, and its status.
/// The identifier is the fixed text `id`.
pub open spec fn details_of(
    details: ModuleDetails,
    module: Module,
    state: ModuleRuntimeState,
) -> bool {
    &&& details.id@ == "id"@
    &&& details.name@ == module.name@
    &&& details.type_@ == module.type_@
    &&& details.config.settings == module.config
    &&& details.config.env matches Some(env) && env@.len() == 0
    &&& details.status@ == module_status_of(state)
}

impl From<(Module, ModuleRuntimeState)> for ModuleDetails {
    fn from(pair: (Module, ModuleRuntimeState)) -> (details: ModuleDetails)
        ensures
            details_of(details, pair.0, pair.1),
    {
        let (module, state) = pair;
        ModuleDetails {
            id: String::from_str("id"),
            name: module.name,
            type_: module.type_,
            config: ModuleConfig { settings: module.config, env: Some(Vec::new()) },
            status: ModuleStatus::from(state),
        }
    }
}

impl vstd::std_specs::convert::FromSpecImpl<(Module, ModuleRuntimeState)> for ModuleDetails {
    open spec fn obeys_from_spec() -> bool {
        false
    }

    open spec fn from_spec(pair: (Module, ModuleRuntimeState)) -> ModuleDetails {
        arbitrary()
    }
}

/// The list of modules as it is reported.
#[derive(Debug)]
pub struct ListModulesResponse {
    pub modules: Vec<ModuleDetails>,
}

/// `response` reports the modules of `listed`, one for one and in order.
pub open spec fn lists(
    response: ListModulesResponse,
    listed: Seq<(Module, ModuleRuntimeState)>,
) -> bool {
    &&& response.modules@.len() == listed.len()
    &&& forall|i: int|
        0 <= i < listed.len() ==> details_of(
            #[trigger] response.modules@[i],
            listed[i].0,
            listed[i].1,
        )
}

impl From<Vec<(Module, ModuleRuntimeState)>> for ListModulesResponse {
    fn from(modules: Vec<(Module, ModuleRuntimeState)>) -> (response: ListModulesResponse)
        ensures
            lists(response, modules@),
    {
        let ghost listed = modules@;
        let mut details: Vec<ModuleDetails> = Vec::new();
        for pair in it: modules
            invariant
                it.seq() == listed,
                details@.len() == it.index(),
                forall|i: int|
                    0 <= i < it.index() ==> details_of(
                        #[trigger] details@[i],
                        listed[i].0,
                        listed[i].1,
                    ),
        {
            details.push(ModuleDetails::from(pair));
        }
        ListModulesResponse { modules: details }
    }
}

impl vstd::std_specs::convert::FromSpecImpl<Vec<(Module, ModuleRuntimeState)>> for ListModulesResponse {
    open spec fn obeys_from_spec() -> bool {
        false
    }

    open spec fn from_spec(modules: Vec<(Module, ModuleRuntimeState)>) -> ListModulesResponse {
        arbitrary()
    }
}

/// What the runtime's answer to the question for its modules becomes: the
/// list of the modules, or the server's fault with the runtime's reason.
pub open spec fn list_response(
    listed: Result<Vec<(Module, ModuleRuntimeState)>, String>,
    response: Result<ListModulesResponse, ErrorResponse>,
) -> bool {
    match listed {
        Ok(modules) => response matches Ok(list) && lists(list, modules@),
        Err(reason) => response matches Err(error) && error@ == (ErrorResponseView {
            status: 500,
            message: "could not list modules: "@ + reason@,
        }),
    }
}

/// A request for the list of modules.
#[derive(Clone, Copy, Debug, PartialEq, Eq, Structural)]
pub struct Route {}

impl Route {
    /// The request that `path` stands for, if it is the path of the list.
    pub fn from_uri(path: &str) -> (r: Option<Route>)
        ensures
            r is Some <==> path@ == "/modules"@,
    {
        if path.to_owned() == String::from_str("/modules") {
            Some(Route {  })
        } else {
            None
        }
    }

    /// The answer to the request, given what the runtime listed or why it
    /// listed nothing.
    pub fn get(&self, listed: Result<Vec<(Module, ModuleRuntimeState)>, String>) -> (response:
        Result<ListModulesResponse, ErrorResponse>)
        ensures
            list_response(listed, response),
    {
        match listed {
            Ok(modules) => Ok(ListModulesResponse::from(modules)),
            Err(reason) => {
                let mut message = String::from_str("could not list modules: ");
                message.append(reason.as_str());
                Err(ErrorResponse { status: 500, message })
            },
        }
    }
}

/// The path of the list is the path that the route table of the workload
/// API sends to the list.
pub proof fn lemma_list_path_is_routed(path: Seq<char>)
    ensures
        path == "/modules"@ <==> match_path(single_segment_pattern("modules"@), path) is Some,
{
    reveal_strlit("/modules");
    reveal_strlit("modules");
    assert("/modules"@ == seq!['/'] + "modules"@);
    lemma_single_segment_path("modules"@, path);
}

} // verus!
