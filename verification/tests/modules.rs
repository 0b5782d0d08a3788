use edgelet_workload::modules::{
    ExitStatus, ListModulesResponse, ModuleDetails, ModuleStatus, Route, RuntimeStatus,
};
use edgelet_workload::runtime::{Module, ModuleRuntimeState, ModuleStatus as Status};
use edgelet_workload::text::format_decimal;
use edgelet_workload::time::Timestamp;

fn at(moment: &chrono::DateTime<chrono::offset::Utc>) -> Timestamp {
    Timestamp::new(moment.timestamp(), moment.timestamp_subsec_nanos())
}

fn test_module(name: &str) -> Module {
    let mut settings = serde_json::Map::new();
    settings.insert("image".to_string(), serde_json::Value::String("ubuntu".to_string()));
    settings.insert("replicas".to_string(), serde_json::Value::from(3));
    Module::new(name.to_string(), "docker".to_string(), serde_json::Value::Object(settings))
}

#[test]
#[allow(deprecated)]
fn into_module_status() {
    let timestamp = chrono::NaiveDateTime::from_timestamp(0, 0);
    let timestamp =
        chrono::DateTime::<chrono::offset::Utc>::from_utc(timestamp, chrono::offset::Utc);

    // Running module
    let status = ModuleRuntimeState::default()
        .with_status(edgelet_workload::runtime::ModuleStatus::Running)
        .with_started_at(Some(at(&timestamp)));

    assert_eq!(
        ModuleStatus {
            start_time: Some(timestamp.to_rfc3339()),
            exit_status: None,
            runtime_status: RuntimeStatus {
                status: "running".to_string(),
                description: None,
            }
        },
        status.into()
    );

    // Exited module
    let status = ModuleRuntimeState::default()
        .with_status(edgelet_workload::runtime::ModuleStatus::Stopped)
        .with_started_at(Some(at(&timestamp)))
        .with_finished_at(Some(at(&timestamp)))
        .with_exit_code(Some(0));

    assert_eq!(
        ModuleStatus {
            start_time: Some(timestamp.to_rfc3339()),
            exit_status: Some(ExitStatus {
                exit_time: timestamp.to_rfc3339(),
                status_code: "0".to_string(),
            }),
            runtime_status: RuntimeStatus {
                status: "stopped".to_string(),
                description: None,
            }
        },
        status.into()
    );
}

// Common data set for tests.
#[allow(deprecated)]
fn modules() -> (Vec<(Module, ModuleRuntimeState)>, chrono::DateTime<chrono::offset::Utc>) {
    let timestamp = chrono::NaiveDateTime::from_timestamp(0, 0);
    let timestamp =
        chrono::DateTime::<chrono::offset::Utc>::from_utc(timestamp, chrono::offset::Utc);

    let modules = vec![
        // Running module
        (
            test_module("first"),
            ModuleRuntimeState::default()
                .with_status(edgelet_workload::runtime::ModuleStatus::Running)
                .with_started_at(Some(at(&timestamp))),
        ),
        // Exited module
        (
            test_module("second"),
            ModuleRuntimeState::default()
                .with_status(edgelet_workload::runtime::ModuleStatus::Stopped)
                .with_started_at(Some(at(&timestamp)))
                .with_finished_at(Some(at(&timestamp)))
                .with_exit_code(Some(0)),
        ),
    ];

    (modules, timestamp)
}

#[test]
fn into_module_details() {
    let (modules, _timestamp) = modules();

    for (module, state) in modules {
        let details: ModuleDetails = (module.clone(), state.clone()).into();
        assert_eq!("id", &details.id);
        assert_eq!(module.name(), &details.name);
        assert_eq!(module.type_(), &details.type_);
        assert_eq!(
            serde_json::to_value(module.config()).unwrap(),
            details.config.settings
        );

        let status: ModuleStatus = state.into();
        assert_eq!(status, details.status);
    }
}

#[test]
fn into_list_modules_response() {
    let (modules, timestamp) = modules();
    let response: ListModulesResponse = modules.into();
    assert_eq!(response.modules.len(), 2);
    assert_eq!(response.modules[0].name, "first");
    assert_eq!(response.modules[1].name, "second");
    assert_eq!(response.modules[0].status.runtime_status.status, "running");
    assert_eq!(response.modules[1].status.runtime_status.status, "stopped");
    assert_eq!(response.modules[0].status.exit_status, None);
    assert_eq!(
        response.modules[1].status.exit_status,
        Some(ExitStatus { exit_time: timestamp.to_rfc3339(), status_code: "0".to_string() })
    );
    assert!(response.modules.iter().all(|m| m.config.env.as_ref().map(Vec::len) == Some(0)));
    let empty: ListModulesResponse = Vec::new().into();
    assert!(empty.modules.is_empty());
}

#[test]
fn module_details_keep_the_environment_empty() {
    let details: ModuleDetails = (test_module("m"), ModuleRuntimeState::default()).into();
    assert_eq!(details.config.env.map(|env| env.len()), Some(0));
    assert_eq!(details.status.runtime_status.status, "unknown");
    assert_eq!(details.status.start_time, None);
    assert_eq!(details.status.exit_status, None);
}

#[test]
fn exit_status_needs_code_and_time() {
    let moment = Timestamp::new(1_600_000_000, 0);
    let only_code: ModuleStatus =
        ModuleRuntimeState::default().with_exit_code(Some(3)).into();
    assert_eq!(only_code.exit_status, None);
    let only_time: ModuleStatus =
        ModuleRuntimeState::default().with_finished_at(Some(moment)).into();
    assert_eq!(only_time.exit_status, None);
    let both: ModuleStatus = ModuleRuntimeState::default()
        .with_status(edgelet_workload::runtime::ModuleStatus::Failed)
        .with_exit_code(Some(-137))
        .with_finished_at(Some(moment))
        .with_status_description(Some("killed".to_string()))
        .into();
    assert_eq!(
        both.exit_status,
        Some(ExitStatus {
            exit_time: "2020-09-13T12:26:40+00:00".to_string(),
            status_code: "-137".to_string(),
        })
    );
    assert_eq!(both.runtime_status.status, "failed");
    assert_eq!(both.runtime_status.description, Some("killed".to_string()));
}

#[test]
fn timestamps_are_written_as_rfc3339() {
    assert_eq!(Timestamp::new(0, 0).to_rfc3339(), Some("1970-01-01T00:00:00+00:00".to_string()));
    assert_eq!(
        Timestamp::new(1_431_648_000, 500_000_000).to_rfc3339(),
        Some("2015-05-15T00:00:00.500+00:00".to_string())
    );
    assert_eq!(
        Timestamp::new(-1, 0).to_rfc3339(),
        Some("1969-12-31T23:59:59+00:00".to_string())
    );
    assert_eq!(Timestamp::new(i64::MAX, 0).to_rfc3339(), None);
    assert_eq!(Timestamp::new(0, 2_000_000_000).to_rfc3339(), None);
}

#[test]
fn module_status_words() {
    assert_eq!(Status::Unknown.as_str(), "unknown");
    assert_eq!(Status::Running.as_str(), "running");
    assert_eq!(Status::Stopped.as_str(), "stopped");
    assert_eq!(Status::Failed.as_str(), "failed");
    assert_eq!(Status::Dead.as_str(), "dead");
}

#[test]
fn decimal_text_of_exit_codes() {
    for n in [0i64, 1, 9, 10, 11, 99, 100, 255, -1, -10, 1234567890, i64::MAX, i64::MIN] {
        assert_eq!(format_decimal(n), n.to_string());
    }
}

#[test]
fn list_route_matches_its_path_only() {
    assert!(Route::from_uri("/modules").is_some());
    assert!(Route::from_uri("/modules/").is_none());
    assert!(Route::from_uri("modules").is_none());
    assert!(Route::from_uri("/module").is_none());
    assert!(Route::from_uri("").is_none());
}

#[test]
fn list_route_reports_modules_or_the_runtime_failure() {
    let (listed, _) = modules();
    let route = Route::from_uri("/modules").unwrap();
    let response = route.get(Ok(listed)).unwrap();
    assert_eq!(response.modules.len(), 2);
    let error = route.get(Err("runtime is down".to_string())).unwrap_err();
    assert_eq!(error.status, 500);
    assert_eq!(error.message, "could not list modules: runtime is down");
}
