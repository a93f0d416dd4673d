use backend_supervisor::error::{BackendError, PathKind};
use backend_supervisor::launch::{LaunchContext, ProbedPath};

fn probed(path: &str, exists: bool) -> ProbedPath {
    ProbedPath { path: path.to_string(), exists }
}

fn full_context() -> LaunchContext {
    LaunchContext {
        app_data_dir: Ok("/var/lib/app".to_string()),
        backend_dir: probed("/opt/gmaps/backend", true),
        config_file: probed("/opt/gmaps/config/config.yaml", true),
        data_dir: probed("/opt/gmaps/data", true),
    }
}

#[test]
fn launch_config_runs_the_server_in_the_backend_dir() {
    let config = full_context().plan().expect("all entries exist");
    assert_eq!(config.working_dir, "/opt/gmaps/backend");
    assert_eq!(config.program, "python3");
    assert_eq!(
        config.args,
        vec!["-m", "uvicorn", "api.server:app", "--host", "127.0.0.1", "--port", "8000"]
    );
}

#[test]
fn launch_config_hands_both_paths_to_the_child() {
    let config = full_context().plan().expect("all entries exist");
    let env: Vec<(String, String)> =
        config.env.into_iter().map(|var| (var.name, var.value)).collect();
    assert_eq!(
        env,
        vec![
            ("GMAPS_CONFIG_PATH".to_string(), "/opt/gmaps/config/config.yaml".to_string()),
            ("GMAPS_DATA_PATH".to_string(), "/opt/gmaps/data".to_string()),
        ]
    );
}

#[test]
fn launch_config_is_built_whatever_was_probed() {
    let mut ctx = full_context();
    ctx.data_dir.exists = false;
    let config = ctx.launch_config();
    assert_eq!(config.working_dir, "/opt/gmaps/backend");
    assert_eq!(config.env.len(), 2);
    assert!(ctx.plan().is_err());
}

#[test]
fn first_missing_follows_the_order_of_the_checks() {
    let mut ctx = full_context();
    assert_eq!(ctx.first_missing(), None);
    ctx.data_dir.exists = false;
    assert_eq!(
        ctx.first_missing(),
        Some((PathKind::DataDirectory, "/opt/gmaps/data".to_string()))
    );
    ctx.config_file.exists = false;
    assert_eq!(
        ctx.first_missing(),
        Some((PathKind::ConfigFile, "/opt/gmaps/config/config.yaml".to_string()))
    );
    ctx.backend_dir.exists = false;
    assert_eq!(
        ctx.first_missing(),
        Some((PathKind::BackendDirectory, "/opt/gmaps/backend".to_string()))
    );
}

#[test]
fn path_kinds_are_described() {
    assert_eq!(PathKind::BackendDirectory.description(), "Backend directory");
    assert_eq!(PathKind::ConfigFile.description(), "Config file");
    assert_eq!(PathKind::DataDirectory.description(), "Data directory");
}

#[test]
fn missing_path_message_quotes_the_path() {
    let error = BackendError::PathNotFound {
        kind: PathKind::BackendDirectory,
        path: "/opt/gmaps/backend".to_string(),
    };
    assert_eq!(error.message(), "Backend directory not found: \"/opt/gmaps/backend\"");
    let error = BackendError::PathNotFound {
        kind: PathKind::ConfigFile,
        path: "/opt/gmaps/config/config.yaml".to_string(),
    };
    assert_eq!(error.message(), "Config file not found: \"/opt/gmaps/config/config.yaml\"");
}

#[test]
fn missing_path_message_escapes_the_path() {
    let error = BackendError::PathNotFound {
        kind: PathKind::DataDirectory,
        path: "/tmp/a\"b\\c\n".to_string(),
    };
    assert_eq!(error.message(), "Data directory not found: \"/tmp/a\\\"b\\\\c\\n\"");
}

#[test]
fn resolution_failure_message() {
    let error = BackendError::DirectoryResolution { reason: "unknown path".to_string() };
    assert_eq!(error.message(), "Failed to get app data directory: unknown path");
}

#[test]
fn spawn_failure_message_is_the_reason() {
    let error =
        BackendError::Spawn { reason: "No such file or directory (os error 2)".to_string() };
    assert_eq!(error.message(), "No such file or directory (os error 2)");
    assert_eq!(
        error.restart_message(),
        "Failed to restart backend: No such file or directory (os error 2)"
    );
}

#[test]
fn plan_reports_each_failure() {
    let mut ctx = full_context();
    ctx.app_data_dir = Err("no home".to_string());
    assert!(matches!(ctx.plan(), Err(BackendError::DirectoryResolution { .. })));
    let mut ctx = full_context();
    ctx.config_file.exists = false;
    match ctx.plan() {
        Err(error) => assert_eq!(
            error.message(),
            "Config file not found: \"/opt/gmaps/config/config.yaml\""
        ),
        Ok(config) => panic!("expected a missing path, got {:?}", config),
    }
}
