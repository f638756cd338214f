use std::path::PathBuf;
use wasmcloud_provider::capability::{Capability, Plugin};
use wasmcloud_provider::environment::EnvVars;
use wasmcloud_provider::script::{HostAction, HostError, Script};

fn error(action: HostAction) -> String {
    HostError { action, cause: "why".to_string() }.message()
}

fn three_actions() -> Script {
    Script::start(vec![
        HostAction::CreateDir { path: PathBuf::from("/data/logs") },
        HostAction::AddActor { key: "M1".to_string() },
        HostAction::RemoveActor { key: "M1".to_string() },
    ])
}

#[test]
fn empty_script_is_finished() {
    let script = Script::start(Vec::new());
    assert!(script.next().is_none());
    assert!(script.finish().is_ok());
}

#[test]
fn actions_come_in_order_and_success_ends_well() {
    let mut script = three_actions();
    assert!(matches!(script.next(), Some(HostAction::CreateDir { .. })));
    // Asking again does not move on.
    assert!(matches!(script.next(), Some(HostAction::CreateDir { .. })));
    script.report(Ok(()));
    assert!(matches!(script.next(), Some(HostAction::AddActor { .. })));
    script.report(Ok(()));
    assert!(matches!(script.next(), Some(HostAction::RemoveActor { .. })));
    script.report(Ok(()));
    assert!(script.next().is_none());
    assert!(script.finish().is_ok());
}

#[test]
fn first_failure_ends_the_script_and_names_its_action() {
    let mut script = three_actions();
    script.report(Ok(()));
    script.report(Err("no room".to_string()));
    assert!(script.next().is_none());
    match script.finish() {
        Ok(()) => panic!("the script failed"),
        Err(error) => {
            assert!(matches!(error.action, HostAction::AddActor { ref key } if key == "M1"));
            assert_eq!(error.cause, "no room");
            assert_eq!(error.message(), "Error adding actor: no room");
        }
    }
}

#[test]
fn failure_of_the_first_action() {
    let mut script = three_actions();
    script.report(Err("Permission denied".to_string()));
    assert!(script.next().is_none());
    match script.finish() {
        Ok(()) => panic!("the script failed"),
        Err(error) => assert_eq!(error.message(), "Permission denied"),
    }
}

#[test]
fn messages_of_registration() {
    let http = HostAction::Instantiate { plugin: Plugin::Http, binding: None };
    assert_eq!(error(http), "Failed to instantiate HTTP capability: why");
    let log = HostAction::Instantiate { plugin: Plugin::Logging, binding: None };
    assert_eq!(error(log), "Failed to instantiate log capability: why");
    let fs = HostAction::Instantiate {
        plugin: Plugin::FileSystem,
        binding: Some("data".to_string()),
    };
    assert_eq!(error(fs), "Failed to instantiate File System capability: why");
    let http = HostAction::AddCapability { plugin: Plugin::Http, binding: None };
    assert_eq!(error(http), "Failed to add HTTP capability: why");
    let log = HostAction::AddCapability { plugin: Plugin::Logging, binding: None };
    assert_eq!(error(log), "Failed to add log capability: why");
    let fs = HostAction::AddCapability {
        plugin: Plugin::FileSystem,
        binding: Some("data".to_string()),
    };
    assert_eq!(error(fs), "Failed to add File System capability: why");
}

#[test]
fn messages_of_the_other_actions() {
    let dir = HostAction::CreateDir { path: PathBuf::from("/data/volumes") };
    assert_eq!(error(dir), "why");
    let add = HostAction::AddActor { key: "M1".to_string() };
    assert_eq!(error(add), "Error adding actor: why");
    let capability = Capability { name: "wascc:logging", binding: None, env: EnvVars::new() };
    let bind = HostAction::SetBinding { key: "M1".to_string(), capability };
    assert_eq!(error(bind), "Error configuring capabilities for module: why");
    let remove = HostAction::RemoveActor { key: "M1".to_string() };
    assert_eq!(error(remove), "unable to remove actor: why");
}

#[test]
fn message_of_a_volume_quotes_its_name() {
    let plain = HostAction::RemoveCapability {
        plugin: Plugin::FileSystem,
        volume: "data".to_string(),
    };
    assert_eq!(error(plain), "unable to remove volume \"data\" capability: why");
    let odd = HostAction::RemoveCapability {
        plugin: Plugin::FileSystem,
        volume: "a\"b\n".to_string(),
    };
    assert_eq!(error(odd), "unable to remove volume \"a\\\"b\\n\" capability: why");
}

#[test]
fn plugins_have_their_names() {
    assert_eq!(Plugin::Http.capability(), "wascc:http_server");
    assert_eq!(Plugin::Logging.capability(), "wascc:logging");
    assert_eq!(Plugin::FileSystem.capability(), "wascc:blobstore");
}
