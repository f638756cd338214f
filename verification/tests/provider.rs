use std::path::PathBuf;
use wasmcloud_provider::capability::Plugin;
use wasmcloud_provider::provider::{node, startup, WasmCloudProvider};
use wasmcloud_provider::script::HostAction;

#[test]
fn startup_creates_directories_and_registers_capabilities() {
    let mut script = startup(&PathBuf::from("/data"));
    let mut seen: Vec<String> = Vec::new();
    while let Some(action) = script.next() {
        seen.push(match action {
            HostAction::CreateDir { path } => format!("create {}", path.display()),
            HostAction::Instantiate { plugin, binding: None } => {
                format!("instantiate {}", plugin.capability())
            }
            HostAction::AddCapability { plugin, binding: None } => {
                format!("add {}", plugin.capability())
            }
            _ => panic!("unexpected action"),
        });
        script.report(Ok(()));
    }
    assert_eq!(
        seen,
        vec![
            "create /data/wasmcloud-logs",
            "create /data/volumes",
            "instantiate wascc:http_server",
            "add wascc:http_server",
            "instantiate wascc:logging",
            "add wascc:logging",
        ]
    );
    let mut provider: WasmCloudProvider<u8> = match WasmCloudProvider::new(script, PathBuf::from("/data")) {
        Ok(provider) => provider,
        Err(error) => panic!("{}", error.message()),
    };
    assert_eq!(provider.shared.data_dir, PathBuf::from("/data"));
    assert!(provider.shared.port_map.is_empty());
    assert!(provider.shared.handles.log_source("default", "greet").is_err());
    assert_eq!(provider.shared.log_path(), PathBuf::from("/data/wasmcloud-logs"));
    assert_eq!(provider.shared.volume_path(), PathBuf::from("/data/volumes"));
}

#[test]
fn failed_startup_gives_no_provider() {
    let mut script = startup(&PathBuf::from("/data"));
    for _ in 0..3 {
        script.report(Ok(()));
    }
    assert!(matches!(script.next(), Some(HostAction::AddCapability { plugin: Plugin::Http, .. })));
    script.report(Err("twice".to_string()));
    let provider: Result<WasmCloudProvider<u8>, _> =
        WasmCloudProvider::new(script, PathBuf::from("/data"));
    match provider {
        Ok(_) => panic!("the startup failed"),
        Err(error) => assert_eq!(error.message(), "Failed to add HTTP capability: twice"),
    }
}

#[test]
fn failure_to_create_a_directory_stops_the_startup() {
    let mut script = startup(&PathBuf::from("/data"));
    script.report(Ok(()));
    assert!(matches!(
        script.next(),
        Some(HostAction::CreateDir { path }) if *path == PathBuf::from("/data/volumes")
    ));
    script.report(Err("File exists (os error 17)".to_string()));
    assert!(script.next().is_none());
    let provider: Result<WasmCloudProvider<u8>, _> =
        WasmCloudProvider::new(script, PathBuf::from("/data"));
    match provider {
        Ok(_) => panic!("the startup failed"),
        Err(error) => assert_eq!(error.message(), "File exists (os error 17)"),
    }
}

#[test]
fn node_is_tainted_by_architecture() {
    let description = node();
    assert_eq!(description.architecture, "wasm-wasi");
    let taints: Vec<(&str, &str, &str)> =
        description.taints.iter().map(|t| (t.effect, t.key, t.value)).collect();
    assert_eq!(
        taints,
        vec![
            ("NoSchedule", "kubernetes.io/arch", "wasm32-wasmcloud"),
            ("NoExecute", "kubernetes.io/arch", "wasm32-wasmcloud"),
        ]
    );
}

#[test]
fn restart_asks_for_the_same_directories() {
    let mut seen: Vec<Vec<PathBuf>> = Vec::new();
    for _ in 0..2 {
        let mut script = startup(&PathBuf::from("/var/lib/agent"));
        let mut created: Vec<PathBuf> = Vec::new();
        while let Some(action) = script.next() {
            if let HostAction::CreateDir { path } = action {
                created.push(path.clone());
            }
            script.report(Ok(()));
        }
        let provider: WasmCloudProvider<u8> =
            match WasmCloudProvider::new(script, PathBuf::from("/var/lib/agent")) {
                Ok(provider) => provider,
                Err(error) => panic!("{}", error.message()),
            };
        assert_eq!(created, vec![provider.shared.log_path(), provider.shared.volume_path()]);
        seen.push(created);
    }
    assert_eq!(seen[0], seen[1]);
}
