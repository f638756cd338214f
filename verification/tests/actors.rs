use wasmcloud_provider::actor::{load_actor, run_loaded, wasmcloud_run, ActorHandle, ActorRun};
use wasmcloud_provider::capability::{capabilities_for, count_usable, RunSettings, VolumeBinding};
use wasmcloud_provider::environment::EnvVars;
use wasmcloud_provider::script::HostAction;

const HEADER: [u8; 8] = [0, b'a', b's', b'm', 1, 0, 0, 0];

/// The SHA-256 hash of a module that is a header only.
const HEADER_HASH: &str = "93A44BBB96C751218E4C00D479E4C14358122A389ACCA16205B1E4D0DC5F9476";

const KEY: &str = "MB4OLDIC3TCZ4Q4TGGOVAZC43VXFE2JQVRAXQMQFXUCREOOFEKOKZTY2";

fn base64url(bytes: &[u8]) -> String {
    let alphabet = b"ABCDEFGHIJKLMNOPQRSTUVWXYZabcdefghijklmnopqrstuvwxyz0123456789-_";
    let mut text = String::new();
    for chunk in bytes.chunks(3) {
        let mut group: u32 = 0;
        for i in 0..3 {
            group = group << 8 | u32::from(*chunk.get(i).unwrap_or(&0));
        }
        for i in 0..chunk.len() + 1 {
            text.push(alphabet[(group >> (18 - 6 * i) & 63) as usize] as char);
        }
    }
    text
}

fn push_length(bytes: &mut Vec<u8>, mut n: usize) {
    while n >= 128 {
        bytes.push((n % 128 + 128) as u8);
        n /= 128;
    }
    bytes.push(n as u8);
}

/// A module that carries a token with the given hash and claims.
fn module(hash: &str, caps: &[&str]) -> Vec<u8> {
    let quoted: Vec<String> = caps.iter().map(|c| format!("\"{}\"", c)).collect();
    let claims = format!(
        "{{\"jti\":\"id\",\"iat\":0,\"iss\":\"A1\",\"sub\":\"{}\",\"wascap\":{{\"hash\":\"{}\",\"caps\":[{}]}}}}",
        KEY,
        hash,
        quoted.join(",")
    );
    let token = format!("e30.{}.c2ln", base64url(claims.as_bytes()));
    let mut section: Vec<u8> = vec![3];
    section.extend_from_slice(b"jwt");
    section.extend_from_slice(token.as_bytes());
    let mut bytes = HEADER.to_vec();
    bytes.push(0);
    push_length(&mut bytes, section.len());
    bytes.extend_from_slice(&section);
    bytes
}

fn volume(name: &str, path: Option<&str>) -> VolumeBinding {
    VolumeBinding { name: name.to_string(), host_path: path.map(|p| p.to_string()) }
}

fn settings(volumes: Vec<VolumeBinding>) -> RunSettings {
    let mut env = EnvVars::new();
    env.insert("GREETING".to_string(), "hello".to_string());
    RunSettings {
        env,
        volumes,
        log_path_key: "LOG_PATH".to_string(),
        log_path: Some("/logs/x".to_string()),
        port: 30000,
    }
}

fn two_volumes() -> Vec<VolumeBinding> {
    vec![volume("data", Some("/vol/data")), volume("tmp", Some("/vol/tmp"))]
}

fn strings(list: &[&str]) -> Vec<String> {
    list.iter().map(|s| s.to_string()).collect()
}

fn describe(action: &HostAction) -> String {
    match action {
        HostAction::CreateDir { path } => format!("create {}", path.display()),
        HostAction::Instantiate { plugin, binding } => {
            format!("instantiate {} {:?}", plugin.capability(), binding)
        }
        HostAction::AddCapability { plugin, binding } => {
            format!("add {} {:?}", plugin.capability(), binding)
        }
        HostAction::AddActor { key } => format!("add actor {}", key),
        HostAction::SetBinding { key, capability } => {
            let mut vars: Vec<String> = capability
                .env
                .entries()
                .iter()
                .map(|(name, value)| format!("{}={}", name, value))
                .collect();
            vars.sort();
            format!("bind {} {} {:?} {}", key, capability.name, capability.binding, vars.join(" "))
        }
        HostAction::RemoveActor { key } => format!("remove actor {}", key),
        HostAction::RemoveCapability { plugin, volume } => {
            format!("remove {} {}", plugin.capability(), volume)
        }
    }
}

/// Performs a run in which everything succeeds.
fn perform(mut run: ActorRun) -> (Vec<String>, ActorHandle) {
    let mut seen: Vec<String> = Vec::new();
    while let Some(action) = run.next() {
        seen.push(describe(action));
        run.report(Ok(()));
    }
    match run.finish() {
        Ok(Some(handle)) => (seen, handle),
        Ok(None) => panic!("all paths are usable"),
        Err(error) => panic!("{}", error.message()),
    }
}

/// Stops an actor, where everything succeeds.
fn stop(handle: &mut ActorHandle) -> Vec<String> {
    let mut script = handle.stop();
    let mut seen: Vec<String> = Vec::new();
    while let Some(action) = script.next() {
        seen.push(describe(action));
        script.report(Ok(()));
    }
    assert!(script.finish().is_ok());
    seen
}

#[test]
fn signed_module_is_loaded() {
    let data = module(HEADER_HASH, &["wascc:logging", "wascc:messaging"]);
    match load_actor(&data) {
        Ok(actor) => {
            assert_eq!(actor.key, KEY);
            assert_eq!(actor.capabilities, vec!["wascc:logging", "wascc:messaging"]);
            assert_eq!(actor.module.public_key(), KEY);
        }
        Err(error) => panic!("{}", error.message()),
    }
}

#[test]
fn unsigned_module_is_refused() {
    match load_actor(&HEADER) {
        Ok(_) => panic!("there is no token"),
        Err(error) => {
            assert_eq!(
                error.cause,
                "WebAssembly module authorization failure: No embedded JWT in actor module"
            );
            assert_eq!(
                error.message(),
                "Error loading WASM: WebAssembly module authorization failure: No embedded JWT in actor module"
            );
        }
    }
}

#[test]
fn altered_module_is_refused() {
    let data = module("00", &["wascc:logging"]);
    match wasmcloud_run(&data, settings(vec![])) {
        Ok(_) => panic!("the hash is wrong"),
        Err(error) => assert!(error.message().starts_with("Error loading WASM: Embedded JWT failure: ")),
    }
    assert!(load_actor(b"not a module").is_err());
    assert!(load_actor(&[]).is_err());
}

#[test]
fn full_run_registers_adds_and_configures() {
    let data = module(HEADER_HASH, &["wascc:blobstore", "wascc:http_server", "wascc:logging"]);
    let (actor, run) = match wasmcloud_run(&data, settings(two_volumes())) {
        Ok(started) => started,
        Err(error) => panic!("{}", error.message()),
    };
    assert_eq!(actor.public_key(), KEY);
    let (seen, mut handle) = perform(run);
    assert_eq!(
        seen,
        vec![
            "instantiate wascc:blobstore Some(\"data\")".to_string(),
            "add wascc:blobstore Some(\"data\")".to_string(),
            "instantiate wascc:blobstore Some(\"tmp\")".to_string(),
            "add wascc:blobstore Some(\"tmp\")".to_string(),
            format!("add actor {}", KEY),
            format!("bind {} wascc:logging None GREETING=hello LOG_PATH=/logs/x", KEY),
            format!("bind {} wascc:http_server None GREETING=hello PORT=30000", KEY),
            format!("bind {} wascc:blobstore Some(\"data\") GREETING=hello ROOT=/vol/data", KEY),
            format!("bind {} wascc:blobstore Some(\"tmp\") GREETING=hello ROOT=/vol/tmp", KEY),
        ]
    );
    assert_eq!(handle.key, KEY);
    assert_eq!(handle.actor_key(), KEY);
    // Stopping removes what the run added, once.
    assert_eq!(
        stop(&mut handle),
        vec![
            format!("remove actor {}", KEY),
            "remove wascc:blobstore data".to_string(),
            "remove wascc:blobstore tmp".to_string(),
        ]
    );
    assert_eq!(stop(&mut handle), vec![format!("remove actor {}", KEY)]);
}

#[test]
fn actor_without_claims_is_only_added() {
    let run = run_loaded("M1".to_string(), Vec::new(), settings(two_volumes()));
    let (seen, mut handle) = perform(run);
    assert_eq!(seen, vec!["add actor M1"]);
    assert_eq!(stop(&mut handle), vec!["remove actor M1"]);
}

#[test]
fn unknown_claims_are_not_configured() {
    let run = run_loaded("M1".to_string(), strings(&["wascc:messaging"]), settings(two_volumes()));
    assert_eq!(perform(run).0, vec!["add actor M1"]);
}

#[test]
fn injected_variable_replaces_the_pods_own() {
    let mut with_port = settings(vec![]);
    with_port.env.insert("PORT".to_string(), "80".to_string());
    let claimed = strings(&["wascc:http_server", "wascc:logging"]);
    let capabilities = capabilities_for(&claimed, &with_port);
    assert_eq!(capabilities.len(), 2);
    assert_eq!(capabilities[0].name, "wascc:logging");
    assert_eq!(capabilities[0].env.get(&"PORT".to_string()), Some(&"80".to_string()));
    assert_eq!(capabilities[0].env.get(&"LOG_PATH".to_string()), Some(&"/logs/x".to_string()));
    assert_eq!(capabilities[1].name, "wascc:http_server");
    assert_eq!(capabilities[1].env.get(&"PORT".to_string()), Some(&"30000".to_string()));
    assert_eq!(capabilities[1].env.get(&"LOG_PATH".to_string()), None);
    assert_eq!(capabilities[1].env.get(&"GREETING".to_string()), Some(&"hello".to_string()));
}

#[test]
fn failed_run_gives_no_handle() {
    let mut run = run_loaded("M1".to_string(), strings(&["wascc:blobstore"]), settings(two_volumes()));
    run.report(Ok(()));
    run.report(Err("bound twice".to_string()));
    assert!(run.next().is_none());
    match run.finish() {
        Ok(_) => panic!("the run failed"),
        Err(error) => {
            assert_eq!(describe(&error.action), "add wascc:blobstore Some(\"data\")");
            assert_eq!(error.message(), "Failed to add File System capability: bound twice");
        }
    }
}

#[test]
fn failure_to_remove_leaves_the_volumes() {
    let run = run_loaded("M1".to_string(), strings(&["wascc:blobstore"]), settings(two_volumes()));
    let (_, mut handle) = perform(run);
    let mut script = handle.stop();
    script.report(Ok(()));
    script.report(Err("MiscHost".to_string()));
    assert!(script.next().is_none());
    match script.finish() {
        Ok(()) => panic!("a volume could not be removed"),
        Err(error) => assert_eq!(
            error.message(),
            "unable to remove volume \"data\" capability: MiscHost"
        ),
    }
    assert_eq!(stop(&mut handle), vec!["remove actor M1"]);
}

/// The actions of a run in which everything succeeds and there is no handle.
fn perform_cut_short(data: &[u8], settings: RunSettings) -> Vec<String> {
    let mut run = match wasmcloud_run(data, settings) {
        Ok((_, run)) => run,
        Err(error) => panic!("{}", error.message()),
    };
    let mut seen: Vec<String> = Vec::new();
    while let Some(action) = run.next() {
        seen.push(describe(action));
        run.report(Ok(()));
    }
    assert!(matches!(run.finish(), Ok(None)));
    seen
}

fn broken_third() -> Vec<VolumeBinding> {
    let mut volumes = two_volumes();
    volumes.push(volume("bad", None));
    volumes.push(volume("after", Some("/vol/after")));
    volumes
}

#[test]
fn unreadable_paths_matter_only_where_they_are_told() {
    let mut no_log = settings(broken_third());
    no_log.log_path = None;
    assert!(!no_log.paths_usable(&strings(&["wascc:logging"])));
    assert!(!no_log.paths_usable(&strings(&["wascc:blobstore"])));
    assert!(no_log.paths_usable(&strings(&["wascc:http_server"])));
    let run = run_loaded("M1".to_string(), strings(&["wascc:http_server"]), no_log);
    assert_eq!(
        perform(run).0,
        vec!["add actor M1", "bind M1 wascc:http_server None GREETING=hello PORT=30000"]
    );
}

#[test]
fn unreadable_log_path_stops_a_run_at_once() {
    let data = module(HEADER_HASH, &["wascc:blobstore", "wascc:logging"]);
    let mut no_log = settings(two_volumes());
    no_log.log_path = None;
    assert!(perform_cut_short(&data, no_log).is_empty());
}

#[test]
fn unreadable_volume_path_stops_a_run_there() {
    assert_eq!(count_usable(&broken_third()), 2);
    assert_eq!(count_usable(&two_volumes()), 2);
    assert_eq!(count_usable(&Vec::new()), 0);
    let data = module(HEADER_HASH, &["wascc:blobstore", "wascc:logging"]);
    assert_eq!(
        perform_cut_short(&data, settings(broken_third())),
        vec![
            "instantiate wascc:blobstore Some(\"data\")",
            "add wascc:blobstore Some(\"data\")",
            "instantiate wascc:blobstore Some(\"tmp\")",
            "add wascc:blobstore Some(\"tmp\")",
        ]
    );
}

#[test]
fn refused_volume_is_an_error_though_a_later_path_is_unreadable() {
    let claimed = strings(&["wascc:blobstore"]);
    let mut run = run_loaded("M1".to_string(), claimed, settings(broken_third()));
    run.report(Ok(()));
    run.report(Err("bound twice".to_string()));
    match run.finish() {
        Ok(_) => panic!("the run failed"),
        Err(error) => {
            assert_eq!(error.message(), "Failed to add File System capability: bound twice")
        }
    }
}
