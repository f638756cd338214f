use wasmcloud_provider::handles::HandleTable;
use wasmcloud_provider::pod::{
    has_args, judge_container, validate_container_runnable, validate_pod_runnable, Container, Pod,
    PodKey, Unrunnable,
};

fn container(args: Option<Vec<String>>, image: Option<&str>) -> Container {
    Container { name: "main".to_string(), args, image: image.map(|i| i.to_string()) }
}

fn pod(namespace: &str, name: &str, init_containers: Vec<Container>) -> Pod {
    Pod { namespace: namespace.to_string(), name: name.to_string(), init_containers }
}

fn message(outcome: Result<(), Unrunnable>) -> String {
    match outcome {
        Ok(()) => "runnable".to_string(),
        Err(reason) => reason.message(),
    }
}

#[test]
fn pods_with_init_containers_are_refused() {
    assert_eq!(message(validate_pod_runnable(&pod("default", "greet", vec![]))), "runnable");
    let refused = validate_pod_runnable(&pod("default", "greet", vec![container(None, None)]));
    assert!(matches!(refused, Err(Unrunnable::InitContainers { .. })));
    assert_eq!(
        message(refused),
        "Cannot run greet: spec specifies init containers which are not supported on wasmCloud"
    );
}

#[test]
fn containers_with_args_are_refused() {
    let given = Some(vec!["-v".to_string()]);
    assert!(has_args(&container(given.clone(), None)));
    assert!(!has_args(&container(Some(vec![]), None)));
    assert!(!has_args(&container(None, None)));
    // Arguments are looked at before the image.
    let refused = validate_container_runnable(&container(given, Some("k8s.gcr.io/kube-proxy:v1")));
    assert!(matches!(refused, Err(Unrunnable::ContainerArgs { .. })));
    assert_eq!(
        message(refused),
        "Cannot run main: spec specifies container args which are not supported on wasmCloud"
    );
    assert!(validate_container_runnable(&container(Some(vec![]), None)).is_ok());
}

#[test]
fn kube_proxy_is_refused() {
    for image in ["k8s.gcr.io/kube-proxy", "k8s.gcr.io/kube-proxy:v1.20.0"] {
        let refused = validate_container_runnable(&container(None, Some(image)));
        assert!(matches!(refused, Err(Unrunnable::KubeProxy)));
        assert_eq!(message(refused), "Cannot run kube-proxy");
    }
    assert!(validate_container_runnable(&container(None, Some("k8s.gcr.io/kube-prox:v1"))).is_ok());
    assert!(validate_container_runnable(&container(None, Some("webassembly.azurecr.io/greet-wascc:v0.5")))
        .is_ok());
    assert!(validate_container_runnable(&container(None, None)).is_ok());
}

#[test]
fn invalid_images_are_refused_with_their_cause() {
    let cases = [
        ("", "repository name must have at least one component"),
        (":justtag", "invalid reference format"),
        ("Uppercase:tag", "invalid reference format"),
    ];
    for (image, cause) in cases {
        let refused = validate_container_runnable(&container(None, Some(image)));
        assert!(matches!(refused, Err(Unrunnable::InvalidImage { .. })), "{}", image);
        assert_eq!(message(refused), cause);
    }
}

#[test]
fn a_container_is_judged_by_what_its_image_reads_as() {
    let plain = container(None, Some("greet"));
    assert!(judge_container(&plain, None).is_ok());
    assert!(judge_container(&plain, Some(Ok("greet:v1".to_string()))).is_ok());
    let proxy = judge_container(&plain, Some(Ok("k8s.gcr.io/kube-proxy-arm:v1".to_string())));
    assert_eq!(message(proxy), "Cannot run kube-proxy");
    let broken = judge_container(&plain, Some(Err("bad digest".to_string())));
    assert_eq!(message(broken), "bad digest");
    let args = container(Some(vec!["x".to_string()]), None);
    assert!(matches!(
        judge_container(&args, Some(Err("bad digest".to_string()))),
        Err(Unrunnable::ContainerArgs { .. })
    ));
}

#[test]
fn handles_are_found_by_namespace_and_name() {
    let mut handles: HandleTable<u8> = HandleTable::new();
    let greet = pod("default", "greet", vec![]);
    assert_eq!(handles.stop_target(&greet), None);
    handles.insert(greet.key(), 1);
    handles.insert(PodKey::new("other", "greet"), 2);
    assert_eq!(handles.stop_target(&greet), Some(&mut 1));
    assert_eq!(handles.stop_target(&pod("other", "greet", vec![])), Some(&mut 2));
    assert_eq!(handles.stop_target(&pod("default", "gree", vec![])), None);
    assert!(matches!(handles.log_source("default", "greet"), Ok(1)));
    assert!(matches!(handles.log_source("other", "greet"), Ok(2)));
    handles.insert(greet.key(), 3);
    assert!(matches!(handles.log_source("default", "greet"), Ok(3)));
    assert!(matches!(handles.log_source("other", "greet"), Ok(2)));
}

#[test]
fn logs_of_an_unknown_pod_name_it() {
    let mut handles: HandleTable<u8> = HandleTable::new();
    match handles.log_source("default", "greet") {
        Ok(_) => panic!("there is no such pod"),
        Err(error) => assert_eq!(error.pod_name, "greet"),
    }
}

#[test]
fn what_becomes_of_a_handle_is_kept() {
    let mut handles: HandleTable<u8> = HandleTable::new();
    let greet = pod("default", "greet", vec![]);
    handles.insert(greet.key(), 1);
    handles.insert(PodKey::new("other", "greet"), 2);
    if let Some(handle) = handles.stop_target(&greet) {
        *handle = 7;
    }
    if let Ok(handle) = handles.log_source("default", "greet") {
        assert_eq!(*handle, 7);
        *handle = 8;
    }
    assert_eq!(handles.stop_target(&greet), Some(&mut 8));
    assert_eq!(handles.stop_target(&pod("other", "greet", vec![])), Some(&mut 2));
}
