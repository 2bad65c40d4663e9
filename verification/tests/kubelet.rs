use assemblylift::kubelet::{mapping_for, volume_path_map, PathMapping, StartEvent, Transition, VolumeError, VolumeMount, VolumeRef, Waiting};

fn mount(name: &str, guest: &str) -> VolumeMount {
    VolumeMount { name: name.to_string(), guest_path: guest.to_string() }
}

fn device(name: &str, host: Option<&str>, guest: &str) -> (String, VolumeRef) {
    (name.to_string(), VolumeRef::DeviceVolume { host_path: host.map(|h| h.to_string()), guest_path: guest.to_string() })
}

fn other(name: &str, host: Option<&str>) -> (String, VolumeRef) {
    (name.to_string(), VolumeRef::Other { host_path: host.map(|h| h.to_string()) })
}

fn mapping(host: &str, guest: &str) -> PathMapping {
    PathMapping { host_path: host.to_string(), guest_path: Some(guest.to_string()) }
}

#[test]
fn a_container_without_mounts_maps_nothing() {
    let volumes = vec![other("data", None)];
    assert_eq!(volume_path_map("c", None, &volumes), Ok(vec![]));
    assert_eq!(volume_path_map("c", Some(&vec![]), &vec![]), Ok(vec![]));
}

#[test]
fn device_volumes_come_before_the_mounts() {
    let mounts = vec![mount("data", "/data/sub"), mount("conf", "/etc/conf")];
    let volumes = vec![
        other("conf", Some("/host/conf")),
        device("gpu", Some("/dev/gpu0"), "/dev/gpu"),
        other("data", Some("/host/data")),
    ];
    assert_eq!(
        volume_path_map("c", Some(&mounts), &volumes),
        Ok(vec![
            mapping("/dev/gpu0", "/dev/gpu"),
            mapping("/host/data", "/data/sub"),
            mapping("/host/conf", "/etc/conf"),
        ])
    );
}

#[test]
fn a_mounted_device_volume_is_mapped_by_its_mount() {
    let mounts = vec![mount("gpu", "/here")];
    let volumes = vec![device("gpu", Some("/dev/gpu0"), "/dev/gpu")];
    assert_eq!(volume_path_map("c", Some(&mounts), &volumes), Ok(vec![mapping("/dev/gpu0", "/here")]));
}

#[test]
fn volumes_that_cannot_be_mapped_are_errors() {
    let mounts = vec![mount("data", "/data")];
    assert_eq!(
        volume_path_map("c", Some(&mounts), &vec![device("gpu", None, "/dev/gpu")]),
        Err(VolumeError::NotMounted { volume: "gpu".to_string() })
    );
    assert_eq!(
        volume_path_map("c", Some(&mounts), &vec![other("extra", Some("/x"))]),
        Err(VolumeError::NotDeviceVolume { host_path: Some("/x".to_string()) })
    );
    assert_eq!(
        volume_path_map("c", Some(&mounts), &vec![other("extra", None)]),
        Err(VolumeError::NotDeviceVolume { host_path: None })
    );
    assert_eq!(
        volume_path_map("c", Some(&mounts), &vec![]),
        Err(VolumeError::NotFound { volume: "data".to_string(), container: "c".to_string() })
    );
    assert_eq!(
        volume_path_map("c", Some(&mounts), &vec![other("data", None)]),
        Err(VolumeError::NotMounted { volume: "data".to_string() })
    );
    assert_eq!(
        volume_path_map("c", Some(&mounts), &vec![other("extra", None), device("gpu", None, "/g")]),
        Err(VolumeError::NotDeviceVolume { host_path: None })
    );
}

#[test]
fn a_container_runs_or_ends_with_a_message() {
    let waiting = Waiting;
    assert_eq!(waiting.status(), "Module is starting.");
    assert_eq!(waiting.next("p", "c", StartEvent::Started), Transition::Running);
    assert_eq!(
        waiting.next("p", "c", StartEvent::ModuleDataMissing),
        Transition::Terminated {
            message: "Pod p container c failed load module data from run context.".to_string(),
            failed: true
        }
    );
    assert_eq!(
        waiting.next("p", "c", StartEvent::VolumeMapFailed { error: "e1".to_string() }),
        Transition::Terminated { message: "Pod p container c failed to map volume paths: e1".to_string(), failed: true }
    );
    assert_eq!(
        waiting.next("p", "c", StartEvent::RuntimeFailed { error: "e2".to_string() }),
        Transition::Terminated { message: "Pod p container c failed to construct runtime: e2".to_string(), failed: true }
    );
    assert_eq!(
        waiting.next("p", "c", StartEvent::StartFailed { error: "e3".to_string() }),
        Transition::Terminated { message: "Pod p container c failed to start: e3".to_string(), failed: true }
    );
}

#[test]
fn volume_errors_say_what_went_wrong() {
    assert_eq!(
        volume_path_map("c", Some(&vec![mount("data", "/mnt")]), &vec![]).unwrap_err().message(),
        "no volume with the name of data found for container c"
    );
    assert_eq!(VolumeError::NotMounted { volume: "gpu".to_string() }.message(), "Volume gpu has not been mounted yet");
    assert_eq!(
        VolumeError::NotDeviceVolume { host_path: Some("/x".to_string()) }.message(),
        "Volume mounted at path Some(\"/x\") was not a DeviceVolume"
    );
    assert_eq!(
        VolumeError::NotDeviceVolume { host_path: None }.message(),
        "Volume mounted at path None was not a DeviceVolume"
    );
}

#[test]
fn the_mount_counts_for_a_shared_host_path() {
    let mounts = vec![mount("data", "/mnt")];
    let volumes = vec![device("gpu", Some("/host/shared"), "/dev/gpu"), other("data", Some("/host/shared"))];
    let mappings = volume_path_map("c", Some(&mounts), &volumes).unwrap();
    assert_eq!(mappings, vec![mapping("/host/shared", "/dev/gpu"), mapping("/host/shared", "/mnt")]);
    assert_eq!(mapping_for(&mappings, "/host/shared"), Some(&mapping("/host/shared", "/mnt")));
    assert_eq!(mapping_for(&mappings, "/host/other"), None);
    assert_eq!(mapping_for(&vec![], "/host/shared"), None);
    assert!(mappings.iter().all(|m| m.guest_path.is_some()));
}
