use cubic::error::Error;
use cubic::models::{Environment, Instance, UserName};
use cubic::platform::SystemMock;
use cubic::qemu::QemuImg;

fn build_env() -> Environment {
    Environment::new(
        UserName::from_str("cubic").unwrap(),
        "/data".to_string(),
        "/cache".to_string(),
    )
}

fn build_instance() -> Instance {
    Instance {
        name: "test".to_string(),
        ..Instance::default()
    }
}

fn build_info_command(env: &Environment) -> String {
    format!(
        "qemu-img info --force-share --output json {}",
        env.get_instance_image_file("test")
    )
}

#[test]
fn test_get_image_info_reads_the_reported_sizes() {
    let env = build_env();
    let mut system = SystemMock::new().add_command_output(
        &build_info_command(&env),
        br#"{"virtual-size": 1073741824, "actual-size": 200704}"#,
    );

    let info = QemuImg::new(&mut system)
        .get_image_info(&env, &build_instance())
        .unwrap();

    assert_eq!(info.virtual_size, 1073741824);
    assert_eq!(info.actual_size, 200704);
}

#[test]
fn test_get_image_info_is_none_without_qemu() {
    let env = build_env();
    let mut system = SystemMock::new();

    assert!(
        QemuImg::new(&mut system)
            .get_image_info(&env, &build_instance())
            .is_none()
    );
}

#[test]
fn test_get_image_info_is_none_when_the_output_is_not_readable() {
    let env = build_env();
    let mut system = SystemMock::new().add_command_output(&build_info_command(&env), b"not json");

    assert!(
        QemuImg::new(&mut system)
            .get_image_info(&env, &build_instance())
            .is_none()
    );
}

#[test]
fn test_resize_reports_a_missing_qemu() {
    let mut system = SystemMock::new();

    assert!(matches!(
        QemuImg::new(&mut system).resize("/data/machines/test/image", 2048),
        Err(Error::QemuNotFound)
    ));
}

#[test]
fn test_create_overlay_backs_the_image_by_the_base_image() {
    let command = "qemu-img create -q -f qcow2 -F qcow2 -b /cache/images/debian /data/machines/test/machine.img";
    let mut system = SystemMock::new().add_command_output(command, b"");

    QemuImg::new(&mut system)
        .create_overlay("/cache/images/debian", "/data/machines/test/machine.img")
        .unwrap();

    assert_eq!(system.get_executed_commands(), vec![command]);
}

#[test]
fn test_resize_passes_the_size_to_qemu_img() {
    let mut system = SystemMock::new()
        .add_command_output("qemu-img resize /data/machines/test/image 2048", b"");

    QemuImg::new(&mut system)
        .resize("/data/machines/test/image", 2048)
        .unwrap();

    assert_eq!(
        system.get_executed_commands(),
        vec!["qemu-img resize /data/machines/test/image 2048"]
    );
}

#[test]
fn test_image_info() {
    let input = r#"
        {
        "virtual-size": 1073741824,
        "filename": "/tmp/cache/cubic/images/ubuntu_noble_amd64",
        "cluster-size": 65536,
        "format": "qcow2",
        "actual-size": 200704,
        "format-specific": {
            "type": "qcow2",
            "data": {
                "compat": "1.1",
                "compression-type": "zlib",
                "lazy-refcounts": false,
                "refcount-bits": 16,
                "corrupt": false,
                "extended-l2": false
            }
        },
        "dirty-flag": false,
        "snapshots": [
            {
                "icount": 0,
                "vm-clock-nsec": 0,
                "name": "clean",
                "date-sec": 1787430192,
                "date-nsec": 207919000,
                "vm-clock-sec": 0,
                "id": "1",
                "vm-state-size": 0
            }
        ]
        }
        "#;

    let result = QemuImg::<SystemMock>::parse_info(input.as_bytes().to_vec()).unwrap();
    assert_eq!(result.actual_size, 200704);
    assert_eq!(result.snapshots.len(), 1);
    assert_eq!(result.snapshots[0].name, "clean");
}

#[test]
fn test_snapshot_commands_pass_the_flag_and_name_to_qemu_img() {
    let image = "/data/machines/test/machine.img";
    let mut system = SystemMock::new()
        .add_command_output(&format!("qemu-img snapshot -c clean {image}"), b"")
        .add_command_output(&format!("qemu-img snapshot -a clean {image}"), b"")
        .add_command_output(&format!("qemu-img snapshot -d clean {image}"), b"");
    let mut qemu_img = QemuImg::new(&mut system);

    qemu_img.create_snapshot(image, "clean").unwrap();
    qemu_img.restore_snapshot(image, "clean").unwrap();
    qemu_img.delete_snapshot(image, "clean").unwrap();

    assert_eq!(
        system.get_executed_commands(),
        vec![
            format!("qemu-img snapshot -c clean {image}"),
            format!("qemu-img snapshot -a clean {image}"),
            format!("qemu-img snapshot -d clean {image}"),
        ]
    );
}

#[test]
fn test_read_disk_info_reads_the_snapshots() {
    let env = build_env();
    let mut system = SystemMock::new().add_command_output(
        &build_info_command(&env),
        br#"{"virtual-size": 1073741824, "actual-size": 200704,
                 "snapshots": [{"name": "clean"}, {"name": "deps"}]}"#,
    );
    let mut instance = build_instance();

    QemuImg::new(&mut system).read_disk_info(&env, &mut instance);

    let names: Vec<&str> = instance
        .snapshots
        .iter()
        .map(|snapshot| snapshot.name.as_str())
        .collect();
    assert_eq!(names, vec!["clean", "deps"]);
}

#[test]
fn test_map_error_translates_not_found() {
    assert!(matches!(
        QemuImg::<SystemMock>::map_error(Error::SystemCommandNotFound("qemu-img".to_string())),
        Error::QemuNotFound
    ));
}

#[test]
fn test_map_error_passes_other_errors_through() {
    assert!(matches!(
        QemuImg::<SystemMock>::map_error(Error::SystemCommandFailed(
            "cmd".to_string(),
            "boom".to_string()
        )),
        Error::SystemCommandFailed(..)
    ));
}

#[test]
fn test_parse_info_reads_sizes_under_either_name() {
    let info = QemuImg::<SystemMock>::parse_info(
        br#"{"virtual_size": 4096, "actual_size": 512, "snapshots": [{"name": "a"}, {"name": "b"}]}"#
            .to_vec(),
    )
    .unwrap();
    assert_eq!(info.virtual_size, 4096);
    assert_eq!(info.actual_size, 512);
    assert_eq!(info.snapshots.len(), 2);
    assert_eq!(info.snapshots[1].name, "b");
}

#[test]
fn test_parse_info_refuses_a_malformed_report() {
    for report in [
        r#"{"virtual-size": 1, "virtual_size": 1, "actual-size": 2}"#,
        r#"{"virtual-size": 1}"#,
        r#"{"virtual-size": -1, "actual-size": 2}"#,
        r#"{"virtual-size": 1, "actual-size": 2, "snapshots": {"name": "a"}}"#,
        r#"{"virtual-size": 1, "actual-size": 2, "snapshots": [{"id": "1"}]}"#,
        r#"[1]"#,
        r#"[1, 2, [], 4]"#,
        r#"[1, 2, [{"id": "1"}]]"#,
        r#"[1, 2, [["a", "b"]]]"#,
    ] {
        assert!(
            QemuImg::<SystemMock>::parse_info(report.as_bytes().to_vec()).is_none(),
            "{report}"
        );
    }
    assert!(QemuImg::<SystemMock>::parse_info(vec![0xff, 0xfe]).is_none());
}

#[test]
fn test_parse_info_reads_the_sequence_form() {
    let info = QemuImg::<SystemMock>::parse_info(br#"[512, 4096]"#.to_vec()).unwrap();
    assert_eq!(info.actual_size, 512);
    assert_eq!(info.virtual_size, 4096);
    assert!(info.snapshots.is_empty());

    let info =
        QemuImg::<SystemMock>::parse_info(br#"[1, 2, [{"name": "a"}, ["b"]]]"#.to_vec()).unwrap();
    assert_eq!(info.snapshots.len(), 2);
    assert_eq!(info.snapshots[0].name, "a");
    assert_eq!(info.snapshots[1].name, "b");
}

#[test]
fn test_system_command_keeps_its_environment() {
    let mut command = cubic::platform::SystemCommand::new("qemu-img");
    command.set_env("PATH", "/opt/qemu/bin");
    command.set_env("LANG", "C");
    assert_eq!(
        *command.get_envs(),
        vec![
            ("PATH".to_string(), "/opt/qemu/bin".to_string()),
            ("LANG".to_string(), "C".to_string())
        ]
    );
}
