use cubic::error::Error;
use cubic::models::{Arch, DataSize, PortForward, PortProtocol, Template, TomlItem};

const HOST: Arch = Arch::AMD64;

#[test]
fn test_parse_full_template() {
    let template = Template::parse(
        r#"
version = 1
image = "debian:trixie"
user = "john"
cpus = 4
memory = "4G"
disk = "100G"
isolate = true
ports = ["8000:80", "5353:53/udp"]
run = ["sudo apt update", "sudo apt install vim"]
"#,
        HOST,
    )
    .unwrap();

    assert_eq!(template.image.unwrap().get_name(), "trixie");
    assert_eq!(template.user.unwrap().as_str(), "john");
    assert_eq!(template.cpus, Some(4));
    assert_eq!(template.memory.unwrap().get_bytes(), 4 * 1024_usize.pow(3));
    assert_eq!(template.disk.unwrap().get_bytes(), 100 * 1024_usize.pow(3));
    assert_eq!(template.isolate, Some(true));
    assert_eq!(template.ports.len(), 2);
    assert_eq!(template.run, ["sudo apt update", "sudo apt install vim"]);
}

/// An omitted field must fall back instead of failing the whole parse.
#[test]
fn test_parse_leaves_omitted_fields_unset() {
    let template = Template::parse("version = 1\nimage = \"ubuntu:noble\"\n", HOST).unwrap();

    assert_eq!(template.image.unwrap().get_name(), "noble");
    assert_eq!(template.cpus, None);
    assert!(template.run.is_empty());
}

#[test]
fn test_parse_rejects_an_unknown_field_and_an_invalid_value() {
    for content in [
        "version = 1\nunknown = 1\n",
        "version = 1\nports = [\"not-a-port\"]\n",
        "version = \"1\"\n",
    ] {
        assert!(matches!(
            Template::parse(content, HOST),
            Err(Error::InvalidTemplate(_))
        ));
    }
}

#[test]
fn test_parse_rejects_missing_version() {
    assert!(matches!(
        Template::parse("image = \"ubuntu:noble\"\n", HOST),
        Err(Error::MissingTemplateVersion)
    ));
}

#[test]
fn test_parse_rejects_unsupported_versions() {
    for version in [0, 2, 10] {
        assert!(matches!(
            Template::parse(&format!("version = {version}\n"), HOST),
            Err(Error::UnsupportedTemplateVersion(actual)) if actual == version
        ));
    }
}

#[test]
fn test_parse_reports_text_that_is_not_toml() {
    assert!(matches!(
        Template::parse("version = = 1\n", HOST),
        Err(Error::InvalidTemplate(_))
    ));
}

#[test]
fn test_parse_reads_the_image_arch_and_the_port_protocols() {
    let template = Template::parse(
        "version = 1\nimage = \"debian\"\nports = [\"8000:80\", \"5353:53/udp\"]\n",
        Arch::ARM64,
    )
    .unwrap();
    let image = template.image.unwrap();
    assert_eq!(image.get_distro(), "debian");
    assert_eq!(image.get_name(), "stable");
    assert_eq!(image.get_arch(), Arch::ARM64);
    assert_eq!(template.ports[0].get_host_port(), 8000);
    assert_eq!(template.ports[0].get_guest_port(), 80);
    assert_eq!(template.ports[0].get_protocol(), PortProtocol::Tcp);
    assert_eq!(template.ports[1].get_protocol(), PortProtocol::Udp);
}

fn entry(key: &str, item: TomlItem) -> (String, TomlItem) {
    (key.to_string(), item)
}

#[test]
fn test_from_entries_names_the_refused_field() {
    let entries = vec![
        entry("version", TomlItem::Integer(1)),
        entry("cpus", TomlItem::Integer(70000)),
    ];
    match Template::from_entries(&entries, HOST) {
        Err(Error::InvalidTemplate(message)) => assert_eq!(message, "cpus: number out of range"),
        other => panic!("unexpected {other:?}"),
    }

    let entries = vec![entry("colour", TomlItem::Text("red".to_string()))];
    match Template::from_entries(&entries, HOST) {
        Err(Error::InvalidTemplate(message)) => assert_eq!(message, "colour: unknown field"),
        other => panic!("unexpected {other:?}"),
    }

    let entries = vec![entry("run", TomlItem::Array(vec![Some("ls".to_string()), None]))];
    match Template::from_entries(&entries, HOST) {
        Err(Error::InvalidTemplate(message)) => {
            assert_eq!(message, "run: expected an array of strings")
        }
        other => panic!("unexpected {other:?}"),
    }

    let entries = vec![entry("isolate", TomlItem::Other)];
    match Template::from_entries(&entries, HOST) {
        Err(Error::InvalidTemplate(message)) => assert_eq!(message, "isolate: expected a boolean"),
        other => panic!("unexpected {other:?}"),
    }
}

#[test]
fn test_from_entries_lets_a_later_entry_win() {
    let entries = vec![
        entry("cpus", TomlItem::Integer(2)),
        entry("version", TomlItem::Integer(1)),
        entry("cpus", TomlItem::Integer(8)),
    ];
    let template = Template::from_entries(&entries, HOST).unwrap();
    assert_eq!(template.cpus, Some(8));
    assert_eq!(template.version, Some(1));
}

#[test]
fn test_data_size_reads_each_unit() {
    assert_eq!(DataSize::from_str("512B").unwrap().get_bytes(), 512);
    assert_eq!(DataSize::from_str("2K").unwrap().get_bytes(), 2048);
    assert_eq!(DataSize::from_str("3M").unwrap().get_bytes(), 3 * 1024 * 1024);
    assert_eq!(DataSize::from_str("1G").unwrap().get_bytes(), 1024 * 1024 * 1024);
    assert!(DataSize::from_str("").is_err());
    assert!(DataSize::from_str("G").is_err());
    assert!(DataSize::from_str("4").is_err());
    assert!(DataSize::from_str("4X").is_err());
    assert!(DataSize::from_str("-4G").is_err());
}

#[test]
fn test_port_forward_rejects_malformed_text() {
    for text in ["80", "a:80", "8000:80/icmp", "70000:80", "1:2:3", "8000:80/udp/tcp"] {
        assert!(PortForward::from_str(text).is_err(), "{text}");
    }
    let forward = PortForward::from_str("22:2222/tcp").unwrap();
    assert_eq!(forward.get_host_port(), 22);
    assert_eq!(forward.get_guest_port(), 2222);
    assert_eq!(forward.get_protocol(), PortProtocol::Tcp);
}

#[test]
fn test_parse_reports_the_first_refused_entry_in_document_order() {
    match Template::parse("version = 1\nzeta = 1\nalpha = 2\n", HOST) {
        Err(Error::InvalidTemplate(message)) => assert_eq!(message, "zeta: unknown field"),
        other => panic!("unexpected {other:?}"),
    }
}
