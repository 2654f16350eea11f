use vm_xml::convert::xml_to_struct;
use vm_xml::error::MappingError;
use vm_xml::host::{
    cloud_image_path, cloud_init_meta_data, cloud_init_user_data, disk_image_path, disk_size_arg,
    domain_id_text, hash_password_sha512, meta_data_file, seed_iso_path, shutdown_step,
    user_data_file, ShutdownAction, ShutdownState,
};
use vm_xml::install::{installation_domain, installation_domain_xml};
use vm_xml::record::{FromValue, ToValue};
use vm_xml::types::{DomainConfig, Memory, Os};
use vm_xml::value::GenericValue;
use vm_xml::types::{Ssh, Target, CloudInitMetaData};

#[test]
fn reads_a_definition_and_ignores_unknown_elements() {
    let xml = "<domain type=\"kvm\"><name>vm1</name><uuid>u-1</uuid><clock offset=\"utc\"/>\
               <memory unit=\"MiB\">2048</memory><on_reboot>restart</on_reboot></domain>";
    let d: DomainConfig = xml_to_struct(xml).unwrap();
    assert_eq!(d.domain_type, "kvm");
    assert_eq!(d.name, "vm1");
    assert_eq!(d.uuid, "u-1");
    let m = d.memory.unwrap();
    assert_eq!((m.unit.as_str(), m.value.as_str()), ("MiB", "2048"));
    assert!(d.os.is_none());
    assert!(d.devices.is_none());
}

#[test]
fn missing_required_field_is_reported() {
    let r: Result<DomainConfig, MappingError> = xml_to_struct("<domain type=\"kvm\"><name>vm1</name></domain>");
    assert_eq!(r.err(), Some(MappingError::MissingField("uuid".to_string())));
}

#[test]
fn wrong_shape_is_a_type_mismatch() {
    let r: Result<Memory, MappingError> = xml_to_struct("<memory unit=\"MiB\"><a/><b/></memory>");
    assert!(matches!(r, Err(MappingError::MissingField(_))));
    let one_boot: Result<Os, MappingError> =
        xml_to_struct("<os><type arch=\"x86_64\" machine=\"q35\">hvm</type><boot dev=\"hd\"/></os>");
    assert!(matches!(one_boot, Err(MappingError::TypeMismatch(_))));
    let not_text: Result<Memory, MappingError> = xml_to_struct("<memory unit=\"MiB\"><x>1</x><y>2</y></memory>");
    assert!(not_text.is_err());
}

#[test]
fn malformed_text_is_a_parse_error() {
    let r: Result<DomainConfig, MappingError> = xml_to_struct("<a><b></a>");
    assert!(matches!(r, Err(MappingError::Parse(_))));
}

#[test]
fn installation_definition_reads_back() {
    let text = installation_domain_xml("vm1", 4096, 2, "/d.qcow2".to_string(), "/s.iso".to_string(), "id-7".to_string()).unwrap();
    let d: DomainConfig = xml_to_struct(&text).unwrap();
    assert_eq!(d.name, "vm1");
    assert_eq!(d.uuid, "id-7");
    assert_eq!(d.vcpu.unwrap().value, "2");
    assert_eq!(d.current_memory.unwrap().value, "4096");
    let os = d.os.unwrap();
    assert_eq!(os.os_type.text, "hvm");
    assert_eq!(os.boot.len(), 2);
    let devices = d.devices.unwrap();
    assert_eq!(devices.disk.len(), 2);
    assert_eq!(devices.disk[0].source.as_ref().unwrap().file.as_deref(), Some("/s.iso"));
    assert!(devices.disk[1].readonly.is_none());
    assert_eq!(devices.interface.unwrap().source.unwrap().bridge.as_deref(), Some("virbr0"));
}

#[test]
fn record_value_carries_decimal_memory() {
    let d = installation_domain("vm1", 512, 16, "/d".to_string(), "/s".to_string(), "u".to_string());
    let v = d.to_value();
    let back = DomainConfig::from_value(&v).unwrap();
    assert_eq!(back.memory.unwrap().value, "512");
    assert_eq!(back.vcpu.unwrap().value, "16");
    match v {
        GenericValue::Object(m) => assert_eq!(m[0], ("@type".to_string(), GenericValue::Str("kvm".to_string()))),
        other => panic!("{:?}", other),
    }
}

#[test]
fn host_paths() {
    assert_eq!(disk_image_path("vm1"), "/var/lib/libvirt/images/vm1.qcow2");
    assert_eq!(seed_iso_path("vm1"), "/var/lib/libvirt/images/vm1-seed.iso");
    assert_eq!(cloud_image_path(), "/var/lib/libvirt/images/iso/noble-server-cloudimg-amd64.img");
    assert_eq!(disk_size_arg(10), "10G");
    assert_eq!(disk_size_arg(0), "0G");
    assert_eq!(user_data_file("vm1"), "/tmp/vm1-user-data");
    assert_eq!(meta_data_file("vm1"), "/tmp/vm1-meta-data");
}

#[test]
fn cloud_init_texts() {
    assert_eq!(cloud_init_meta_data("vm1"), "instance-id: vm1\nlocal-hostname: vm1\n");
    let u = cloud_init_user_data("vm1", "junior", "$6$salt$hash");
    assert!(u.starts_with("#cloud-config\nhostname: vm1\n"));
    assert!(u.contains("  - name: junior\n"));
    assert!(u.contains("    passwd: $6$salt$hash\n"));
    assert!(u.ends_with("ssh_pwauth: true\n"));
}

#[test]
fn password_hash_is_sha512_crypt() {
    let h = hash_password_sha512("123456789").unwrap();
    assert!(h.starts_with("$6$rounds=10000$"), "{}", h);
    assert_ne!(h, "123456789");
}

#[test]
fn shutdown_steps() {
    assert_eq!(shutdown_step(ShutdownState::Start, false), (None, ShutdownAction::NotActive));
    assert_eq!(
        shutdown_step(ShutdownState::Start, true),
        (Some(ShutdownState::Waiting(10)), ShutdownAction::RequestShutdown)
    );
    assert_eq!(shutdown_step(ShutdownState::Waiting(3), true), (Some(ShutdownState::Waiting(2)), ShutdownAction::Wait));
    assert_eq!(shutdown_step(ShutdownState::Waiting(3), false), (None, ShutdownAction::Stopped));
    assert_eq!(shutdown_step(ShutdownState::Waiting(0), true), (None, ShutdownAction::ForceOff));
    let mut state = ShutdownState::Start;
    let mut waits = 0;
    loop {
        let (next, action) = shutdown_step(state, true);
        if action == ShutdownAction::Wait {
            waits += 1;
        }
        match next {
            Some(s) => state = s,
            None => {
                assert_eq!(action, ShutdownAction::ForceOff);
                break;
            }
        }
    }
    assert_eq!(waits, 10);
}

#[test]
fn domain_ids() {
    assert_eq!(domain_id_text(0), "N/A");
    assert_eq!(domain_id_text(42), "42");
}

#[test]
fn generated_definitions_get_fresh_identifiers() {
    let a = vm_xml::install::generate_installation_domain_xml("vm1", 1024, 1, "/d".to_string(), "/s".to_string()).unwrap();
    let b = vm_xml::install::generate_installation_domain_xml("vm1", 1024, 1, "/d".to_string(), "/s".to_string()).unwrap();
    let da: DomainConfig = xml_to_struct(&a).unwrap();
    let db: DomainConfig = xml_to_struct(&b).unwrap();
    assert_eq!(da.uuid.len(), 36);
    assert_eq!(da.uuid.matches('-').count(), 4);
    assert_ne!(da.uuid, db.uuid);
    assert_eq!(da.name, "vm1");
}

#[test]
fn absent_attribute_is_a_missing_field() {
    let r: Result<Target, MappingError> = xml_to_struct("<target dev='vda'/>");
    assert_eq!(r.err(), Some(MappingError::MissingField("@bus".to_string())));
}

#[test]
fn single_boot_is_a_type_mismatch() {
    let r: Result<Os, MappingError> = xml_to_struct("<os><type arch='x86_64' machine='pc'>hvm</type><boot dev='hd'/></os>");
    assert!(matches!(r, Err(MappingError::TypeMismatch(_))));
}

#[test]
fn text_for_a_boolean_is_a_type_mismatch() {
    let r: Result<Ssh, MappingError> = xml_to_struct("<ssh><install_server>maybe</install_server></ssh>");
    assert!(matches!(r, Err(MappingError::TypeMismatch(_))));
    let missing: Result<Ssh, MappingError> = xml_to_struct("<ssh><other/></ssh>");
    assert_eq!(missing.err(), Some(MappingError::MissingField("install_server".to_string())));
}

#[test]
fn meta_data_reads_back() {
    let m: CloudInitMetaData =
        xml_to_struct("<meta><instance_id>vm1</instance_id><local_hostname>vm1</local_hostname></meta>").unwrap();
    assert_eq!((m.instance_id.as_str(), m.local_hostname.as_str()), ("vm1", "vm1"));
}
