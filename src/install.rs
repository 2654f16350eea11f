//! The definition of a machine that installs its guest from a cloud image
//! and a cloud-init seed.
use vstd::prelude::*;
use crate::error::MappingError;
use crate::value::{Json, text_key};
use crate::encode::{encodable, entry_encodable, encode_model};
use crate::document::emitted_text;
use crate::record::ToValue;
use crate::convert::struct_to_xml;
use crate::types::{
    DomainConfig, Os, OsType, Boot, Memory, Vcpu, Devices, Console, Serial, ConsoleTarget,
    SerialTarget, Disk, Driver, Source, Target, Interface, Model, Graphics, Empty,
};

verus! {

/// The decimal digit for `d`.
pub open spec fn digit_char(d: nat) -> char {
    ((d + 48) as u8) as char
}

/// The decimal text of `n`, without leading zeros.
pub open spec fn decimal(n: nat) -> Seq<char>
    decreases n,
{
    if n < 10 {
        seq![digit_char(n)]
    } else {
        decimal(n / 10).push(digit_char(n % 10))
    }
}

/// Relies on the Display impl of u64: the decimal text of the number.
#[verifier::external_body]
pub(crate) fn decimal_text(n: u64) -> (r: String)
    ensures
        r@ == decimal(n as nat),
{
    n.to_string()
}

/// Relies on uuid::Uuid::new_v4: a random identifier, in its hyphenated
/// text form.
#[verifier::external_body]
fn random_uuid_text() -> (r: String) {
    uuid::Uuid::new_v4().to_string()
}

/// An object of two string attributes.
pub open spec fn attrs2(k1: Seq<char>, v1: Seq<char>, k2: Seq<char>, v2: Seq<char>) -> Json {
    Json::Object(seq![(k1, Json::Str(v1)), (k2, Json::Str(v2))])
}

/// The value of the installation machine's definition.
pub open spec fn installation_value(
    name: Seq<char>,
    memory: nat,
    vcpus: nat,
    disk_path: Seq<char>,
    seed_iso_path: Seq<char>,
    uuid: Seq<char>,
) -> Json {
    let memory_value = Json::Object(seq![("@unit"@, Json::Str("MiB"@)), (text_key(), Json::Str(decimal(memory)))]);
    let disk = |device: Seq<char>, driver: Seq<char>, file: Seq<char>, dev: Seq<char>, bus: Seq<char>| seq![
        ("@type"@, Json::Str("file"@)),
        ("@device"@, Json::Str(device)),
        ("driver"@, attrs2("@name"@, "qemu"@, "@type"@, driver)),
        ("source"@, Json::Object(seq![("@file"@, Json::Str(file))])),
        ("target"@, attrs2("@dev"@, dev, "@bus"@, bus)),
    ];
    Json::Object(
        seq![
            ("@type"@, Json::Str("kvm"@)),
            ("name"@, Json::Str(name)),
            ("uuid"@, Json::Str(uuid)),
            ("os"@, Json::Object(seq![
                ("type"@, Json::Object(seq![
                    ("@arch"@, Json::Str("x86_64"@)),
                    ("@machine"@, Json::Str("pc-q35-6.2"@)),
                    (text_key(), Json::Str("hvm"@)),
                ])),
                ("boot"@, Json::Array(seq![
                    Json::Object(seq![("@dev"@, Json::Str("cdrom"@))]),
                    Json::Object(seq![("@dev"@, Json::Str("hd"@))]),
                ])),
            ])),
            ("memory"@, memory_value),
            ("currentMemory"@, memory_value),
            ("vcpu"@, Json::Object(seq![("@placement"@, Json::Str("static"@)), (text_key(), Json::Str(decimal(vcpus)))])),
            ("devices"@, Json::Object(seq![
                ("disk"@, Json::Array(seq![
                    Json::Object(
                        disk("cdrom"@, "raw"@, seed_iso_path, "hdb"@, "sata"@).push(("readonly"@, Json::Object(seq![]))),
                    ),
                    Json::Object(disk("disk"@, "qcow2"@, disk_path, "vda"@, "virtio"@)),
                ])),
                ("interface"@, Json::Object(seq![
                    ("@type"@, Json::Str("bridge"@)),
                    ("source"@, Json::Object(seq![("@bridge"@, Json::Str("virbr0"@))])),
                    ("model"@, Json::Object(seq![("@type"@, Json::Str("virtio"@))])),
                ])),
                ("graphics"@, Json::Object(seq![
                    ("@type"@, Json::Str("vnc"@)),
                    ("@port"@, Json::Str("-1"@)),
                    ("@autoport"@, Json::Str("yes"@)),
                ])),
                ("console"@, Json::Object(seq![
                    ("@type"@, Json::Str("pty"@)),
                    ("target"@, attrs2("@type"@, "serial"@, "@port"@, "0"@)),
                ])),
                ("serial"@, Json::Object(seq![
                    ("@type"@, Json::Str("pty"@)),
                    ("target"@, attrs2("@type"@, "isa-serial"@, "@port"@, "0"@)),
                ])),
            ])),
        ],
    )
}


/// The definition of a machine named `name` that boots first from the seed
/// image and then from its disk, with `memory` MiB, `vcpus` processors, a
/// bridged network interface, a VNC display and a serial console.
pub fn installation_domain(
    name: &str,
    memory: u64,
    vcpus: u8,
    disk_path: String,
    seed_iso_path: String,
    uuid: String,
) -> (r: DomainConfig)
    ensures
        r.value_model() == installation_value(
            name@,
            memory as nat,
            vcpus as nat,
            disk_path@,
            seed_iso_path@,
            uuid@,
        ),
{
    let iso_disk = Disk {
        device: String::from_str("cdrom"),
        disk_type: String::from_str("file"),
        driver: Some(Driver { name: String::from_str("qemu"), driver_type: String::from_str("raw") }),
        source: Some(Source { file: Some(seed_iso_path), bridge: None }),
        target: Some(Target { dev: String::from_str("hdb"), bus: String::from_str("sata") }),
        readonly: Some(Empty {  }),
    };
    let hd_disk = Disk {
        device: String::from_str("disk"),
        disk_type: String::from_str("file"),
        driver: Some(Driver { name: String::from_str("qemu"), driver_type: String::from_str("qcow2") }),
        source: Some(Source { file: Some(disk_path), bridge: None }),
        target: Some(Target { dev: String::from_str("vda"), bus: String::from_str("virtio") }),
        readonly: None,
    };
    let interface = Interface {
        interface_type: String::from_str("bridge"),
        source: Some(Source { file: None, bridge: Some(String::from_str("virbr0")) }),
        model: Some(Model { model_type: String::from_str("virtio") }),
    };
    let graphics = Graphics {
        graphics_type: String::from_str("vnc"),
        port: String::from_str("-1"),
        autoport: String::from_str("yes"),
    };
    let console = Console {
        console_type: String::from_str("pty"),
        target: Some(ConsoleTarget { type_: String::from_str("serial"), port: String::from_str("0") }),
    };
    let serial = Serial {
        serial_type: String::from_str("pty"),
        target: Some(SerialTarget { type_: String::from_str("isa-serial"), port: String::from_str("0") }),
    };
    let devices = Devices {
        disk: vec![iso_disk, hd_disk],
        interface: Some(interface),
        graphics: Some(graphics),
        console: Some(console),
        serial: Some(serial),
    };
    let os = Os {
        os_type: OsType {
            arch: String::from_str("x86_64"),
            machine: String::from_str("pc-q35-6.2"),
            text: String::from_str("hvm"),
        },
        boot: vec![Boot { dev: String::from_str("cdrom") }, Boot { dev: String::from_str("hd") }],
    };
    let r = DomainConfig {
        domain_type: String::from_str("kvm"),
        name: String::from_str(name),
        uuid,
        os: Some(os),
        memory: Some(Memory { unit: String::from_str("MiB"), value: decimal_text(memory) }),
        current_memory: Some(Memory { unit: String::from_str("MiB"), value: decimal_text(memory) }),
        vcpu: Some(Vcpu { placement: String::from_str("static"), value: decimal_text(vcpus as u64) }),
        devices: Some(devices),
    };
    proof {
        let want = installation_value(
            name@,
            memory as nat,
            vcpus as nat,
            disk_path@,
            seed_iso_path@,
            uuid@,
        );
        let got = r.value_model();
        reveal_strlit("#text");
        assert(text_key() =~= "#text"@);
        assert(r.os->0.boot@.map_values(|x: Boot| x.value_model()) =~= want->Object_0[3].1->Object_0[1].1->Array_0);
        let ds = r.devices->0.disk@;
        let wd = want->Object_0[7].1->Object_0[0].1->Array_0;
        assert(ds[0].source->0.value_model()->Object_0 =~= wd[0]->Object_0[3].1->Object_0);
        assert(ds[1].source->0.value_model()->Object_0 =~= wd[1]->Object_0[3].1->Object_0);
        assert(ds[0].value_model()->Object_0 =~= wd[0]->Object_0);
        assert(ds[1].value_model()->Object_0 =~= wd[1]->Object_0);
        let wi = want->Object_0[7].1->Object_0[1].1;
        assert(r.devices->0.interface->0.source->0.value_model()->Object_0 =~= wi->Object_0[1].1->Object_0);
        assert(r.devices->0.disk@.map_values(|x: Disk| x.value_model()) =~= want->Object_0[7].1->Object_0[0].1->Array_0);
        assert(r.devices->0.interface->0.value_model()->Object_0 =~= wi->Object_0);
        assert(r.devices->0.value_model()->Object_0 =~= want->Object_0[7].1->Object_0);
        assert(r.os->0.value_model()->Object_0 =~= want->Object_0[3].1->Object_0);
        assert(got->Object_0 =~= want->Object_0);
    }
    r
}


/// The installation machine's value holds only strings in its attributes
/// and texts, so it can be encoded.
pub proof fn lemma_installation_encodable(
    name: Seq<char>,
    memory: nat,
    vcpus: nat,
    disk_path: Seq<char>,
    seed_iso_path: Seq<char>,
    uuid: Seq<char>,
)
    ensures
        encodable(installation_value(name, memory, vcpus, disk_path, seed_iso_path, uuid)),
{
    let v = installation_value(name, memory, vcpus, disk_path, seed_iso_path, uuid);
    let m = v->Object_0;
    reveal_strlit("#text");
    assert(text_key() =~= "#text"@);
    reveal_strlit("memory");
    reveal_strlit("currentMemory");
    reveal_strlit("vcpu");
    reveal_strlit("devices");
    reveal_strlit("disk");
    reveal_strlit("interface");
    reveal_strlit("graphics");
    reveal_strlit("console");
    reveal_strlit("serial");
    reveal_strlit("model");
    assert forall|i: int| 0 <= i < m.len() implies entry_encodable(m[i].0, #[trigger] m[i].1) by {
        if 4 <= i <= 6 {
            let sub = m[i].1->Object_0;
            assert forall|u: int| 0 <= u < sub.len() implies entry_encodable(sub[u].0, #[trigger] sub[u].1) by {}
        } else if i == 3 {
            let os = m[3].1->Object_0;
            reveal_strlit("type");
            reveal_strlit("boot");
            reveal_strlit("os");
            let boots = os[1].1->Array_0;
            assert forall|j: int| 0 <= j < boots.len() implies encodable(#[trigger] boots[j]) by {
                let b = boots[j]->Object_0;
                assert(entry_encodable(b[0].0, b[0].1));
            }
            let tm = os[0].1->Object_0;
            assert forall|t: int| 0 <= t < tm.len() implies entry_encodable(tm[t].0, #[trigger] tm[t].1) by {}
            assert(entry_encodable(os[0].0, os[0].1));
            assert(entry_encodable(os[1].0, os[1].1));
        } else if i == 7 {
            let dv = m[7].1->Object_0;
            let disks = dv[0].1->Array_0;
            assert forall|j: int| 0 <= j < disks.len() implies encodable(#[trigger] disks[j]) by {
                let d = disks[j]->Object_0;
                assert forall|t: int| 0 <= t < d.len() implies entry_encodable(d[t].0, #[trigger] d[t].1) by {
                    reveal_strlit("readonly");
                    reveal_strlit("driver");
                    reveal_strlit("source");
                    reveal_strlit("target");
                    if d[t].1 is Object {
                        let sub = d[t].1->Object_0;
                        assert forall|u: int| 0 <= u < sub.len() implies entry_encodable(
                            sub[u].0,
                            #[trigger] sub[u].1,
                        ) by {}
                    }
                }
            }
            reveal_strlit("source");
            reveal_strlit("target");
            assert forall|t: int| 0 <= t < dv.len() implies entry_encodable(dv[t].0, #[trigger] dv[t].1) by {
                if 1 <= t {
                    let sub = dv[t].1->Object_0;
                    assert forall|u: int| 0 <= u < sub.len() implies entry_encodable(sub[u].0, #[trigger] sub[u].1) by {
                        if sub[u].1 is Object {
                            let leaf = sub[u].1->Object_0;
                            assert forall|w: int| 0 <= w < leaf.len() implies entry_encodable(
                                leaf[w].0,
                                #[trigger] leaf[w].1,
                            ) by {}
                        }
                    }
                }
            }
        }
    }
}

/// The XML text of the installation machine's definition under the tag
/// `domain`, for the given identifier. Fails only where the emitter fails.
pub fn installation_domain_xml(
    name: &str,
    memory: u64,
    vcpus: u8,
    disk_path: String,
    seed_iso_path: String,
    uuid: String,
) -> (r: Result<String, MappingError>)
    ensures
        r is Ok <==> emitted_text(
            encode_model(
                installation_value(name@, memory as nat, vcpus as nat, disk_path@, seed_iso_path@, uuid@),
                "domain"@,
            ),
        ) is Some,
        r is Ok ==> emitted_text(
            encode_model(
                installation_value(name@, memory as nat, vcpus as nat, disk_path@, seed_iso_path@, uuid@),
                "domain"@,
            ),
        ) == Some(r->Ok_0@),
{
    proof {
        lemma_installation_encodable(name@, memory as nat, vcpus as nat, disk_path@, seed_iso_path@, uuid@);
    }
    let config = installation_domain(name, memory, vcpus, disk_path, seed_iso_path, uuid);
    struct_to_xml(&config, "domain")
}

/// The XML text of the installation machine's definition, under a freshly
/// drawn random identifier.
pub fn generate_installation_domain_xml(
    name: &str,
    memory: u64,
    vcpus: u8,
    disk_path: String,
    seed_iso_path: String,
) -> (r: Result<String, MappingError>)
    ensures
        exists|uuid: Seq<char>|
            {
                let text = emitted_text(
                    encode_model(
                        #[trigger] installation_value(name@, memory as nat, vcpus as nat, disk_path@, seed_iso_path@, uuid),
                        "domain"@,
                    ),
                );
                &&& (r is Ok <==> text is Some)
                &&& (r is Ok ==> text == Some(r->Ok_0@))
            },
{
    let uuid = random_uuid_text();
    let ghost u = uuid@;
    let ghost (n, d, s) = (name@, disk_path@, seed_iso_path@);
    let r = installation_domain_xml(name, memory, vcpus, disk_path, seed_iso_path, uuid);
    assert({
        let text = emitted_text(
            encode_model(installation_value(n, memory as nat, vcpus as nat, d, s, u), "domain"@),
        );
        &&& (r is Ok <==> text is Some)
        &&& (r is Ok ==> text == Some(r->Ok_0@))
    });
    r
}

} // verus!
