//! The records of a virtual machine definition and of a cloud-init seed.
use vstd::prelude::*;
use crate::error::MappingError;
use crate::value::{GenericValue, Json, entries_view, lemma_object_view};
use crate::record::{
    ToValue, FromValue, opt_model, vec_model, opt_to_value, vec_to_value, object_value, required, optional,
    required_ok, required_is, optional_ok, optional_is, required_missing, optional_missing,
    lemma_field_insert,
};

verus! {

/// The definition of a virtual machine, as the hypervisor reads it.
pub struct DomainConfig {
    pub domain_type: String,
    pub name: String,
    pub uuid: String,
    pub os: Option<Os>,
    pub memory: Option<Memory>,
    pub current_memory: Option<Memory>,
    pub vcpu: Option<Vcpu>,
    pub devices: Option<Devices>,
}

impl ToValue for DomainConfig {
    open spec fn value_model(&self) -> Json {
        Json::Object(
            seq![
                ("@type"@, Json::Str(self.domain_type@)),
                ("name"@, Json::Str(self.name@)),
                ("uuid"@, Json::Str(self.uuid@)),
                ("os"@, opt_model(self.os)),
                ("memory"@, opt_model(self.memory)),
                ("currentMemory"@, opt_model(self.current_memory)),
                ("vcpu"@, opt_model(self.vcpu)),
                ("devices"@, opt_model(self.devices)),
            ],
        )
    }

    fn to_value(&self) -> (r: GenericValue) {
        let mut m: Vec<(String, GenericValue)> = Vec::new();
        m.push((String::from_str("@type"), GenericValue::Str(self.domain_type.clone())));
        m.push((String::from_str("name"), GenericValue::Str(self.name.clone())));
        m.push((String::from_str("uuid"), GenericValue::Str(self.uuid.clone())));
        m.push((String::from_str("os"), opt_to_value(&self.os)));
        m.push((String::from_str("memory"), opt_to_value(&self.memory)));
        m.push((String::from_str("currentMemory"), opt_to_value(&self.current_memory)));
        m.push((String::from_str("vcpu"), opt_to_value(&self.vcpu)));
        m.push((String::from_str("devices"), opt_to_value(&self.devices)));
        assert(entries_view(m@) =~= seq![
                ("@type"@, Json::Str(self.domain_type@)),
                ("name"@, Json::Str(self.name@)),
                ("uuid"@, Json::Str(self.uuid@)),
                ("os"@, opt_model(self.os)),
                ("memory"@, opt_model(self.memory)),
                ("currentMemory"@, opt_model(self.current_memory)),
                ("vcpu"@, opt_model(self.vcpu)),
                ("devices"@, opt_model(self.devices)),
            ]);
        object_value(m)
    }
}

/// How the machine boots.
pub struct Os {
    pub os_type: OsType,
    pub boot: Vec<Boot>,
}

impl ToValue for Os {
    open spec fn value_model(&self) -> Json {
        Json::Object(
            seq![
                ("type"@, self.os_type.value_model()),
                ("boot"@, vec_model(self.boot@)),
            ],
        )
    }

    fn to_value(&self) -> (r: GenericValue) {
        let mut m: Vec<(String, GenericValue)> = Vec::new();
        m.push((String::from_str("type"), self.os_type.to_value()));
        m.push((String::from_str("boot"), vec_to_value(&self.boot)));
        assert(entries_view(m@) =~= seq![
                ("type"@, self.os_type.value_model()),
                ("boot"@, vec_model(self.boot@)),
            ]);
        object_value(m)
    }
}

/// The machine type: architecture, chipset and kind of guest.
pub struct OsType {
    pub arch: String,
    pub machine: String,
    pub text: String,
}

impl ToValue for OsType {
    open spec fn value_model(&self) -> Json {
        Json::Object(
            seq![
                ("@arch"@, Json::Str(self.arch@)),
                ("@machine"@, Json::Str(self.machine@)),
                ("#text"@, Json::Str(self.text@)),
            ],
        )
    }

    fn to_value(&self) -> (r: GenericValue) {
        let mut m: Vec<(String, GenericValue)> = Vec::new();
        m.push((String::from_str("@arch"), GenericValue::Str(self.arch.clone())));
        m.push((String::from_str("@machine"), GenericValue::Str(self.machine.clone())));
        m.push((String::from_str("#text"), GenericValue::Str(self.text.clone())));
        assert(entries_view(m@) =~= seq![
                ("@arch"@, Json::Str(self.arch@)),
                ("@machine"@, Json::Str(self.machine@)),
                ("#text"@, Json::Str(self.text@)),
            ]);
        object_value(m)
    }
}

/// One boot device, in boot order.
pub struct Boot {
    pub dev: String,
}

impl ToValue for Boot {
    open spec fn value_model(&self) -> Json {
        Json::Object(
            seq![
                ("@dev"@, Json::Str(self.dev@)),
            ],
        )
    }

    fn to_value(&self) -> (r: GenericValue) {
        let mut m: Vec<(String, GenericValue)> = Vec::new();
        m.push((String::from_str("@dev"), GenericValue::Str(self.dev.clone())));
        assert(entries_view(m@) =~= seq![
                ("@dev"@, Json::Str(self.dev@)),
            ]);
        object_value(m)
    }
}

/// An amount of memory and its unit.
pub struct Memory {
    pub unit: String,
    pub value: String,
}

impl ToValue for Memory {
    open spec fn value_model(&self) -> Json {
        Json::Object(
            seq![
                ("@unit"@, Json::Str(self.unit@)),
                ("#text"@, Json::Str(self.value@)),
            ],
        )
    }

    fn to_value(&self) -> (r: GenericValue) {
        let mut m: Vec<(String, GenericValue)> = Vec::new();
        m.push((String::from_str("@unit"), GenericValue::Str(self.unit.clone())));
        m.push((String::from_str("#text"), GenericValue::Str(self.value.clone())));
        assert(entries_view(m@) =~= seq![
                ("@unit"@, Json::Str(self.unit@)),
                ("#text"@, Json::Str(self.value@)),
            ]);
        object_value(m)
    }
}

/// The number of virtual processors and their placement.
pub struct Vcpu {
    pub placement: String,
    pub value: String,
}

impl ToValue for Vcpu {
    open spec fn value_model(&self) -> Json {
        Json::Object(
            seq![
                ("@placement"@, Json::Str(self.placement@)),
                ("#text"@, Json::Str(self.value@)),
            ],
        )
    }

    fn to_value(&self) -> (r: GenericValue) {
        let mut m: Vec<(String, GenericValue)> = Vec::new();
        m.push((String::from_str("@placement"), GenericValue::Str(self.placement.clone())));
        m.push((String::from_str("#text"), GenericValue::Str(self.value.clone())));
        assert(entries_view(m@) =~= seq![
                ("@placement"@, Json::Str(self.placement@)),
                ("#text"@, Json::Str(self.value@)),
            ]);
        object_value(m)
    }
}

/// The devices attached to the machine.
pub struct Devices {
    pub disk: Vec<Disk>,
    pub interface: Option<Interface>,
    pub graphics: Option<Graphics>,
    pub console: Option<Console>,
    pub serial: Option<Serial>,
}

impl ToValue for Devices {
    open spec fn value_model(&self) -> Json {
        Json::Object(
            seq![
                ("disk"@, vec_model(self.disk@)),
                ("interface"@, opt_model(self.interface)),
                ("graphics"@, opt_model(self.graphics)),
                ("console"@, opt_model(self.console)),
                ("serial"@, opt_model(self.serial)),
            ],
        )
    }

    fn to_value(&self) -> (r: GenericValue) {
        let mut m: Vec<(String, GenericValue)> = Vec::new();
        m.push((String::from_str("disk"), vec_to_value(&self.disk)));
        m.push((String::from_str("interface"), opt_to_value(&self.interface)));
        m.push((String::from_str("graphics"), opt_to_value(&self.graphics)));
        m.push((String::from_str("console"), opt_to_value(&self.console)));
        m.push((String::from_str("serial"), opt_to_value(&self.serial)));
        assert(entries_view(m@) =~= seq![
                ("disk"@, vec_model(self.disk@)),
                ("interface"@, opt_model(self.interface)),
                ("graphics"@, opt_model(self.graphics)),
                ("console"@, opt_model(self.console)),
                ("serial"@, opt_model(self.serial)),
            ]);
        object_value(m)
    }
}

/// A text console.
pub struct Console {
    pub console_type: String,
    pub target: Option<ConsoleTarget>,
}

impl ToValue for Console {
    open spec fn value_model(&self) -> Json {
        Json::Object(
            seq![
                ("@type"@, Json::Str(self.console_type@)),
                ("target"@, opt_model(self.target)),
            ],
        )
    }

    fn to_value(&self) -> (r: GenericValue) {
        let mut m: Vec<(String, GenericValue)> = Vec::new();
        m.push((String::from_str("@type"), GenericValue::Str(self.console_type.clone())));
        m.push((String::from_str("target"), opt_to_value(&self.target)));
        assert(entries_view(m@) =~= seq![
                ("@type"@, Json::Str(self.console_type@)),
                ("target"@, opt_model(self.target)),
            ]);
        object_value(m)
    }
}

/// A serial port.
pub struct Serial {
    pub serial_type: String,
    pub target: Option<SerialTarget>,
}

impl ToValue for Serial {
    open spec fn value_model(&self) -> Json {
        Json::Object(
            seq![
                ("@type"@, Json::Str(self.serial_type@)),
                ("target"@, opt_model(self.target)),
            ],
        )
    }

    fn to_value(&self) -> (r: GenericValue) {
        let mut m: Vec<(String, GenericValue)> = Vec::new();
        m.push((String::from_str("@type"), GenericValue::Str(self.serial_type.clone())));
        m.push((String::from_str("target"), opt_to_value(&self.target)));
        assert(entries_view(m@) =~= seq![
                ("@type"@, Json::Str(self.serial_type@)),
                ("target"@, opt_model(self.target)),
            ]);
        object_value(m)
    }
}

/// Where a console is attached.
pub struct ConsoleTarget {
    pub type_: String,
    pub port: String,
}

impl ToValue for ConsoleTarget {
    open spec fn value_model(&self) -> Json {
        Json::Object(
            seq![
                ("@type"@, Json::Str(self.type_@)),
                ("@port"@, Json::Str(self.port@)),
            ],
        )
    }

    fn to_value(&self) -> (r: GenericValue) {
        let mut m: Vec<(String, GenericValue)> = Vec::new();
        m.push((String::from_str("@type"), GenericValue::Str(self.type_.clone())));
        m.push((String::from_str("@port"), GenericValue::Str(self.port.clone())));
        assert(entries_view(m@) =~= seq![
                ("@type"@, Json::Str(self.type_@)),
                ("@port"@, Json::Str(self.port@)),
            ]);
        object_value(m)
    }
}

/// Where a serial port is attached.
pub struct SerialTarget {
    pub type_: String,
    pub port: String,
}

impl ToValue for SerialTarget {
    open spec fn value_model(&self) -> Json {
        Json::Object(
            seq![
                ("@type"@, Json::Str(self.type_@)),
                ("@port"@, Json::Str(self.port@)),
            ],
        )
    }

    fn to_value(&self) -> (r: GenericValue) {
        let mut m: Vec<(String, GenericValue)> = Vec::new();
        m.push((String::from_str("@type"), GenericValue::Str(self.type_.clone())));
        m.push((String::from_str("@port"), GenericValue::Str(self.port.clone())));
        assert(entries_view(m@) =~= seq![
                ("@type"@, Json::Str(self.type_@)),
                ("@port"@, Json::Str(self.port@)),
            ]);
        object_value(m)
    }
}

/// A disk or optical drive.
pub struct Disk {
    pub disk_type: String,
    pub device: String,
    pub driver: Option<Driver>,
    pub source: Option<Source>,
    pub target: Option<Target>,
    pub readonly: Option<Empty>,
}

impl ToValue for Disk {
    open spec fn value_model(&self) -> Json {
        Json::Object(
            seq![
                ("@type"@, Json::Str(self.disk_type@)),
                ("@device"@, Json::Str(self.device@)),
                ("driver"@, opt_model(self.driver)),
                ("source"@, opt_model(self.source)),
                ("target"@, opt_model(self.target)),
            ] + (match self.readonly { Some(x) => seq![("readonly"@, x.value_model())], None => seq![] }),
        )
    }

    fn to_value(&self) -> (r: GenericValue) {
        let mut m: Vec<(String, GenericValue)> = Vec::new();
        m.push((String::from_str("@type"), GenericValue::Str(self.disk_type.clone())));
        m.push((String::from_str("@device"), GenericValue::Str(self.device.clone())));
        m.push((String::from_str("driver"), opt_to_value(&self.driver)));
        m.push((String::from_str("source"), opt_to_value(&self.source)));
        m.push((String::from_str("target"), opt_to_value(&self.target)));
        if let Some(x) = &self.readonly {
            m.push((String::from_str("readonly"), x.to_value()));
        }
        assert(entries_view(m@) =~= seq![
                ("@type"@, Json::Str(self.disk_type@)),
                ("@device"@, Json::Str(self.device@)),
                ("driver"@, opt_model(self.driver)),
                ("source"@, opt_model(self.source)),
                ("target"@, opt_model(self.target)),
            ] + (match self.readonly { Some(x) => seq![("readonly"@, x.value_model())], None => seq![] }));
        object_value(m)
    }
}

/// The driver of a disk and its image format.
pub struct Driver {
    pub name: String,
    pub driver_type: String,
}

impl ToValue for Driver {
    open spec fn value_model(&self) -> Json {
        Json::Object(
            seq![
                ("@name"@, Json::Str(self.name@)),
                ("@type"@, Json::Str(self.driver_type@)),
            ],
        )
    }

    fn to_value(&self) -> (r: GenericValue) {
        let mut m: Vec<(String, GenericValue)> = Vec::new();
        m.push((String::from_str("@name"), GenericValue::Str(self.name.clone())));
        m.push((String::from_str("@type"), GenericValue::Str(self.driver_type.clone())));
        assert(entries_view(m@) =~= seq![
                ("@name"@, Json::Str(self.name@)),
                ("@type"@, Json::Str(self.driver_type@)),
            ]);
        object_value(m)
    }
}

/// Where a disk's image or a network interface's bridge is.
pub struct Source {
    pub file: Option<String>,
    pub bridge: Option<String>,
}

impl ToValue for Source {
    open spec fn value_model(&self) -> Json {
        Json::Object(
            (match self.file { Some(s) => seq![("@file"@, Json::Str(s@))], None => seq![] }) + (match self.bridge { Some(s) => seq![("@bridge"@, Json::Str(s@))], None => seq![] }),
        )
    }

    fn to_value(&self) -> (r: GenericValue) {
        let mut m: Vec<(String, GenericValue)> = Vec::new();
        if let Some(s) = &self.file {
            m.push((String::from_str("@file"), GenericValue::Str(s.clone())));
        }
        if let Some(s) = &self.bridge {
            m.push((String::from_str("@bridge"), GenericValue::Str(s.clone())));
        }
        assert(entries_view(m@) =~= (match self.file { Some(s) => seq![("@file"@, Json::Str(s@))], None => seq![] }) + (match self.bridge { Some(s) => seq![("@bridge"@, Json::Str(s@))], None => seq![] }));
        object_value(m)
    }
}

/// The device name and bus that a disk appears under.
pub struct Target {
    pub dev: String,
    pub bus: String,
}

impl ToValue for Target {
    open spec fn value_model(&self) -> Json {
        Json::Object(
            seq![
                ("@dev"@, Json::Str(self.dev@)),
                ("@bus"@, Json::Str(self.bus@)),
            ],
        )
    }

    fn to_value(&self) -> (r: GenericValue) {
        let mut m: Vec<(String, GenericValue)> = Vec::new();
        m.push((String::from_str("@dev"), GenericValue::Str(self.dev.clone())));
        m.push((String::from_str("@bus"), GenericValue::Str(self.bus.clone())));
        assert(entries_view(m@) =~= seq![
                ("@dev"@, Json::Str(self.dev@)),
                ("@bus"@, Json::Str(self.bus@)),
            ]);
        object_value(m)
    }
}

/// A network interface.
pub struct Interface {
    pub interface_type: String,
    pub source: Option<Source>,
    pub model: Option<Model>,
}

impl ToValue for Interface {
    open spec fn value_model(&self) -> Json {
        Json::Object(
            seq![
                ("@type"@, Json::Str(self.interface_type@)),
                ("source"@, opt_model(self.source)),
                ("model"@, opt_model(self.model)),
            ],
        )
    }

    fn to_value(&self) -> (r: GenericValue) {
        let mut m: Vec<(String, GenericValue)> = Vec::new();
        m.push((String::from_str("@type"), GenericValue::Str(self.interface_type.clone())));
        m.push((String::from_str("source"), opt_to_value(&self.source)));
        m.push((String::from_str("model"), opt_to_value(&self.model)));
        assert(entries_view(m@) =~= seq![
                ("@type"@, Json::Str(self.interface_type@)),
                ("source"@, opt_model(self.source)),
                ("model"@, opt_model(self.model)),
            ]);
        object_value(m)
    }
}

/// The model of a network interface.
pub struct Model {
    pub model_type: String,
}

impl ToValue for Model {
    open spec fn value_model(&self) -> Json {
        Json::Object(
            seq![
                ("@type"@, Json::Str(self.model_type@)),
            ],
        )
    }

    fn to_value(&self) -> (r: GenericValue) {
        let mut m: Vec<(String, GenericValue)> = Vec::new();
        m.push((String::from_str("@type"), GenericValue::Str(self.model_type.clone())));
        assert(entries_view(m@) =~= seq![
                ("@type"@, Json::Str(self.model_type@)),
            ]);
        object_value(m)
    }
}

/// A graphical display.
pub struct Graphics {
    pub graphics_type: String,
    pub port: String,
    pub autoport: String,
}

impl ToValue for Graphics {
    open spec fn value_model(&self) -> Json {
        Json::Object(
            seq![
                ("@type"@, Json::Str(self.graphics_type@)),
                ("@port"@, Json::Str(self.port@)),
                ("@autoport"@, Json::Str(self.autoport@)),
            ],
        )
    }

    fn to_value(&self) -> (r: GenericValue) {
        let mut m: Vec<(String, GenericValue)> = Vec::new();
        m.push((String::from_str("@type"), GenericValue::Str(self.graphics_type.clone())));
        m.push((String::from_str("@port"), GenericValue::Str(self.port.clone())));
        m.push((String::from_str("@autoport"), GenericValue::Str(self.autoport.clone())));
        assert(entries_view(m@) =~= seq![
                ("@type"@, Json::Str(self.graphics_type@)),
                ("@port"@, Json::Str(self.port@)),
                ("@autoport"@, Json::Str(self.autoport@)),
            ]);
        object_value(m)
    }
}

/// An element with no content, such as the marker of a read-only disk.
pub struct Empty {
}

impl ToValue for Empty {
    open spec fn value_model(&self) -> Json {
        Json::Object(
            seq![],
        )
    }

    fn to_value(&self) -> (r: GenericValue) {
        let mut m: Vec<(String, GenericValue)> = Vec::new();
        assert(entries_view(m@) =~= seq![]);
        object_value(m)
    }
}

/// The user data of a cloud-init seed.
pub struct CloudInitUserData {
    pub hostname: String,
    pub locale: String,
    pub keyboard: Keyboard,
    pub ssh: Ssh,
    pub lock_passwd: bool,
    pub users: Vec<CloudInitUser>,
    pub ssh_pwauth: bool,
}

impl ToValue for CloudInitUserData {
    open spec fn value_model(&self) -> Json {
        Json::Object(
            seq![
                ("hostname"@, Json::Str(self.hostname@)),
                ("locale"@, Json::Str(self.locale@)),
                ("keyboard"@, self.keyboard.value_model()),
                ("ssh"@, self.ssh.value_model()),
                ("lock_passwd"@, Json::Bool(self.lock_passwd)),
                ("users"@, vec_model(self.users@)),
                ("ssh_pwauth"@, Json::Bool(self.ssh_pwauth)),
            ],
        )
    }

    fn to_value(&self) -> (r: GenericValue) {
        let mut m: Vec<(String, GenericValue)> = Vec::new();
        m.push((String::from_str("hostname"), GenericValue::Str(self.hostname.clone())));
        m.push((String::from_str("locale"), GenericValue::Str(self.locale.clone())));
        m.push((String::from_str("keyboard"), self.keyboard.to_value()));
        m.push((String::from_str("ssh"), self.ssh.to_value()));
        m.push((String::from_str("lock_passwd"), GenericValue::Bool(self.lock_passwd)));
        m.push((String::from_str("users"), vec_to_value(&self.users)));
        m.push((String::from_str("ssh_pwauth"), GenericValue::Bool(self.ssh_pwauth)));
        assert(entries_view(m@) =~= seq![
                ("hostname"@, Json::Str(self.hostname@)),
                ("locale"@, Json::Str(self.locale@)),
                ("keyboard"@, self.keyboard.value_model()),
                ("ssh"@, self.ssh.value_model()),
                ("lock_passwd"@, Json::Bool(self.lock_passwd)),
                ("users"@, vec_model(self.users@)),
                ("ssh_pwauth"@, Json::Bool(self.ssh_pwauth)),
            ]);
        object_value(m)
    }
}

/// A user account that cloud-init creates.
pub struct CloudInitUser {
    pub name: String,
    pub passwd: String,
    pub gecos: String,
    pub groups: Vec<String>,
    pub sudo: String,
    pub shell: String,
}

impl ToValue for CloudInitUser {
    open spec fn value_model(&self) -> Json {
        Json::Object(
            seq![
                ("name"@, Json::Str(self.name@)),
                ("passwd"@, Json::Str(self.passwd@)),
                ("gecos"@, Json::Str(self.gecos@)),
                ("groups"@, vec_model(self.groups@)),
                ("sudo"@, Json::Str(self.sudo@)),
                ("shell"@, Json::Str(self.shell@)),
            ],
        )
    }

    fn to_value(&self) -> (r: GenericValue) {
        let mut m: Vec<(String, GenericValue)> = Vec::new();
        m.push((String::from_str("name"), GenericValue::Str(self.name.clone())));
        m.push((String::from_str("passwd"), GenericValue::Str(self.passwd.clone())));
        m.push((String::from_str("gecos"), GenericValue::Str(self.gecos.clone())));
        m.push((String::from_str("groups"), vec_to_value(&self.groups)));
        m.push((String::from_str("sudo"), GenericValue::Str(self.sudo.clone())));
        m.push((String::from_str("shell"), GenericValue::Str(self.shell.clone())));
        assert(entries_view(m@) =~= seq![
                ("name"@, Json::Str(self.name@)),
                ("passwd"@, Json::Str(self.passwd@)),
                ("gecos"@, Json::Str(self.gecos@)),
                ("groups"@, vec_model(self.groups@)),
                ("sudo"@, Json::Str(self.sudo@)),
                ("shell"@, Json::Str(self.shell@)),
            ]);
        object_value(m)
    }
}

/// The keyboard layout of a cloud-init seed.
pub struct Keyboard {
    pub layout: String,
}

impl ToValue for Keyboard {
    open spec fn value_model(&self) -> Json {
        Json::Object(
            seq![
                ("layout"@, Json::Str(self.layout@)),
            ],
        )
    }

    fn to_value(&self) -> (r: GenericValue) {
        let mut m: Vec<(String, GenericValue)> = Vec::new();
        m.push((String::from_str("layout"), GenericValue::Str(self.layout.clone())));
        assert(entries_view(m@) =~= seq![
                ("layout"@, Json::Str(self.layout@)),
            ]);
        object_value(m)
    }
}

/// The SSH settings of a cloud-init seed.
pub struct Ssh {
    pub install_server: bool,
}

impl ToValue for Ssh {
    open spec fn value_model(&self) -> Json {
        Json::Object(
            seq![
                ("install_server"@, Json::Bool(self.install_server)),
            ],
        )
    }

    fn to_value(&self) -> (r: GenericValue) {
        let mut m: Vec<(String, GenericValue)> = Vec::new();
        m.push((String::from_str("install_server"), GenericValue::Bool(self.install_server)));
        assert(entries_view(m@) =~= seq![
                ("install_server"@, Json::Bool(self.install_server)),
            ]);
        object_value(m)
    }
}

/// The meta data of a cloud-init seed.
pub struct CloudInitMetaData {
    pub instance_id: String,
    pub local_hostname: String,
}

impl ToValue for CloudInitMetaData {
    open spec fn value_model(&self) -> Json {
        Json::Object(
            seq![
                ("instance_id"@, Json::Str(self.instance_id@)),
                ("local_hostname"@, Json::Str(self.local_hostname@)),
            ],
        )
    }

    fn to_value(&self) -> (r: GenericValue) {
        let mut m: Vec<(String, GenericValue)> = Vec::new();
        m.push((String::from_str("instance_id"), GenericValue::Str(self.instance_id.clone())));
        m.push((String::from_str("local_hostname"), GenericValue::Str(self.local_hostname.clone())));
        assert(entries_view(m@) =~= seq![
                ("instance_id"@, Json::Str(self.instance_id@)),
                ("local_hostname"@, Json::Str(self.local_hostname@)),
            ]);
        object_value(m)
    }
}
impl FromValue for DomainConfig {
    open spec fn accepts(v: Json) -> bool {
        v is Object
            && required_ok::<String>(v->Object_0, "@type"@)
            && required_ok::<String>(v->Object_0, "name"@)
            && required_ok::<String>(v->Object_0, "uuid"@)
            && optional_ok::<Os>(v->Object_0, "os"@)
            && optional_ok::<Memory>(v->Object_0, "memory"@)
            && optional_ok::<Memory>(v->Object_0, "currentMemory"@)
            && optional_ok::<Vcpu>(v->Object_0, "vcpu"@)
            && optional_ok::<Devices>(v->Object_0, "devices"@)
    }

    open spec fn read_as(v: Json, r: DomainConfig) -> bool {
        required_is::<String>(v->Object_0, "@type"@, r.domain_type)
            && required_is::<String>(v->Object_0, "name"@, r.name)
            && required_is::<String>(v->Object_0, "uuid"@, r.uuid)
            && optional_is::<Os>(v->Object_0, "os"@, r.os)
            && optional_is::<Memory>(v->Object_0, "memory"@, r.memory)
            && optional_is::<Memory>(v->Object_0, "currentMemory"@, r.current_memory)
            && optional_is::<Vcpu>(v->Object_0, "vcpu"@, r.vcpu)
            && optional_is::<Devices>(v->Object_0, "devices"@, r.devices)
    }

    open spec fn missing(v: Json) -> bool {
        v is Object && ((!required_ok::<String>(v->Object_0, "@type"@) && required_missing::<String>(v->Object_0, "@type"@))
            || (required_ok::<String>(v->Object_0, "@type"@)
                && ((!required_ok::<String>(v->Object_0, "name"@) && required_missing::<String>(v->Object_0, "name"@))
                    || (required_ok::<String>(v->Object_0, "name"@)
                        && ((!required_ok::<String>(v->Object_0, "uuid"@) && required_missing::<String>(v->Object_0, "uuid"@))
                            || (required_ok::<String>(v->Object_0, "uuid"@)
                                && ((!optional_ok::<Os>(v->Object_0, "os"@) && optional_missing::<Os>(v->Object_0, "os"@))
                                    || (optional_ok::<Os>(v->Object_0, "os"@)
                                        && ((!optional_ok::<Memory>(v->Object_0, "memory"@) && optional_missing::<Memory>(v->Object_0, "memory"@))
                                            || (optional_ok::<Memory>(v->Object_0, "memory"@)
                                                && ((!optional_ok::<Memory>(v->Object_0, "currentMemory"@) && optional_missing::<Memory>(v->Object_0, "currentMemory"@))
                                                    || (optional_ok::<Memory>(v->Object_0, "currentMemory"@)
                                                        && ((!optional_ok::<Vcpu>(v->Object_0, "vcpu"@) && optional_missing::<Vcpu>(v->Object_0, "vcpu"@))
                                                            || (optional_ok::<Vcpu>(v->Object_0, "vcpu"@)
                                                                && ((!optional_ok::<Devices>(v->Object_0, "devices"@) && optional_missing::<Devices>(v->Object_0, "devices"@)))))))))))))))))
    }

    open spec fn names(k: Seq<char>) -> bool {
        k == "@type"@ || k == "name"@ || k == "uuid"@ || k == "os"@ || k == "memory"@ || k == "currentMemory"@ || k == "vcpu"@ || k == "devices"@
    }

    proof fn lemma_ignores_unknown(m: Seq<(Seq<char>, Json)>, i: int, k: Seq<char>, x: Json) {
        lemma_field_insert(m, i, k, x, "@type"@);
        lemma_field_insert(m, i, k, x, "name"@);
        lemma_field_insert(m, i, k, x, "uuid"@);
        lemma_field_insert(m, i, k, x, "os"@);
        lemma_field_insert(m, i, k, x, "memory"@);
        lemma_field_insert(m, i, k, x, "currentMemory"@);
        lemma_field_insert(m, i, k, x, "vcpu"@);
        lemma_field_insert(m, i, k, x, "devices"@);
    }

    fn from_value(v: &GenericValue) -> (r: Result<DomainConfig, MappingError>) {
        let m = match v {
            GenericValue::Object(m) => m,
            _ => {
                return Err(MappingError::TypeMismatch(String::from_str("expected an object for DomainConfig")));
            },
        };
        proof {
            lemma_object_view(*m);
        }
        let domain_type = match required::<String>(m, "@type") {
            Ok(x) => x,
            Err(e) => {
                return Err(e);
            },
        };
        let name = match required::<String>(m, "name") {
            Ok(x) => x,
            Err(e) => {
                return Err(e);
            },
        };
        let uuid = match required::<String>(m, "uuid") {
            Ok(x) => x,
            Err(e) => {
                return Err(e);
            },
        };
        let os = match optional::<Os>(m, "os") {
            Ok(x) => x,
            Err(e) => {
                return Err(e);
            },
        };
        let memory = match optional::<Memory>(m, "memory") {
            Ok(x) => x,
            Err(e) => {
                return Err(e);
            },
        };
        let current_memory = match optional::<Memory>(m, "currentMemory") {
            Ok(x) => x,
            Err(e) => {
                return Err(e);
            },
        };
        let vcpu = match optional::<Vcpu>(m, "vcpu") {
            Ok(x) => x,
            Err(e) => {
                return Err(e);
            },
        };
        let devices = match optional::<Devices>(m, "devices") {
            Ok(x) => x,
            Err(e) => {
                return Err(e);
            },
        };
        Ok(DomainConfig { domain_type, name, uuid, os, memory, current_memory, vcpu, devices })
    }
}

impl FromValue for Os {
    open spec fn accepts(v: Json) -> bool {
        v is Object
            && required_ok::<OsType>(v->Object_0, "type"@)
            && required_ok::<Vec<Boot>>(v->Object_0, "boot"@)
    }

    open spec fn read_as(v: Json, r: Os) -> bool {
        required_is::<OsType>(v->Object_0, "type"@, r.os_type)
            && required_is::<Vec<Boot>>(v->Object_0, "boot"@, r.boot)
    }

    open spec fn missing(v: Json) -> bool {
        v is Object && ((!required_ok::<OsType>(v->Object_0, "type"@) && required_missing::<OsType>(v->Object_0, "type"@))
            || (required_ok::<OsType>(v->Object_0, "type"@)
                && ((!required_ok::<Vec<Boot>>(v->Object_0, "boot"@) && required_missing::<Vec<Boot>>(v->Object_0, "boot"@)))))
    }

    open spec fn names(k: Seq<char>) -> bool {
        k == "type"@ || k == "boot"@
    }

    proof fn lemma_ignores_unknown(m: Seq<(Seq<char>, Json)>, i: int, k: Seq<char>, x: Json) {
        lemma_field_insert(m, i, k, x, "type"@);
        lemma_field_insert(m, i, k, x, "boot"@);
    }

    fn from_value(v: &GenericValue) -> (r: Result<Os, MappingError>) {
        let m = match v {
            GenericValue::Object(m) => m,
            _ => {
                return Err(MappingError::TypeMismatch(String::from_str("expected an object for Os")));
            },
        };
        proof {
            lemma_object_view(*m);
        }
        let os_type = match required::<OsType>(m, "type") {
            Ok(x) => x,
            Err(e) => {
                return Err(e);
            },
        };
        let boot = match required::<Vec<Boot>>(m, "boot") {
            Ok(x) => x,
            Err(e) => {
                return Err(e);
            },
        };
        Ok(Os { os_type, boot })
    }
}

impl FromValue for OsType {
    open spec fn accepts(v: Json) -> bool {
        v is Object
            && required_ok::<String>(v->Object_0, "@arch"@)
            && required_ok::<String>(v->Object_0, "@machine"@)
            && required_ok::<String>(v->Object_0, "#text"@)
    }

    open spec fn read_as(v: Json, r: OsType) -> bool {
        required_is::<String>(v->Object_0, "@arch"@, r.arch)
            && required_is::<String>(v->Object_0, "@machine"@, r.machine)
            && required_is::<String>(v->Object_0, "#text"@, r.text)
    }

    open spec fn missing(v: Json) -> bool {
        v is Object && ((!required_ok::<String>(v->Object_0, "@arch"@) && required_missing::<String>(v->Object_0, "@arch"@))
            || (required_ok::<String>(v->Object_0, "@arch"@)
                && ((!required_ok::<String>(v->Object_0, "@machine"@) && required_missing::<String>(v->Object_0, "@machine"@))
                    || (required_ok::<String>(v->Object_0, "@machine"@)
                        && ((!required_ok::<String>(v->Object_0, "#text"@) && required_missing::<String>(v->Object_0, "#text"@)))))))
    }

    open spec fn names(k: Seq<char>) -> bool {
        k == "@arch"@ || k == "@machine"@ || k == "#text"@
    }

    proof fn lemma_ignores_unknown(m: Seq<(Seq<char>, Json)>, i: int, k: Seq<char>, x: Json) {
        lemma_field_insert(m, i, k, x, "@arch"@);
        lemma_field_insert(m, i, k, x, "@machine"@);
        lemma_field_insert(m, i, k, x, "#text"@);
    }

    fn from_value(v: &GenericValue) -> (r: Result<OsType, MappingError>) {
        let m = match v {
            GenericValue::Object(m) => m,
            _ => {
                return Err(MappingError::TypeMismatch(String::from_str("expected an object for OsType")));
            },
        };
        proof {
            lemma_object_view(*m);
        }
        let arch = match required::<String>(m, "@arch") {
            Ok(x) => x,
            Err(e) => {
                return Err(e);
            },
        };
        let machine = match required::<String>(m, "@machine") {
            Ok(x) => x,
            Err(e) => {
                return Err(e);
            },
        };
        let text = match required::<String>(m, "#text") {
            Ok(x) => x,
            Err(e) => {
                return Err(e);
            },
        };
        Ok(OsType { arch, machine, text })
    }
}

impl FromValue for Boot {
    open spec fn accepts(v: Json) -> bool {
        v is Object
            && required_ok::<String>(v->Object_0, "@dev"@)
    }

    open spec fn read_as(v: Json, r: Boot) -> bool {
        required_is::<String>(v->Object_0, "@dev"@, r.dev)
    }

    open spec fn missing(v: Json) -> bool {
        v is Object && ((!required_ok::<String>(v->Object_0, "@dev"@) && required_missing::<String>(v->Object_0, "@dev"@)))
    }

    open spec fn names(k: Seq<char>) -> bool {
        k == "@dev"@
    }

    proof fn lemma_ignores_unknown(m: Seq<(Seq<char>, Json)>, i: int, k: Seq<char>, x: Json) {
        lemma_field_insert(m, i, k, x, "@dev"@);
    }

    fn from_value(v: &GenericValue) -> (r: Result<Boot, MappingError>) {
        let m = match v {
            GenericValue::Object(m) => m,
            _ => {
                return Err(MappingError::TypeMismatch(String::from_str("expected an object for Boot")));
            },
        };
        proof {
            lemma_object_view(*m);
        }
        let dev = match required::<String>(m, "@dev") {
            Ok(x) => x,
            Err(e) => {
                return Err(e);
            },
        };
        Ok(Boot { dev })
    }
}

impl FromValue for Memory {
    open spec fn accepts(v: Json) -> bool {
        v is Object
            && required_ok::<String>(v->Object_0, "@unit"@)
            && required_ok::<String>(v->Object_0, "#text"@)
    }

    open spec fn read_as(v: Json, r: Memory) -> bool {
        required_is::<String>(v->Object_0, "@unit"@, r.unit)
            && required_is::<String>(v->Object_0, "#text"@, r.value)
    }

    open spec fn missing(v: Json) -> bool {
        v is Object && ((!required_ok::<String>(v->Object_0, "@unit"@) && required_missing::<String>(v->Object_0, "@unit"@))
            || (required_ok::<String>(v->Object_0, "@unit"@)
                && ((!required_ok::<String>(v->Object_0, "#text"@) && required_missing::<String>(v->Object_0, "#text"@)))))
    }

    open spec fn names(k: Seq<char>) -> bool {
        k == "@unit"@ || k == "#text"@
    }

    proof fn lemma_ignores_unknown(m: Seq<(Seq<char>, Json)>, i: int, k: Seq<char>, x: Json) {
        lemma_field_insert(m, i, k, x, "@unit"@);
        lemma_field_insert(m, i, k, x, "#text"@);
    }

    fn from_value(v: &GenericValue) -> (r: Result<Memory, MappingError>) {
        let m = match v {
            GenericValue::Object(m) => m,
            _ => {
                return Err(MappingError::TypeMismatch(String::from_str("expected an object for Memory")));
            },
        };
        proof {
            lemma_object_view(*m);
        }
        let unit = match required::<String>(m, "@unit") {
            Ok(x) => x,
            Err(e) => {
                return Err(e);
            },
        };
        let value = match required::<String>(m, "#text") {
            Ok(x) => x,
            Err(e) => {
                return Err(e);
            },
        };
        Ok(Memory { unit, value })
    }
}

impl FromValue for Vcpu {
    open spec fn accepts(v: Json) -> bool {
        v is Object
            && required_ok::<String>(v->Object_0, "@placement"@)
            && required_ok::<String>(v->Object_0, "#text"@)
    }

    open spec fn read_as(v: Json, r: Vcpu) -> bool {
        required_is::<String>(v->Object_0, "@placement"@, r.placement)
            && required_is::<String>(v->Object_0, "#text"@, r.value)
    }

    open spec fn missing(v: Json) -> bool {
        v is Object && ((!required_ok::<String>(v->Object_0, "@placement"@) && required_missing::<String>(v->Object_0, "@placement"@))
            || (required_ok::<String>(v->Object_0, "@placement"@)
                && ((!required_ok::<String>(v->Object_0, "#text"@) && required_missing::<String>(v->Object_0, "#text"@)))))
    }

    open spec fn names(k: Seq<char>) -> bool {
        k == "@placement"@ || k == "#text"@
    }

    proof fn lemma_ignores_unknown(m: Seq<(Seq<char>, Json)>, i: int, k: Seq<char>, x: Json) {
        lemma_field_insert(m, i, k, x, "@placement"@);
        lemma_field_insert(m, i, k, x, "#text"@);
    }

    fn from_value(v: &GenericValue) -> (r: Result<Vcpu, MappingError>) {
        let m = match v {
            GenericValue::Object(m) => m,
            _ => {
                return Err(MappingError::TypeMismatch(String::from_str("expected an object for Vcpu")));
            },
        };
        proof {
            lemma_object_view(*m);
        }
        let placement = match required::<String>(m, "@placement") {
            Ok(x) => x,
            Err(e) => {
                return Err(e);
            },
        };
        let value = match required::<String>(m, "#text") {
            Ok(x) => x,
            Err(e) => {
                return Err(e);
            },
        };
        Ok(Vcpu { placement, value })
    }
}

impl FromValue for Devices {
    open spec fn accepts(v: Json) -> bool {
        v is Object
            && required_ok::<Vec<Disk>>(v->Object_0, "disk"@)
            && optional_ok::<Interface>(v->Object_0, "interface"@)
            && optional_ok::<Graphics>(v->Object_0, "graphics"@)
            && optional_ok::<Console>(v->Object_0, "console"@)
            && optional_ok::<Serial>(v->Object_0, "serial"@)
    }

    open spec fn read_as(v: Json, r: Devices) -> bool {
        required_is::<Vec<Disk>>(v->Object_0, "disk"@, r.disk)
            && optional_is::<Interface>(v->Object_0, "interface"@, r.interface)
            && optional_is::<Graphics>(v->Object_0, "graphics"@, r.graphics)
            && optional_is::<Console>(v->Object_0, "console"@, r.console)
            && optional_is::<Serial>(v->Object_0, "serial"@, r.serial)
    }

    open spec fn missing(v: Json) -> bool {
        v is Object && ((!required_ok::<Vec<Disk>>(v->Object_0, "disk"@) && required_missing::<Vec<Disk>>(v->Object_0, "disk"@))
            || (required_ok::<Vec<Disk>>(v->Object_0, "disk"@)
                && ((!optional_ok::<Interface>(v->Object_0, "interface"@) && optional_missing::<Interface>(v->Object_0, "interface"@))
                    || (optional_ok::<Interface>(v->Object_0, "interface"@)
                        && ((!optional_ok::<Graphics>(v->Object_0, "graphics"@) && optional_missing::<Graphics>(v->Object_0, "graphics"@))
                            || (optional_ok::<Graphics>(v->Object_0, "graphics"@)
                                && ((!optional_ok::<Console>(v->Object_0, "console"@) && optional_missing::<Console>(v->Object_0, "console"@))
                                    || (optional_ok::<Console>(v->Object_0, "console"@)
                                        && ((!optional_ok::<Serial>(v->Object_0, "serial"@) && optional_missing::<Serial>(v->Object_0, "serial"@)))))))))))
    }

    open spec fn names(k: Seq<char>) -> bool {
        k == "disk"@ || k == "interface"@ || k == "graphics"@ || k == "console"@ || k == "serial"@
    }

    proof fn lemma_ignores_unknown(m: Seq<(Seq<char>, Json)>, i: int, k: Seq<char>, x: Json) {
        lemma_field_insert(m, i, k, x, "disk"@);
        lemma_field_insert(m, i, k, x, "interface"@);
        lemma_field_insert(m, i, k, x, "graphics"@);
        lemma_field_insert(m, i, k, x, "console"@);
        lemma_field_insert(m, i, k, x, "serial"@);
    }

    fn from_value(v: &GenericValue) -> (r: Result<Devices, MappingError>) {
        let m = match v {
            GenericValue::Object(m) => m,
            _ => {
                return Err(MappingError::TypeMismatch(String::from_str("expected an object for Devices")));
            },
        };
        proof {
            lemma_object_view(*m);
        }
        let disk = match required::<Vec<Disk>>(m, "disk") {
            Ok(x) => x,
            Err(e) => {
                return Err(e);
            },
        };
        let interface = match optional::<Interface>(m, "interface") {
            Ok(x) => x,
            Err(e) => {
                return Err(e);
            },
        };
        let graphics = match optional::<Graphics>(m, "graphics") {
            Ok(x) => x,
            Err(e) => {
                return Err(e);
            },
        };
        let console = match optional::<Console>(m, "console") {
            Ok(x) => x,
            Err(e) => {
                return Err(e);
            },
        };
        let serial = match optional::<Serial>(m, "serial") {
            Ok(x) => x,
            Err(e) => {
                return Err(e);
            },
        };
        Ok(Devices { disk, interface, graphics, console, serial })
    }
}

impl FromValue for Console {
    open spec fn accepts(v: Json) -> bool {
        v is Object
            && required_ok::<String>(v->Object_0, "@type"@)
            && optional_ok::<ConsoleTarget>(v->Object_0, "target"@)
    }

    open spec fn read_as(v: Json, r: Console) -> bool {
        required_is::<String>(v->Object_0, "@type"@, r.console_type)
            && optional_is::<ConsoleTarget>(v->Object_0, "target"@, r.target)
    }

    open spec fn missing(v: Json) -> bool {
        v is Object && ((!required_ok::<String>(v->Object_0, "@type"@) && required_missing::<String>(v->Object_0, "@type"@))
            || (required_ok::<String>(v->Object_0, "@type"@)
                && ((!optional_ok::<ConsoleTarget>(v->Object_0, "target"@) && optional_missing::<ConsoleTarget>(v->Object_0, "target"@)))))
    }

    open spec fn names(k: Seq<char>) -> bool {
        k == "@type"@ || k == "target"@
    }

    proof fn lemma_ignores_unknown(m: Seq<(Seq<char>, Json)>, i: int, k: Seq<char>, x: Json) {
        lemma_field_insert(m, i, k, x, "@type"@);
        lemma_field_insert(m, i, k, x, "target"@);
    }

    fn from_value(v: &GenericValue) -> (r: Result<Console, MappingError>) {
        let m = match v {
            GenericValue::Object(m) => m,
            _ => {
                return Err(MappingError::TypeMismatch(String::from_str("expected an object for Console")));
            },
        };
        proof {
            lemma_object_view(*m);
        }
        let console_type = match required::<String>(m, "@type") {
            Ok(x) => x,
            Err(e) => {
                return Err(e);
            },
        };
        let target = match optional::<ConsoleTarget>(m, "target") {
            Ok(x) => x,
            Err(e) => {
                return Err(e);
            },
        };
        Ok(Console { console_type, target })
    }
}

impl FromValue for Serial {
    open spec fn accepts(v: Json) -> bool {
        v is Object
            && required_ok::<String>(v->Object_0, "@type"@)
            && optional_ok::<SerialTarget>(v->Object_0, "target"@)
    }

    open spec fn read_as(v: Json, r: Serial) -> bool {
        required_is::<String>(v->Object_0, "@type"@, r.serial_type)
            && optional_is::<SerialTarget>(v->Object_0, "target"@, r.target)
    }

    open spec fn missing(v: Json) -> bool {
        v is Object && ((!required_ok::<String>(v->Object_0, "@type"@) && required_missing::<String>(v->Object_0, "@type"@))
            || (required_ok::<String>(v->Object_0, "@type"@)
                && ((!optional_ok::<SerialTarget>(v->Object_0, "target"@) && optional_missing::<SerialTarget>(v->Object_0, "target"@)))))
    }

    open spec fn names(k: Seq<char>) -> bool {
        k == "@type"@ || k == "target"@
    }

    proof fn lemma_ignores_unknown(m: Seq<(Seq<char>, Json)>, i: int, k: Seq<char>, x: Json) {
        lemma_field_insert(m, i, k, x, "@type"@);
        lemma_field_insert(m, i, k, x, "target"@);
    }

    fn from_value(v: &GenericValue) -> (r: Result<Serial, MappingError>) {
        let m = match v {
            GenericValue::Object(m) => m,
            _ => {
                return Err(MappingError::TypeMismatch(String::from_str("expected an object for Serial")));
            },
        };
        proof {
            lemma_object_view(*m);
        }
        let serial_type = match required::<String>(m, "@type") {
            Ok(x) => x,
            Err(e) => {
                return Err(e);
            },
        };
        let target = match optional::<SerialTarget>(m, "target") {
            Ok(x) => x,
            Err(e) => {
                return Err(e);
            },
        };
        Ok(Serial { serial_type, target })
    }
}

impl FromValue for ConsoleTarget {
    open spec fn accepts(v: Json) -> bool {
        v is Object
            && required_ok::<String>(v->Object_0, "@type"@)
            && required_ok::<String>(v->Object_0, "@port"@)
    }

    open spec fn read_as(v: Json, r: ConsoleTarget) -> bool {
        required_is::<String>(v->Object_0, "@type"@, r.type_)
            && required_is::<String>(v->Object_0, "@port"@, r.port)
    }

    open spec fn missing(v: Json) -> bool {
        v is Object && ((!required_ok::<String>(v->Object_0, "@type"@) && required_missing::<String>(v->Object_0, "@type"@))
            || (required_ok::<String>(v->Object_0, "@type"@)
                && ((!required_ok::<String>(v->Object_0, "@port"@) && required_missing::<String>(v->Object_0, "@port"@)))))
    }

    open spec fn names(k: Seq<char>) -> bool {
        k == "@type"@ || k == "@port"@
    }

    proof fn lemma_ignores_unknown(m: Seq<(Seq<char>, Json)>, i: int, k: Seq<char>, x: Json) {
        lemma_field_insert(m, i, k, x, "@type"@);
        lemma_field_insert(m, i, k, x, "@port"@);
    }

    fn from_value(v: &GenericValue) -> (r: Result<ConsoleTarget, MappingError>) {
        let m = match v {
            GenericValue::Object(m) => m,
            _ => {
                return Err(MappingError::TypeMismatch(String::from_str("expected an object for ConsoleTarget")));
            },
        };
        proof {
            lemma_object_view(*m);
        }
        let type_ = match required::<String>(m, "@type") {
            Ok(x) => x,
            Err(e) => {
                return Err(e);
            },
        };
        let port = match required::<String>(m, "@port") {
            Ok(x) => x,
            Err(e) => {
                return Err(e);
            },
        };
        Ok(ConsoleTarget { type_, port })
    }
}

impl FromValue for SerialTarget {
    open spec fn accepts(v: Json) -> bool {
        v is Object
            && required_ok::<String>(v->Object_0, "@type"@)
            && required_ok::<String>(v->Object_0, "@port"@)
    }

    open spec fn read_as(v: Json, r: SerialTarget) -> bool {
        required_is::<String>(v->Object_0, "@type"@, r.type_)
            && required_is::<String>(v->Object_0, "@port"@, r.port)
    }

    open spec fn missing(v: Json) -> bool {
        v is Object && ((!required_ok::<String>(v->Object_0, "@type"@) && required_missing::<String>(v->Object_0, "@type"@))
            || (required_ok::<String>(v->Object_0, "@type"@)
                && ((!required_ok::<String>(v->Object_0, "@port"@) && required_missing::<String>(v->Object_0, "@port"@)))))
    }

    open spec fn names(k: Seq<char>) -> bool {
        k == "@type"@ || k == "@port"@
    }

    proof fn lemma_ignores_unknown(m: Seq<(Seq<char>, Json)>, i: int, k: Seq<char>, x: Json) {
        lemma_field_insert(m, i, k, x, "@type"@);
        lemma_field_insert(m, i, k, x, "@port"@);
    }

    fn from_value(v: &GenericValue) -> (r: Result<SerialTarget, MappingError>) {
        let m = match v {
            GenericValue::Object(m) => m,
            _ => {
                return Err(MappingError::TypeMismatch(String::from_str("expected an object for SerialTarget")));
            },
        };
        proof {
            lemma_object_view(*m);
        }
        let type_ = match required::<String>(m, "@type") {
            Ok(x) => x,
            Err(e) => {
                return Err(e);
            },
        };
        let port = match required::<String>(m, "@port") {
            Ok(x) => x,
            Err(e) => {
                return Err(e);
            },
        };
        Ok(SerialTarget { type_, port })
    }
}

impl FromValue for Disk {
    open spec fn accepts(v: Json) -> bool {
        v is Object
            && required_ok::<String>(v->Object_0, "@type"@)
            && required_ok::<String>(v->Object_0, "@device"@)
            && optional_ok::<Driver>(v->Object_0, "driver"@)
            && optional_ok::<Source>(v->Object_0, "source"@)
            && optional_ok::<Target>(v->Object_0, "target"@)
            && optional_ok::<Empty>(v->Object_0, "readonly"@)
    }

    open spec fn read_as(v: Json, r: Disk) -> bool {
        required_is::<String>(v->Object_0, "@type"@, r.disk_type)
            && required_is::<String>(v->Object_0, "@device"@, r.device)
            && optional_is::<Driver>(v->Object_0, "driver"@, r.driver)
            && optional_is::<Source>(v->Object_0, "source"@, r.source)
            && optional_is::<Target>(v->Object_0, "target"@, r.target)
            && optional_is::<Empty>(v->Object_0, "readonly"@, r.readonly)
    }

    open spec fn missing(v: Json) -> bool {
        v is Object && ((!required_ok::<String>(v->Object_0, "@type"@) && required_missing::<String>(v->Object_0, "@type"@))
            || (required_ok::<String>(v->Object_0, "@type"@)
                && ((!required_ok::<String>(v->Object_0, "@device"@) && required_missing::<String>(v->Object_0, "@device"@))
                    || (required_ok::<String>(v->Object_0, "@device"@)
                        && ((!optional_ok::<Driver>(v->Object_0, "driver"@) && optional_missing::<Driver>(v->Object_0, "driver"@))
                            || (optional_ok::<Driver>(v->Object_0, "driver"@)
                                && ((!optional_ok::<Source>(v->Object_0, "source"@) && optional_missing::<Source>(v->Object_0, "source"@))
                                    || (optional_ok::<Source>(v->Object_0, "source"@)
                                        && ((!optional_ok::<Target>(v->Object_0, "target"@) && optional_missing::<Target>(v->Object_0, "target"@))
                                            || (optional_ok::<Target>(v->Object_0, "target"@)
                                                && ((!optional_ok::<Empty>(v->Object_0, "readonly"@) && optional_missing::<Empty>(v->Object_0, "readonly"@)))))))))))))
    }

    open spec fn names(k: Seq<char>) -> bool {
        k == "@type"@ || k == "@device"@ || k == "driver"@ || k == "source"@ || k == "target"@ || k == "readonly"@
    }

    proof fn lemma_ignores_unknown(m: Seq<(Seq<char>, Json)>, i: int, k: Seq<char>, x: Json) {
        lemma_field_insert(m, i, k, x, "@type"@);
        lemma_field_insert(m, i, k, x, "@device"@);
        lemma_field_insert(m, i, k, x, "driver"@);
        lemma_field_insert(m, i, k, x, "source"@);
        lemma_field_insert(m, i, k, x, "target"@);
        lemma_field_insert(m, i, k, x, "readonly"@);
    }

    fn from_value(v: &GenericValue) -> (r: Result<Disk, MappingError>) {
        let m = match v {
            GenericValue::Object(m) => m,
            _ => {
                return Err(MappingError::TypeMismatch(String::from_str("expected an object for Disk")));
            },
        };
        proof {
            lemma_object_view(*m);
        }
        let disk_type = match required::<String>(m, "@type") {
            Ok(x) => x,
            Err(e) => {
                return Err(e);
            },
        };
        let device = match required::<String>(m, "@device") {
            Ok(x) => x,
            Err(e) => {
                return Err(e);
            },
        };
        let driver = match optional::<Driver>(m, "driver") {
            Ok(x) => x,
            Err(e) => {
                return Err(e);
            },
        };
        let source = match optional::<Source>(m, "source") {
            Ok(x) => x,
            Err(e) => {
                return Err(e);
            },
        };
        let target = match optional::<Target>(m, "target") {
            Ok(x) => x,
            Err(e) => {
                return Err(e);
            },
        };
        let readonly = match optional::<Empty>(m, "readonly") {
            Ok(x) => x,
            Err(e) => {
                return Err(e);
            },
        };
        Ok(Disk { disk_type, device, driver, source, target, readonly })
    }
}

impl FromValue for Driver {
    open spec fn accepts(v: Json) -> bool {
        v is Object
            && required_ok::<String>(v->Object_0, "@name"@)
            && required_ok::<String>(v->Object_0, "@type"@)
    }

    open spec fn read_as(v: Json, r: Driver) -> bool {
        required_is::<String>(v->Object_0, "@name"@, r.name)
            && required_is::<String>(v->Object_0, "@type"@, r.driver_type)
    }

    open spec fn missing(v: Json) -> bool {
        v is Object && ((!required_ok::<String>(v->Object_0, "@name"@) && required_missing::<String>(v->Object_0, "@name"@))
            || (required_ok::<String>(v->Object_0, "@name"@)
                && ((!required_ok::<String>(v->Object_0, "@type"@) && required_missing::<String>(v->Object_0, "@type"@)))))
    }

    open spec fn names(k: Seq<char>) -> bool {
        k == "@name"@ || k == "@type"@
    }

    proof fn lemma_ignores_unknown(m: Seq<(Seq<char>, Json)>, i: int, k: Seq<char>, x: Json) {
        lemma_field_insert(m, i, k, x, "@name"@);
        lemma_field_insert(m, i, k, x, "@type"@);
    }

    fn from_value(v: &GenericValue) -> (r: Result<Driver, MappingError>) {
        let m = match v {
            GenericValue::Object(m) => m,
            _ => {
                return Err(MappingError::TypeMismatch(String::from_str("expected an object for Driver")));
            },
        };
        proof {
            lemma_object_view(*m);
        }
        let name = match required::<String>(m, "@name") {
            Ok(x) => x,
            Err(e) => {
                return Err(e);
            },
        };
        let driver_type = match required::<String>(m, "@type") {
            Ok(x) => x,
            Err(e) => {
                return Err(e);
            },
        };
        Ok(Driver { name, driver_type })
    }
}

impl FromValue for Source {
    open spec fn accepts(v: Json) -> bool {
        v is Object
            && optional_ok::<String>(v->Object_0, "@file"@)
            && optional_ok::<String>(v->Object_0, "@bridge"@)
    }

    open spec fn read_as(v: Json, r: Source) -> bool {
        optional_is::<String>(v->Object_0, "@file"@, r.file)
            && optional_is::<String>(v->Object_0, "@bridge"@, r.bridge)
    }

    open spec fn missing(v: Json) -> bool {
        v is Object && ((!optional_ok::<String>(v->Object_0, "@file"@) && optional_missing::<String>(v->Object_0, "@file"@))
            || (optional_ok::<String>(v->Object_0, "@file"@)
                && ((!optional_ok::<String>(v->Object_0, "@bridge"@) && optional_missing::<String>(v->Object_0, "@bridge"@)))))
    }

    open spec fn names(k: Seq<char>) -> bool {
        k == "@file"@ || k == "@bridge"@
    }

    proof fn lemma_ignores_unknown(m: Seq<(Seq<char>, Json)>, i: int, k: Seq<char>, x: Json) {
        lemma_field_insert(m, i, k, x, "@file"@);
        lemma_field_insert(m, i, k, x, "@bridge"@);
    }

    fn from_value(v: &GenericValue) -> (r: Result<Source, MappingError>) {
        let m = match v {
            GenericValue::Object(m) => m,
            _ => {
                return Err(MappingError::TypeMismatch(String::from_str("expected an object for Source")));
            },
        };
        proof {
            lemma_object_view(*m);
        }
        let file = match optional::<String>(m, "@file") {
            Ok(x) => x,
            Err(e) => {
                return Err(e);
            },
        };
        let bridge = match optional::<String>(m, "@bridge") {
            Ok(x) => x,
            Err(e) => {
                return Err(e);
            },
        };
        Ok(Source { file, bridge })
    }
}

impl FromValue for Target {
    open spec fn accepts(v: Json) -> bool {
        v is Object
            && required_ok::<String>(v->Object_0, "@dev"@)
            && required_ok::<String>(v->Object_0, "@bus"@)
    }

    open spec fn read_as(v: Json, r: Target) -> bool {
        required_is::<String>(v->Object_0, "@dev"@, r.dev)
            && required_is::<String>(v->Object_0, "@bus"@, r.bus)
    }

    open spec fn missing(v: Json) -> bool {
        v is Object && ((!required_ok::<String>(v->Object_0, "@dev"@) && required_missing::<String>(v->Object_0, "@dev"@))
            || (required_ok::<String>(v->Object_0, "@dev"@)
                && ((!required_ok::<String>(v->Object_0, "@bus"@) && required_missing::<String>(v->Object_0, "@bus"@)))))
    }

    open spec fn names(k: Seq<char>) -> bool {
        k == "@dev"@ || k == "@bus"@
    }

    proof fn lemma_ignores_unknown(m: Seq<(Seq<char>, Json)>, i: int, k: Seq<char>, x: Json) {
        lemma_field_insert(m, i, k, x, "@dev"@);
        lemma_field_insert(m, i, k, x, "@bus"@);
    }

    fn from_value(v: &GenericValue) -> (r: Result<Target, MappingError>) {
        let m = match v {
            GenericValue::Object(m) => m,
            _ => {
                return Err(MappingError::TypeMismatch(String::from_str("expected an object for Target")));
            },
        };
        proof {
            lemma_object_view(*m);
        }
        let dev = match required::<String>(m, "@dev") {
            Ok(x) => x,
            Err(e) => {
                return Err(e);
            },
        };
        let bus = match required::<String>(m, "@bus") {
            Ok(x) => x,
            Err(e) => {
                return Err(e);
            },
        };
        Ok(Target { dev, bus })
    }
}

impl FromValue for Interface {
    open spec fn accepts(v: Json) -> bool {
        v is Object
            && required_ok::<String>(v->Object_0, "@type"@)
            && optional_ok::<Source>(v->Object_0, "source"@)
            && optional_ok::<Model>(v->Object_0, "model"@)
    }

    open spec fn read_as(v: Json, r: Interface) -> bool {
        required_is::<String>(v->Object_0, "@type"@, r.interface_type)
            && optional_is::<Source>(v->Object_0, "source"@, r.source)
            && optional_is::<Model>(v->Object_0, "model"@, r.model)
    }

    open spec fn missing(v: Json) -> bool {
        v is Object && ((!required_ok::<String>(v->Object_0, "@type"@) && required_missing::<String>(v->Object_0, "@type"@))
            || (required_ok::<String>(v->Object_0, "@type"@)
                && ((!optional_ok::<Source>(v->Object_0, "source"@) && optional_missing::<Source>(v->Object_0, "source"@))
                    || (optional_ok::<Source>(v->Object_0, "source"@)
                        && ((!optional_ok::<Model>(v->Object_0, "model"@) && optional_missing::<Model>(v->Object_0, "model"@)))))))
    }

    open spec fn names(k: Seq<char>) -> bool {
        k == "@type"@ || k == "source"@ || k == "model"@
    }

    proof fn lemma_ignores_unknown(m: Seq<(Seq<char>, Json)>, i: int, k: Seq<char>, x: Json) {
        lemma_field_insert(m, i, k, x, "@type"@);
        lemma_field_insert(m, i, k, x, "source"@);
        lemma_field_insert(m, i, k, x, "model"@);
    }

    fn from_value(v: &GenericValue) -> (r: Result<Interface, MappingError>) {
        let m = match v {
            GenericValue::Object(m) => m,
            _ => {
                return Err(MappingError::TypeMismatch(String::from_str("expected an object for Interface")));
            },
        };
        proof {
            lemma_object_view(*m);
        }
        let interface_type = match required::<String>(m, "@type") {
            Ok(x) => x,
            Err(e) => {
                return Err(e);
            },
        };
        let source = match optional::<Source>(m, "source") {
            Ok(x) => x,
            Err(e) => {
                return Err(e);
            },
        };
        let model = match optional::<Model>(m, "model") {
            Ok(x) => x,
            Err(e) => {
                return Err(e);
            },
        };
        Ok(Interface { interface_type, source, model })
    }
}

impl FromValue for Model {
    open spec fn accepts(v: Json) -> bool {
        v is Object
            && required_ok::<String>(v->Object_0, "@type"@)
    }

    open spec fn read_as(v: Json, r: Model) -> bool {
        required_is::<String>(v->Object_0, "@type"@, r.model_type)
    }

    open spec fn missing(v: Json) -> bool {
        v is Object && ((!required_ok::<String>(v->Object_0, "@type"@) && required_missing::<String>(v->Object_0, "@type"@)))
    }

    open spec fn names(k: Seq<char>) -> bool {
        k == "@type"@
    }

    proof fn lemma_ignores_unknown(m: Seq<(Seq<char>, Json)>, i: int, k: Seq<char>, x: Json) {
        lemma_field_insert(m, i, k, x, "@type"@);
    }

    fn from_value(v: &GenericValue) -> (r: Result<Model, MappingError>) {
        let m = match v {
            GenericValue::Object(m) => m,
            _ => {
                return Err(MappingError::TypeMismatch(String::from_str("expected an object for Model")));
            },
        };
        proof {
            lemma_object_view(*m);
        }
        let model_type = match required::<String>(m, "@type") {
            Ok(x) => x,
            Err(e) => {
                return Err(e);
            },
        };
        Ok(Model { model_type })
    }
}

impl FromValue for Graphics {
    open spec fn accepts(v: Json) -> bool {
        v is Object
            && required_ok::<String>(v->Object_0, "@type"@)
            && required_ok::<String>(v->Object_0, "@port"@)
            && required_ok::<String>(v->Object_0, "@autoport"@)
    }

    open spec fn read_as(v: Json, r: Graphics) -> bool {
        required_is::<String>(v->Object_0, "@type"@, r.graphics_type)
            && required_is::<String>(v->Object_0, "@port"@, r.port)
            && required_is::<String>(v->Object_0, "@autoport"@, r.autoport)
    }

    open spec fn missing(v: Json) -> bool {
        v is Object && ((!required_ok::<String>(v->Object_0, "@type"@) && required_missing::<String>(v->Object_0, "@type"@))
            || (required_ok::<String>(v->Object_0, "@type"@)
                && ((!required_ok::<String>(v->Object_0, "@port"@) && required_missing::<String>(v->Object_0, "@port"@))
                    || (required_ok::<String>(v->Object_0, "@port"@)
                        && ((!required_ok::<String>(v->Object_0, "@autoport"@) && required_missing::<String>(v->Object_0, "@autoport"@)))))))
    }

    open spec fn names(k: Seq<char>) -> bool {
        k == "@type"@ || k == "@port"@ || k == "@autoport"@
    }

    proof fn lemma_ignores_unknown(m: Seq<(Seq<char>, Json)>, i: int, k: Seq<char>, x: Json) {
        lemma_field_insert(m, i, k, x, "@type"@);
        lemma_field_insert(m, i, k, x, "@port"@);
        lemma_field_insert(m, i, k, x, "@autoport"@);
    }

    fn from_value(v: &GenericValue) -> (r: Result<Graphics, MappingError>) {
        let m = match v {
            GenericValue::Object(m) => m,
            _ => {
                return Err(MappingError::TypeMismatch(String::from_str("expected an object for Graphics")));
            },
        };
        proof {
            lemma_object_view(*m);
        }
        let graphics_type = match required::<String>(m, "@type") {
            Ok(x) => x,
            Err(e) => {
                return Err(e);
            },
        };
        let port = match required::<String>(m, "@port") {
            Ok(x) => x,
            Err(e) => {
                return Err(e);
            },
        };
        let autoport = match required::<String>(m, "@autoport") {
            Ok(x) => x,
            Err(e) => {
                return Err(e);
            },
        };
        Ok(Graphics { graphics_type, port, autoport })
    }
}

impl FromValue for Empty {
    open spec fn accepts(v: Json) -> bool {
        v is Object
    }

    open spec fn read_as(v: Json, r: Empty) -> bool {
        true
    }

    open spec fn missing(v: Json) -> bool {
        false
    }

    open spec fn names(k: Seq<char>) -> bool {
        false
    }

    proof fn lemma_ignores_unknown(m: Seq<(Seq<char>, Json)>, i: int, k: Seq<char>, x: Json) {
    }

    fn from_value(v: &GenericValue) -> (r: Result<Empty, MappingError>) {
        let m = match v {
            GenericValue::Object(m) => m,
            _ => {
                return Err(MappingError::TypeMismatch(String::from_str("expected an object for Empty")));
            },
        };
        proof {
            lemma_object_view(*m);
        }
        Ok(Empty {  })
    }
}

impl FromValue for CloudInitUserData {
    open spec fn accepts(v: Json) -> bool {
        v is Object
            && required_ok::<String>(v->Object_0, "hostname"@)
            && required_ok::<String>(v->Object_0, "locale"@)
            && required_ok::<Keyboard>(v->Object_0, "keyboard"@)
            && required_ok::<Ssh>(v->Object_0, "ssh"@)
            && required_ok::<bool>(v->Object_0, "lock_passwd"@)
            && required_ok::<Vec<CloudInitUser>>(v->Object_0, "users"@)
            && required_ok::<bool>(v->Object_0, "ssh_pwauth"@)
    }

    open spec fn read_as(v: Json, r: CloudInitUserData) -> bool {
        required_is::<String>(v->Object_0, "hostname"@, r.hostname)
            && required_is::<String>(v->Object_0, "locale"@, r.locale)
            && required_is::<Keyboard>(v->Object_0, "keyboard"@, r.keyboard)
            && required_is::<Ssh>(v->Object_0, "ssh"@, r.ssh)
            && required_is::<bool>(v->Object_0, "lock_passwd"@, r.lock_passwd)
            && required_is::<Vec<CloudInitUser>>(v->Object_0, "users"@, r.users)
            && required_is::<bool>(v->Object_0, "ssh_pwauth"@, r.ssh_pwauth)
    }

    open spec fn missing(v: Json) -> bool {
        v is Object && ((!required_ok::<String>(v->Object_0, "hostname"@) && required_missing::<String>(v->Object_0, "hostname"@))
            || (required_ok::<String>(v->Object_0, "hostname"@)
                && ((!required_ok::<String>(v->Object_0, "locale"@) && required_missing::<String>(v->Object_0, "locale"@))
                    || (required_ok::<String>(v->Object_0, "locale"@)
                        && ((!required_ok::<Keyboard>(v->Object_0, "keyboard"@) && required_missing::<Keyboard>(v->Object_0, "keyboard"@))
                            || (required_ok::<Keyboard>(v->Object_0, "keyboard"@)
                                && ((!required_ok::<Ssh>(v->Object_0, "ssh"@) && required_missing::<Ssh>(v->Object_0, "ssh"@))
                                    || (required_ok::<Ssh>(v->Object_0, "ssh"@)
                                        && ((!required_ok::<bool>(v->Object_0, "lock_passwd"@) && required_missing::<bool>(v->Object_0, "lock_passwd"@))
                                            || (required_ok::<bool>(v->Object_0, "lock_passwd"@)
                                                && ((!required_ok::<Vec<CloudInitUser>>(v->Object_0, "users"@) && required_missing::<Vec<CloudInitUser>>(v->Object_0, "users"@))
                                                    || (required_ok::<Vec<CloudInitUser>>(v->Object_0, "users"@)
                                                        && ((!required_ok::<bool>(v->Object_0, "ssh_pwauth"@) && required_missing::<bool>(v->Object_0, "ssh_pwauth"@)))))))))))))))
    }

    open spec fn names(k: Seq<char>) -> bool {
        k == "hostname"@ || k == "locale"@ || k == "keyboard"@ || k == "ssh"@ || k == "lock_passwd"@ || k == "users"@ || k == "ssh_pwauth"@
    }

    proof fn lemma_ignores_unknown(m: Seq<(Seq<char>, Json)>, i: int, k: Seq<char>, x: Json) {
        lemma_field_insert(m, i, k, x, "hostname"@);
        lemma_field_insert(m, i, k, x, "locale"@);
        lemma_field_insert(m, i, k, x, "keyboard"@);
        lemma_field_insert(m, i, k, x, "ssh"@);
        lemma_field_insert(m, i, k, x, "lock_passwd"@);
        lemma_field_insert(m, i, k, x, "users"@);
        lemma_field_insert(m, i, k, x, "ssh_pwauth"@);
    }

    fn from_value(v: &GenericValue) -> (r: Result<CloudInitUserData, MappingError>) {
        let m = match v {
            GenericValue::Object(m) => m,
            _ => {
                return Err(MappingError::TypeMismatch(String::from_str("expected an object for CloudInitUserData")));
            },
        };
        proof {
            lemma_object_view(*m);
        }
        let hostname = match required::<String>(m, "hostname") {
            Ok(x) => x,
            Err(e) => {
                return Err(e);
            },
        };
        let locale = match required::<String>(m, "locale") {
            Ok(x) => x,
            Err(e) => {
                return Err(e);
            },
        };
        let keyboard = match required::<Keyboard>(m, "keyboard") {
            Ok(x) => x,
            Err(e) => {
                return Err(e);
            },
        };
        let ssh = match required::<Ssh>(m, "ssh") {
            Ok(x) => x,
            Err(e) => {
                return Err(e);
            },
        };
        let lock_passwd = match required::<bool>(m, "lock_passwd") {
            Ok(x) => x,
            Err(e) => {
                return Err(e);
            },
        };
        let users = match required::<Vec<CloudInitUser>>(m, "users") {
            Ok(x) => x,
            Err(e) => {
                return Err(e);
            },
        };
        let ssh_pwauth = match required::<bool>(m, "ssh_pwauth") {
            Ok(x) => x,
            Err(e) => {
                return Err(e);
            },
        };
        Ok(CloudInitUserData { hostname, locale, keyboard, ssh, lock_passwd, users, ssh_pwauth })
    }
}

impl FromValue for CloudInitUser {
    open spec fn accepts(v: Json) -> bool {
        v is Object
            && required_ok::<String>(v->Object_0, "name"@)
            && required_ok::<String>(v->Object_0, "passwd"@)
            && required_ok::<String>(v->Object_0, "gecos"@)
            && required_ok::<Vec<String>>(v->Object_0, "groups"@)
            && required_ok::<String>(v->Object_0, "sudo"@)
            && required_ok::<String>(v->Object_0, "shell"@)
    }

    open spec fn read_as(v: Json, r: CloudInitUser) -> bool {
        required_is::<String>(v->Object_0, "name"@, r.name)
            && required_is::<String>(v->Object_0, "passwd"@, r.passwd)
            && required_is::<String>(v->Object_0, "gecos"@, r.gecos)
            && required_is::<Vec<String>>(v->Object_0, "groups"@, r.groups)
            && required_is::<String>(v->Object_0, "sudo"@, r.sudo)
            && required_is::<String>(v->Object_0, "shell"@, r.shell)
    }

    open spec fn missing(v: Json) -> bool {
        v is Object && ((!required_ok::<String>(v->Object_0, "name"@) && required_missing::<String>(v->Object_0, "name"@))
            || (required_ok::<String>(v->Object_0, "name"@)
                && ((!required_ok::<String>(v->Object_0, "passwd"@) && required_missing::<String>(v->Object_0, "passwd"@))
                    || (required_ok::<String>(v->Object_0, "passwd"@)
                        && ((!required_ok::<String>(v->Object_0, "gecos"@) && required_missing::<String>(v->Object_0, "gecos"@))
                            || (required_ok::<String>(v->Object_0, "gecos"@)
                                && ((!required_ok::<Vec<String>>(v->Object_0, "groups"@) && required_missing::<Vec<String>>(v->Object_0, "groups"@))
                                    || (required_ok::<Vec<String>>(v->Object_0, "groups"@)
                                        && ((!required_ok::<String>(v->Object_0, "sudo"@) && required_missing::<String>(v->Object_0, "sudo"@))
                                            || (required_ok::<String>(v->Object_0, "sudo"@)
                                                && ((!required_ok::<String>(v->Object_0, "shell"@) && required_missing::<String>(v->Object_0, "shell"@)))))))))))))
    }

    open spec fn names(k: Seq<char>) -> bool {
        k == "name"@ || k == "passwd"@ || k == "gecos"@ || k == "groups"@ || k == "sudo"@ || k == "shell"@
    }

    proof fn lemma_ignores_unknown(m: Seq<(Seq<char>, Json)>, i: int, k: Seq<char>, x: Json) {
        lemma_field_insert(m, i, k, x, "name"@);
        lemma_field_insert(m, i, k, x, "passwd"@);
        lemma_field_insert(m, i, k, x, "gecos"@);
        lemma_field_insert(m, i, k, x, "groups"@);
        lemma_field_insert(m, i, k, x, "sudo"@);
        lemma_field_insert(m, i, k, x, "shell"@);
    }

    fn from_value(v: &GenericValue) -> (r: Result<CloudInitUser, MappingError>) {
        let m = match v {
            GenericValue::Object(m) => m,
            _ => {
                return Err(MappingError::TypeMismatch(String::from_str("expected an object for CloudInitUser")));
            },
        };
        proof {
            lemma_object_view(*m);
        }
        let name = match required::<String>(m, "name") {
            Ok(x) => x,
            Err(e) => {
                return Err(e);
            },
        };
        let passwd = match required::<String>(m, "passwd") {
            Ok(x) => x,
            Err(e) => {
                return Err(e);
            },
        };
        let gecos = match required::<String>(m, "gecos") {
            Ok(x) => x,
            Err(e) => {
                return Err(e);
            },
        };
        let groups = match required::<Vec<String>>(m, "groups") {
            Ok(x) => x,
            Err(e) => {
                return Err(e);
            },
        };
        let sudo = match required::<String>(m, "sudo") {
            Ok(x) => x,
            Err(e) => {
                return Err(e);
            },
        };
        let shell = match required::<String>(m, "shell") {
            Ok(x) => x,
            Err(e) => {
                return Err(e);
            },
        };
        Ok(CloudInitUser { name, passwd, gecos, groups, sudo, shell })
    }
}

impl FromValue for Keyboard {
    open spec fn accepts(v: Json) -> bool {
        v is Object
            && required_ok::<String>(v->Object_0, "layout"@)
    }

    open spec fn read_as(v: Json, r: Keyboard) -> bool {
        required_is::<String>(v->Object_0, "layout"@, r.layout)
    }

    open spec fn missing(v: Json) -> bool {
        v is Object && ((!required_ok::<String>(v->Object_0, "layout"@) && required_missing::<String>(v->Object_0, "layout"@)))
    }

    open spec fn names(k: Seq<char>) -> bool {
        k == "layout"@
    }

    proof fn lemma_ignores_unknown(m: Seq<(Seq<char>, Json)>, i: int, k: Seq<char>, x: Json) {
        lemma_field_insert(m, i, k, x, "layout"@);
    }

    fn from_value(v: &GenericValue) -> (r: Result<Keyboard, MappingError>) {
        let m = match v {
            GenericValue::Object(m) => m,
            _ => {
                return Err(MappingError::TypeMismatch(String::from_str("expected an object for Keyboard")));
            },
        };
        proof {
            lemma_object_view(*m);
        }
        let layout = match required::<String>(m, "layout") {
            Ok(x) => x,
            Err(e) => {
                return Err(e);
            },
        };
        Ok(Keyboard { layout })
    }
}

impl FromValue for Ssh {
    open spec fn accepts(v: Json) -> bool {
        v is Object
            && required_ok::<bool>(v->Object_0, "install_server"@)
    }

    open spec fn read_as(v: Json, r: Ssh) -> bool {
        required_is::<bool>(v->Object_0, "install_server"@, r.install_server)
    }

    open spec fn missing(v: Json) -> bool {
        v is Object && ((!required_ok::<bool>(v->Object_0, "install_server"@) && required_missing::<bool>(v->Object_0, "install_server"@)))
    }

    open spec fn names(k: Seq<char>) -> bool {
        k == "install_server"@
    }

    proof fn lemma_ignores_unknown(m: Seq<(Seq<char>, Json)>, i: int, k: Seq<char>, x: Json) {
        lemma_field_insert(m, i, k, x, "install_server"@);
    }

    fn from_value(v: &GenericValue) -> (r: Result<Ssh, MappingError>) {
        let m = match v {
            GenericValue::Object(m) => m,
            _ => {
                return Err(MappingError::TypeMismatch(String::from_str("expected an object for Ssh")));
            },
        };
        proof {
            lemma_object_view(*m);
        }
        let install_server = match required::<bool>(m, "install_server") {
            Ok(x) => x,
            Err(e) => {
                return Err(e);
            },
        };
        Ok(Ssh { install_server })
    }
}

impl FromValue for CloudInitMetaData {
    open spec fn accepts(v: Json) -> bool {
        v is Object
            && required_ok::<String>(v->Object_0, "instance_id"@)
            && required_ok::<String>(v->Object_0, "local_hostname"@)
    }

    open spec fn read_as(v: Json, r: CloudInitMetaData) -> bool {
        required_is::<String>(v->Object_0, "instance_id"@, r.instance_id)
            && required_is::<String>(v->Object_0, "local_hostname"@, r.local_hostname)
    }

    open spec fn missing(v: Json) -> bool {
        v is Object && ((!required_ok::<String>(v->Object_0, "instance_id"@) && required_missing::<String>(v->Object_0, "instance_id"@))
            || (required_ok::<String>(v->Object_0, "instance_id"@)
                && ((!required_ok::<String>(v->Object_0, "local_hostname"@) && required_missing::<String>(v->Object_0, "local_hostname"@)))))
    }

    open spec fn names(k: Seq<char>) -> bool {
        k == "instance_id"@ || k == "local_hostname"@
    }

    proof fn lemma_ignores_unknown(m: Seq<(Seq<char>, Json)>, i: int, k: Seq<char>, x: Json) {
        lemma_field_insert(m, i, k, x, "instance_id"@);
        lemma_field_insert(m, i, k, x, "local_hostname"@);
    }

    fn from_value(v: &GenericValue) -> (r: Result<CloudInitMetaData, MappingError>) {
        let m = match v {
            GenericValue::Object(m) => m,
            _ => {
                return Err(MappingError::TypeMismatch(String::from_str("expected an object for CloudInitMetaData")));
            },
        };
        proof {
            lemma_object_view(*m);
        }
        let instance_id = match required::<String>(m, "instance_id") {
            Ok(x) => x,
            Err(e) => {
                return Err(e);
            },
        };
        let local_hostname = match required::<String>(m, "local_hostname") {
            Ok(x) => x,
            Err(e) => {
                return Err(e);
            },
        };
        Ok(CloudInitMetaData { instance_id, local_hostname })
    }
}

} // verus!
