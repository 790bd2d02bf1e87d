use vstd::prelude::*;

use crate::ids::{uuid_hyphenated, uuid_string};
use crate::rules::dictionaries::{dictionary_value, DictionaryService};
use crate::rules::model::RuleWithDetails;
use crate::rules::patterns::opt_text;
use crate::text::{
    chars_are, chars_contain, chars_of, contains, join2, lowercase_text, slice_chars, string_of,
    to_lowercase, trim,
};

verus! {

broadcast use vstd::string::group_string_axioms;

/// The hardware section of a GLPI-Agent inventory.
#[derive(Clone, Debug)]
pub struct GlpiHardware {
    pub name: Option<String>,
    pub workgroup: Option<String>,
    pub uuid: Option<String>,
    pub dns: Option<String>,
    pub vmsystem: Option<String>,
    pub memory: Option<i64>,
    pub swap: Option<i64>,
}

/// The BIOS section of a GLPI-Agent inventory.
#[derive(Clone, Debug)]
pub struct GlpiBios {
    pub smanufacturer: Option<String>,
    pub smodel: Option<String>,
    pub ssn: Option<String>,
    pub bversion: Option<String>,
    pub bdate: Option<String>,
}

/// The operating system section of a GLPI-Agent inventory.
#[derive(Clone, Debug)]
pub struct GlpiOs {
    pub name: Option<String>,
    pub version: Option<String>,
    pub arch: Option<String>,
    pub kernel_version: Option<String>,
    pub install_date: Option<String>,
}

/// A processor in a GLPI-Agent inventory.
#[derive(Clone, Debug)]
pub struct GlpiCpu {
    pub name: Option<String>,
    pub speed: Option<i64>,
    pub cores: Option<i64>,
    pub threads: Option<i64>,
}

/// A memory module in a GLPI-Agent inventory; capacity in MB.
#[derive(Clone, Debug)]
pub struct GlpiMemory {
    pub capacity: Option<i64>,
    pub memory_type: Option<String>,
    pub speed: Option<i64>,
    pub numslots: Option<i64>,
}

/// A drive in a GLPI-Agent inventory; sizes in MB.
#[derive(Clone, Debug)]
pub struct GlpiDrive {
    pub volumn: Option<String>,
    pub filesystem: Option<String>,
    pub total: Option<i64>,
    pub free: Option<i64>,
    pub drive_type: Option<String>,
}

/// A network interface in a GLPI-Agent inventory.
#[derive(Clone, Debug)]
pub struct GlpiNetwork {
    pub description: Option<String>,
    pub mac: Option<String>,
    pub ipaddress: Option<String>,
    pub ipmask: Option<String>,
    pub status: Option<String>,
    pub speed: Option<String>,
    pub network_type: Option<String>,
}

/// A monitor in a GLPI-Agent inventory.
#[derive(Clone, Debug)]
pub struct GlpiMonitor {
    pub name: Option<String>,
    pub serial: Option<String>,
    pub manufacturer: Option<String>,
    pub caption: Option<String>,
    pub resolution: Option<String>,
}

/// An installed software package in a GLPI-Agent inventory.
#[derive(Clone, Debug)]
pub struct GlpiSoftware {
    pub name: Option<String>,
    pub version: Option<String>,
    pub publisher: Option<String>,
}

/// The content of a GLPI-Agent inventory.
#[derive(Clone, Debug)]
pub struct GlpiAgentContent {
    pub hardware: Option<GlpiHardware>,
    pub bios: Option<GlpiBios>,
    pub operatingsystem: Option<GlpiOs>,
    pub cpus: Option<Vec<GlpiCpu>>,
    pub memories: Option<Vec<GlpiMemory>>,
    pub drives: Option<Vec<GlpiDrive>>,
    pub networks: Option<Vec<GlpiNetwork>>,
    pub monitors: Option<Vec<GlpiMonitor>>,
    pub softwares: Option<Vec<GlpiSoftware>>,
    pub versionclient: Option<String>,
}

/// A GLPI-Agent request.
#[derive(Clone, Debug)]
pub struct GlpiAgentPayload {
    pub deviceid: Option<String>,
    pub action: Option<String>,
    pub itemtype: Option<String>,
    pub content: Option<GlpiAgentContent>,
}

/// The answer to a GLPI-Agent request.
#[derive(Clone, Debug)]
pub struct GlpiAgentResponse {
    pub status: String,
    pub message: String,
    pub asset_id: u128,
    pub action_taken: String,
    pub asset_name: String,
}

/// The demonstration inventories an administrator can send.
#[derive(Clone, Copy, Debug, PartialEq, Eq, Structural)]
pub enum AgentPreset {
    ThinkpadLaptop,
    NewMacbook,
    DeveloperWorkstation,
}

/// The preset a name selects; any unknown name selects the developer workstation.
pub open spec fn preset_of(name: Seq<char>) -> AgentPreset {
    if name == "thinkpad_laptop"@ {
        AgentPreset::ThinkpadLaptop
    } else if name == "new_macbook"@ {
        AgentPreset::NewMacbook
    } else {
        AgentPreset::DeveloperWorkstation
    }
}

/// The identifying facts of an inventory, as the reconciliation reads them.
pub struct InventorySummary {
    pub device_id: Option<Seq<char>>,
    pub hostname: Option<Seq<char>>,
    pub hardware_uuid: Option<Seq<char>>,
    pub serial: Option<Seq<char>>,
    pub manufacturer: Option<Seq<char>>,
    pub model: Option<Seq<char>>,
    pub os_name: Option<Seq<char>>,
    pub ip: Option<Seq<char>>,
    pub mac: Option<Seq<char>>,
    pub monitors: nat,
    pub softwares: nat,
}

/// The first network interface's field picked by `f`, among the interfaces that have it.
pub open spec fn first_network_field(nets: Seq<GlpiNetwork>, ip: bool) -> Option<Seq<char>>
    decreases nets.len(),
{
    if nets.len() == 0 {
        None
    } else {
        let v = if ip {
            nets[0].ipaddress
        } else {
            nets[0].mac
        };
        match v {
            Some(t) => Some(t@),
            None => first_network_field(nets.drop_first(), ip),
        }
    }
}

/// The summary of a payload.
pub open spec fn summary_of(p: GlpiAgentPayload) -> InventorySummary {
    let c = p.content;
    InventorySummary {
        device_id: opt_text(p.deviceid),
        hostname: match c {
            Some(c) => match c.hardware {
                Some(h) => opt_text(h.name),
                None => None,
            },
            None => None,
        },
        hardware_uuid: match c {
            Some(c) => match c.hardware {
                Some(h) => opt_text(h.uuid),
                None => None,
            },
            None => None,
        },
        serial: match c {
            Some(c) => match c.bios {
                Some(b) => opt_text(b.ssn),
                None => None,
            },
            None => None,
        },
        manufacturer: match c {
            Some(c) => match c.bios {
                Some(b) => opt_text(b.smanufacturer),
                None => None,
            },
            None => None,
        },
        model: match c {
            Some(c) => match c.bios {
                Some(b) => opt_text(b.smodel),
                None => None,
            },
            None => None,
        },
        os_name: match c {
            Some(c) => match c.operatingsystem {
                Some(o) => opt_text(o.name),
                None => None,
            },
            None => None,
        },
        ip: match c {
            Some(c) => match c.networks {
                Some(n) => first_network_field(n@, true),
                None => None,
            },
            None => None,
        },
        mac: match c {
            Some(c) => match c.networks {
                Some(n) => first_network_field(n@, false),
                None => None,
            },
            None => None,
        },
        monitors: match c {
            Some(c) => match c.monitors {
                Some(m) => m@.len(),
                None => 0,
            },
            None => 0,
        },
        softwares: match c {
            Some(c) => match c.softwares {
                Some(s) => s@.len(),
                None => 0,
            },
            None => 0,
        },
    }
}

/// The hardware section of an inventory, as plain values.
#[verifier::ext_equal]
pub struct HardwareModel {
    pub name: Option<Seq<char>>,
    pub workgroup: Option<Seq<char>>,
    pub uuid: Option<Seq<char>>,
    pub dns: Option<Seq<char>>,
    pub vmsystem: Option<Seq<char>>,
    pub memory: Option<i64>,
    pub swap: Option<i64>,
}

/// The BIOS section of an inventory, as plain values.
#[verifier::ext_equal]
pub struct BiosModel {
    pub smanufacturer: Option<Seq<char>>,
    pub smodel: Option<Seq<char>>,
    pub ssn: Option<Seq<char>>,
    pub bversion: Option<Seq<char>>,
    pub bdate: Option<Seq<char>>,
}

/// The operating system section of an inventory, as plain values.
#[verifier::ext_equal]
pub struct OsModel {
    pub name: Option<Seq<char>>,
    pub version: Option<Seq<char>>,
    pub arch: Option<Seq<char>>,
    pub kernel_version: Option<Seq<char>>,
    pub install_date: Option<Seq<char>>,
}

/// A processor, as plain values.
#[verifier::ext_equal]
pub struct CpuModel {
    pub name: Option<Seq<char>>,
    pub speed: Option<i64>,
    pub cores: Option<i64>,
    pub threads: Option<i64>,
}

/// A memory module, as plain values.
#[verifier::ext_equal]
pub struct MemoryModel {
    pub capacity: Option<i64>,
    pub memory_type: Option<Seq<char>>,
    pub speed: Option<i64>,
    pub numslots: Option<i64>,
}

/// A drive, as plain values.
#[verifier::ext_equal]
pub struct DriveModel {
    pub volumn: Option<Seq<char>>,
    pub filesystem: Option<Seq<char>>,
    pub total: Option<i64>,
    pub free: Option<i64>,
    pub drive_type: Option<Seq<char>>,
}

/// A network interface, as plain values.
#[verifier::ext_equal]
pub struct NetworkModel {
    pub description: Option<Seq<char>>,
    pub mac: Option<Seq<char>>,
    pub ipaddress: Option<Seq<char>>,
    pub ipmask: Option<Seq<char>>,
    pub status: Option<Seq<char>>,
    pub speed: Option<Seq<char>>,
    pub network_type: Option<Seq<char>>,
}

/// A monitor, as plain values.
#[verifier::ext_equal]
pub struct MonitorModel {
    pub name: Option<Seq<char>>,
    pub serial: Option<Seq<char>>,
    pub manufacturer: Option<Seq<char>>,
    pub caption: Option<Seq<char>>,
    pub resolution: Option<Seq<char>>,
}

/// An installed software package, as plain values.
#[verifier::ext_equal]
pub struct SoftwareModel {
    pub name: Option<Seq<char>>,
    pub version: Option<Seq<char>>,
    pub publisher: Option<Seq<char>>,
}

/// The content of an inventory, as plain values; a missing list stays `None`, apart
/// from an empty one.
#[verifier::ext_equal]
pub struct ContentModel {
    pub hardware: Option<HardwareModel>,
    pub bios: Option<BiosModel>,
    pub operatingsystem: Option<OsModel>,
    pub cpus: Option<Seq<CpuModel>>,
    pub memories: Option<Seq<MemoryModel>>,
    pub drives: Option<Seq<DriveModel>>,
    pub networks: Option<Seq<NetworkModel>>,
    pub monitors: Option<Seq<MonitorModel>>,
    pub softwares: Option<Seq<SoftwareModel>>,
    pub versionclient: Option<Seq<char>>,
}

/// A GLPI-Agent request, as plain values.
#[verifier::ext_equal]
pub struct PayloadModel {
    pub deviceid: Option<Seq<char>>,
    pub action: Option<Seq<char>>,
    pub itemtype: Option<Seq<char>>,
    pub content: Option<ContentModel>,
}

/// The hardware section by its plain values.
pub open spec fn hardware_model(h: GlpiHardware) -> HardwareModel {
    HardwareModel {
        name: opt_text(h.name),
        workgroup: opt_text(h.workgroup),
        uuid: opt_text(h.uuid),
        dns: opt_text(h.dns),
        vmsystem: opt_text(h.vmsystem),
        memory: h.memory,
        swap: h.swap,
    }
}

/// The BIOS section by its plain values.
pub open spec fn bios_model(b: GlpiBios) -> BiosModel {
    BiosModel {
        smanufacturer: opt_text(b.smanufacturer),
        smodel: opt_text(b.smodel),
        ssn: opt_text(b.ssn),
        bversion: opt_text(b.bversion),
        bdate: opt_text(b.bdate),
    }
}

/// The operating system section by its plain values.
pub open spec fn os_model(o: GlpiOs) -> OsModel {
    OsModel {
        name: opt_text(o.name),
        version: opt_text(o.version),
        arch: opt_text(o.arch),
        kernel_version: opt_text(o.kernel_version),
        install_date: opt_text(o.install_date),
    }
}

/// A processor by its plain values.
pub open spec fn cpu_model(c: GlpiCpu) -> CpuModel {
    CpuModel { name: opt_text(c.name), speed: c.speed, cores: c.cores, threads: c.threads }
}

/// A memory module by its plain values.
pub open spec fn memory_model(m: GlpiMemory) -> MemoryModel {
    MemoryModel {
        capacity: m.capacity,
        memory_type: opt_text(m.memory_type),
        speed: m.speed,
        numslots: m.numslots,
    }
}

/// A drive by its plain values.
pub open spec fn drive_model(d: GlpiDrive) -> DriveModel {
    DriveModel {
        volumn: opt_text(d.volumn),
        filesystem: opt_text(d.filesystem),
        total: d.total,
        free: d.free,
        drive_type: opt_text(d.drive_type),
    }
}

/// A network interface by its plain values.
pub open spec fn network_model(n: GlpiNetwork) -> NetworkModel {
    NetworkModel {
        description: opt_text(n.description),
        mac: opt_text(n.mac),
        ipaddress: opt_text(n.ipaddress),
        ipmask: opt_text(n.ipmask),
        status: opt_text(n.status),
        speed: opt_text(n.speed),
        network_type: opt_text(n.network_type),
    }
}

/// A monitor by its plain values.
pub open spec fn monitor_model(m: GlpiMonitor) -> MonitorModel {
    MonitorModel {
        name: opt_text(m.name),
        serial: opt_text(m.serial),
        manufacturer: opt_text(m.manufacturer),
        caption: opt_text(m.caption),
        resolution: opt_text(m.resolution),
    }
}

/// A software package by its plain values.
pub open spec fn software_model(s: GlpiSoftware) -> SoftwareModel {
    SoftwareModel {
        name: opt_text(s.name),
        version: opt_text(s.version),
        publisher: opt_text(s.publisher),
    }
}

/// The content of an inventory by its plain values.
pub open spec fn content_model(c: GlpiAgentContent) -> ContentModel {
    ContentModel {
        hardware: match c.hardware {
            Some(h) => Some(hardware_model(h)),
            None => None,
        },
        bios: match c.bios {
            Some(b) => Some(bios_model(b)),
            None => None,
        },
        operatingsystem: match c.operatingsystem {
            Some(o) => Some(os_model(o)),
            None => None,
        },
        cpus: match c.cpus {
            Some(v) => Some(v@.map_values(|x: GlpiCpu| cpu_model(x))),
            None => None,
        },
        memories: match c.memories {
            Some(v) => Some(v@.map_values(|x: GlpiMemory| memory_model(x))),
            None => None,
        },
        drives: match c.drives {
            Some(v) => Some(v@.map_values(|x: GlpiDrive| drive_model(x))),
            None => None,
        },
        networks: match c.networks {
            Some(v) => Some(v@.map_values(|x: GlpiNetwork| network_model(x))),
            None => None,
        },
        monitors: match c.monitors {
            Some(v) => Some(v@.map_values(|x: GlpiMonitor| monitor_model(x))),
            None => None,
        },
        softwares: match c.softwares {
            Some(v) => Some(v@.map_values(|x: GlpiSoftware| software_model(x))),
            None => None,
        },
        versionclient: opt_text(c.versionclient),
    }
}

/// A GLPI-Agent request by its plain values.
pub open spec fn payload_model(p: GlpiAgentPayload) -> PayloadModel {
    PayloadModel {
        deviceid: opt_text(p.deviceid),
        action: opt_text(p.action),
        itemtype: opt_text(p.itemtype),
        content: match p.content {
            Some(c) => Some(content_model(c)),
            None => None,
        },
    }
}

/// The whole demonstration inventory of each preset.
pub open spec fn preset_payload(p: AgentPreset) -> PayloadModel {
    match p {
        AgentPreset::ThinkpadLaptop => PayloadModel {
            deviceid: Some("thinkpad-t14s-gen4-2026-09-18"@),
            action: Some("inventory"@),
            itemtype: Some("Computer"@),
            content: Some(
                ContentModel {
                    hardware: Some(
                        HardwareModel {
                            name: Some("NB-STOCK-04"@),
                            workgroup: Some("CORP-DOMAIN"@),
                            uuid: Some("23187210-9182-4112-9811-pf48x91a0001"@),
                            dns: Some("192.168.10.155"@),
                            vmsystem: Some("Physical"@),
                            memory: Some(32768),
                            swap: Some(8192),
                        },
                    ),
                    bios: Some(
                        BiosModel {
                            smanufacturer: Some("Lenovo"@),
                            smodel: Some("ThinkPad T14s Gen 4"@),
                            ssn: Some("PF48X91A"@),
                            bversion: Some("N3YET58W (1.28 )"@),
                            bdate: Some("2024-05-10"@),
                        },
                    ),
                    operatingsystem: Some(
                        OsModel {
                            name: Some("Microsoft Windows 11 Pro"@),
                            version: Some("23H2"@),
                            arch: Some("x86_64"@),
                            kernel_version: Some("10.0.22631.4169"@),
                            install_date: Some("2025-11-20 10:14:22"@),
                        },
                    ),
                    cpus: Some(
                        seq![
                            CpuModel {
                                name: Some("AMD Ryzen 7 PRO 7840U w/ Radeon 780M Graphics"@),
                                speed: Some(3300),
                                cores: Some(8),
                                threads: Some(16),
                            },
                        ],
                    ),
                    memories: Some(
                        seq![
                            MemoryModel {
                                capacity: Some(32768),
                                memory_type: Some("LPDDR5x"@),
                                speed: Some(6400),
                                numslots: Some(1),
                            },
                        ],
                    ),
                    drives: Some(
                        seq![
                            DriveModel {
                                volumn: Some("C:"@),
                                filesystem: Some("NTFS"@),
                                total: Some(524288),
                                free: Some(450560),
                                drive_type: Some("NVMe SSD"@),
                            },
                        ],
                    ),
                    networks: Some(
                        seq![
                            NetworkModel {
                                description: Some("Intel Wi-Fi 6E AX211 160MHz"@),
                                mac: Some("e4:54:e8:1b:22:90"@),
                                ipaddress: Some("192.168.10.155"@),
                                ipmask: Some("255.255.255.0"@),
                                status: Some("up"@),
                                speed: Some("Wi-Fi 6E"@),
                                network_type: Some("Wireless"@),
                            },
                        ],
                    ),
                    monitors: None,
                    softwares: Some(
                        seq![
                            SoftwareModel {
                                name: Some("Microsoft Office 365 ProPlus"@),
                                version: Some("16.0.17928.20114"@),
                                publisher: Some("Microsoft Corporation"@),
                            },
                            SoftwareModel {
                                name: Some("Google Chrome"@),
                                version: Some("128.0.6613.120"@),
                                publisher: Some("Google LLC"@),
                            },
                        ],
                    ),
                    versionclient: Some("GLPI-Agent_v1.11"@),
                },
            ),
        },
        AgentPreset::NewMacbook => PayloadModel {
            deviceid: Some("macbook-pro-m3max-2026-09-18"@),
            action: Some("inventory"@),
            itemtype: Some("Computer"@),
            content: Some(
                ContentModel {
                    hardware: Some(
                        HardwareModel {
                            name: Some("MBP16-DESIGN-01"@),
                            workgroup: Some("DESIGN-STUDIO"@),
                            uuid: Some("e71092a4-56b0-410a-85d1-c02g4001md6r"@),
                            dns: Some("192.168.20.88"@),
                            vmsystem: Some("Physical"@),
                            memory: Some(65536),
                            swap: Some(16384),
                        },
                    ),
                    bios: Some(
                        BiosModel {
                            smanufacturer: Some("Apple Inc."@),
                            smodel: Some("MacBook Pro 16-inch (Nov 2023)"@),
                            ssn: Some("C02G4001MD6R"@),
                            bversion: Some("10151.101.3"@),
                            bdate: Some("2024-03-01"@),
                        },
                    ),
                    operatingsystem: Some(
                        OsModel {
                            name: Some("macOS Sonoma"@),
                            version: Some("14.6.1"@),
                            arch: Some("arm64"@),
                            kernel_version: Some("Darwin 23.6.0"@),
                            install_date: Some("2026-02-12 11:00:00"@),
                        },
                    ),
                    cpus: Some(
                        seq![
                            CpuModel {
                                name: Some("Apple M3 Max (16 cores)"@),
                                speed: Some(4050),
                                cores: Some(16),
                                threads: Some(16),
                            },
                        ],
                    ),
                    memories: Some(
                        seq![
                            MemoryModel {
                                capacity: Some(65536),
                                memory_type: Some("Unified Memory"@),
                                speed: Some(6400),
                                numslots: Some(1),
                            },
                        ],
                    ),
                    drives: Some(
                        seq![
                            DriveModel {
                                volumn: Some("/System/Volumes/Data"@),
                                filesystem: Some("APFS"@),
                                total: Some(2097152),
                                free: Some(1572864),
                                drive_type: Some("Apple NVMe SSD"@),
                            },
                        ],
                    ),
                    networks: Some(
                        seq![
                            NetworkModel {
                                description: Some("en0 (Wi-Fi 6E)"@),
                                mac: Some("f0:18:98:44:b1:2c"@),
                                ipaddress: Some("192.168.20.88"@),
                                ipmask: Some("255.255.255.0"@),
                                status: Some("up"@),
                                speed: Some("Wi-Fi 6E"@),
                                network_type: Some("Wireless"@),
                            },
                        ],
                    ),
                    monitors: Some(
                        seq![
                            MonitorModel {
                                name: Some("Apple Studio Display 27\" 5K"@),
                                serial: Some("F6KG8931MD90"@),
                                manufacturer: Some("Apple Inc."@),
                                caption: Some("5K Retina Display with True Tone"@),
                                resolution: Some("5120x2880"@),
                            },
                        ],
                    ),
                    softwares: Some(
                        seq![
                            SoftwareModel {
                                name: Some("Figma Desktop"@),
                                version: Some("116.15.4"@),
                                publisher: Some("Figma Inc."@),
                            },
                            SoftwareModel {
                                name: Some("Adobe Photoshop 2026"@),
                                version: Some("25.11"@),
                                publisher: Some("Adobe Systems"@),
                            },
                        ],
                    ),
                    versionclient: Some("GLPI-Agent_v1.11"@),
                },
            ),
        },
        AgentPreset::DeveloperWorkstation => PayloadModel {
            deviceid: Some("ws-dev-juan-reconcile"@),
            action: Some("inventory"@),
            itemtype: Some("Computer"@),
            content: Some(
                ContentModel {
                    hardware: Some(
                        HardwareModel {
                            name: Some("WS-DEV-JUAN"@),
                            workgroup: Some("DEVELOPERS"@),
                            uuid: Some("4c4c4544-0048-4710-8039-b2c04f353537"@),
                            dns: Some("192.168.10.142"@),
                            vmsystem: Some("Physical"@),
                            memory: Some(32768),
                            swap: Some(8192),
                        },
                    ),
                    bios: Some(
                        BiosModel {
                            smanufacturer: Some("Dell Inc."@),
                            smodel: Some("Precision 5570"@),
                            ssn: Some("8HG9TK3"@),
                            bversion: Some("1.18.0"@),
                            bdate: Some("2024-04-15"@),
                        },
                    ),
                    operatingsystem: Some(
                        OsModel {
                            name: Some("Ubuntu 24.04.1 LTS"@),
                            version: Some("24.04"@),
                            arch: Some("x86_64"@),
                            kernel_version: Some("6.8.0-45-generic"@),
                            install_date: Some("2026-01-10 09:30:00"@),
                        },
                    ),
                    cpus: Some(
                        seq![
                            CpuModel {
                                name: Some("12th Gen Intel(R) Core(TM) i7-12800H"@),
                                speed: Some(2400),
                                cores: Some(14),
                                threads: Some(20),
                            },
                        ],
                    ),
                    memories: Some(
                        seq![
                            MemoryModel {
                                capacity: Some(32768),
                                memory_type: Some("DDR5"@),
                                speed: Some(4800),
                                numslots: Some(2),
                            },
                        ],
                    ),
                    drives: Some(
                        seq![
                            DriveModel {
                                volumn: Some("/"@),
                                filesystem: Some("ext4"@),
                                total: Some(1048576),
                                free: Some(496640),
                                drive_type: Some("NVMe PC801 SK hynix"@),
                            },
                        ],
                    ),
                    networks: Some(
                        seq![
                            NetworkModel {
                                description: Some("wlp0s20f3"@),
                                mac: Some("38:68:dd:94:a1:b2"@),
                                ipaddress: Some("192.168.10.142"@),
                                ipmask: Some("255.255.255.0"@),
                                status: Some("up"@),
                                speed: Some("Wi-Fi 6E"@),
                                network_type: Some("Wireless"@),
                            },
                        ],
                    ),
                    monitors: Some(
                        seq![
                            MonitorModel {
                                name: Some("MON-DELL-U2723QE"@),
                                serial: Some("CN-0M381P-74261"@),
                                manufacturer: Some("Dell Inc."@),
                                caption: Some("UltraSharp 27 4K USB-C Hub Monitor"@),
                                resolution: Some("3840x2160"@),
                            },
                        ],
                    ),
                    softwares: Some(
                        seq![
                            SoftwareModel {
                                name: Some("Docker Engine"@),
                                version: Some("27.2.0"@),
                                publisher: Some("Docker Inc."@),
                            },
                            SoftwareModel {
                                name: Some("Rust Toolchain"@),
                                version: Some("1.80.1"@),
                                publisher: Some("Rust Foundation"@),
                            },
                        ],
                    ),
                    versionclient: Some("GLPI-Agent_v1.11"@),
                },
            ),
        },
    }
}

/// An optional text holding `t`.
fn some_text(t: &str) -> (r: Option<String>)
    ensures
        opt_text(r) == Some(t@),
{
    Some(t.to_string())
}

/// The inventory processing of the GLPI-Agent protocol.
pub struct AgentService;

impl AgentService {
    /// The demonstration inventory of a preset: `thinkpad_laptop`, `new_macbook`, or, for
    /// any other name, a developer workstation with a monitor. Every field of the result
    /// is the one `preset_payload` gives for the preset.
    pub fn get_preset_payload(preset_name: &str) -> (r: GlpiAgentPayload)
        ensures
            payload_model(r) == preset_payload(preset_of(preset_name@)),
    {
        let n = chars_of(preset_name);
        if chars_are(n.as_slice(), "thinkpad_laptop") {
            let r = GlpiAgentPayload {
                deviceid: some_text("thinkpad-t14s-gen4-2026-09-18"),
                action: some_text("inventory"),
                itemtype: some_text("Computer"),
                content: Some(
                    GlpiAgentContent {
                        hardware: Some(
                            GlpiHardware {
                                name: some_text("NB-STOCK-04"),
                                workgroup: some_text("CORP-DOMAIN"),
                                uuid: some_text("23187210-9182-4112-9811-pf48x91a0001"),
                                dns: some_text("192.168.10.155"),
                                vmsystem: some_text("Physical"),
                                memory: Some(32768),
                                swap: Some(8192),
                            },
                        ),
                        bios: Some(
                            GlpiBios {
                                smanufacturer: some_text("Lenovo"),
                                smodel: some_text("ThinkPad T14s Gen 4"),
                                ssn: some_text("PF48X91A"),
                                bversion: some_text("N3YET58W (1.28 )"),
                                bdate: some_text("2024-05-10"),
                            },
                        ),
                        operatingsystem: Some(
                            GlpiOs {
                                name: some_text("Microsoft Windows 11 Pro"),
                                version: some_text("23H2"),
                                arch: some_text("x86_64"),
                                kernel_version: some_text("10.0.22631.4169"),
                                install_date: some_text("2025-11-20 10:14:22"),
                            },
                        ),
                        cpus: Some(
                            vec![
                                GlpiCpu {
                                    name: some_text("AMD Ryzen 7 PRO 7840U w/ Radeon 780M Graphics"),
                                    speed: Some(3300),
                                    cores: Some(8),
                                    threads: Some(16),
                                },
                            ],
                        ),
                        memories: Some(
                            vec![
                                GlpiMemory {
                                    capacity: Some(32768),
                                    memory_type: some_text("LPDDR5x"),
                                    speed: Some(6400),
                                    numslots: Some(1),
                                },
                            ],
                        ),
                        drives: Some(
                            vec![
                                GlpiDrive {
                                    volumn: some_text("C:"),
                                    filesystem: some_text("NTFS"),
                                    total: Some(524288),
                                    free: Some(450560),
                                    drive_type: some_text("NVMe SSD"),
                                },
                            ],
                        ),
                        networks: Some(
                            vec![
                                GlpiNetwork {
                                    description: some_text("Intel Wi-Fi 6E AX211 160MHz"),
                                    mac: some_text("e4:54:e8:1b:22:90"),
                                    ipaddress: some_text("192.168.10.155"),
                                    ipmask: some_text("255.255.255.0"),
                                    status: some_text("up"),
                                    speed: some_text("Wi-Fi 6E"),
                                    network_type: some_text("Wireless"),
                                },
                            ],
                        ),
                        monitors: None,
                        softwares: Some(
                            vec![
                                GlpiSoftware {
                                    name: some_text("Microsoft Office 365 ProPlus"),
                                    version: some_text("16.0.17928.20114"),
                                    publisher: some_text("Microsoft Corporation"),
                                },
                                GlpiSoftware {
                                    name: some_text("Google Chrome"),
                                    version: some_text("128.0.6613.120"),
                                    publisher: some_text("Google LLC"),
                                },
                            ],
                        ),
                        versionclient: some_text("GLPI-Agent_v1.11"),
                    },
                ),
            };
            r
        } else if chars_are(n.as_slice(), "new_macbook") {
            let r = GlpiAgentPayload {
                deviceid: some_text("macbook-pro-m3max-2026-09-18"),
                action: some_text("inventory"),
                itemtype: some_text("Computer"),
                content: Some(
                    GlpiAgentContent {
                        hardware: Some(
                            GlpiHardware {
                                name: some_text("MBP16-DESIGN-01"),
                                workgroup: some_text("DESIGN-STUDIO"),
                                uuid: some_text("e71092a4-56b0-410a-85d1-c02g4001md6r"),
                                dns: some_text("192.168.20.88"),
                                vmsystem: some_text("Physical"),
                                memory: Some(65536),
                                swap: Some(16384),
                            },
                        ),
                        bios: Some(
                            GlpiBios {
                                smanufacturer: some_text("Apple Inc."),
                                smodel: some_text("MacBook Pro 16-inch (Nov 2023)"),
                                ssn: some_text("C02G4001MD6R"),
                                bversion: some_text("10151.101.3"),
                                bdate: some_text("2024-03-01"),
                            },
                        ),
                        operatingsystem: Some(
                            GlpiOs {
                                name: some_text("macOS Sonoma"),
                                version: some_text("14.6.1"),
                                arch: some_text("arm64"),
                                kernel_version: some_text("Darwin 23.6.0"),
                                install_date: some_text("2026-02-12 11:00:00"),
                            },
                        ),
                        cpus: Some(
                            vec![
                                GlpiCpu {
                                    name: some_text("Apple M3 Max (16 cores)"),
                                    speed: Some(4050),
                                    cores: Some(16),
                                    threads: Some(16),
                                },
                            ],
                        ),
                        memories: Some(
                            vec![
                                GlpiMemory {
                                    capacity: Some(65536),
                                    memory_type: some_text("Unified Memory"),
                                    speed: Some(6400),
                                    numslots: Some(1),
                                },
                            ],
                        ),
                        drives: Some(
                            vec![
                                GlpiDrive {
                                    volumn: some_text("/System/Volumes/Data"),
                                    filesystem: some_text("APFS"),
                                    total: Some(2097152),
                                    free: Some(1572864),
                                    drive_type: some_text("Apple NVMe SSD"),
                                },
                            ],
                        ),
                        networks: Some(
                            vec![
                                GlpiNetwork {
                                    description: some_text("en0 (Wi-Fi 6E)"),
                                    mac: some_text("f0:18:98:44:b1:2c"),
                                    ipaddress: some_text("192.168.20.88"),
                                    ipmask: some_text("255.255.255.0"),
                                    status: some_text("up"),
                                    speed: some_text("Wi-Fi 6E"),
                                    network_type: some_text("Wireless"),
                                },
                            ],
                        ),
                        monitors: Some(
                            vec![
                                GlpiMonitor {
                                    name: some_text("Apple Studio Display 27\" 5K"),
                                    serial: some_text("F6KG8931MD90"),
                                    manufacturer: some_text("Apple Inc."),
                                    caption: some_text("5K Retina Display with True Tone"),
                                    resolution: some_text("5120x2880"),
                                },
                            ],
                        ),
                        softwares: Some(
                            vec![
                                GlpiSoftware {
                                    name: some_text("Figma Desktop"),
                                    version: some_text("116.15.4"),
                                    publisher: some_text("Figma Inc."),
                                },
                                GlpiSoftware {
                                    name: some_text("Adobe Photoshop 2026"),
                                    version: some_text("25.11"),
                                    publisher: some_text("Adobe Systems"),
                                },
                            ],
                        ),
                        versionclient: some_text("GLPI-Agent_v1.11"),
                    },
                ),
            };
            r
        } else {
            let r = GlpiAgentPayload {
                deviceid: some_text("ws-dev-juan-reconcile"),
                action: some_text("inventory"),
                itemtype: some_text("Computer"),
                content: Some(
                    GlpiAgentContent {
                        hardware: Some(
                            GlpiHardware {
                                name: some_text("WS-DEV-JUAN"),
                                workgroup: some_text("DEVELOPERS"),
                                uuid: some_text("4c4c4544-0048-4710-8039-b2c04f353537"),
                                dns: some_text("192.168.10.142"),
                                vmsystem: some_text("Physical"),
                                memory: Some(32768),
                                swap: Some(8192),
                            },
                        ),
                        bios: Some(
                            GlpiBios {
                                smanufacturer: some_text("Dell Inc."),
                                smodel: some_text("Precision 5570"),
                                ssn: some_text("8HG9TK3"),
                                bversion: some_text("1.18.0"),
                                bdate: some_text("2024-04-15"),
                            },
                        ),
                        operatingsystem: Some(
                            GlpiOs {
                                name: some_text("Ubuntu 24.04.1 LTS"),
                                version: some_text("24.04"),
                                arch: some_text("x86_64"),
                                kernel_version: some_text("6.8.0-45-generic"),
                                install_date: some_text("2026-01-10 09:30:00"),
                            },
                        ),
                        cpus: Some(
                            vec![
                                GlpiCpu {
                                    name: some_text("12th Gen Intel(R) Core(TM) i7-12800H"),
                                    speed: Some(2400),
                                    cores: Some(14),
                                    threads: Some(20),
                                },
                            ],
                        ),
                        memories: Some(
                            vec![
                                GlpiMemory {
                                    capacity: Some(32768),
                                    memory_type: some_text("DDR5"),
                                    speed: Some(4800),
                                    numslots: Some(2),
                                },
                            ],
                        ),
                        drives: Some(
                            vec![
                                GlpiDrive {
                                    volumn: some_text("/"),
                                    filesystem: some_text("ext4"),
                                    total: Some(1048576),
                                    free: Some(496640),
                                    drive_type: some_text("NVMe PC801 SK hynix"),
                                },
                            ],
                        ),
                        networks: Some(
                            vec![
                                GlpiNetwork {
                                    description: some_text("wlp0s20f3"),
                                    mac: some_text("38:68:dd:94:a1:b2"),
                                    ipaddress: some_text("192.168.10.142"),
                                    ipmask: some_text("255.255.255.0"),
                                    status: some_text("up"),
                                    speed: some_text("Wi-Fi 6E"),
                                    network_type: some_text("Wireless"),
                                },
                            ],
                        ),
                        monitors: Some(
                            vec![
                                GlpiMonitor {
                                    name: some_text("MON-DELL-U2723QE"),
                                    serial: some_text("CN-0M381P-74261"),
                                    manufacturer: some_text("Dell Inc."),
                                    caption: some_text("UltraSharp 27 4K USB-C Hub Monitor"),
                                    resolution: some_text("3840x2160"),
                                },
                            ],
                        ),
                        softwares: Some(
                            vec![
                                GlpiSoftware {
                                    name: some_text("Docker Engine"),
                                    version: some_text("27.2.0"),
                                    publisher: some_text("Docker Inc."),
                                },
                                GlpiSoftware {
                                    name: some_text("Rust Toolchain"),
                                    version: some_text("1.80.1"),
                                    publisher: some_text("Rust Foundation"),
                                },
                            ],
                        ),
                        versionclient: some_text("GLPI-Agent_v1.11"),
                    },
                ),
            };
            r
        }
    }
}

/// What an asset is looked up by during reconciliation.
#[derive(Clone, Copy, Debug, PartialEq, Eq, Structural)]
pub enum MatchKind {
    HardwareUuid,
    Serial,
    Mac,
    Hostname,
}

/// One lookup of the reconciliation: what to look by, and the value.
#[derive(Clone, Debug)]
pub struct MatchKey {
    pub kind: MatchKind,
    pub value: String,
}

/// A lookup by its plain values.
pub open spec fn key_view(k: MatchKey) -> (MatchKind, Seq<char>) {
    (k.kind, k.value@)
}

/// A lookup of kind `kind` for an optional value: one when the value is there, none
/// otherwise.
pub open spec fn optional_key(kind: MatchKind, v: Option<Seq<char>>) -> Seq<(MatchKind, Seq<char>)> {
    match v {
        Some(t) => seq![(kind, t)],
        None => Seq::empty(),
    }
}

/// The MAC lookups of the network interfaces, in their order, for each interface that
/// reports a non-empty MAC address.
pub open spec fn mac_keys(nets: Seq<GlpiNetwork>) -> Seq<(MatchKind, Seq<char>)>
    decreases nets.len(),
{
    if nets.len() == 0 {
        Seq::empty()
    } else {
        mac_keys(nets.drop_last()) + match nets.last().mac {
            Some(m) => if m@.len() > 0 {
                seq![(MatchKind::Mac, m@)]
            } else {
                Seq::empty()
            },
            None => Seq::empty(),
        }
    }
}

/// The order in which an inventory is matched against the registered assets: hardware
/// UUID, then serial number, then each MAC address, then host name; the first lookup
/// that finds an asset decides.
pub open spec fn reconciliation_order(p: GlpiAgentPayload) -> Seq<(MatchKind, Seq<char>)> {
    let sm = summary_of(p);
    optional_key(MatchKind::HardwareUuid, sm.hardware_uuid) + optional_key(MatchKind::Serial, sm.serial)
        + mac_keys(payload_networks(p)) + optional_key(MatchKind::Hostname, sm.hostname)
}

/// The network interfaces an inventory reports; none when it has no such list.
pub open spec fn payload_networks(p: GlpiAgentPayload) -> Seq<GlpiNetwork> {
    match p.content {
        Some(c) => match c.networks {
            Some(n) => n@,
            None => Seq::empty(),
        },
        None => Seq::empty(),
    }
}

impl AgentService {
    fn push_key(keys: &mut Vec<MatchKey>, kind: MatchKind, v: Option<String>)
        ensures
            final(keys)@.map_values(|k: MatchKey| key_view(k)) == old(keys)@.map_values(
                |k: MatchKey| key_view(k),
            ) + optional_key(kind, opt_text(v)),
    {
        let ghost before = keys@;
        match v {
            Some(t) => {
                keys.push(MatchKey { kind, value: t });
            },
            None => {},
        }
        assert(keys@.map_values(|k: MatchKey| key_view(k)) =~= before.map_values(
            |k: MatchKey| key_view(k),
        ) + optional_key(kind, opt_text(v)));
    }

    /// The lookups that reconcile an inventory with a registered asset, in the order
    /// they are tried (see `reconciliation_order`).
    pub fn reconciliation_keys(payload: &GlpiAgentPayload) -> (r: Vec<MatchKey>)
        ensures
            r@.map_values(|k: MatchKey| key_view(k)) == reconciliation_order(*payload),
    {
        let facts = Self::inventory_facts(payload);
        let mut keys: Vec<MatchKey> = Vec::new();
        assert(keys@.map_values(|k: MatchKey| key_view(k)) =~= Seq::empty());
        Self::push_key(&mut keys, MatchKind::HardwareUuid, facts.hardware_uuid);
        Self::push_key(&mut keys, MatchKind::Serial, facts.serial);
        let ghost head = keys@.map_values(|k: MatchKey| key_view(k));
        let ghost nets = payload_networks(*payload);
        match &payload.content {
            Some(c) => match &c.networks {
                Some(ns) => {
                    let mut i: usize = 0;
                    while i < ns.len()
                        invariant
                            i <= ns@.len(),
                            nets == ns@,
                            keys@.map_values(|k: MatchKey| key_view(k)) == head + mac_keys(
                                nets.take(i as int),
                            ),
                        decreases ns@.len() - i,
                    {
                        assert(nets.take(i as int + 1).drop_last() =~= nets.take(i as int));
                        assert(nets.take(i as int + 1).last() == nets[i as int]);
                        assert(mac_keys(nets.take(i as int + 1)) == mac_keys(nets.take(i as int))
                            + match nets[i as int].mac {
                            Some(m) => if m@.len() > 0 {
                                seq![(MatchKind::Mac, m@)]
                            } else {
                                Seq::empty()
                            },
                            None => Seq::empty(),
                        });
                        let ghost before = keys@;
                        match &ns[i].mac {
                            Some(m) => {
                                if m.unicode_len() > 0 {
                                    keys.push(MatchKey { kind: MatchKind::Mac, value: m.clone() });
                                    assert(keys@.map_values(|k: MatchKey| key_view(k)) =~= before.map_values(
                                        |k: MatchKey| key_view(k),
                                    ).push((MatchKind::Mac, m@)));
                                }
                            },
                            None => {},
                        }
                        assert(keys@.map_values(|k: MatchKey| key_view(k)) =~= head + mac_keys(
                            nets.take(i as int + 1),
                        ));
                        i = i + 1;
                    }
                    assert(nets.take(ns@.len() as int) =~= nets);
                },
                None => {
                    assert(head + mac_keys(nets) =~= head);
                },
            },
            None => {
                assert(head + mac_keys(nets) =~= head);
            },
        }
        Self::push_key(&mut keys, MatchKind::Hostname, facts.hostname);
        assert(keys@.map_values(|k: MatchKey| key_view(k)) =~= reconciliation_order(*payload));
        keys
    }
}

/// The facts of an inventory that asset reconciliation works from.
#[derive(Clone, Debug)]
pub struct AgentFacts {
    pub hardware_uuid: Option<String>,
    pub serial: Option<String>,
    pub hostname: Option<String>,
    pub manufacturer: Option<String>,
    pub model: Option<String>,
    pub agent_version: String,
    pub primary_ip: Option<String>,
    pub primary_mac: Option<String>,
}

/// The agent version a payload reports, `GLPI-Agent_v1.11` when it reports none.
pub open spec fn agent_version_of(p: GlpiAgentPayload) -> Seq<char> {
    match p.content {
        Some(c) => match c.versionclient {
            Some(v) => v@,
            None => "GLPI-Agent_v1.11"@,
        },
        None => "GLPI-Agent_v1.11"@,
    }
}

/// Whether `field` is among the locked fields of an asset.
pub open spec fn is_locked(locked: Seq<String>, field: Seq<char>) -> bool {
    exists|i: int| 0 <= i < locked.len() && (#[trigger] locked[i])@ == field
}

/// How a reconciled asset is updated: each field only when it is not locked and the
/// inventory has a value for it.
#[derive(Clone, Debug)]
pub struct AssetUpdatePlan {
    pub update_name: bool,
    pub new_name: String,
    pub update_manufacturer: bool,
    pub update_model: bool,
    pub update_serial: bool,
    pub update_uuid: bool,
}

/// How a new asset is registered.
#[derive(Clone, Debug)]
pub struct NewAssetPlan {
    pub name: String,
    pub asset_type: String,
    pub status: String,
}

/// The name of a new asset: its host name, or `PC-` and the first eight characters of its
/// new UUID.
pub open spec fn new_asset_name(hostname: Option<Seq<char>>, new_id: u128) -> Seq<char> {
    match hostname {
        Some(h) => h,
        None => "PC-"@ + uuid_hyphenated(new_id).take(8),
    }
}

/// The memory of an inventory in its specification.
#[derive(Clone, Debug)]
pub struct MemorySpec {
    pub total_mb: i64,
    pub memory_type: String,
    pub slots_used: usize,
}

/// The sum of the known capacities of the first `n` modules.
pub open spec fn capacity_sum(ms: Seq<GlpiMemory>, n: int) -> int
    decreases n,
{
    if n <= 0 {
        0
    } else {
        capacity_sum(ms, n - 1) + match ms[n - 1].capacity {
            Some(c) => c as int,
            None => 0,
        }
    }
}

/// The first memory type among the modules that report one.
pub open spec fn first_memory_type(ms: Seq<GlpiMemory>) -> Option<Seq<char>>
    decreases ms.len(),
{
    if ms.len() == 0 {
        None
    } else {
        match ms[0].memory_type {
            Some(t) => Some(t@),
            None => first_memory_type(ms.drop_first()),
        }
    }
}

/// Integer division rounding toward zero, as Rust divides.
pub open spec fn div_toward_zero(a: int, b: int) -> int {
    if a >= 0 {
        a / b
    } else {
        -((-a) / b)
    }
}

/// A drive in the asset's specification; sizes in GB.
#[derive(Clone, Debug)]
pub struct StorageSpec {
    pub name: String,
    pub size_gb: i64,
    pub free_gb: i64,
    pub filesystem: Option<String>,
    pub drive_type: Option<String>,
}

/// A network interface in the asset's specification.
#[derive(Clone, Debug)]
pub struct NetworkSpec {
    pub name: String,
    pub mac: Option<String>,
    pub ip: Option<String>,
    pub netmask: Option<String>,
    pub status: String,
    pub speed: Option<String>,
}

/// A text or a default.
pub open spec fn text_or(o: Option<String>, default: Seq<char>) -> Seq<char> {
    match o {
        Some(t) => t@,
        None => default,
    }
}

/// The specification entry of a drive: its volume (or "Storage"), its sizes in GB
/// (unknown sizes count as 0), its file system and type.
pub open spec fn storage_spec_ok(s: StorageSpec, d: GlpiDrive) -> bool {
    &&& s.name@ == text_or(d.volumn, "Storage"@)
    &&& s.size_gb == div_toward_zero(
        match d.total {
            Some(t) => t as int,
            None => 0,
        },
        1024,
    )
    &&& s.free_gb == div_toward_zero(
        match d.free {
            Some(t) => t as int,
            None => 0,
        },
        1024,
    )
    &&& opt_text(s.filesystem) == opt_text(d.filesystem)
    &&& opt_text(s.drive_type) == opt_text(d.drive_type)
}

/// The specification entry of a network interface: its description (or "Interface"), its
/// addresses, its status (or "up") and speed.
pub open spec fn network_spec_ok(s: NetworkSpec, n: GlpiNetwork) -> bool {
    &&& s.name@ == text_or(n.description, "Interface"@)
    &&& opt_text(s.mac) == opt_text(n.mac)
    &&& opt_text(s.ip) == opt_text(n.ipaddress)
    &&& opt_text(s.netmask) == opt_text(n.ipmask)
    &&& s.status@ == text_or(n.status, "up"@)
    &&& opt_text(s.speed) == opt_text(n.speed)
}

fn text_or_default(o: &Option<String>, default: &str) -> (r: String)
    ensures
        r@ == text_or(*o, default@),
{
    match o {
        Some(t) => t.clone(),
        None => default.to_string(),
    }
}

fn clone_opt(o: &Option<String>) -> (r: Option<String>)
    ensures
        opt_text(r) == opt_text(*o),
{
    match o {
        Some(t) => Some(t.clone()),
        None => None,
    }
}

fn gb_of(mb: Option<i64>) -> (r: i64)
    ensures
        r == div_toward_zero(
            match mb {
                Some(t) => t as int,
                None => 0,
            },
            1024,
        ),
{
    let v: i64 = match mb {
        Some(t) => t,
        None => 0,
    };
    if v >= 0 {
        v / 1024
    } else {
        let m: i128 = 0i128 - (v as i128);
        let q: i128 = m / 1024;
        (0i128 - q) as i64
    }
}

impl AgentService {
    /// The facts of an inventory: hardware UUID and host name from the hardware section,
    /// serial, manufacturer and model from the BIOS, the agent version (by default
    /// `GLPI-Agent_v1.11`), and the first IP address and first MAC address among the
    /// network interfaces that report one.
    pub fn inventory_facts(payload: &GlpiAgentPayload) -> (r: AgentFacts)
        ensures
            opt_text(r.hardware_uuid) == summary_of(*payload).hardware_uuid,
            opt_text(r.serial) == summary_of(*payload).serial,
            opt_text(r.hostname) == summary_of(*payload).hostname,
            opt_text(r.manufacturer) == summary_of(*payload).manufacturer,
            opt_text(r.model) == summary_of(*payload).model,
            opt_text(r.primary_ip) == summary_of(*payload).ip,
            opt_text(r.primary_mac) == summary_of(*payload).mac,
            r.agent_version@ == agent_version_of(*payload),
    {
        match &payload.content {
            None => AgentFacts {
                hardware_uuid: None,
                serial: None,
                hostname: None,
                manufacturer: None,
                model: None,
                agent_version: "GLPI-Agent_v1.11".to_string(),
                primary_ip: None,
                primary_mac: None,
            },
            Some(c) => {
                let (hardware_uuid, hostname) = match &c.hardware {
                    Some(h) => (clone_opt(&h.uuid), clone_opt(&h.name)),
                    None => (None, None),
                };
                let (serial, manufacturer, model) = match &c.bios {
                    Some(b) => (clone_opt(&b.ssn), clone_opt(&b.smanufacturer), clone_opt(&b.smodel)),
                    None => (None, None, None),
                };
                let (primary_ip, primary_mac) = match &c.networks {
                    Some(nets) => (
                        Self::first_network_text(nets.as_slice(), true),
                        Self::first_network_text(nets.as_slice(), false),
                    ),
                    None => (None, None),
                };
                AgentFacts {
                    hardware_uuid,
                    serial,
                    hostname,
                    manufacturer,
                    model,
                    agent_version: text_or_default(&c.versionclient, "GLPI-Agent_v1.11"),
                    primary_ip,
                    primary_mac,
                }
            },
        }
    }

    fn first_network_text(nets: &[GlpiNetwork], ip: bool) -> (r: Option<String>)
        ensures
            opt_text(r) == first_network_field(nets@, ip),
    {
        let mut i: usize = 0;
        assert(nets@.skip(0) =~= nets@);
        while i < nets.len()
            invariant
                i <= nets.len(),
                first_network_field(nets@.skip(i as int), ip) == first_network_field(nets@, ip),
            decreases nets.len() - i,
        {
            proof {
                assert(nets@.skip(i as int).drop_first() =~= nets@.skip(i + 1));
                assert(nets@.skip(i as int)[0] == nets@[i as int]);
            }
            let v = if ip {
                &nets[i].ipaddress
            } else {
                &nets[i].mac
            };
            match v {
                Some(t) => {
                    return Some(t.clone());
                },
                None => {},
            }
            i = i + 1;
        }
        None
    }

    /// Whether a reconciliation decision rejects the import.
    pub fn is_rejected(decision: &str) -> (r: bool)
        ensures
            r == (decision@ == "reject"@),
    {
        chars_are(chars_of(decision).as_slice(), "reject")
    }

    /// The answer to an inventory that a reconciliation rule rejected.
    pub fn rejection_response(hostname: Option<String>) -> (r: GlpiAgentResponse)
        ensures
            r.status@ == "rejected"@,
            r.message@ == "El equipo fue rechazado por una regla de reconciliación de inventario"@,
            r.asset_id == 0,
            r.action_taken@ == "rejected_by_rule"@,
            r.asset_name@ == text_or(hostname, "Unknown"@),
    {
        GlpiAgentResponse {
            status: "rejected".to_string(),
            message: "El equipo fue rechazado por una regla de reconciliación de inventario".to_string(),
            asset_id: 0,
            action_taken: "rejected_by_rule".to_string(),
            asset_name: text_or_default(&hostname, "Unknown"),
        }
    }

    fn field_locked(locked_fields: &[String], field: &str) -> (r: bool)
        ensures
            r == is_locked(locked_fields@, field@),
    {
        let f = field.to_string();
        let mut i: usize = 0;
        while i < locked_fields.len()
            invariant
                i <= locked_fields.len(),
                f@ == field@,
                forall|j: int| 0 <= j < i ==> (#[trigger] locked_fields@[j])@ != field@,
            decreases locked_fields.len() - i,
        {
            if locked_fields[i] == f {
                return true;
            }
            i = i + 1;
        }
        false
    }

    /// How an existing asset is updated from an inventory: each of name, manufacturer,
    /// model, serial number and UUID is written only when the asset does not lock it and the
    /// inventory has a value for it; the name the asset keeps is the host name when the
    /// name is written, its current name otherwise.
    pub fn plan_asset_update(
        locked_fields: &[String],
        current_name: &str,
        hostname: Option<&str>,
        has_manufacturer: bool,
        has_model: bool,
        has_serial: bool,
        has_uuid: bool,
    ) -> (r: AssetUpdatePlan)
        ensures
            r.update_name == (!is_locked(locked_fields@, "name"@) && hostname is Some),
            r.new_name@ == if r.update_name {
                hostname.unwrap()@
            } else {
                current_name@
            },
            r.update_manufacturer == (!is_locked(locked_fields@, "manufacturer"@) && has_manufacturer),
            r.update_model == (!is_locked(locked_fields@, "model"@) && has_model),
            r.update_serial == (!is_locked(locked_fields@, "serial_number"@) && has_serial),
            r.update_uuid == (!is_locked(locked_fields@, "uuid"@) && has_uuid),
    {
        let update_name = !Self::field_locked(locked_fields, "name") && hostname.is_some();
        let new_name = match hostname {
            Some(h) => if update_name {
                h.to_string()
            } else {
                current_name.to_string()
            },
            None => current_name.to_string(),
        };
        AssetUpdatePlan {
            update_name,
            new_name,
            update_manufacturer: !Self::field_locked(locked_fields, "manufacturer")
                && has_manufacturer,
            update_model: !Self::field_locked(locked_fields, "model") && has_model,
            update_serial: !Self::field_locked(locked_fields, "serial_number") && has_serial,
            update_uuid: !Self::field_locked(locked_fields, "uuid") && has_uuid,
        }
    }

    /// How a new asset is registered: named by its host name or `PC-` and the first eight
    /// characters of its new UUID; a server when its lower-cased name mentions `srv` or
    /// `server`, a computer otherwise; in the trash when the reconciliation decision is
    /// `trash`, active otherwise.
    pub fn plan_new_asset(hostname: Option<&str>, new_id: u128, decision: &str) -> (r: NewAssetPlan)
        ensures
            r.name@ == new_asset_name(opt_str_view(hostname), new_id),
            r.asset_type@ == if contains(lowercase_text(r.name@), "srv"@) || contains(
                lowercase_text(r.name@),
                "server"@,
            ) {
                "server"@
            } else {
                "computer"@
            },
            r.status@ == if decision@ == "trash"@ {
                "trash"@
            } else {
                "active"@
            },
    {
        let name = match hostname {
            Some(h) => h.to_string(),
            None => {
                let id_text = chars_of(uuid_string(new_id).as_str());
                proof {
                    crate::ids::lemma_uuid_hyphenated_len(new_id);
                }
                let head = slice_chars(id_text.as_slice(), 0, 8);
                assert(head@ =~= uuid_hyphenated(new_id).take(8));
                join2("PC-", string_of(head.as_slice()).as_str())
            },
        };
        let lower = chars_of(to_lowercase(name.as_str()).as_str());
        let asset_type = if chars_contain(lower.as_slice(), chars_of("srv").as_slice())
            || chars_contain(lower.as_slice(), chars_of("server").as_slice()) {
            "server".to_string()
        } else {
            "computer".to_string()
        };
        let status = if chars_are(chars_of(decision).as_slice(), "trash") {
            "trash".to_string()
        } else {
            "active".to_string()
        };
        NewAssetPlan { name, asset_type, status }
    }

    /// The memory of an inventory: the sum of the known capacities, the first reported
    /// type (or "RAM") and the number of modules.
    pub fn memory_spec(memories: &[GlpiMemory]) -> (r: MemorySpec)
        requires
            forall|k: int|
                0 <= k <= memories@.len() ==> i64::MIN <= #[trigger] capacity_sum(memories@, k)
                    <= i64::MAX,
        ensures
            r.total_mb == capacity_sum(memories@, memories@.len() as int),
            r.memory_type@ == match first_memory_type(memories@) {
                Some(t) => t,
                None => "RAM"@,
            },
            r.slots_used == memories@.len(),
    {
        let mut total: i64 = 0;
        let mut i: usize = 0;
        while i < memories.len()
            invariant
                i <= memories.len(),
                total == capacity_sum(memories@, i as int),
                forall|k: int|
                    0 <= k <= memories@.len() ==> i64::MIN <= #[trigger] capacity_sum(memories@, k)
                        <= i64::MAX,
            decreases memories.len() - i,
        {
            assert(i64::MIN <= capacity_sum(memories@, i + 1) <= i64::MAX);
            match memories[i].capacity {
                Some(c) => {
                    total = total + c;
                },
                None => {},
            }
            i = i + 1;
        }
        let mut j: usize = 0;
        let mut memory_type = "RAM".to_string();
        assert(memories@.skip(0) =~= memories@);
        while j < memories.len()
            invariant
                j <= memories.len(),
                total == capacity_sum(memories@, memories@.len() as int),
                first_memory_type(memories@.skip(j as int)) == first_memory_type(memories@),
                memory_type@ == "RAM"@,
            decreases memories.len() - j,
        {
            proof {
                assert(memories@.skip(j as int).drop_first() =~= memories@.skip(j + 1));
                assert(memories@.skip(j as int)[0] == memories@[j as int]);
            }
            match &memories[j].memory_type {
                Some(t) => {
                    return MemorySpec {
                        total_mb: total,
                        memory_type: t.clone(),
                        slots_used: memories.len(),
                    };
                },
                None => {},
            }
            j = j + 1;
        }
        MemorySpec { total_mb: total, memory_type, slots_used: memories.len() }
    }

    /// The specification entries of the drives, in order.
    pub fn storage_specs(drives: &[GlpiDrive]) -> (r: Vec<StorageSpec>)
        ensures
            r@.len() == drives@.len(),
            forall|i: int| 0 <= i < drives@.len() ==> storage_spec_ok(#[trigger] r@[i], drives@[i]),
    {
        let mut out: Vec<StorageSpec> = Vec::new();
        let mut i: usize = 0;
        while i < drives.len()
            invariant
                i <= drives.len(),
                out@.len() == i,
                forall|j: int| 0 <= j < i ==> storage_spec_ok(#[trigger] out@[j], drives@[j]),
            decreases drives.len() - i,
        {
            let d = &drives[i];
            out.push(
                StorageSpec {
                    name: text_or_default(&d.volumn, "Storage"),
                    size_gb: gb_of(d.total),
                    free_gb: gb_of(d.free),
                    filesystem: clone_opt(&d.filesystem),
                    drive_type: clone_opt(&d.drive_type),
                },
            );
            i = i + 1;
        }
        out
    }

    /// The specification entries of the network interfaces, in order.
    pub fn network_specs(networks: &[GlpiNetwork]) -> (r: Vec<NetworkSpec>)
        ensures
            r@.len() == networks@.len(),
            forall|i: int| 0 <= i < networks@.len() ==> network_spec_ok(#[trigger] r@[i], networks@[i]),
    {
        let mut out: Vec<NetworkSpec> = Vec::new();
        let mut i: usize = 0;
        while i < networks.len()
            invariant
                i <= networks.len(),
                out@.len() == i,
                forall|j: int| 0 <= j < i ==> network_spec_ok(#[trigger] out@[j], networks@[j]),
            decreases networks.len() - i,
        {
            let n = &networks[i];
            out.push(
                NetworkSpec {
                    name: text_or_default(&n.description, "Interface"),
                    mac: clone_opt(&n.mac),
                    ip: clone_opt(&n.ipaddress),
                    netmask: clone_opt(&n.ipmask),
                    status: text_or_default(&n.status, "up"),
                    speed: clone_opt(&n.speed),
                },
            );
            i = i + 1;
        }
        out
    }

    /// The answer to a processed inventory.
    pub fn processed_response(asset_id: u128, action_taken: String, asset_name: String) -> (r:
        GlpiAgentResponse)
        ensures
            r.status@ == "ok"@,
            r.message@ == "Asset '"@ + asset_name@ + "' successfully processed via GLPI-Agent protocol"@,
            r.asset_id == asset_id,
            r.action_taken@ == action_taken@,
            r.asset_name@ == asset_name@,
    {
        let m = join2("Asset '", asset_name.as_str());
        let message = join2(m.as_str(), "' successfully processed via GLPI-Agent protocol");
        GlpiAgentResponse { status: "ok".to_string(), message, asset_id, action_taken, asset_name }
    }
}

/// An optional borrowed text by its view.
pub open spec fn opt_str_view(o: Option<&str>) -> Option<Seq<char>> {
    match o {
        Some(s) => Some(s@),
        None => None,
    }
}

/// The operating system in the asset's specification, its name, version and
/// architecture normalised by the dictionaries.
#[derive(Clone, Debug)]
pub struct OsSpec {
    pub name: String,
    pub version: String,
    pub arch: String,
    pub kernel: Option<String>,
    pub install_date: Option<String>,
}

/// The first processor in the asset's specification.
#[derive(Clone, Debug)]
pub struct CpuSpec {
    pub name: Option<String>,
    pub speed_mhz: Option<i64>,
    pub cores: Option<i64>,
    pub threads: Option<i64>,
}

/// A software package in the asset's specification, its name normalised.
#[derive(Clone, Debug)]
pub struct SoftwareSpec {
    pub name: String,
    pub version: Option<String>,
    pub publisher: Option<String>,
}

/// The name a software entry gets: nothing for a package without a name, otherwise what
/// the software dictionary makes of it.
pub open spec fn software_name(rules: Seq<RuleWithDetails>, raw: Seq<char>) -> Seq<char> {
    if raw.len() == 0 {
        Seq::empty()
    } else if trim(raw).len() == 0 {
        Seq::empty()
    } else {
        dictionary_value(rules, "raw_software_name"@, "normalized_software_name"@, trim(raw))
    }
}

impl AgentService {
    /// The operating system entry: the dictionaries' forms of name, version and
    /// architecture (a missing one read as empty), kernel version and install date as
    /// reported.
    pub fn os_spec(
        os: &GlpiOs,
        name_rules: &[RuleWithDetails],
        version_rules: &[RuleWithDetails],
        arch_rules: &[RuleWithDetails],
    ) -> (r: OsSpec)
        ensures
            r.name@ == dictionary_value(
                name_rules@,
                "raw_os_name"@,
                "normalized_os_name"@,
                trim(text_or(os.name, Seq::empty())),
            ),
            r.version@ == dictionary_value(
                version_rules@,
                "raw_version"@,
                "normalized_version"@,
                trim(text_or(os.version, Seq::empty())),
            ),
            r.arch@ == dictionary_value(
                arch_rules@,
                "raw_arch"@,
                "normalized_arch"@,
                trim(text_or(os.arch, Seq::empty())),
            ),
            opt_text(r.kernel) == opt_text(os.kernel_version),
            opt_text(r.install_date) == opt_text(os.install_date),
    {
        proof {
            reveal_strlit("");
            assert(""@ =~= Seq::<char>::empty());
        }
        let name = text_or_default(&os.name, "");
        let version = text_or_default(&os.version, "");
        let arch = text_or_default(&os.arch, "");
        let (n, v, a) = DictionaryService::normalize_os(
            name_rules,
            version_rules,
            arch_rules,
            name.as_str(),
            version.as_str(),
            arch.as_str(),
        );
        OsSpec {
            name: n,
            version: v,
            arch: a,
            kernel: clone_opt(&os.kernel_version),
            install_date: clone_opt(&os.install_date),
        }
    }

    /// The processor entry: the first processor as reported, if there is one.
    pub fn cpu_spec(cpus: &[GlpiCpu]) -> (r: Option<CpuSpec>)
        ensures
            r is Some <==> cpus@.len() > 0,
            r matches Some(c) ==> opt_text(c.name) == opt_text(cpus@[0].name) && c.speed_mhz
                == cpus@[0].speed && c.cores == cpus@[0].cores && c.threads == cpus@[0].threads,
    {
        if cpus.len() == 0 {
            return None;
        }
        let c = &cpus[0];
        Some(CpuSpec { name: clone_opt(&c.name), speed_mhz: c.speed, cores: c.cores, threads: c.threads })
    }

    /// The software entries, in order, each name through the software dictionary.
    pub fn software_specs(softwares: &[GlpiSoftware], rules: &[RuleWithDetails]) -> (r: Vec<SoftwareSpec>)
        ensures
            r@.len() == softwares@.len(),
            forall|i: int|
                0 <= i < softwares@.len() ==> {
                    &&& (#[trigger] r@[i]).name@ == software_name(
                        rules@,
                        text_or(softwares@[i].name, Seq::empty()),
                    )
                    &&& opt_text(r@[i].version) == opt_text(softwares@[i].version)
                    &&& opt_text(r@[i].publisher) == opt_text(softwares@[i].publisher)
                },
    {
        let mut out: Vec<SoftwareSpec> = Vec::new();
        let mut i: usize = 0;
        while i < softwares.len()
            invariant
                i <= softwares.len(),
                out@.len() == i,
                forall|j: int|
                    0 <= j < i ==> {
                        &&& (#[trigger] out@[j]).name@ == software_name(
                            rules@,
                            text_or(softwares@[j].name, Seq::empty()),
                        )
                        &&& opt_text(out@[j].version) == opt_text(softwares@[j].version)
                        &&& opt_text(out@[j].publisher) == opt_text(softwares@[j].publisher)
                    },
            decreases softwares.len() - i,
        {
            let sw = &softwares[i];
            proof {
                reveal_strlit("");
                assert(""@ =~= Seq::<char>::empty());
            }
            let raw = text_or_default(&sw.name, "");
            let name = if chars_of(raw.as_str()).len() == 0 {
                String::new()
            } else {
                DictionaryService::normalize_software(rules, raw.as_str())
            };
            out.push(
                SoftwareSpec {
                    name,
                    version: clone_opt(&sw.version),
                    publisher: clone_opt(&sw.publisher),
                },
            );
            i = i + 1;
        }
        out
    }
}

} // verus!
