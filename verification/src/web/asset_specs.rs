use vstd::prelude::*;

use crate::numbers::{int_text, push_int};
use crate::rules::patterns::opt_text;
use crate::text::{chars_of, join2};

verus! {

broadcast use vstd::string::group_string_axioms;

/// A scalar of an asset's specification document.
#[derive(Clone, Debug)]
pub enum SpecScalar {
    Text(String),
    Int(i64),
    Other,
}

/// A top-level entry of an asset's specification document: a text, an integer, a record
/// of scalars, a list of records, or anything else.
#[derive(Clone, Debug)]
pub enum SpecEntry {
    Text(String),
    Int(i64),
    Record(Vec<(String, SpecScalar)>),
    List(Vec<Vec<(String, SpecScalar)>>),
    Other,
}

/// An asset's specification document: named entries, names distinct.
#[derive(Clone, Debug)]
pub struct AssetSpecs {
    pub entries: Vec<(String, SpecEntry)>,
}

/// The value of the first field of `fields` named `key`, if there is one.
pub open spec fn field_of<T>(fields: Seq<(String, T)>, key: Seq<char>) -> Option<T>
    decreases fields.len(),
{
    if fields.len() == 0 {
        None
    } else if fields[0].0@ == key {
        Some(fields[0].1)
    } else {
        field_of(fields.drop_first(), key)
    }
}

/// A scalar's text, if it is one.
pub open spec fn scalar_text(s: Option<SpecScalar>) -> Option<Seq<char>> {
    match s {
        Some(SpecScalar::Text(t)) => Some(t@),
        _ => None,
    }
}

/// A scalar's integer, if it is one.
pub open spec fn scalar_int(s: Option<SpecScalar>) -> Option<i64> {
    match s {
        Some(SpecScalar::Int(v)) => Some(v),
        _ => None,
    }
}

/// The field `key` of the record entry `name`, if both exist.
pub open spec fn record_field(specs: AssetSpecs, name: Seq<char>, key: Seq<char>) -> Option<SpecScalar> {
    match field_of(specs.entries@, name) {
        Some(SpecEntry::Record(r)) => field_of(r@, key),
        _ => None,
    }
}

/// The text entry `name`, if it is one.
pub open spec fn entry_text(specs: AssetSpecs, name: Seq<char>) -> Option<Seq<char>> {
    match field_of(specs.entries@, name) {
        Some(SpecEntry::Text(t)) => Some(t@),
        _ => None,
    }
}

/// The integer entry `name`, if it is one.
pub open spec fn entry_int(specs: AssetSpecs, name: Seq<char>) -> Option<i64> {
    match field_of(specs.entries@, name) {
        Some(SpecEntry::Int(v)) => Some(v),
        _ => None,
    }
}

/// The first record of the list entry `name`, if there is one.
pub open spec fn first_of_list(specs: AssetSpecs, name: Seq<char>) -> Option<Seq<(String, SpecScalar)>> {
    match field_of(specs.entries@, name) {
        Some(SpecEntry::List(l)) => if l@.len() > 0 {
            Some(l@[0]@)
        } else {
            None
        },
        _ => None,
    }
}

/// How the processor shows: the `cpu` text, or the name of the `cpu` record, or "No
/// especificado".
pub open spec fn cpu_text(specs: AssetSpecs) -> Seq<char> {
    match entry_text(specs, "cpu"@) {
        Some(t) => t,
        None => match scalar_text(record_field(specs, "cpu"@, "name"@)) {
            Some(n) => n,
            None => "No especificado"@,
        },
    }
}

/// How the cores show: cores, threads and speed when all are known, cores and threads, or
/// cores alone; nothing without cores (from the `cpu` record, or the `cores` entry).
pub open spec fn cores_text(specs: AssetSpecs) -> Option<Seq<char>> {
    let cores = match scalar_int(record_field(specs, "cpu"@, "cores"@)) {
        Some(c) => Some(c),
        None => entry_int(specs, "cores"@),
    };
    let threads = scalar_int(record_field(specs, "cpu"@, "threads"@));
    let speed = scalar_int(record_field(specs, "cpu"@, "speed_mhz"@));
    match (cores, threads, speed) {
        (Some(c), Some(t), Some(s)) => Some(
            int_text(c as int) + " Núcleos / "@ + int_text(t as int) + " Hilos @ "@ + int_text(
                s as int,
            ) + " MHz"@,
        ),
        (Some(c), Some(t), None) => Some(
            int_text(c as int) + " Núcleos / "@ + int_text(t as int) + " Hilos"@,
        ),
        (Some(c), None, _) => Some(int_text(c as int) + " Núcleos lógicos"@),
        _ => None,
    }
}

/// How the operating system shows: the name of the `os` record, the `os` text, or "No
/// detectado".
pub open spec fn os_text(specs: AssetSpecs) -> Seq<char> {
    match scalar_text(record_field(specs, "os"@, "name"@)) {
        Some(n) => n,
        None => match entry_text(specs, "os"@) {
            Some(t) => t,
            None => "No detectado"@,
        },
    }
}

/// How the first network interface's field `key` shows, or the top-level entry `alt`, or
/// `-`.
pub open spec fn network_text(specs: AssetSpecs, key: Seq<char>, alt: Seq<char>) -> Seq<char> {
    match first_of_list(specs, "networks"@) {
        Some(first) => match scalar_text(field_of(first, key)) {
            Some(v) => v,
            None => match entry_text(specs, alt) {
                Some(t) => t,
                None => "-"@,
            },
        },
        None => match entry_text(specs, alt) {
            Some(t) => t,
            None => "-"@,
        },
    }
}

/// Displays of an asset's specification document on its detail page.
pub struct AssetSpecDisplay;

impl AssetSpecDisplay {
    fn lookup<'a>(fields: &'a Vec<(String, SpecEntry)>, key: &str) -> (r: Option<&'a SpecEntry>)
        ensures
            match r {
                Some(e) => field_of(fields@, key@) == Some(*e),
                None => field_of(fields@, key@) is None,
            },
    {
        let k = key.to_string();
        let mut i: usize = 0;
        assert(fields@.skip(0) =~= fields@);
        while i < fields.len()
            invariant
                i <= fields.len(),
                k@ == key@,
                field_of(fields@.skip(i as int), key@) == field_of(fields@, key@),
            decreases fields.len() - i,
        {
            assert(fields@.skip(i as int).drop_first() =~= fields@.skip(i + 1));
            assert(fields@.skip(i as int)[0] == fields@[i as int]);
            if fields[i].0 == k {
                return Some(&fields[i].1);
            }
            i = i + 1;
        }
        None
    }

    fn lookup_scalar<'a>(fields: &'a Vec<(String, SpecScalar)>, key: &str) -> (r: Option<&'a SpecScalar>)
        ensures
            match r {
                Some(e) => field_of(fields@, key@) == Some(*e),
                None => field_of(fields@, key@) is None,
            },
    {
        let k = key.to_string();
        let mut i: usize = 0;
        assert(fields@.skip(0) =~= fields@);
        while i < fields.len()
            invariant
                i <= fields.len(),
                k@ == key@,
                field_of(fields@.skip(i as int), key@) == field_of(fields@, key@),
            decreases fields.len() - i,
        {
            assert(fields@.skip(i as int).drop_first() =~= fields@.skip(i + 1));
            assert(fields@.skip(i as int)[0] == fields@[i as int]);
            if fields[i].0 == k {
                return Some(&fields[i].1);
            }
            i = i + 1;
        }
        None
    }

    fn record_scalar(specs: &AssetSpecs, name: &str, key: &str) -> (r: Option<SpecScalar>)
        ensures
            scalar_text(r) == scalar_text(record_field(*specs, name@, key@)),
            scalar_int(r) == scalar_int(record_field(*specs, name@, key@)),
    {
        match Self::lookup(&specs.entries, name) {
            Some(SpecEntry::Record(r)) => match Self::lookup_scalar(r, key) {
                Some(SpecScalar::Text(t)) => Some(SpecScalar::Text(t.clone())),
                Some(SpecScalar::Int(v)) => Some(SpecScalar::Int(*v)),
                _ => None,
            },
            _ => None,
        }
    }

    fn text_entry(specs: &AssetSpecs, name: &str) -> (r: Option<String>)
        ensures
            opt_text(r) == entry_text(*specs, name@),
    {
        match Self::lookup(&specs.entries, name) {
            Some(SpecEntry::Text(t)) => Some(t.clone()),
            _ => None,
        }
    }

    /// How the processor shows (see `cpu_text`).
    pub fn cpu_display(specs: &AssetSpecs) -> (r: String)
        ensures
            r@ == cpu_text(*specs),
    {
        match Self::text_entry(specs, "cpu") {
            Some(t) => t,
            None => match Self::record_scalar(specs, "cpu", "name") {
                Some(SpecScalar::Text(n)) => n,
                _ => "No especificado".to_string(),
            },
        }
    }

    /// How the cores show (see `cores_text`).
    pub fn cpu_cores_display(specs: &AssetSpecs) -> (r: Option<String>)
        ensures
            opt_text(r) == cores_text(*specs),
    {
        let cores: Option<i64> = match Self::record_scalar(specs, "cpu", "cores") {
            Some(SpecScalar::Int(c)) => Some(c),
            _ => match Self::lookup(&specs.entries, "cores") {
                Some(SpecEntry::Int(c)) => Some(*c),
                _ => None,
            },
        };
        let threads: Option<i64> = match Self::record_scalar(specs, "cpu", "threads") {
            Some(SpecScalar::Int(t)) => Some(t),
            _ => None,
        };
        let speed: Option<i64> = match Self::record_scalar(specs, "cpu", "speed_mhz") {
            Some(SpecScalar::Int(s)) => Some(s),
            _ => None,
        };
        match (cores, threads, speed) {
            (Some(c), Some(t), Some(s)) => {
                let mut out = String::new();
                push_int(&mut out, c);
                out.append(" Núcleos / ");
                push_int(&mut out, t);
                out.append(" Hilos @ ");
                push_int(&mut out, s);
                out.append(" MHz");
                Some(out)
            },
            (Some(c), Some(t), None) => {
                let mut out = String::new();
                push_int(&mut out, c);
                out.append(" Núcleos / ");
                push_int(&mut out, t);
                out.append(" Hilos");
                Some(out)
            },
            (Some(c), None, _) => {
                let mut out = String::new();
                push_int(&mut out, c);
                out.append(" Núcleos lógicos");
                Some(out)
            },
            _ => None,
        }
    }

    /// How the operating system shows (see `os_text`).
    pub fn os_display(specs: &AssetSpecs) -> (r: String)
        ensures
            r@ == os_text(*specs),
    {
        match Self::record_scalar(specs, "os", "name") {
            Some(SpecScalar::Text(n)) => n,
            _ => match Self::text_entry(specs, "os") {
                Some(t) => t,
                None => "No detectado".to_string(),
            },
        }
    }

    fn network_field(specs: &AssetSpecs, key: &str, alt: &str) -> (r: String)
        ensures
            r@ == network_text(*specs, key@, alt@),
    {
        let first: Option<&Vec<(String, SpecScalar)>> = match Self::lookup(&specs.entries, "networks") {
            Some(SpecEntry::List(l)) => if l.len() > 0 {
                Some(&l[0])
            } else {
                None
            },
            _ => None,
        };
        let from_first: Option<String> = match first {
            Some(f) => match Self::lookup_scalar(f, key) {
                Some(SpecScalar::Text(v)) => Some(v.clone()),
                _ => None,
            },
            None => None,
        };
        match from_first {
            Some(v) => v,
            None => match Self::text_entry(specs, alt) {
                Some(t) => t,
                None => "-".to_string(),
            },
        }
    }

    /// The IP address shown: the first interface's `ip`, the `ip` entry, or `-`.
    pub fn network_ip_display(specs: &AssetSpecs) -> (r: String)
        ensures
            r@ == network_text(*specs, "ip"@, "ip"@),
    {
        Self::network_field(specs, "ip", "ip")
    }

    /// The MAC address shown: the first interface's `mac`, the `mac` entry, or `-`.
    pub fn network_mac_display(specs: &AssetSpecs) -> (r: String)
        ensures
            r@ == network_text(*specs, "mac"@, "mac"@),
    {
        Self::network_field(specs, "mac", "mac")
    }

    /// How the memory slots show: used and total slots of the `memory` record, the
    /// `ram_slots` text, or nothing.
    pub fn ram_slots_display(specs: &AssetSpecs) -> (r: Option<String>)
        ensures
            opt_text(r) == match (
                scalar_int(record_field(*specs, "memory"@, "slots_used"@)),
                scalar_int(record_field(*specs, "memory"@, "slots_total"@)),
            ) {
                (Some(u), Some(t)) => Some(
                    int_text(u as int) + " de "@ + int_text(t as int) + " ranuras en uso"@,
                ),
                _ => entry_text(*specs, "ram_slots"@),
            },
    {
        match (Self::record_scalar(specs, "memory", "slots_used"), Self::record_scalar(specs, "memory", "slots_total")) {
            (Some(SpecScalar::Int(u)), Some(SpecScalar::Int(t))) => {
                let mut out = String::new();
                push_int(&mut out, u);
                out.append(" de ");
                push_int(&mut out, t);
                out.append(" ranuras en uso");
                Some(out)
            },
            _ => Self::text_entry(specs, "ram_slots"),
        }
    }

    /// How the operating system details show: architecture and kernel of the `os` entry
    /// when it exists, otherwise the `arch` text.
    pub fn os_details_display(specs: &AssetSpecs) -> (r: Option<String>)
        ensures
            opt_text(r) == if field_of(specs.entries@, "os"@) is Some {
                match (
                    scalar_text(record_field(*specs, "os"@, "arch"@)),
                    scalar_text(record_field(*specs, "os"@, "kernel"@)),
                ) {
                    (Some(a), Some(k)) => Some("Arch: "@ + a + " | Kernel: "@ + k),
                    (Some(a), None) => Some("Arch: "@ + a),
                    (None, Some(k)) => Some("Kernel: "@ + k),
                    _ => None,
                }
            } else {
                match entry_text(*specs, "arch"@) {
                    Some(a) => Some("Arch: "@ + a),
                    None => None,
                }
            },
    {
        if Self::lookup(&specs.entries, "os").is_some() {
            let arch = match Self::record_scalar(specs, "os", "arch") {
                Some(SpecScalar::Text(a)) => Some(a),
                _ => None,
            };
            let kernel = match Self::record_scalar(specs, "os", "kernel") {
                Some(SpecScalar::Text(k)) => Some(k),
                _ => None,
            };
            match (arch, kernel) {
                (Some(a), Some(k)) => {
                    let x = join2("Arch: ", a.as_str());
                    let y = join2(x.as_str(), " | Kernel: ");
                    Some(join2(y.as_str(), k.as_str()))
                },
                (Some(a), None) => Some(join2("Arch: ", a.as_str())),
                (None, Some(k)) => Some(join2("Kernel: ", k.as_str())),
                _ => None,
            }
        } else {
            match Self::text_entry(specs, "arch") {
                Some(a) => Some(join2("Arch: ", a.as_str())),
                None => None,
            }
        }
    }

    /// How the first network interface shows: its name and speed, or its name alone;
    /// nothing without a named first interface.
    pub fn network_interface_display(specs: &AssetSpecs) -> (r: Option<String>)
        ensures
            opt_text(r) == match first_of_list(*specs, "networks"@) {
                Some(first) => match (scalar_text(field_of(first, "name"@)), scalar_text(field_of(first, "speed"@))) {
                    (Some(n), Some(s)) => Some("Interfaz "@ + n + " ("@ + s + ")"@),
                    (Some(n), None) => Some("Interfaz "@ + n),
                    _ => None,
                },
                None => None,
            },
    {
        let first: Option<&Vec<(String, SpecScalar)>> = match Self::lookup(&specs.entries, "networks") {
            Some(SpecEntry::List(l)) => if l.len() > 0 {
                Some(&l[0])
            } else {
                None
            },
            _ => None,
        };
        match first {
            Some(f) => {
                let name = match Self::lookup_scalar(f, "name") {
                    Some(SpecScalar::Text(n)) => Some(n.clone()),
                    _ => None,
                };
                let speed = match Self::lookup_scalar(f, "speed") {
                    Some(SpecScalar::Text(s)) => Some(s.clone()),
                    _ => None,
                };
                match (name, speed) {
                    (Some(n), Some(s)) => {
                        let x = join2("Interfaz ", n.as_str());
                        let y = join2(x.as_str(), " (");
                        let z = join2(y.as_str(), s.as_str());
                        Some(join2(z.as_str(), ")"))
                    },
                    (Some(n), None) => Some(join2("Interfaz ", n.as_str())),
                    _ => None,
                }
            },
            None => None,
        }
    }

    fn scalar_text_of(fields: &Vec<(String, SpecScalar)>, key: &str) -> (r: Option<String>)
        ensures
            opt_text(r) == scalar_text(field_of(fields@, key@)),
    {
        match Self::lookup_scalar(fields, key) {
            Some(SpecScalar::Text(t)) => Some(t.clone()),
            _ => None,
        }
    }

    fn scalar_int_of(fields: &Vec<(String, SpecScalar)>, key: &str) -> (r: Option<i64>)
        ensures
            r == scalar_int(field_of(fields@, key@)),
    {
        match Self::lookup_scalar(fields, key) {
            Some(SpecScalar::Int(v)) => Some(*v),
            _ => None,
        }
    }

    fn drive_display(d: &Vec<(String, SpecScalar)>) -> (r: String)
        ensures
            r@ == drive_text(d@),
    {
        let name = match Self::scalar_text_of(d, "name") {
            Some(n) => n,
            None => "Disco".to_string(),
        };
        match (Self::scalar_int_of(d, "size_gb"), Self::scalar_int_of(d, "free_gb")) {
            (Some(sz), Some(f)) => {
                let mut out = join2(name.as_str(), " (");
                push_int(&mut out, sz);
                out.append(" GB, ");
                push_int(&mut out, f);
                out.append(" GB libres)");
                out
            },
            (Some(sz), None) => {
                let mut out = join2(name.as_str(), " (");
                push_int(&mut out, sz);
                out.append(" GB)");
                out
            },
            _ => name,
        }
    }

    /// How the storage shows (see `storage_text`).
    pub fn storage_display(specs: &AssetSpecs) -> (r: String)
        ensures
            r@ == storage_text(*specs),
    {
        match Self::lookup(&specs.entries, "storage") {
            Some(SpecEntry::List(l)) => {
                if l.len() > 0 {
                    let mut out = String::new();
                    let mut i: usize = 0;
                    while i < l.len()
                        invariant
                            0 < l@.len(),
                            i <= l@.len(),
                            out@ == joined_drives(l@, i as int),
                        decreases l.len() - i,
                    {
                        if i > 0 {
                            out.append(" • ");
                        }
                        let d = Self::drive_display(&l[i]);
                        out.append(d.as_str());
                        i = i + 1;
                    }
                    return out;
                }
            },
            _ => {},
        }
        match Self::text_entry(specs, "storage") {
            Some(t) => t,
            None => "No especificado".to_string(),
        }
    }

    /// The software packages shown: name, version and publisher of each record with a name
    /// (missing texts shown empty), in order.
    pub fn softwares_list(specs: &AssetSpecs) -> (r: Vec<(String, String, String)>)
        ensures
            r@.map_values(|t: (String, String, String)| (t.0@, t.1@, t.2@)) == match field_of(
                specs.entries@,
                "softwares"@,
            ) {
                Some(SpecEntry::List(l)) => software_rows(l@, l@.len() as int),
                _ => Seq::empty(),
            },
    {
        let mut out: Vec<(String, String, String)> = Vec::new();
        assert(out@.map_values(|t: (String, String, String)| (t.0@, t.1@, t.2@)) =~= Seq::<
            (Seq<char>, Seq<char>, Seq<char>),
        >::empty());
        match Self::lookup(&specs.entries, "softwares") {
            Some(SpecEntry::List(l)) => {
                let mut i: usize = 0;
                while i < l.len()
                    invariant
                        i <= l@.len(),
                        out@.map_values(|t: (String, String, String)| (t.0@, t.1@, t.2@))
                            == software_rows(l@, i as int),
                    decreases l.len() - i,
                {
                    let rec = &l[i];
                    proof {
                        reveal_strlit("");
                        assert(""@ =~= Seq::<char>::empty());
                    }
                    let name = match Self::scalar_text_of(rec, "name") {
                        Some(n) => n,
                        None => String::new(),
                    };
                    let ver = match Self::scalar_text_of(rec, "version") {
                        Some(v) => v,
                        None => String::new(),
                    };
                    let publisher = match Self::scalar_text_of(rec, "publisher") {
                        Some(p) => p,
                        None => String::new(),
                    };
                    if chars_of(name.as_str()).len() > 0 {
                        let ghost before = out@.map_values(|t: (String, String, String)| (t.0@, t.1@, t.2@));
                        let ghost row = (name@, ver@, publisher@);
                        out.push((name, ver, publisher));
                        assert(out@.map_values(|t: (String, String, String)| (t.0@, t.1@, t.2@))
                            =~= before.push(row));
                    }
                    i = i + 1;
                }
                out
            },
            _ => out,
        }
    }
}

/// How a drive record shows: its name (or "Disco") with its size and free space in GB,
/// as far as they are known.
pub open spec fn drive_text(d: Seq<(String, SpecScalar)>) -> Seq<char> {
    let name = match scalar_text(field_of(d, "name"@)) {
        Some(n) => n,
        None => "Disco"@,
    };
    match (scalar_int(field_of(d, "size_gb"@)), scalar_int(field_of(d, "free_gb"@))) {
        (Some(s), Some(f)) => name + " ("@ + int_text(s as int) + " GB, "@ + int_text(f as int)
            + " GB libres)"@,
        (Some(s), None) => name + " ("@ + int_text(s as int) + " GB)"@,
        _ => name,
    }
}

/// The first `n` drives shown, joined by ` • `.
pub open spec fn joined_drives(l: Seq<Vec<(String, SpecScalar)>>, n: int) -> Seq<char>
    decreases n,
{
    if n <= 0 {
        Seq::empty()
    } else if n == 1 {
        drive_text(l[0]@)
    } else {
        joined_drives(l, n - 1) + " • "@ + drive_text(l[n - 1]@)
    }
}

/// How the storage shows: the drives of the `storage` list joined by ` • `, the
/// `storage` text, or "No especificado".
pub open spec fn storage_text(specs: AssetSpecs) -> Seq<char> {
    match field_of(specs.entries@, "storage"@) {
        Some(SpecEntry::List(l)) if l@.len() > 0 => joined_drives(l@, l@.len() as int),
        _ => match entry_text(specs, "storage"@) {
            Some(t) => t,
            None => "No especificado"@,
        },
    }
}

/// The software rows of the first `n` records: those with a name, missing texts empty.
pub open spec fn software_rows(l: Seq<Vec<(String, SpecScalar)>>, n: int) -> Seq<(Seq<char>, Seq<char>, Seq<char>)>
    decreases n,
{
    if n <= 0 {
        Seq::empty()
    } else {
        let rest = software_rows(l, n - 1);
        let r = l[n - 1]@;
        let name = match scalar_text(field_of(r, "name"@)) {
            Some(t) => t,
            None => Seq::empty(),
        };
        if name.len() == 0 {
            rest
        } else {
            rest.push(
                (
                    name,
                    match scalar_text(field_of(r, "version"@)) {
                        Some(t) => t,
                        None => Seq::empty(),
                    },
                    match scalar_text(field_of(r, "publisher"@)) {
                        Some(t) => t,
                        None => Seq::empty(),
                    },
                ),
            )
        }
    }
}

} // verus!
