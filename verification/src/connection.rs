//! What a device announces of itself on the local network, and how an announcement
//! is read back.
use vstd::prelude::*;
use vstd::string::StringExecFns;

use crate::device::{label_of, DeviceId};
use crate::error::{Error, ErrorView};

verus! {

/// The mDNS service type under which devices announce themselves.
pub open spec fn service_type_text() -> Seq<char> {
    "_filo._tcp.local."@
}

/// The suffix that turns a device label into its host name.
pub open spec fn host_suffix_text() -> Seq<char> {
    ".local."@
}

/// The port that devices announce.
pub open spec fn service_port() -> u16 {
    43210
}

/// The names of the announced properties, in the order of the fields of
/// `DeviceInfo`.
pub open spec fn property_names() -> Seq<Seq<char>> {
    seq!["hostname"@, "platform"@, "os_type"@, "os_version"@, "os_arch"@, "device_id"@]
}

/// Properties as plain values.
pub open spec fn properties_view(props: Seq<(String, String)>) -> Seq<(Seq<char>, Seq<char>)> {
    props.map_values(|p: (String, String)| (p.0@, p.1@))
}

/// The value of the first property named `name`, if there is one.
pub open spec fn property_lookup(props: Seq<(Seq<char>, Seq<char>)>, name: Seq<char>) -> Option<Seq<char>>
    decreases props.len(),
{
    if props.len() == 0 {
        None
    } else if props[0].0 == name {
        Some(props[0].1)
    } else {
        property_lookup(props.drop_first(), name)
    }
}

/// What a device tells about itself.
#[derive(Debug, Clone)]
pub struct DeviceInfo {
    pub hostname: String,
    pub platform: String,
    pub os_type: String,
    pub os_version: String,
    pub os_arch: String,
    pub device_id: String,
}

impl DeviceInfo {
    /// The values of the fields, in their order.
    pub open spec fn field_values(self) -> Seq<Seq<char>> {
        seq![self.hostname@, self.platform@, self.os_type@, self.os_version@, self.os_arch@, self.device_id@]
    }

    /// The announced properties: each field under its name, in field order.
    pub open spec fn properties_spec(self) -> Seq<(Seq<char>, Seq<char>)> {
        Seq::new(6, |i: int| (property_names()[i], self.field_values()[i]))
    }

    /// The record of the device `device` on a system with the given host name,
    /// platform, OS type, OS version and architecture; it names the device by its
    /// label.
    pub fn new(
        device: &DeviceId,
        hostname: String,
        platform: String,
        os_type: String,
        os_version: String,
        os_arch: String,
    ) -> (info: DeviceInfo)
        ensures
            info.hostname@ == hostname@,
            info.platform@ == platform@,
            info.os_type@ == os_type@,
            info.os_version@ == os_version@,
            info.os_arch@ == os_arch@,
            info.device_id@ == label_of(device@),
    {
        DeviceInfo { hostname, platform, os_type, os_version, os_arch, device_id: device.label() }
    }

    /// The record as announced properties.
    pub fn to_properties(&self) -> (props: Vec<(String, String)>)
        ensures
            properties_view(props@) == self.properties_spec(),
    {
        let mut props: Vec<(String, String)> = Vec::new();
        props.push((String::from_str("hostname"), self.hostname.clone()));
        props.push((String::from_str("platform"), self.platform.clone()));
        props.push((String::from_str("os_type"), self.os_type.clone()));
        props.push((String::from_str("os_version"), self.os_version.clone()));
        props.push((String::from_str("os_arch"), self.os_arch.clone()));
        props.push((String::from_str("device_id"), self.device_id.clone()));
        assert(properties_view(props@) =~= self.properties_spec());
        props
    }

    /// Reads a record back from announced properties: each field is the value of
    /// the first property of its name, others are ignored; the first field, in
    /// field order, without a property makes it fail.
    pub fn from_properties(props: &Vec<(String, String)>) -> (res: Result<DeviceInfo, Error>)
        ensures
            match res {
                Ok(info) => forall|i: int| 0 <= i < 6 ==>
                    property_lookup(properties_view(props@), #[trigger] property_names()[i]) == Some(info.field_values()[i]),
                Err(e) => exists|i: int| 0 <= i < 6 && {
                    &&& property_lookup(properties_view(props@), #[trigger] property_names()[i]) is None
                    &&& forall|j: int| 0 <= j < i ==> property_lookup(properties_view(props@), #[trigger] property_names()[j]) is Some
                    &&& e@ == ErrorView::MissingProperty(property_names()[i])
                },
            },
    {
        let ghost pv = properties_view(props@);
        let ghost names = property_names();
        let k0 = String::from_str("hostname");
        let hostname = match find_property(props, &k0) {
            Some(v) => v,
            None => {
                assert(names[0] == k0@);
                return Err(Error::MissingProperty(k0));
            },
        };
        let k1 = String::from_str("platform");
        let platform = match find_property(props, &k1) {
            Some(v) => v,
            None => {
                assert(names[0] == k0@ && names[1] == k1@);
                return Err(Error::MissingProperty(k1));
            },
        };
        let k2 = String::from_str("os_type");
        let os_type = match find_property(props, &k2) {
            Some(v) => v,
            None => {
                assert(names[0] == k0@ && names[1] == k1@ && names[2] == k2@);
                return Err(Error::MissingProperty(k2));
            },
        };
        let k3 = String::from_str("os_version");
        let os_version = match find_property(props, &k3) {
            Some(v) => v,
            None => {
                assert(names[0] == k0@ && names[1] == k1@ && names[2] == k2@ && names[3] == k3@);
                return Err(Error::MissingProperty(k3));
            },
        };
        let k4 = String::from_str("os_arch");
        let os_arch = match find_property(props, &k4) {
            Some(v) => v,
            None => {
                assert(names[0] == k0@ && names[1] == k1@ && names[2] == k2@ && names[3] == k3@ && names[4] == k4@);
                return Err(Error::MissingProperty(k4));
            },
        };
        let k5 = String::from_str("device_id");
        let device_id = match find_property(props, &k5) {
            Some(v) => v,
            None => {
                assert(names[0] == k0@ && names[1] == k1@ && names[2] == k2@ && names[3] == k3@ && names[4] == k4@ && names[5] == k5@);
                return Err(Error::MissingProperty(k5));
            },
        };
        let info = DeviceInfo { hostname, platform, os_type, os_version, os_arch, device_id };
        assert(names[0] == k0@ && names[1] == k1@ && names[2] == k2@ && names[3] == k3@ && names[4] == k4@ && names[5] == k5@);
        Ok(info)
    }
}

/// The value of the first property named `name`.
fn find_property(props: &Vec<(String, String)>, name: &String) -> (value: Option<String>)
    ensures
        match value {
            Some(v) => property_lookup(properties_view(props@), name@) == Some(v@),
            None => property_lookup(properties_view(props@), name@) is None,
        },
{
    let ghost pv = properties_view(props@);
    let mut i: usize = 0;
    assert(pv.skip(0) =~= pv);
    while i < props.len()
        invariant
            i <= props.len(),
            pv == properties_view(props@),
            property_lookup(pv, name@) == property_lookup(pv.skip(i as int), name@),
        decreases props.len() - i,
    {
        assert(pv.skip(i as int)[0] == pv[i as int]);
        assert(pv.skip(i as int).drop_first() =~= pv.skip(i + 1));
        if props[i].0 == *name {
            return Some(props[i].1.clone());
        }
        i = i + 1;
    }
    assert(pv.skip(i as int).len() == 0);
    None
}

/// The record under which a device registers itself on the local network.
#[derive(Debug)]
pub struct ServiceRegistration {
    pub service_type: String,
    pub instance_name: String,
    pub host_name: String,
    pub port: u16,
    pub properties: Vec<(String, String)>,
}

/// The service type to register under and to browse for.
pub fn service_type() -> (t: String)
    ensures
        t@ == service_type_text(),
{
    String::from_str("_filo._tcp.local.")
}

/// How the device `device`, described by `info`, registers itself: under its label
/// as instance name, at the host named by its label and `.local.`, on the service
/// port, announcing the properties of `info`.
pub fn broadcast_registration(device: &DeviceId, info: &DeviceInfo) -> (reg: ServiceRegistration)
    ensures
        reg.service_type@ == service_type_text(),
        reg.instance_name@ == label_of(device@),
        reg.host_name@ == label_of(device@) + host_suffix_text(),
        reg.port == service_port(),
        properties_view(reg.properties@) == info.properties_spec(),
{
    let label = device.label();
    let host_name = device.label().concat(".local.");
    ServiceRegistration {
        service_type: service_type(),
        instance_name: label,
        host_name,
        port: 43210,
        properties: info.to_properties(),
    }
}

/// Law: reading back the properties that a record announces finds each field under
/// its name, so `from_properties` gives back the record.
pub proof fn lemma_properties_round_trip(info: DeviceInfo)
    ensures
        forall|i: int| 0 <= i < 6 ==>
            property_lookup(info.properties_spec(), #[trigger] property_names()[i]) == Some(info.field_values()[i]),
{
    reveal_strlit("hostname");
    reveal_strlit("platform");
    reveal_strlit("os_type");
    reveal_strlit("os_version");
    reveal_strlit("os_arch");
    reveal_strlit("device_id");
    let p = info.properties_spec();
    let n = property_names();
    assert(n[0][0] == 'h' && n[1][0] == 'p' && n[2][0] == 'o' && n[3][0] == 'o' && n[4][0] == 'o' && n[5][0] == 'd');
    assert(n[2][3] == 't' && n[3][3] == 'v' && n[4][3] == 'a');
    assert(n[0] != n[1] && n[0] != n[2] && n[0] != n[3] && n[0] != n[4] && n[0] != n[5]);
    assert(n[1] != n[2] && n[1] != n[3] && n[1] != n[4] && n[1] != n[5]);
    assert(n[2] != n[3] && n[2] != n[4] && n[2] != n[5]);
    assert(n[3] != n[4] && n[3] != n[5]);
    assert(n[4] != n[5]);
    reveal_with_fuel(property_lookup, 7);
    assert(p.drop_first()[0] == p[1]);
    assert(p.drop_first().drop_first()[0] == p[2]);
    assert(p.drop_first().drop_first().drop_first()[0] == p[3]);
    assert(p.drop_first().drop_first().drop_first().drop_first()[0] == p[4]);
    assert(p.drop_first().drop_first().drop_first().drop_first().drop_first()[0] == p[5]);
}

} // verus!
