//! USB vendor/product IDs of serial adapters and radios, and port
//! classification.

use vstd::prelude::*;
use vstd::string::StringSliceAdditionalSpecFns;

use crate::protocol::Protocol;

verus! {

/// A USB vendor/product ID pair
#[derive(Debug, Clone, Copy, PartialEq, Eq, Structural)]
pub struct UsbId {
    /// Vendor ID
    pub vid: u16,
    /// Product ID
    pub pid: u16,
}

impl UsbId {
    /// Create a new USB ID
    pub fn new(vid: u16, pid: u16) -> (r: Self)
        ensures
            r == (UsbId { vid, pid }),
    {
        UsbId { vid, pid }
    }
}

/// FTDI vendor ID
pub const FTDI_VID: u16 = 0x0403;
/// Silicon Labs CP210x vendor ID
pub const CP210X_VID: u16 = 0x10C4;
/// WCH CH340/CH341 vendor ID
pub const CH340_VID: u16 = 0x1A86;
/// Prolific PL2303 vendor ID
pub const PROLIFIC_VID: u16 = 0x067B;
/// Icom vendor ID (radios with a built-in USB interface)
pub const ICOM_VID: u16 = 0x0C26;
/// JVC Kenwood vendor ID
pub const KENWOOD_VID: u16 = 0x0B28;

/// A port name recognised as a virtual serial port.
#[derive(Debug, Clone, Copy, PartialEq, Eq)]
pub struct VirtualPortMatch {
    /// Manufacturer of the software that created the port
    pub manufacturer: &'static str,
    /// Description hint
    pub hint: &'static str,
}

/// ASCII lower case of a byte.
pub open spec fn lower(b: u8) -> u8 {
    if 65 <= b <= 90 {
        (b + 32) as u8
    } else {
        b
    }
}

/// `pat` (lower case) occurs in `s`, ignoring ASCII case.
pub open spec fn contains_ci(s: Seq<u8>, pat: Seq<u8>) -> bool {
    exists|i: int| 0 <= i && i + pat.len() <= s.len() && #[trigger] matches_at(s, pat, i)
}

pub open spec fn matches_at(s: Seq<u8>, pat: Seq<u8>, i: int) -> bool {
    forall|j: int| 0 <= j < pat.len() ==> lower(#[trigger] s[i + j]) == pat[j]
}

/// The name of a FlexRadio SmartSDR virtual port: it mentions `flexvsp`,
/// `flex cat`, `flexradio` or `smartsdr`, in any case.
pub open spec fn is_flex_port_name(s: Seq<u8>) -> bool {
    ||| contains_ci(s, seq![102u8, 108, 101, 120, 118, 115, 112])
    ||| contains_ci(s, seq![102u8, 108, 101, 120, 32, 99, 97, 116])
    ||| contains_ci(s, seq![102u8, 108, 101, 120, 114, 97, 100, 105, 111])
    ||| contains_ci(s, seq![115u8, 109, 97, 114, 116, 115, 100, 114])
}

fn lower_byte(b: u8) -> (r: u8)
    ensures
        r == lower(b),
{
    if 65 <= b && b <= 90 {
        b + 32
    } else {
        b
    }
}

/// Whether lower-case `pat` occurs in `s`, ignoring ASCII case.
fn contains_ignoring_case(s: &[u8], pat: &[u8]) -> (r: bool)
    ensures
        r == contains_ci(s@, pat@),
{
    if pat.len() > s.len() {
        return false;
    }
    if pat.len() == 0 {
        proof {
            assert(s@.subrange(0int, 0int + pat@.len()) =~= pat@);
            assert(matches_at(s@, pat@, 0));
        }
        return true;
    }
    let mut i: usize = 0;
    let last = s.len() - pat.len();
    while i <= last
        invariant
            1 <= pat@.len() <= s@.len(),
            s@.len() <= usize::MAX,
            last == s@.len() - pat@.len(),
            i <= last + 1,
            forall|k: int| 0 <= k < i ==> !matches_at(s@, pat@, k),
        decreases last + 1 - i,
    {
        let mut j: usize = 0;
        let mut ok = true;
        while j < pat.len()
            invariant
                i + pat@.len() <= s@.len(),
                s@.len() <= usize::MAX,
                i <= last,
                last == s@.len() - pat@.len(),
                j <= pat@.len(),
                ok ==> forall|t: int| 0 <= t < j ==> lower(#[trigger] s@[i + t]) == pat@[t],
                !ok ==> !matches_at(s@, pat@, i as int),
            decreases pat.len() - j,
        {
            if lower_byte(s[i + j]) != pat[j] {
                ok = false;
            }
            j = j + 1;
        }
        if ok {
            proof {
                assert(matches_at(s@, pat@, i as int));
            }
            return true;
        }
        i = i + 1;
    }
    proof {
        assert forall|k: int| 0 <= k && k + pat@.len() <= s@.len() implies !#[trigger] matches_at(s@, pat@, k) by {
            assert(k < i);
        }
    }
    false
}

/// Check whether a port name looks like a virtual serial port
pub fn match_port_name(port_name: &str) -> (r: Option<VirtualPortMatch>)
    ensures
        r is Some <==> is_flex_port_name(port_name.spec_bytes()),
        r matches Some(m) ==> m.manufacturer@ == "FlexRadio"@ && m.hint@ == "FLEX-6000/8000 series (via SmartSDR)"@,
{
    let s = port_name.as_bytes();
    if contains_ignoring_case(s, &[102u8, 108, 101, 120, 118, 115, 112]) || contains_ignoring_case(
        s,
        &[102u8, 108, 101, 120, 32, 99, 97, 116],
    ) || contains_ignoring_case(s, &[102u8, 108, 101, 120, 114, 97, 100, 105, 111]) || contains_ignoring_case(
        s,
        &[115u8, 109, 97, 114, 116, 115, 100, 114],
    ) {
        return Some(
            VirtualPortMatch { manufacturer: "FlexRadio", hint: "FLEX-6000/8000 series (via SmartSDR)" },
        );
    }
    None
}

/// Check whether a port is a FlexRadio SmartSDR CAT port
pub fn is_smartsdr_port(port_name: &str) -> (r: bool)
    ensures
        r == is_flex_port_name(port_name.spec_bytes()),
{
    match match_port_name(port_name) {
        Some(_) => true,
        None => false,
    }
}

/// The known product IDs of the serial adapters and radios of a vendor.
pub open spec fn known_adapter(vid: u16, pid: u16) -> bool {
    if vid == FTDI_VID {
        pid == 0x6001 || pid == 0x6010 || pid == 0x6011 || pid == 0x6014 || pid == 0x6015
    } else if vid == CP210X_VID {
        pid == 0xEA60 || pid == 0xEA70 || pid == 0xEA71
    } else if vid == CH340_VID {
        pid == 0x7523 || pid == 0x5523
    } else if vid == PROLIFIC_VID {
        pid == 0x2303
    } else if vid == ICOM_VID {
        pid == 0x0036 || pid == 0x0037 || pid == 0x0044 || pid == 0x0042
    } else if vid == KENWOOD_VID {
        pid == 0x0010 || pid == 0x0011
    } else {
        false
    }
}

/// Check if a VID/PID belongs to a known serial adapter or radio
pub fn is_known_serial_adapter(vid: u16, pid: u16) -> (r: bool)
    ensures
        r == known_adapter(vid, pid),
{
    if vid == FTDI_VID {
        pid == 0x6001 || pid == 0x6010 || pid == 0x6011 || pid == 0x6014 || pid == 0x6015
    } else if vid == CP210X_VID {
        pid == 0xEA60 || pid == 0xEA70 || pid == 0xEA71
    } else if vid == CH340_VID {
        pid == 0x7523 || pid == 0x5523
    } else if vid == PROLIFIC_VID {
        pid == 0x2303
    } else if vid == ICOM_VID {
        pid == 0x0036 || pid == 0x0037 || pid == 0x0044 || pid == 0x0042
    } else if vid == KENWOOD_VID {
        pid == 0x0010 || pid == 0x0011
    } else {
        false
    }
}

/// The radio a VID/PID is built into, if known.
pub open spec fn radio_usb_name(vid: u16, pid: u16) -> Option<Seq<char>> {
    if vid == ICOM_VID && pid == 0x0036 {
        Some("IC-7300"@)
    } else if vid == ICOM_VID && pid == 0x0037 {
        Some("IC-7610"@)
    } else if vid == ICOM_VID && pid == 0x0044 {
        Some("IC-705"@)
    } else if vid == ICOM_VID && pid == 0x0042 {
        Some("IC-9700"@)
    } else if vid == KENWOOD_VID && pid == 0x0010 {
        Some("TS-990S"@)
    } else if vid == KENWOOD_VID && pid == 0x0011 {
        Some("TS-590SG"@)
    } else {
        None
    }
}

/// Check if a VID/PID is a radio with a built-in USB interface
pub fn is_known_radio_usb(vid: u16, pid: u16) -> (r: Option<&'static str>)
    ensures
        r is Some <==> radio_usb_name(vid, pid) is Some,
        r matches Some(s) ==> radio_usb_name(vid, pid) == Some(s@),
{
    if vid == ICOM_VID && pid == 0x0036 {
        Some("IC-7300")
    } else if vid == ICOM_VID && pid == 0x0037 {
        Some("IC-7610")
    } else if vid == ICOM_VID && pid == 0x0044 {
        Some("IC-705")
    } else if vid == ICOM_VID && pid == 0x0042 {
        Some("IC-9700")
    } else if vid == KENWOOD_VID && pid == 0x0010 {
        Some("TS-990S")
    } else if vid == KENWOOD_VID && pid == 0x0011 {
        Some("TS-590SG")
    } else {
        None
    }
}

/// The name of a vendor's adapter.
pub open spec fn adapter_name_spec(vid: u16) -> Option<Seq<char>> {
    if vid == FTDI_VID {
        Some("FTDI"@)
    } else if vid == CP210X_VID {
        Some("CP210x"@)
    } else if vid == CH340_VID {
        Some("CH340"@)
    } else if vid == PROLIFIC_VID {
        Some("PL2303"@)
    } else if vid == ICOM_VID {
        Some("Icom USB"@)
    } else if vid == KENWOOD_VID {
        Some("Kenwood USB"@)
    } else {
        None
    }
}

/// Get a human-readable name for an adapter vendor
pub fn adapter_name(vid: u16) -> (r: Option<&'static str>)
    ensures
        r is Some <==> adapter_name_spec(vid) is Some,
        r matches Some(s) ==> adapter_name_spec(vid) == Some(s@),
{
    if vid == FTDI_VID {
        Some("FTDI")
    } else if vid == CP210X_VID {
        Some("CP210x")
    } else if vid == CH340_VID {
        Some("CH340")
    } else if vid == PROLIFIC_VID {
        Some("PL2303")
    } else if vid == ICOM_VID {
        Some("Icom USB")
    } else if vid == KENWOOD_VID {
        Some("Kenwood USB")
    } else {
        None
    }
}

/// How much a port is trusted to be a radio, most trusted first.
#[derive(Debug, Clone, Copy, PartialEq, Eq, PartialOrd, Ord, Structural)]
pub enum PortClassification {
    /// A radio's own USB interface
    KnownRadio,
    /// A virtual port (e.g. SmartSDR CAT)
    VirtualPort,
    /// A known USB-serial adapter (could be anything)
    KnownAdapter,
    /// Nothing known
    Unknown,
}

impl PortClassification {
    /// Whether probing the port is safe without asking the user
    pub fn is_safe_to_probe(&self) -> (r: bool)
        ensures
            r == (*self == PortClassification::KnownRadio || *self == PortClassification::VirtualPort),
    {
        match self {
            PortClassification::KnownRadio | PortClassification::VirtualPort => true,
            _ => false,
        }
    }
}

/// The protocol a port suggests: Icom and Kenwood USB interfaces speak
/// their makers' protocols, SmartSDR ports FlexRadio's.
pub open spec fn suggested_protocol(vid: Option<u16>, name: Seq<u8>) -> Option<Protocol> {
    if vid == Some(ICOM_VID) {
        Some(Protocol::IcomCIV)
    } else if vid == Some(KENWOOD_VID) {
        Some(Protocol::Kenwood)
    } else if is_flex_port_name(name) {
        Some(Protocol::FlexRadio)
    } else {
        None
    }
}

/// Suggest a protocol for a port from its vendor ID and name
pub fn suggest_protocol_for_port(vid: Option<u16>, port_name: &str) -> (r: Option<Protocol>)
    ensures
        r == suggested_protocol(vid, port_name.spec_bytes()),
{
    if let Some(v) = vid {
        if v == ICOM_VID {
            return Some(Protocol::IcomCIV);
        } else if v == KENWOOD_VID {
            return Some(Protocol::Kenwood);
        }
    }
    if is_smartsdr_port(port_name) {
        return Some(Protocol::FlexRadio);
    }
    None
}

/// How a port is classified: a known radio's USB interface first, then a
/// virtual port by name, then a known adapter vendor, else unknown.
pub open spec fn classification(vid: Option<u16>, pid: Option<u16>, name: Seq<u8>) -> PortClassification {
    if vid is Some && pid is Some && radio_usb_name(vid->0, pid->0) is Some {
        PortClassification::KnownRadio
    } else if is_flex_port_name(name) {
        PortClassification::VirtualPort
    } else if vid matches Some(v) && (v == FTDI_VID || v == CP210X_VID || v == CH340_VID || v == PROLIFIC_VID) {
        PortClassification::KnownAdapter
    } else {
        PortClassification::Unknown
    }
}

/// Classify a port, with a hint naming what was recognised
pub fn classify_port(vid: Option<u16>, pid: Option<u16>, port_name: &str) -> (r: (PortClassification, Option<&'static str>))
    ensures
        r.0 == classification(vid, pid, port_name.spec_bytes()),
        r.0 == PortClassification::KnownRadio ==> (r.1 matches Some(h) && h@ == (if vid == Some(ICOM_VID) {
            "Icom USB"@
        } else {
            "Kenwood USB"@
        })),
        r.0 == PortClassification::VirtualPort ==> (r.1 matches Some(h) && h@ == "FlexRadio"@),
        r.0 == PortClassification::KnownAdapter ==> (r.1 matches Some(h) && adapter_name_spec(vid->0) == Some(h@)),
        r.0 == PortClassification::Unknown ==> r.1 is None,
{
    if let (Some(v), Some(p)) = (vid, pid) {
        if is_known_radio_usb(v, p).is_some() {
            let hint = if v == ICOM_VID {
                "Icom USB"
            } else if v == KENWOOD_VID {
                "Kenwood USB"
            } else {
                "Radio USB"
            };
            return (PortClassification::KnownRadio, Some(hint));
        }
    }
    if let Some(m) = match_port_name(port_name) {
        return (PortClassification::VirtualPort, Some(m.manufacturer));
    }
    if let Some(v) = vid {
        if v == FTDI_VID || v == CP210X_VID || v == CH340_VID || v == PROLIFIC_VID {
            return (PortClassification::KnownAdapter, adapter_name(v));
        }
    }
    (PortClassification::Unknown, None)
}

/// A port that a radio's own USB interface is classified as such whatever
/// its name, and such ports are always safe to probe.
pub proof fn law_known_radio_wins(vid: u16, pid: u16, name: Seq<u8>)
    requires
        radio_usb_name(vid, pid) is Some,
    ensures
        classification(Some(vid), Some(pid), name) == PortClassification::KnownRadio,
        known_adapter(vid, pid),
{
}

} // verus!
