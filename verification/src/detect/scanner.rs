//! Serial port scanning: the ports found and which of them to skip.

use vstd::prelude::*;

use vstd::utf8::encode_utf8;

verus! {

/// Information about a serial port
#[derive(Debug, Clone)]
pub struct SerialPortInfo {
    /// Port name (e.g., "COM3" or "/dev/ttyUSB0")
    pub port: String,
    /// USB Vendor ID (if USB device)
    pub vid: Option<u16>,
    /// USB Product ID (if USB device)
    pub pid: Option<u16>,
    /// USB serial number (if available)
    pub serial_number: Option<String>,
    /// Manufacturer string (if available)
    pub manufacturer: Option<String>,
    /// Product description (if available)
    pub product: Option<String>,
}

/// Scanner configuration
#[derive(Debug, Clone)]
pub struct ScannerConfig {
    /// Port names containing any of these are skipped
    pub skip_patterns: Vec<String>,
}

impl Default for ScannerConfig {
    fn default() -> (r: Self)
        ensures
            r.skip_patterns@.len() == 0,
    {
        ScannerConfig { skip_patterns: Vec::new() }
    }
}

/// Scans for serial ports
pub struct PortScanner {
    config: ScannerConfig,
}

/// `pat` occurs in `s` (exactly).
pub open spec fn contains_bytes(s: Seq<u8>, pat: Seq<u8>) -> bool {
    exists|i: int| 0 <= i && i + pat.len() <= s.len() && #[trigger] s.subrange(i, i + pat.len()) == pat
}

/// A port whose name contains one of the skip patterns is skipped.
pub open spec fn skipped(patterns: Seq<Seq<u8>>, name: Seq<u8>) -> bool {
    exists|k: int| 0 <= k < patterns.len() && contains_bytes(name, #[trigger] patterns[k])
}

/// The ports not skipped, in order.
pub open spec fn kept_ports(patterns: Seq<Seq<u8>>, ports: Seq<SerialPortInfo>) -> Seq<SerialPortInfo>
    decreases ports.len(),
{
    if ports.len() == 0 {
        Seq::empty()
    } else {
        let p = ports.last();
        kept_ports(patterns, ports.drop_last()) + if skipped(patterns, encode_utf8(p.port@)) {
            Seq::empty()
        } else {
            seq![p]
        }
    }
}

/// The bytes of each pattern.
pub open spec fn pattern_bytes(v: Seq<String>) -> Seq<Seq<u8>> {
    Seq::new(v.len(), |i: int| encode_utf8(v[i]@))
}

/// Whether `pat` occurs in `s`.
fn contains_slice(s: &[u8], pat: &[u8]) -> (r: bool)
    ensures
        r == contains_bytes(s@, pat@),
{
    if pat.len() > s.len() {
        return false;
    }
    if pat.len() == 0 {
        proof {
            assert(s@.subrange(0int, 0int + pat@.len()) =~= pat@);
        }
        return true;
    }
    let mut i: usize = 0;
    let last = s.len() - pat.len();
    while i <= last
        invariant
            1 <= pat@.len() <= s@.len(),
            s@.len() <= usize::MAX,
            last == s@.len() - pat@.len(),
            i <= last + 1,
            forall|k: int| 0 <= k < i ==> #[trigger] s@.subrange(k, k + pat@.len()) != pat@,
        decreases last + 1 - i,
    {
        let mut j: usize = 0;
        let mut ok = true;
        while j < pat.len()
            invariant
                i + pat@.len() <= s@.len(),
                s@.len() <= usize::MAX,
                i <= last,
                last == s@.len() - pat@.len(),
                j <= pat@.len(),
                ok ==> forall|t: int| 0 <= t < j ==> s@[i + t] == pat@[t],
                !ok ==> s@.subrange(i as int, i + pat@.len()) != pat@,
            decreases pat.len() - j,
        {
            if s[i + j] != pat[j] {
                proof {
                    assert(s@.subrange(i as int, i + pat@.len())[j as int] != pat@[j as int]);
                }
                ok = false;
            }
            j = j + 1;
        }
        if ok {
            proof {
                assert(s@.subrange(i as int, i + pat@.len()) =~= pat@);
            }
            return true;
        }
        i = i + 1;
    }
    proof {
        assert forall|k: int| 0 <= k && k + pat@.len() <= s@.len() implies #[trigger] s@.subrange(k, k + pat@.len()) != pat@ by {
            assert(k < i);
        }
    }
    false
}

impl PortScanner {
    /// A scanner that skips Bluetooth and debug ports
    pub fn new() -> (r: Self)
        ensures
            pattern_bytes(r.config().skip_patterns@) == seq![
                encode_utf8("Bluetooth"@),
                encode_utf8("debug"@),
            ],
    {
        let mut skip_patterns: Vec<String> = Vec::new();
        skip_patterns.push("Bluetooth".to_owned());
        skip_patterns.push("debug".to_owned());
        let r = PortScanner { config: ScannerConfig { skip_patterns } };
        proof {
            assert(pattern_bytes(r.config.skip_patterns@) =~= seq![encode_utf8("Bluetooth"@), encode_utf8("debug"@)]);
        }
        r
    }

    /// A scanner with a custom configuration
    pub fn with_config(config: ScannerConfig) -> (r: Self)
        ensures
            r.config() == config,
    {
        PortScanner { config }
    }

    /// The configuration.
    pub closed spec fn config(&self) -> ScannerConfig {
        self.config
    }

    /// Whether a port is skipped: its name contains a skip pattern.
    fn should_skip_port(&self, port: &SerialPortInfo) -> (r: bool)
        ensures
            r == skipped(pattern_bytes(self.config.skip_patterns@), encode_utf8(port.port@)),
    {
        let name = port.port.as_str().as_bytes();
        let mut k: usize = 0;
        while k < self.config.skip_patterns.len()
            invariant
                k <= self.config.skip_patterns@.len(),
                name@ == encode_utf8(port.port@),
                forall|q: int| 0 <= q < k ==> !contains_bytes(name@, #[trigger] pattern_bytes(self.config.skip_patterns@)[q]),
            decreases self.config.skip_patterns.len() - k,
        {
            let pat = self.config.skip_patterns[k].as_str().as_bytes();
            if contains_slice(name, pat) {
                proof {
                    assert(pattern_bytes(self.config.skip_patterns@)[k as int] == pat@);
                }
                return true;
            }
            proof {
                assert(pattern_bytes(self.config.skip_patterns@)[k as int] == pat@);
            }
            k = k + 1;
        }
        false
    }

    /// The ports found that are not skipped, in the order found.
    pub fn filter_ports(&self, ports: Vec<SerialPortInfo>) -> (r: Vec<SerialPortInfo>)
        ensures
            r@ == kept_ports(pattern_bytes(self.config().skip_patterns@), ports@),
    {
        let ghost pats = pattern_bytes(self.config.skip_patterns@);
        let mut out: Vec<SerialPortInfo> = Vec::new();
        let mut rest = ports;
        let ghost all = rest@;
        let mut i: usize = 0;
        let n = rest.len();
        while i < n
            invariant
                i <= n,
                n == all.len(),
                rest@ == all.subrange(i as int, n as int),
                out@ == kept_ports(pats, all.subrange(0, i as int)),
                pats == pattern_bytes(self.config.skip_patterns@),
            decreases n - i,
        {
            let p = rest.remove(0);
            proof {
                assert(all.subrange(0, i as int + 1).drop_last() =~= all.subrange(0, i as int));
                assert(all.subrange(0, i as int + 1).last() == p);
            }
            if !self.should_skip_port(&p) {
                out.push(p);
            }
            i = i + 1;
            proof {
                assert(rest@ =~= all.subrange(i as int, n as int));
            }
        }
        proof {
            assert(all.subrange(0, n as int) =~= all);
        }
        out
    }
}

impl Default for PortScanner {
    fn default() -> (r: Self)
        ensures
            pattern_bytes(r.config().skip_patterns@) == seq![
                encode_utf8("Bluetooth"@),
                encode_utf8("debug"@),
            ],
    {
        Self::new()
    }
}

} // verus!
