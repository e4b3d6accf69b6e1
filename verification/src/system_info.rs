//! System identification: the identity payload sent in the handshake.
//!
//! The platform queries (machine identifier, hostname, OS version, MAC,
//! local address) live outside; this module decides the record from their
//! optional results, with the documented fallbacks.

use vstd::prelude::*;
use vstd::string::StrSliceExecFns;
use vstd::string::StringExecFns;
use vstd::seq_lib::*;

verus! {

/// System information identifying the agent's machine.
#[derive(Clone, Debug)]
pub struct SystemInfo {
    /// Unique machine identifier.
    pub machine_id: String,
    /// Computer hostname.
    pub hostname: String,
    /// Operating system type (`WINDOWS`, `DARWIN`, `LINUX`, `UNKNOWN`).
    pub os_type: String,
    /// Operating system version.
    pub os_version: String,
    /// Primary MAC address.
    pub mac_address: String,
    /// Primary IP address.
    pub ip_address: String,
}

/// Removes every colon from a string.
pub fn remove_colons(s: &str) -> (r: String)
    ensures
        r@ == s@.filter(|c: char| c != ':'),
{
    let n = s.unicode_len();
    let mut r = String::new();
    let mut i: usize = 0;
    proof {
        assert(s@.take(0).filter(|c: char| c != ':') =~= Seq::<char>::empty());
    }
    while i < n
        invariant
            i <= n,
            n == s@.len(),
            r@ == s@.take(i as int).filter(|c: char| c != ':'),
        decreases n - i,
    {
        let c = s.get_char(i);
        proof {
            let pre = s@.take(i + 1);
            assert(pre.drop_last() =~= s@.take(i as int));
            lemma_filter_drop_last(pre, |c: char| c != ':');
            assert(s@.take(i + 1).subrange(i as int, i + 1) =~= seq![s@[i as int]]);
        }
        if c != ':' {
            let piece = s.substring_char(i, i + 1);
            r.append(piece);
            proof {
                assert(piece@ =~= seq![s@[i as int]]);
                assert(r@ =~= s@.take(i + 1).filter(|c: char| c != ':'));
            }
        }
        i += 1;
    }
    proof {
        assert(s@.take(n as int) =~= s@);
    }
    r
}

/// Filtering a sequence keeps its last element exactly when the predicate
/// holds of it.
proof fn lemma_filter_drop_last(s: Seq<char>, pred: spec_fn(char) -> bool)
    requires
        s.len() > 0,
    ensures
        s.filter(pred) == if pred(s.last()) {
            s.drop_last().filter(pred).push(s.last())
        } else {
            s.drop_last().filter(pred)
        },
{
    reveal_with_fuel(Seq::filter, 2);
    assert(s.drop_last().push(s.last()) =~= s);
    lemma_filter_push(s.drop_last(), pred, s.last());
}

/// Filter distributes over a trailing push.
proof fn lemma_filter_push(s: Seq<char>, pred: spec_fn(char) -> bool, c: char)
    ensures
        s.push(c).filter(pred) == if pred(c) {
            s.filter(pred).push(c)
        } else {
            s.filter(pred)
        },
{
    reveal_with_fuel(Seq::filter, 2);
    assert(s.push(c).drop_last() =~= s);
    assert(s.push(c).last() == c);
    if pred(c) {
        assert(s.push(c).filter(pred) =~= s.filter(pred).push(c));
    } else {
        assert(s.push(c).filter(pred) =~= s.filter(pred));
    }
}

/// The machine identifier owed when the platform has none: the hostname,
/// a dash, and the MAC address without its colons.
pub open spec fn spec_fallback_machine_id(hostname: Seq<char>, mac: Seq<char>) -> Seq<char> {
    hostname + "-"@ + mac.filter(|c: char| c != ':')
}

impl SystemInfo {
    /// Decides the identity record from the platform queries' results: a
    /// missing hostname is `unknown`, a missing OS version `Unknown`, a
    /// missing MAC address all zeros, a missing local address the loopback
    /// address, and a missing machine identifier is derived from the
    /// hostname and the MAC address.
    pub fn gather(
        machine_id: Option<String>,
        hostname: Option<String>,
        os_type: String,
        os_version: Option<String>,
        mac_address: Option<String>,
        ip_address: Option<String>,
    ) -> (r: SystemInfo)
        ensures
            r.hostname@ == (match hostname {
                Some(h) => h@,
                None => "unknown"@,
            }),
            r.os_type == os_type,
            r.os_version@ == (match os_version {
                Some(v) => v@,
                None => "Unknown"@,
            }),
            r.mac_address@ == (match mac_address {
                Some(m) => m@,
                None => "00:00:00:00:00:00"@,
            }),
            r.ip_address@ == (match ip_address {
                Some(ip) => ip@,
                None => "127.0.0.1"@,
            }),
            r.machine_id@ == (match machine_id {
                Some(id) => id@,
                None => spec_fallback_machine_id(r.hostname@, r.mac_address@),
            }),
    {
        let host = match hostname {
            Some(h) => h,
            None => "unknown".to_owned(),
        };
        let mac = match mac_address {
            Some(m) => m,
            None => "00:00:00:00:00:00".to_owned(),
        };
        let ip = match ip_address {
            Some(ip) => ip,
            None => "127.0.0.1".to_owned(),
        };
        let version = match os_version {
            Some(v) => v,
            None => "Unknown".to_owned(),
        };
        let id = match machine_id {
            Some(id) => id,
            None => {
                let mut id = host.clone();
                id.append("-");
                id.append(remove_colons(mac.as_str()).as_str());
                proof {
                    assert(id@ =~= spec_fallback_machine_id(host@, mac@));
                }
                id
            },
        };
        SystemInfo {
            machine_id: id,
            hostname: host,
            os_type,
            os_version: version,
            mac_address: mac,
            ip_address: ip,
        }
    }

    /// The identification payload of the handshake, as key/value pairs in
    /// wire order: the machine identity first, then hostname, operating
    /// system and addresses.
    pub fn identification_fields(&self) -> (r: Vec<(String, String)>)
        ensures
            r@.len() == 6,
            r@[0].0@ == "machineId"@ && r@[0].1@ == self.machine_id@,
            r@[1].0@ == "hostname"@ && r@[1].1@ == self.hostname@,
            r@[2].0@ == "osType"@ && r@[2].1@ == self.os_type@,
            r@[3].0@ == "osVersion"@ && r@[3].1@ == self.os_version@,
            r@[4].0@ == "macAddress"@ && r@[4].1@ == self.mac_address@,
            r@[5].0@ == "ipAddress"@ && r@[5].1@ == self.ip_address@,
    {
        let mut fields: Vec<(String, String)> = Vec::new();
        fields.push(("machineId".to_owned(), self.machine_id.clone()));
        fields.push(("hostname".to_owned(), self.hostname.clone()));
        fields.push(("osType".to_owned(), self.os_type.clone()));
        fields.push(("osVersion".to_owned(), self.os_version.clone()));
        fields.push(("macAddress".to_owned(), self.mac_address.clone()));
        fields.push(("ipAddress".to_owned(), self.ip_address.clone()));
        fields
    }
}

} // verus!
