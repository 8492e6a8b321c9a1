//! The fact records and the rules that turn what the host reported into the
//! answer of each query.

use crate::text::{parse_outcome, parse_unsigned, trim_of, trim_text};
use vstd::prelude::*;

verus! {

/// Disk size and how it splits into free and used space.
pub struct Disk {
    pub size: u64,
    pub free: u64,
    pub used: u64,
}

/// Memory totals as the host reports them.
pub struct Mem {
    pub total: u64,
    pub free: u64,
    pub avail: u64,
}

/// The addresses of the interface that carries outgoing traffic.
pub struct DefaultInterface {
    pub ipv4: String,
    pub ipv6: String,
    pub subnet: String,
}

/// The operating system the queries run on; a few of them read the host's
/// figures differently on each.
#[derive(Clone, Copy, Debug, PartialEq, Eq, Structural)]
pub enum Platform {
    Windows,
    MacOs,
    Linux,
}

/// The last default gateway that a query resolved, kept for later readers
/// in the same process until shutdown clears it.
pub struct GatewayState {
    pub last_gateway: Option<String>,
}

impl GatewayState {
    /// No gateway resolved yet.
    pub fn new() -> (r: GatewayState)
        ensures
            r.last_gateway is None,
    {
        GatewayState { last_gateway: None }
    }

    /// Records the address of a newly resolved gateway.
    pub fn record(&mut self, ip: String)
        ensures
            final(self).last_gateway == Some(ip),
    {
        self.last_gateway = Some(ip);
    }

    /// Forgets the recorded gateway, whether or not one was ever recorded.
    pub fn clear(&mut self)
        ensures
            final(self).last_gateway is None,
    {
        self.last_gateway = None;
    }
}

/// How the version line is built from the host's report.
pub open spec fn os_version_line(version: Seq<char>, edition: Option<Seq<char>>, os_type: Seq<char>) -> Seq<char> {
    match edition {
        Some(e) => e + " "@ + version,
        None => os_type + " "@ + version,
    }
}

/// `"<edition> <version>"` where the host names an edition, else
/// `"<os type> <version>"`.
pub fn describe_os(version: &str, edition: Option<&str>, os_type: &str) -> (r: String)
    ensures
        r@ == os_version_line(
            version@,
            match edition {
                Some(e) => Some(e@),
                None => None,
            },
            os_type@,
        ),
{
    let head = match edition {
        Some(e) => e,
        None => os_type,
    };
    let mut s = String::from_str(head);
    s.append(" ");
    s.append(version);
    s
}

/// Core count and clock speed from the logical core count and the speed in
/// MHz; the count is halved to stand for physical cores (a heuristic that
/// assumes two hardware threads per core). Either failure fails the whole.
pub fn cpu_stats_from(
    logical_cores: Result<u32, String>,
    speed_mhz: Result<u64, String>,
) -> (r: Result<(u32, u64), String>)
    ensures
        r is Ok <==> (logical_cores is Ok && speed_mhz is Ok),
        r is Ok ==> r->Ok_0 == (logical_cores->Ok_0 / 2, speed_mhz->Ok_0),
        logical_cores is Err ==> r->Err_0 == logical_cores->Err_0,
        logical_cores is Ok && speed_mhz is Err ==> r->Err_0 == speed_mhz->Err_0,
{
    match logical_cores {
        Err(e) => Err(e),
        Ok(n) => match speed_mhz {
            Err(e) => Err(e),
            Ok(s) => Ok((n / 2, s)),
        },
    }
}

/// The clock speed that a `sysctl` answer gives: 0 where the query failed
/// or answered nothing, else its trimmed text read as a 64-bit number.
pub open spec fn sysctl_speed(freq_output: Option<Seq<char>>) -> Result<int, Seq<char>> {
    match freq_output {
        None => Ok(0),
        Some(f) => if f.len() == 0 {
            Ok(0)
        } else {
            parse_outcome(trim_of(f), u64::MAX as int)
        },
    }
}

/// Core count and clock speed read from the two `sysctl` answers, or the
/// message of the first reading that failed.
pub open spec fn sysctl_cpu_outcome(cores_output: Seq<char>, freq_output: Option<Seq<char>>) -> Result<
    (int, int),
    Seq<char>,
> {
    match parse_outcome(trim_of(cores_output), u32::MAX as int) {
        Err(m) => Err(m),
        Ok(c) => match sysctl_speed(freq_output) {
            Err(m) => Err(m),
            Ok(s) => Ok((c, s)),
        },
    }
}

/// Core count and clock speed from the text that `sysctl -n hw.ncpu` and
/// `sysctl -n hw.cpufrequency` printed (`None` where the second query could
/// not run). A number that does not read fails with the message of
/// `str::parse`; a missing clock speed is 0.
pub fn cpu_stats_from_sysctl(cores_output: &str, freq_output: Option<&str>) -> (r: Result<
    (u32, u64),
    String,
>)
    ensures
        ({
            let outcome = sysctl_cpu_outcome(
                cores_output@,
                match freq_output {
                    Some(f) => Some(f@),
                    None => None,
                },
            );
            match r {
                Ok((c, s)) => outcome == Ok::<(int, int), Seq<char>>((c as int, s as int)),
                Err(m) => outcome == Err::<(int, int), Seq<char>>(m@),
            }
        }),
{
    let cores_text = trim_text(cores_output);
    let cores = match parse_unsigned(cores_text.as_str(), u32::MAX as u64) {
        Ok(c) => c as u32,
        Err(m) => {
            return Err(m);
        },
    };
    let freq: u64 = match freq_output {
        None => 0,
        Some(f) => {
            if f.unicode_len() == 0 {
                0
            } else {
                let freq_text = trim_text(f);
                match parse_unsigned(freq_text.as_str(), u64::MAX) {
                    Ok(v) => v,
                    Err(m) => {
                        return Err(m);
                    },
                }
            }
        },
    };
    Ok((cores, freq))
}

/// Total and used disk space from the totals the host reported. On macOS
/// both figures are divided by ten, to match that platform's units. A free
/// figure above the total is an inconsistent report and fails.
pub fn disk_figures(total: u64, free: u64, platform: Platform) -> (r: Result<(u64, u64), String>)
    ensures
        r is Ok <==> free <= total,
        r is Err ==> r->Err_0@ == "disk report holds more free space than its total"@,
        r is Ok && platform == Platform::MacOs ==> r->Ok_0 == (
            total / 10,
            ((total - free) / 10) as u64,
        ),
        r is Ok && platform != Platform::MacOs ==> r->Ok_0 == (total, (total - free) as u64),
{
    if free > total {
        Err(String::from_str("disk report holds more free space than its total"))
    } else if platform == Platform::MacOs {
        Ok((total / 10, (total - free) / 10))
    } else {
        Ok((total, total - free))
    }
}

/// How the user line reads: `"<hostname> \ <username>"`.
pub open spec fn user_line(host: Seq<char>, user: Seq<char>) -> Seq<char> {
    host + " \\ "@ + user
}

/// The user line from the host name and user name lookups; the first lookup
/// that failed is reported instead.
pub fn username(hostname: Result<String, String>, user: Result<String, String>) -> (r: Result<
    String,
    String,
>)
    ensures
        r is Ok <==> (hostname is Ok && user is Ok),
        r is Ok ==> r->Ok_0@ == user_line(hostname->Ok_0@, user->Ok_0@),
        hostname is Err ==> r == hostname,
        hostname is Ok && user is Err ==> r == user,
{
    match hostname {
        Err(e) => Err(e),
        Ok(h) => match user {
            Err(e) => Err(e),
            Ok(u) => {
                let mut s = h;
                s.append(" \\ ");
                s.append(u.as_str());
                Ok(s)
            },
        },
    }
}

/// The external IPv4 address that the public resolvers gave, if any.
pub fn external_ipv4(addr: Option<String>) -> (r: Result<String, String>)
    ensures
        addr is Some ==> r == Ok::<String, String>(addr->Some_0),
        addr is None ==> r is Err && r->Err_0@ == "failed to resolve external IPv4"@,
{
    match addr {
        Some(a) => Ok(a),
        None => Err(String::from_str("failed to resolve external IPv4")),
    }
}

/// The external IPv6 address that the public resolvers gave, if any.
pub fn external_ipv6(addr: Option<String>) -> (r: Result<String, String>)
    ensures
        addr is Some ==> r == Ok::<String, String>(addr->Some_0),
        addr is None ==> r is Err && r->Err_0@ == "failed to resolve external IPv6"@,
{
    match addr {
        Some(a) => Ok(a),
        None => Err(String::from_str("failed to resolve external IPv6")),
    }
}

} // verus!
