//! The queries that ask the host for each fact, through the system
//! information crates.

use crate::error::reported;
use crate::facts::{
    cpu_stats_from, describe_os, disk_figures, os_version_line, GatewayState, Mem, Platform,
};
use crate::subnet::{netmask, netmask_of};
use vstd::prelude::*;
use vstd::string::to_string_from_display_ensures;

verus! {

#[verifier::external_type_specification]
#[verifier::external_body]
pub struct ExSysInfoError(sys_info::Error);

#[verifier::external_type_specification]
#[verifier::external_body]
pub struct ExLocalIpError(local_ip_address::Error);

/// Relies on `sys_info::mem_info`: the host's memory totals, or its error.
#[verifier::external_body]
fn sys_mem_info() -> (r: Result<Mem, sys_info::Error>) {
    sys_info::mem_info().map(|m| Mem { total: m.total, free: m.free, avail: m.avail })
}

/// Relies on `sys_info::cpu_num`: the number of logical cores, or its error.
#[verifier::external_body]
fn sys_cpu_num() -> (r: Result<u32, sys_info::Error>) {
    sys_info::cpu_num()
}

/// Relies on `sys_info::cpu_speed`: the clock speed in MHz, or its error.
#[verifier::external_body]
fn sys_cpu_speed() -> (r: Result<u64, sys_info::Error>) {
    sys_info::cpu_speed()
}

/// Relies on `sys_info::disk_info`: total and free disk space, in that order.
#[verifier::external_body]
fn sys_disk_info() -> (r: Result<(u64, u64), sys_info::Error>) {
    sys_info::disk_info().map(|d| (d.total, d.free))
}

#[verifier::external_type_specification]
#[verifier::external_body]
pub struct ExOsInfo(os_info::Info);

#[verifier::external_type_specification]
#[verifier::external_body]
pub struct ExOsVersion(os_info::Version);

#[verifier::external_type_specification]
#[verifier::external_body]
pub struct ExOsType(os_info::Type);

/// Relies on `os_info::get`: a description of the running system.
pub assume_specification[ os_info::get ]() -> os_info::Info;

/// Relies on `os_info::Info::version`: the version the description holds.
pub assume_specification<'a>[ os_info::Info::version ](info: &'a os_info::Info) -> &'a os_info::Version;

/// Relies on `os_info::Info::edition`: the edition, where the system names one.
pub assume_specification<'a>[ os_info::Info::edition ](info: &'a os_info::Info) -> Option<&'a str>;

/// Relies on `os_info::Info::os_type`: the kind of system.
pub assume_specification[ os_info::Info::os_type ](info: &os_info::Info) -> os_info::Type;

/// Relies on `default_net::get_default_gateway`: the default gateway's IP and
/// MAC address as text, or the crate's message when none is found.
#[verifier::external_body]
fn default_gateway() -> (r: Result<(String, String), String>) {
    default_net::get_default_gateway().map(|g| (g.ip_addr.to_string(), g.mac_addr.to_string()))
}

/// Relies on `local_ip_address::local_ip`: the local-facing address as text.
#[verifier::external_body]
fn local_ip_text() -> (r: Result<String, local_ip_address::Error>) {
    local_ip_address::local_ip().map(|i| i.to_string())
}

/// Relies on `local_ip_address::local_ipv6`: the local-facing IPv6 address
/// as text.
#[verifier::external_body]
fn local_ipv6_text() -> (r: Result<String, local_ip_address::Error>) {
    local_ip_address::local_ipv6().map(|i| i.to_string())
}

/// The OS line: edition (or OS type) and version.
pub fn os_version() -> (r: String)
    ensures
        exists|version: Seq<char>, edition: Option<Seq<char>>, os_type: Seq<char>|
            r@ == os_version_line(version, edition, os_type),
{
    let info = os_info::get();
    let version = info.version().to_string();
    let os_type = info.os_type().to_string();
    describe_os(version.as_str(), info.edition(), os_type.as_str())
}

/// Total, free and available memory; fails where the host query fails.
pub fn ram() -> (r: Result<Mem, String>)
    ensures
        r is Err ==> exists|e: sys_info::Error|
            #[trigger] to_string_from_display_ensures::<sys_info::Error>(&e, r->Err_0),
{
    reported(sys_mem_info())
}

/// Physical core estimate and clock speed in MHz.
pub fn cpu_stats() -> (r: Result<(u32, u64), String>)
    ensures
        r is Ok ==> r->Ok_0.0 <= u32::MAX / 2,
{
    cpu_stats_from(reported(sys_cpu_num()), reported(sys_cpu_speed()))
}

/// Total and used disk space, in the platform's units.
pub fn disk(platform: Platform) -> (r: Result<(u64, u64), String>)
    ensures
        r is Ok ==> r->Ok_0.1 <= r->Ok_0.0,
        r is Ok && platform == Platform::MacOs ==> r->Ok_0.0 <= u64::MAX / 10,
{
    match reported(sys_disk_info()) {
        Ok((total, free)) => disk_figures(total, free, platform),
        Err(e) => Err(e),
    }
}

/// The default gateway's IP and MAC address. A resolved gateway is recorded
/// in `state`; a failure leaves `state` as it was.
pub fn gateway_and_mac(state: &mut GatewayState) -> (r: Result<(String, String), String>)
    ensures
        r is Ok ==> final(state).last_gateway == Some(r->Ok_0.0),
        r is Err ==> final(state).last_gateway == old(state).last_gateway,
{
    match default_gateway() {
        Ok((ip, mac)) => {
            state.record(ip.clone());
            Ok((ip, mac))
        },
        Err(e) => Err(e),
    }
}

/// The local IPv4 address and the classful mask inferred from it.
pub fn local_ipv4_and_mask() -> (r: Result<(String, String), String>)
    ensures
        r is Ok ==> r->Ok_0.1@ == netmask_of(r->Ok_0.0@),
{
    match reported(local_ip_text()) {
        Ok(ip) => {
            let mask = netmask(ip.as_str());
            Ok((ip, mask))
        },
        Err(e) => Err(e),
    }
}

/// The local IPv6 address.
pub fn local_ipv6() -> (r: Result<String, String>)
    ensures
        r is Err ==> exists|e: local_ip_address::Error|
            #[trigger] to_string_from_display_ensures::<local_ip_address::Error>(&e, r->Err_0),
{
    reported(local_ipv6_text())
}

} // verus!
