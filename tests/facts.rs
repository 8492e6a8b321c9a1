use toolfetch::error::{estr, reported};
use toolfetch::facts::{
    cpu_stats_from, cpu_stats_from_sysctl, describe_os, disk_figures, external_ipv4, external_ipv6, username,
    GatewayState, Platform,
};
use toolfetch::host::{gateway_and_mac, local_ipv4_and_mask, os_version, ram};
use toolfetch::subnet::netmask;
use toolfetch::text::{cpu_model_from_output, cpu_model_from_wmic, find_char, parse_unsigned};

#[test]
fn os_line_with_and_without_edition() {
    assert_eq!(describe_os("10.0.22631", Some("Windows 11 Pro"), "Windows"), "Windows 11 Pro 10.0.22631");
    assert_eq!(describe_os("22.04", None, "Ubuntu"), "Ubuntu 22.04");
}

#[test]
fn cpu_stats_halves_cores() {
    assert_eq!(cpu_stats_from(Ok(8), Ok(2400)), Ok((4, 2400)));
    assert_eq!(cpu_stats_from(Ok(1), Ok(0)), Ok((0, 0)));
    assert_eq!(cpu_stats_from(Err("no cores".to_string()), Ok(1)), Err("no cores".to_string()));
    assert_eq!(cpu_stats_from(Ok(4), Err("no speed".to_string())), Err("no speed".to_string()));
}

#[test]
fn disk_figures_per_platform() {
    assert_eq!(disk_figures(1000, 250, Platform::Windows), Ok((1000, 750)));
    assert_eq!(disk_figures(1000, 250, Platform::Linux), Ok((1000, 750)));
    assert_eq!(disk_figures(1000, 250, Platform::MacOs), Ok((100, 75)));
    assert_eq!(disk_figures(5, 5, Platform::Windows), Ok((5, 0)));
    assert!(disk_figures(5, 6, Platform::Windows).is_err());
}

#[test]
fn username_line() {
    assert_eq!(username(Ok("DESK".to_string()), Ok("ana".to_string())), Ok("DESK \\ ana".to_string()));
    assert_eq!(username(Err("no host".to_string()), Ok("ana".to_string())), Err("no host".to_string()));
    assert_eq!(username(Ok("DESK".to_string()), Err("no user".to_string())), Err("no user".to_string()));
}

#[test]
fn external_address_results() {
    assert_eq!(external_ipv4(Some("203.0.113.9".to_string())), Ok("203.0.113.9".to_string()));
    assert_eq!(external_ipv4(None), Err("failed to resolve external IPv4".to_string()));
    assert_eq!(external_ipv6(Some("2001:db8::1".to_string())), Ok("2001:db8::1".to_string()));
    assert_eq!(external_ipv6(None), Err("failed to resolve external IPv6".to_string()));
}

#[test]
fn gateway_state_is_cleared() {
    let mut never_queried = GatewayState::new();
    never_queried.clear();
    assert_eq!(never_queried.last_gateway, None);

    let mut st = GatewayState::new();
    st.record("10.0.0.1".to_string());
    assert_eq!(st.last_gateway, Some("10.0.0.1".to_string()));
    st.clear();
    assert_eq!(st.last_gateway, None);
}

#[test]
fn gateway_query_records_what_it_returns() {
    let mut st = GatewayState::new();
    match gateway_and_mac(&mut st) {
        Ok((ip, _mac)) => assert_eq!(st.last_gateway, Some(ip)),
        Err(_) => assert_eq!(st.last_gateway, None),
    }
}

#[test]
fn wmic_second_line_trimmed() {
    let out = "Name                                      \r\nIntel(R) Core(TM) i7-9700K CPU @ 3.60GHz  \r\n\r\n";
    assert_eq!(cpu_model_from_wmic(out), Ok("Intel(R) Core(TM) i7-9700K CPU @ 3.60GHz".to_string()));
    assert_eq!(cpu_model_from_wmic("Name\n  AMD Ryzen 7  "), Ok("AMD Ryzen 7".to_string()));
    assert_eq!(cpu_model_from_wmic("Name only"), Err("Failed to collect response from wmic.exe".to_string()));
    assert_eq!(cpu_model_from_wmic(""), Err("Failed to collect response from wmic.exe".to_string()));
}

#[test]
fn find_char_positions() {
    assert_eq!(find_char("ab\ncd\n", '\n', 0), 2);
    assert_eq!(find_char("ab\ncd\n", '\n', 3), 5);
    assert_eq!(find_char("abc", '\n', 1), 3);
}

#[test]
fn error_messages() {
    assert_eq!(estr(sys_info::Error::UnsupportedSystem), "System is not supported");
    let failed: Result<u32, sys_info::Error> = Err(sys_info::Error::Unknown);
    assert_eq!(reported(failed), Err("An unknown error occurred".to_string()));
    let ok: Result<u32, sys_info::Error> = Ok(7);
    assert_eq!(reported(ok), Ok(7));
}

#[test]
fn local_ipv4_mask_matches_address() {
    if let Ok((ip, mask)) = local_ipv4_and_mask() {
        assert_eq!(mask, netmask(&ip));
    }
}

#[test]
fn host_queries_answer() {
    let line = os_version();
    assert!(line.contains(' '));
    if let Ok(m) = ram() {
        assert!(m.free <= m.total);
    }
}

#[test]
fn sysctl_cpu_stats() {
    assert_eq!(cpu_stats_from_sysctl("8\n", Some("3200000000\n")), Ok((8, 3200000000)));
    assert_eq!(cpu_stats_from_sysctl("10\n", Some("")), Ok((10, 0)));
    assert_eq!(cpu_stats_from_sysctl("10\n", None), Ok((10, 0)));
    assert!(cpu_stats_from_sysctl("ten\n", None).is_err());
    assert!(cpu_stats_from_sysctl("4294967296", None).is_err());
    assert!(cpu_stats_from_sysctl("4", Some("fast\n")).is_err());
}

#[test]
fn unsigned_parse_matches_std() {
    let inputs = [
        "0", "42", "+7", "+", "-", "-1", "", "12a", " 12", "a99999999999999999999",
        "18446744073709551615", "18446744073709551616", "99999999999999999999a", "4294967295",
        "4294967296", "65535", "65536",
    ];
    for s in inputs {
        let want64 = s.parse::<u64>().map_err(|e| e.to_string());
        assert_eq!(parse_unsigned(s, u64::MAX), want64, "u64 {s:?}");
        let want32 = s.parse::<u32>().map(u64::from).map_err(|e| e.to_string());
        assert_eq!(parse_unsigned(s, u32::MAX as u64), want32, "u32 {s:?}");
        let want16 = s.parse::<u16>().map(u64::from).map_err(|e| e.to_string());
        assert_eq!(parse_unsigned(s, u16::MAX as u64), want16, "u16 {s:?}");
    }
}

#[test]
fn command_answer_trims() {
    assert_eq!(toolfetch::text::command_answer("  Apple M2\n"), "Apple M2");
    assert_eq!(toolfetch::text::command_answer(""), "");
}

#[test]
fn sysctl_error_texts() {
    assert_eq!(cpu_stats_from_sysctl("x", None), Err("invalid digit found in string".to_string()));
    assert_eq!(cpu_stats_from_sysctl("\n", None), Err("cannot parse integer from empty string".to_string()));
    assert_eq!(
        cpu_stats_from_sysctl("4294967296\n", None),
        Err("number too large to fit in target type".to_string())
    );
    assert_eq!(cpu_stats_from_sysctl("4\n", Some("fast\n")), Err("invalid digit found in string".to_string()));
    assert_eq!(cpu_stats_from_sysctl("4\n", Some("\n")), Err("cannot parse integer from empty string".to_string()));
    assert_eq!(cpu_stats_from_sysctl("4\n", Some("+5\n")), Ok((4, 5)));
    assert_eq!(
        disk_figures(1, 2, Platform::MacOs),
        Err("disk report holds more free space than its total".to_string())
    );
}

#[test]
fn cpu_model_output_trimmed() {
    assert_eq!(cpu_model_from_output(Ok("  Apple M2 Pro\n".to_string())), Ok("Apple M2 Pro".to_string()));
    assert_eq!(cpu_model_from_output(Err("no sysctl".to_string())), Err("no sysctl".to_string()));
}
