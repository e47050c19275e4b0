use gilded_sentinel::config::AppConfig;
use gilded_sentinel::config::Config;
use gilded_sentinel::config::ConfigLoader;
use gilded_sentinel::config::ConfigOverrides;
use gilded_sentinel::execution::ExecutionStrategy;
use gilded_sentinel::execution::build_escaped_command_line;
use gilded_sentinel::execution::build_plain_command_line;
use gilded_sentinel::execution::command_outcome;
use gilded_sentinel::execution::convert_to_string;
use gilded_sentinel::execution::shell_escape;
use gilded_sentinel::execution::status_exit_code;
use gilded_sentinel::execution::status_exited;
use gilded_sentinel::execution::strategy_for;
use gilded_sentinel::execution::system_outcome;
use gilded_sentinel::install::InstallerUtil;
use gilded_sentinel::models::CpuMsrReads;
use gilded_sentinel::models::MsrTopology;
use gilded_sentinel::monitor::format_disk_line;
use gilded_sentinel::monitor::format_memory_lines;
use gilded_sentinel::monitor::format_network_line;
use gilded_sentinel::monitor::format_process_line;
use gilded_sentinel::monitor::format_system_details_lines;
use gilded_sentinel::monitor::format_uptime_line;
use gilded_sentinel::monitor::or_unknown;
use gilded_sentinel::models::DiskInfo;
use gilded_sentinel::models::MemoryInfo;
use gilded_sentinel::models::NetworkInfo;
use gilded_sentinel::models::ProcessInfo;
use gilded_sentinel::models::Uptime;
use gilded_sentinel::msr::EsxiUtil;
use gilded_sentinel::msr::decode_hex_register;
use gilded_sentinel::netinfo::IfaceAddr;
use gilded_sentinel::netinfo::NetworkUtil;
use gilded_sentinel::netinfo::select_primary_ip;

fn reads(cpu: &str, cs: Option<&str>, temp: Option<&str>) -> CpuMsrReads {
    CpuMsrReads {
        cpu_id: cpu.to_string(),
        core_socket_read: cs.map(|s| s.to_string()),
        temp_read: temp.map(|s| s.to_string()),
    }
}

#[test]
fn tjmax_decodes_documented_example() {
    let mut util = EsxiUtil::new();
    let t = util.get_tjmax(Some("0x00640000".to_string()));
    assert_eq!(t, 100);
}

#[test]
fn tjmax_decodes_other_values() {
    let mut util = EsxiUtil::new();
    assert_eq!(util.get_tjmax(Some("0x00610000\n".to_string())), 0x61);
}

#[test]
fn tjmax_falls_back_on_malformed_hex() {
    let mut a = EsxiUtil::new();
    assert_eq!(a.get_tjmax(Some("640000".to_string())), 100);
    let mut b = EsxiUtil::new();
    assert_eq!(b.get_tjmax(Some("0xZZZZ".to_string())), 100);
    let mut c = EsxiUtil::new();
    assert_eq!(c.get_tjmax(Some("0x".to_string())), 100);
    let mut d = EsxiUtil::new();
    assert_eq!(d.get_tjmax(None), 100);
    let mut e = EsxiUtil::new();
    assert_eq!(e.get_tjmax(Some("0xFFFFFFFF".to_string())), 100);
}

#[test]
fn tjmax_cache_returns_bit_identical_values() {
    let mut util = EsxiUtil::new();
    assert!(util.needs_tjmax());
    let first = util.get_tjmax(Some("0x00640000".to_string()));
    assert!(!util.needs_tjmax());
    let second = util.get_tjmax(Some("0x00500000".to_string()));
    let third = util.get_tjmax(None);
    assert_eq!(first, second);
    assert_eq!(first, third);
}

#[test]
fn hex_register_rejects_out_of_range_values() {
    assert_eq!(decode_hex_register("0x7FFFFFFF"), Some(i32::MAX));
    assert_eq!(decode_hex_register("0x80000000"), None);
    assert_eq!(decode_hex_register("  0x19  "), Some(0x19));
}

#[test]
fn cpu_temperature_decodes_documented_example() {
    let (digital, temp) = EsxiUtil::get_cpu_temperature(Some("0x00190000".to_string()), 100);
    assert_eq!(digital, "25");
    assert_eq!(temp, "75");
}

#[test]
fn cpu_temperature_masks_to_seven_bits() {
    let (digital, temp) = EsxiUtil::get_cpu_temperature(Some("0x00FF0000".to_string()), 100);
    assert_eq!(digital, "127");
    assert_eq!(temp, "-27");
}

#[test]
fn cpu_temperature_sentinels() {
    let (digital, temp) = EsxiUtil::get_cpu_temperature(Some("garbage".to_string()), 100);
    assert_eq!(digital, "N/A");
    assert_eq!(temp, "Invalid temperature value");
    let (digital, temp) = EsxiUtil::get_cpu_temperature(None, 100);
    assert_eq!(digital, "N/A");
    assert_eq!(temp, "Error reading MSR");
}

#[test]
fn topology_block_decodes_by_exact_labels() {
    let block = "Random header\nNumber of packages:2\nNumber of cores:8\nNumber of CPUs (threads):16\n";
    let mut util = EsxiUtil::new();
    let (sockets, cores, threads) = util.get_cpu_topology(Some(block.to_string()));
    assert_eq!((sockets, cores, threads), (2, 8, 16));
}

#[test]
fn topology_missing_labels_default_to_zero() {
    let mut util = EsxiUtil::new();
    let (sockets, cores, threads) = util.get_cpu_topology(Some("nothing useful".to_string()));
    assert_eq!((sockets, cores, threads), (0, 0, 0));
    let mut util2 = EsxiUtil::new();
    assert_eq!(util2.get_cpu_topology(None), (0, 0, 0));
}

#[test]
fn topology_cache_returns_bit_identical_values() {
    let block = "Number of packages:2\nNumber of cores:8\nNumber of CPUs (threads):16\n";
    let mut util = EsxiUtil::new();
    let first = util.get_cpu_topology(Some(block.to_string()));
    let second = util.get_cpu_topology(Some("Number of packages:9\n".to_string()));
    let third = util.get_cpu_topology(None);
    assert_eq!(first, second);
    assert_eq!(first, third);
}

#[test]
fn topology_value_parses_spaced_values() {
    assert_eq!(EsxiUtil::parse_topology_value("Number of cores: 12 ", "Number of cores"), 12);
    assert_eq!(EsxiUtil::parse_topology_value("Number of cores:x", "Number of cores"), 0);
    assert_eq!(EsxiUtil::parse_topology_value("Number of cores 12", "Number of cores"), 0);
}

#[test]
fn core_socket_info_matches_case_insensitively() {
    let block = "   CORE:3\n   PACKAGE:1\n";
    let (core, socket) = EsxiUtil::get_core_socket_info(Some(block.to_string()));
    assert_eq!(core, "3");
    assert_eq!(socket, "1");
    let (core, socket) = EsxiUtil::get_core_socket_info(None);
    assert_eq!(core, "N/A");
    assert_eq!(socket, "N/A");
}

#[test]
fn core_socket_info_takes_second_colon_piece() {
    assert_eq!(EsxiUtil::parse_core_socket_info("core: 5 :9", "core:"), "5");
    assert_eq!(EsxiUtil::parse_core_socket_info("no colon here", "core:"), "N/A");
}

#[test]
fn cpu_list_strips_trailing_slashes_and_caches() {
    let mut util = EsxiUtil::new();
    let list = util.get_cached_cpu_list(Some("0/\n1/\n2/\n".to_string()));
    assert_eq!(list, vec!["0", "1", "2"]);
    let again = util.get_cached_cpu_list(Some("9/\n".to_string()));
    assert_eq!(again, vec!["0", "1", "2"]);
}

#[test]
fn core_details_classify_known_and_unknown() {
    let details = EsxiUtil::get_core_details(
        Some("core:0\npackage:0".to_string()),
        Some("0x00190000".to_string()),
        100,
    );
    assert_eq!(details.len(), 1);
    assert_eq!(details[0].core_id, "0");
    assert_eq!(details[0].digital_readout, "25");
    assert_eq!(details[0].temperature, "75");
    assert_eq!(details[0].core_type, "Real Core");
    let details = EsxiUtil::get_core_details(None, None, 100);
    assert_eq!(details[0].core_id, "N/A");
    assert_eq!(details[0].core_type, "Unknown");
}

#[test]
fn topology_dto_classifies_hyperthread_siblings() {
    let cpu_reads = vec![
        reads("0", Some("core:0\npackage:0"), Some("0x00190000")),
        reads("4", Some("core:0\npackage:0"), Some("0x00150000")),
        reads("1", Some("core:1\npackage:0"), Some("0x00100000")),
    ];
    let dto = EsxiUtil::build_esxi_system_dto(100, 1, 2, 4, &cpu_reads);
    assert_eq!(dto.tjmax, 100);
    assert_eq!(dto.sockets, 1);
    assert_eq!(dto.cores_per_socket, 2);
    assert_eq!(dto.threads_per_core, 2);
    assert_eq!(dto.logical_processors, 4);
    assert_eq!(dto.cpus.len(), 3);
    assert_eq!(dto.cpus[0].cpu_id, "0");
    assert_eq!(dto.cpus[0].cores[0].core_type, "Real Core");
    assert_eq!(dto.cpus[1].cpu_id, "4");
    assert_eq!(dto.cpus[1].cores[0].core_type, "Virtual Thread");
    assert_eq!(dto.cpus[2].cpu_id, "1");
    assert_eq!(dto.cpus[2].cores[0].core_type, "Real Core");
}

#[test]
fn topology_dto_marks_unknown_identities() {
    let cpu_reads = vec![
        reads("0", None, Some("0x00190000")),
        reads("1", Some("core:2\npackage:0"), None),
    ];
    let dto = EsxiUtil::build_esxi_system_dto(100, 1, 2, 2, &cpu_reads);
    assert_eq!(dto.cpus[0].cores[0].core_id, "N/A");
    assert_eq!(dto.cpus[0].cores[0].core_type, "Unknown");
    assert_eq!(dto.cpus[0].socket_id, "N/A");
    assert_eq!(dto.cpus[0].cores[0].digital_readout, "25");
    assert_eq!(dto.cpus[1].cores[0].core_id, "2");
    assert_eq!(dto.cpus[1].cores[0].core_type, "Real Core");
    assert_eq!(dto.cpus[1].cores[0].digital_readout, "N/A");
    assert_eq!(dto.cpus[1].cores[0].temperature, "Error reading MSR");
}

#[test]
fn topology_dto_clamps_divisors() {
    let dto = EsxiUtil::build_esxi_system_dto(100, 0, 0, 0, &Vec::new());
    assert_eq!(dto.sockets, 0);
    assert_eq!(dto.cores_per_socket, 0);
    assert_eq!(dto.threads_per_core, 0);
    let dto = EsxiUtil::build_esxi_system_dto(100, -3, 8, 16, &Vec::new());
    assert_eq!(dto.sockets, 0);
    assert_eq!(dto.cores_per_socket, 8);
    assert_eq!(dto.threads_per_core, 2);
}

#[test]
fn msr_topology_clamps_negative_counts() {
    let t = MsrTopology::from_counts(-1, 8, 16);
    assert_eq!(t, MsrTopology { sockets: 0, cores: 8, threads: 16 });
}

#[test]
fn strategies_map_from_method_names() {
    assert_eq!(strategy_for("std_command"), ExecutionStrategy::Direct);
    assert_eq!(strategy_for("no_fork"), ExecutionStrategy::Shell);
    assert_eq!(strategy_for("execv"), ExecutionStrategy::ForkExec);
    assert_eq!(strategy_for("libc"), ExecutionStrategy::ForkSyscall);
    assert_eq!(strategy_for("direct_check"), ExecutionStrategy::ExistenceCheck);
    assert_eq!(strategy_for("anything else"), ExecutionStrategy::Direct);
}

#[test]
fn shell_escaping_quotes_only_when_needed() {
    assert_eq!(shell_escape("abc-DEF_123"), "abc-DEF_123");
    assert_eq!(shell_escape("a b"), "'a b'");
    assert_eq!(shell_escape("a'b"), "'a'\\''b'");
    assert_eq!(shell_escape(""), "");
}

#[test]
fn command_lines_are_joined_with_spaces() {
    let args = vec!["-l".to_string(), "/".to_string()];
    assert_eq!(build_plain_command_line("ls", &args), "ls -l /");
    let args = vec!["a b".to_string()];
    assert_eq!(build_escaped_command_line("echo", &args), "echo 'a b'");
    assert_eq!(build_plain_command_line("ls", &Vec::new()), "ls ");
}

#[test]
fn wait_status_decoding() {
    assert!(status_exited(0));
    assert!(status_exited(0x100));
    assert!(!status_exited(0x7f));
    assert_eq!(status_exit_code(0x100), 1);
    assert_eq!(status_exit_code(0x7f00), 127);
}

#[test]
fn system_outcome_classification() {
    assert_eq!(system_outcome(-1), Err("libc::system call failed.".to_string()));
    assert_eq!(system_outcome(0), Ok("Command executed successfully.".to_string()));
    assert_eq!(system_outcome(0x100), Err("Command failed with exit code: 1".to_string()));
}

#[test]
fn command_outcome_picks_stream_by_success() {
    assert_eq!(
        command_outcome(true, b"out".to_vec(), b"err".to_vec()),
        Ok("out".to_string())
    );
    assert_eq!(
        command_outcome(false, b"out".to_vec(), b"err".to_vec()),
        Err("err".to_string())
    );
}

#[test]
fn undecodable_bytes_become_placeholder() {
    assert_eq!(convert_to_string(vec![0xff, 0xfe]), "<Invalid UTF-8 Output>");
    assert_eq!(convert_to_string("h\u{e9}llo".as_bytes().to_vec()), "h\u{e9}llo");
    assert_eq!(convert_to_string(Vec::new()), "");
}

#[test]
fn config_defaults_and_precedence() {
    let d = AppConfig::default();
    assert_eq!(d.server, "127.0.0.1:5000");
    assert_eq!(d.interval_secs, 10);
    assert_eq!(d.execution_method, "std_command");

    let got = ConfigLoader::load_config(None, ConfigOverrides::none(), ConfigOverrides::none());
    assert_eq!(got.server, "127.0.0.1:5000");
    assert_eq!(got.interval_secs, 10);

    let file = AppConfig {
        server: "10.0.0.1:9".to_string(),
        interval_secs: 30,
        execution_method: "libc".to_string(),
    };
    let env = ConfigOverrides {
        server: Some("10.0.0.2:9".to_string()),
        interval_secs: None,
        execution_method: None,
    };
    let cli = ConfigOverrides {
        server: None,
        interval_secs: Some(5),
        execution_method: None,
    };
    let got = ConfigLoader::load_config(Some(file), env, cli);
    assert_eq!(got.server, "10.0.0.2:9");
    assert_eq!(got.interval_secs, 5);
    assert_eq!(got.execution_method, "libc");
}

#[test]
fn config_holder_is_write_once() {
    let mut c = Config::new();
    assert!(!c.is_initialized());
    c.initialize(AppConfig::default());
    assert!(c.is_initialized());
    assert_eq!(c.server(), "127.0.0.1:5000");
    assert_eq!(c.interval_secs(), 10);
    assert_eq!(c.execution_method(), "std_command");
}

#[test]
fn installer_decision() {
    assert!(InstallerUtil::ensure_sensors_installed(true, false, false, false));
    assert!(!InstallerUtil::ensure_sensors_installed(false, false, false, true));
    assert!(InstallerUtil::ensure_sensors_installed(false, true, false, true));
    assert!(InstallerUtil::ensure_sensors_installed(false, false, true, true));
    assert!(!InstallerUtil::ensure_sensors_installed(false, true, true, false));
    assert!(InstallerUtil::may_install(true, false));
    assert!(!InstallerUtil::may_install(false, false));
}

fn iface(is_v4: bool, is_loopback: bool, ip: &str) -> IfaceAddr {
    IfaceAddr { is_v4, is_loopback, ip: ip.to_string() }
}

#[test]
fn primary_address_selection() {
    let entries = vec![
        iface(true, true, "127.0.0.1"),
        iface(false, true, "::1"),
        iface(true, false, "192.168.1.2"),
        iface(false, false, "fe80::1"),
    ];
    assert_eq!(select_primary_ip(&entries, Some(true)), "192.168.1.2");
    assert_eq!(select_primary_ip(&entries, Some(false)), "fe80::1");
    assert_eq!(select_primary_ip(&entries, None), "192.168.1.2");
    let only_loopback = vec![iface(true, true, "127.0.0.1")];
    assert_eq!(select_primary_ip(&only_loopback, Some(true)), "<unknown>");
    assert_eq!(select_primary_ip(&Vec::new(), None), "<unknown>");
}

#[test]
fn http_request_framing() {
    let req = NetworkUtil::build_http_request("10.0.0.1", "{\"a\":1}");
    let expected = "POST / HTTP/1.1\r\nHost: 10.0.0.1\r\nContent-Type: application/json\r\nContent-Length: 7\r\n\r\n{\"a\":1}";
    assert_eq!(req, expected);
}

#[test]
fn host_splits_before_first_colon() {
    assert_eq!(NetworkUtil::host_of_server("127.0.0.1:5000"), "127.0.0.1");
    assert_eq!(NetworkUtil::host_of_server("nohost"), "nohost");
    assert_eq!(NetworkUtil::host_of_server(":5000"), "");
}

#[test]
fn report_lines_format_exactly() {
    let m = MemoryInfo { total: 4, used: 3, total_swap: 2, used_swap: 1 };
    assert_eq!(
        format_memory_lines(&m),
        vec![
            "Total Memory: 4 bytes",
            "Used Memory: 3 bytes",
            "Total Swap: 2 bytes",
            "Used Swap: 1 bytes",
        ]
    );
    let d = DiskInfo {
        name: "sda".to_string(),
        total_space: 100,
        available_space: 40,
        read_bytes: 7,
        written_bytes: 8,
    };
    assert_eq!(
        format_disk_line(&d),
        "Disk: sda | Total: 100 bytes | Available: 40 bytes | Read: 7 bytes | Written: 8 bytes"
    );
    let n = NetworkInfo {
        interface_name: "eth0".to_string(),
        received: 10,
        transmitted: 20,
        mtu: Some(1500),
    };
    assert_eq!(
        format_network_line(&n),
        "Interface: eth0 | Received: 10 bytes | Transmitted: 20 bytes | MTU: Some(1500)"
    );
    let n2 = NetworkInfo { mtu: None, ..n };
    assert_eq!(
        format_network_line(&n2),
        "Interface: eth0 | Received: 10 bytes | Transmitted: 20 bytes | MTU: None"
    );
    let p = ProcessInfo { name: "init".to_string(), pid: 1, memory: 99 };
    assert_eq!(format_process_line(&p), "Process: init | PID: 1 | Memory: 99 bytes");
    assert_eq!(
        format_system_details_lines("Linux", "12", "6.1", "host"),
        vec!["OS Name: Linux", "OS Version: 12", "Kernel Version: 6.1", "Hostname: host"]
    );
    let u = Uptime::from_seconds(61);
    assert_eq!(
        format_uptime_line(&u),
        "System Uptime: 0 days 0 hours 1 minutes 1 seconds [61]"
    );
    assert_eq!(or_unknown(None), "<unknown>");
    assert_eq!(or_unknown(Some("x".to_string())), "x");
}
