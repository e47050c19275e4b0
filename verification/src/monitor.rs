//! The system-information monitor: a thin verified shell around the
//! `sysinfo` crate's machine probes. Every probe is a trusted call that
//! hands back plain values; what the library adds — assembling the
//! records, the fallback for missing names, the report lines — is
//! verified. Per-core usage percentages are floating-point and are handed
//! out as raw bits for the unverified layers to interpret.
use std::io::Write;
use vstd::prelude::*;

use crate::models::DiskInfo;
use crate::models::MemoryInfo;
use crate::models::NetworkInfo;
use crate::models::ProcessInfo;
use crate::models::Uptime;
use crate::text::u64_to_string;

verus! {

#[verifier::external_type_specification]
#[verifier::external_body]
pub struct ExSystem(sysinfo::System);

#[verifier::external_type_specification]
#[verifier::external_body]
pub struct ExNetworks(sysinfo::Networks);

#[verifier::external_type_specification]
#[verifier::external_body]
pub struct ExDisks(sysinfo::Disks);

#[verifier::external_type_specification]
#[verifier::external_body]
pub struct ExComponents(sysinfo::Components);

#[verifier::external_type_specification]
#[verifier::external_body]
pub struct ExUsers(sysinfo::Users);

#[verifier::external_type_specification]
#[verifier::external_body]
pub struct ExDisk(sysinfo::Disk);

#[verifier::external_type_specification]
#[verifier::external_body]
pub struct ExNetworkData(sysinfo::NetworkData);

#[verifier::external_type_specification]
#[verifier::external_body]
pub struct ExComponent(sysinfo::Component);

#[verifier::external_type_specification]
#[verifier::external_body]
pub struct ExUser(sysinfo::User);

/// Relies on sysinfo::System::new_all: a fresh probe with all data loaded.
#[verifier::external_body]
fn sys_new_all() -> sysinfo::System {
    sysinfo::System::new_all()
}

/// Relies on sysinfo::System::refresh_all to re-read the machine's state.
#[verifier::external_body]
fn sys_refresh_all(s: &mut sysinfo::System) {
    s.refresh_all();
}

/// Relies on sysinfo::Networks::new_with_refreshed_list.
#[verifier::external_body]
fn networks_new() -> sysinfo::Networks {
    sysinfo::Networks::new_with_refreshed_list()
}

/// Relies on sysinfo::Networks::refresh.
#[verifier::external_body]
fn networks_refresh(n: &mut sysinfo::Networks, remove_not_listed: bool) {
    n.refresh(remove_not_listed);
}

/// Relies on sysinfo::Disks::new_with_refreshed_list.
#[verifier::external_body]
fn disks_new() -> sysinfo::Disks {
    sysinfo::Disks::new_with_refreshed_list()
}

/// Relies on sysinfo::Disks::refresh.
#[verifier::external_body]
fn disks_refresh(d: &mut sysinfo::Disks, remove_not_listed: bool) {
    d.refresh(remove_not_listed);
}

/// Relies on sysinfo::Components::new_with_refreshed_list.
#[verifier::external_body]
fn components_new() -> sysinfo::Components {
    sysinfo::Components::new_with_refreshed_list()
}

/// Relies on sysinfo::Components::refresh.
#[verifier::external_body]
fn components_refresh(c: &mut sysinfo::Components, remove_not_listed: bool) {
    c.refresh(remove_not_listed);
}

/// Relies on sysinfo::Users::new_with_refreshed_list.
#[verifier::external_body]
fn users_new() -> sysinfo::Users {
    sysinfo::Users::new_with_refreshed_list()
}

/// Relies on sysinfo::Users::refresh.
#[verifier::external_body]
fn users_refresh(u: &mut sysinfo::Users) {
    u.refresh();
}

/// Relies on sysinfo::System::total_memory.
#[verifier::external_body]
fn sys_total_memory(s: &sysinfo::System) -> u64 {
    s.total_memory()
}

/// Relies on sysinfo::System::used_memory.
#[verifier::external_body]
fn sys_used_memory(s: &sysinfo::System) -> u64 {
    s.used_memory()
}

/// Relies on sysinfo::System::total_swap.
#[verifier::external_body]
fn sys_total_swap(s: &sysinfo::System) -> u64 {
    s.total_swap()
}

/// Relies on sysinfo::System::used_swap.
#[verifier::external_body]
fn sys_used_swap(s: &sysinfo::System) -> u64 {
    s.used_swap()
}

/// Relies on sysinfo::System::uptime: seconds since boot.
#[verifier::external_body]
fn sys_uptime() -> u64 {
    sysinfo::System::uptime()
}

/// Relies on sysinfo::System::name.
#[verifier::external_body]
fn sys_name() -> Option<String> {
    sysinfo::System::name()
}

/// Relies on sysinfo::System::os_version.
#[verifier::external_body]
fn sys_os_version() -> Option<String> {
    sysinfo::System::os_version()
}

/// Relies on sysinfo::System::kernel_version.
#[verifier::external_body]
fn sys_kernel_version() -> Option<String> {
    sysinfo::System::kernel_version()
}

/// Relies on sysinfo::System::host_name.
#[verifier::external_body]
fn sys_host_name() -> Option<String> {
    sysinfo::System::host_name()
}

/// Relies on sysinfo::System::cpu_arch.
#[verifier::external_body]
fn sys_cpu_arch() -> String {
    sysinfo::System::cpu_arch()
}

/// Relies on sysinfo::System::cpus and sysinfo::Cpu::cpu_usage, handing
/// each percentage out as its raw bit pattern.
#[verifier::external_body]
fn sys_cpu_usage_bits(s: &sysinfo::System) -> Vec<u32> {
    s.cpus().iter().map(|c| c.cpu_usage().to_bits()).collect()
}

/// Relies on sysinfo::System::cpus: the number of logical processors.
#[verifier::external_body]
fn sys_cpu_count(s: &sysinfo::System) -> usize {
    s.cpus().len()
}

/// Relies on sysinfo::Disks::iter and the sysinfo::Disk accessors name,
/// total_space, available_space and usage, converting each disk into the
/// library's plain record.
#[verifier::external_body]
fn disks_snapshot(disks: &sysinfo::Disks) -> Vec<DiskInfo> {
    disks.iter().map(|d| DiskInfo {
        name: d.name().to_string_lossy().to_string(),
        total_space: d.total_space(),
        available_space: d.available_space(),
        read_bytes: d.usage().read_bytes,
        written_bytes: d.usage().written_bytes,
    }).collect()
}

/// Relies on sysinfo::Networks::iter and the sysinfo::NetworkData
/// accessors received, transmitted and mtu, converting each interface into
/// the library's plain record.
#[verifier::external_body]
fn networks_snapshot(networks: &sysinfo::Networks) -> Vec<NetworkInfo> {
    networks.iter().map(|(name, data)| NetworkInfo {
        interface_name: name.clone(),
        received: data.received(),
        transmitted: data.transmitted(),
        mtu: Some(data.mtu()),
    }).collect()
}

/// Relies on sysinfo::System::processes and the sysinfo::Process accessors
/// name, pid and memory, converting each process into the library's plain
/// record. The walk order of the process table is not fixed.
#[verifier::external_body]
fn processes_snapshot(s: &sysinfo::System) -> Vec<ProcessInfo> {
    s.processes().iter().map(|(_, p)| ProcessInfo {
        name: p.name().to_string_lossy().to_string(),
        pid: p.pid().as_u32(),
        memory: p.memory(),
    }).collect()
}

/// Relies on sysinfo::Users::iter and sysinfo::User::name, converting each
/// user to their name.
#[verifier::external_body]
fn users_names(u: &sysinfo::Users) -> Vec<String> {
    u.iter().map(|user| user.name().to_string()).collect()
}

/// Relies on writing one line to the standard error stream, where the
/// probe's report goes.
#[verifier::external_body]
fn emit_line(s: &str) {
    let _ = writeln!(std::io::stderr(), "{}", s);
}

/// Writes each report line out.
fn emit_lines(lines: &Vec<String>) {
    let mut i: usize = 0;
    while i < lines.len()
        decreases lines@.len() - i,
    {
        emit_line(lines[i].as_str());
        i = i + 1;
    }
}

/// A name with the documented fallback for a missing one.
pub open spec fn spec_or_unknown(o: Option<Seq<char>>) -> Seq<char> {
    match o {
        Some(s) => s,
        None => "<unknown>"@,
    }
}

/// The value of an optional name, with the documented fallback.
pub fn or_unknown(o: Option<String>) -> (r: String)
    ensures
        r@ == spec_or_unknown(o.deep_view()),
{
    match o {
        Some(s) => s,
        None => "<unknown>".to_owned(),
    }
}

/// The machine handles the monitor refreshes and reads.
pub struct SystemInfo {
    system: sysinfo::System,
    networks: sysinfo::Networks,
    disks: sysinfo::Disks,
    components: sysinfo::Components,
    users: sysinfo::Users,
}

impl SystemInfo {
    /// Initializes the handles and loads all data once.
    pub fn new() -> SystemInfo {
        let mut system = sys_new_all();
        let networks = networks_new();
        let disks = disks_new();
        let components = components_new();
        let users = users_new();
        sys_refresh_all(&mut system);
        SystemInfo { system, networks, disks, components, users }
    }

    /// Re-reads the system data.
    pub fn refresh(&mut self) {
        sys_refresh_all(&mut self.system);
    }

    /// Re-reads the system data.
    pub fn refresh_system(&mut self) {
        sys_refresh_all(&mut self.system);
    }

    /// Re-reads the network interfaces.
    pub fn refresh_networks(&mut self) {
        networks_refresh(&mut self.networks, false);
    }

    /// Re-reads the disks.
    pub fn refresh_disks(&mut self) {
        disks_refresh(&mut self.disks, false);
    }

    /// Re-reads the hardware components.
    pub fn refresh_components(&mut self) {
        components_refresh(&mut self.components, false);
    }

    /// Re-reads the user table.
    pub fn refresh_users(&mut self) {
        users_refresh(&mut self.users);
    }

    /// Re-reads everything.
    pub fn refresh_all(&mut self) {
        self.refresh_system();
        self.refresh_networks();
        self.refresh_disks();
        self.refresh_components();
        self.refresh_users();
    }

    /// The user table, read-only.
    pub fn get_users(&self) -> &sysinfo::Users {
        &self.users
    }

    /// The hardware components, read-only.
    pub fn get_components(&self) -> &sysinfo::Components {
        &self.components
    }

    /// Memory usage as one record.
    pub fn memory_info(&self) -> MemoryInfo {
        MemoryInfo {
            total: sys_total_memory(&self.system),
            used: sys_used_memory(&self.system),
            total_swap: sys_total_swap(&self.system),
            used_swap: sys_used_swap(&self.system),
        }
    }

    /// One record per disk.
    pub fn disk_info(&self) -> Vec<DiskInfo> {
        disks_snapshot(&self.disks)
    }

    /// One record per network interface.
    pub fn network_info(&self) -> Vec<NetworkInfo> {
        networks_snapshot(&self.networks)
    }

    /// One record per process.
    pub fn process_info(&self) -> Vec<ProcessInfo> {
        processes_snapshot(&self.system)
    }

    /// The per-core usage percentages, as raw bit patterns.
    pub fn cpu_usage_bits(&self) -> Vec<u32> {
        sys_cpu_usage_bits(&self.system)
    }

    /// The number of logical processors.
    pub fn cpu_count(&self) -> usize {
        sys_cpu_count(&self.system)
    }

    /// The processor architecture's name.
    pub fn cpu_arch(&self) -> String {
        sys_cpu_arch()
    }

    /// The uptime, broken into days, hours, minutes and seconds. The
    /// breakdown is consistent with the raw total it carries.
    pub fn uptime(&self) -> (r: Uptime)
        ensures
            r.days == r.total_seconds / 86400,
            r.hours == (r.total_seconds % 86400) / 3600,
            r.minutes == (r.total_seconds % 3600) / 60,
            r.seconds == r.total_seconds % 60,
    {
        Uptime::from_seconds(sys_uptime())
    }

    /// Operating-system name, version, kernel version and host name, each
    /// with the documented fallback when the machine does not report one.
    pub fn system_details(&self) -> (String, String, String, String) {
        (
            or_unknown(sys_name()),
            or_unknown(sys_os_version()),
            or_unknown(sys_kernel_version()),
            or_unknown(sys_host_name()),
        )
    }

    /// The host's name, with the documented fallback.
    pub fn host_name(&self) -> String {
        or_unknown(sys_host_name())
    }

    /// The names of the machine's users.
    pub fn user_names(&self) -> Vec<String> {
        users_names(&self.users)
    }
}

/// A label, a number and the byte unit, as one report line.
pub open spec fn spec_bytes_line(label: Seq<char>, v: int) -> Seq<char> {
    label + crate::text::spec_u64_str(v) + " bytes"@
}

fn bytes_line(label: &str, v: u64) -> (r: String)
    ensures
        r@ == spec_bytes_line(label@, v as int),
{
    proof {
        reveal_strlit(" bytes");
    }
    let mut s = label.to_owned();
    let n = u64_to_string(v);
    s.append(n.as_str());
    s.append(" bytes");
    proof {
        assert(s@ =~= spec_bytes_line(label@, v as int));
    }
    s
}

/// The memory report: totals and use of memory and swap, one line each.
pub open spec fn spec_memory_lines(total: int, used: int, total_swap: int, used_swap: int) -> Seq<
    Seq<char>,
> {
    seq![
        spec_bytes_line("Total Memory: "@, total),
        spec_bytes_line("Used Memory: "@, used),
        spec_bytes_line("Total Swap: "@, total_swap),
        spec_bytes_line("Used Swap: "@, used_swap),
    ]
}

/// Renders the memory report.
pub fn format_memory_lines(m: &MemoryInfo) -> (r: Vec<String>)
    ensures
        r.deep_view() =~= spec_memory_lines(
            m.total as int,
            m.used as int,
            m.total_swap as int,
            m.used_swap as int,
        ),
{
    let mut r: Vec<String> = Vec::new();
    r.push(bytes_line("Total Memory: ", m.total));
    r.push(bytes_line("Used Memory: ", m.used));
    r.push(bytes_line("Total Swap: ", m.total_swap));
    r.push(bytes_line("Used Swap: ", m.used_swap));
    proof {
        assert(r.deep_view() =~= seq![r@[0]@, r@[1]@, r@[2]@, r@[3]@]);
    }
    r
}

/// One disk's report line.
pub open spec fn spec_disk_line(d: crate::models::DiskInfo) -> Seq<char> {
    "Disk: "@ + d.name@ + " | Total: "@ + crate::text::spec_u64_str(d.total_space as int)
        + " bytes | Available: "@ + crate::text::spec_u64_str(d.available_space as int)
        + " bytes | Read: "@ + crate::text::spec_u64_str(d.read_bytes as int)
        + " bytes | Written: "@ + crate::text::spec_u64_str(d.written_bytes as int) + " bytes"@
}

/// Renders one disk's report line.
pub fn format_disk_line(d: &DiskInfo) -> (r: String)
    ensures
        r@ == spec_disk_line(*d),
{
    proof {
        reveal_strlit("Disk: ");
        reveal_strlit(" | Total: ");
        reveal_strlit(" bytes | Available: ");
        reveal_strlit(" bytes | Read: ");
        reveal_strlit(" bytes | Written: ");
        reveal_strlit(" bytes");
    }
    let mut s = "Disk: ".to_owned();
    s.append(d.name.as_str());
    s.append(" | Total: ");
    let t = u64_to_string(d.total_space);
    s.append(t.as_str());
    s.append(" bytes | Available: ");
    let a = u64_to_string(d.available_space);
    s.append(a.as_str());
    s.append(" bytes | Read: ");
    let rd = u64_to_string(d.read_bytes);
    s.append(rd.as_str());
    s.append(" bytes | Written: ");
    let w = u64_to_string(d.written_bytes);
    s.append(w.as_str());
    s.append(" bytes");
    proof {
        assert(s@ =~= spec_disk_line(*d));
    }
    s
}

/// An optional number as the standard debug rendering.
pub open spec fn spec_opt_u64_debug(o: Option<u64>) -> Seq<char> {
    match o {
        Some(v) => "Some("@ + crate::text::spec_u64_str(v as int) + ")"@,
        None => "None"@,
    }
}

fn opt_u64_debug(o: &Option<u64>) -> (r: String)
    ensures
        r@ == spec_opt_u64_debug(*o),
{
    match o {
        Some(v) => {
            proof {
                reveal_strlit("Some(");
                reveal_strlit(")");
            }
            let mut s = "Some(".to_owned();
            let n = u64_to_string(*v);
            s.append(n.as_str());
            s.append(")");
            proof {
                assert(s@ =~= spec_opt_u64_debug(*o));
            }
            s
        },
        None => "None".to_owned(),
    }
}

/// One network interface's report line.
pub open spec fn spec_network_line(n: crate::models::NetworkInfo) -> Seq<char> {
    "Interface: "@ + n.interface_name@ + " | Received: "@ + crate::text::spec_u64_str(
        n.received as int,
    ) + " bytes | Transmitted: "@ + crate::text::spec_u64_str(n.transmitted as int)
        + " bytes | MTU: "@ + spec_opt_u64_debug(n.mtu)
}

/// Renders one network interface's report line.
pub fn format_network_line(n: &NetworkInfo) -> (r: String)
    ensures
        r@ == spec_network_line(*n),
{
    proof {
        reveal_strlit("Interface: ");
        reveal_strlit(" | Received: ");
        reveal_strlit(" bytes | Transmitted: ");
        reveal_strlit(" bytes | MTU: ");
    }
    let mut s = "Interface: ".to_owned();
    s.append(n.interface_name.as_str());
    s.append(" | Received: ");
    let rc = u64_to_string(n.received);
    s.append(rc.as_str());
    s.append(" bytes | Transmitted: ");
    let tx = u64_to_string(n.transmitted);
    s.append(tx.as_str());
    s.append(" bytes | MTU: ");
    let m = opt_u64_debug(&n.mtu);
    s.append(m.as_str());
    proof {
        assert(s@ =~= spec_network_line(*n));
    }
    s
}

/// One process's report line.
pub open spec fn spec_process_line(p: crate::models::ProcessInfo) -> Seq<char> {
    "Process: "@ + p.name@ + " | PID: "@ + crate::text::spec_u64_str(p.pid as int)
        + " | Memory: "@ + crate::text::spec_u64_str(p.memory as int) + " bytes"@
}

/// Renders one process's report line.
pub fn format_process_line(p: &ProcessInfo) -> (r: String)
    ensures
        r@ == spec_process_line(*p),
{
    proof {
        reveal_strlit("Process: ");
        reveal_strlit(" | PID: ");
        reveal_strlit(" | Memory: ");
        reveal_strlit(" bytes");
    }
    let mut s = "Process: ".to_owned();
    s.append(p.name.as_str());
    s.append(" | PID: ");
    let pid = u64_to_string(p.pid as u64);
    s.append(pid.as_str());
    s.append(" | Memory: ");
    let m = u64_to_string(p.memory);
    s.append(m.as_str());
    s.append(" bytes");
    proof {
        assert(s@ =~= spec_process_line(*p));
    }
    s
}

/// One labelled name line of the system-details report.
pub open spec fn spec_labelled_line(label: Seq<char>, v: Seq<char>) -> Seq<char> {
    label + v
}

fn labelled_line(label: &str, v: &str) -> (r: String)
    ensures
        r@ == spec_labelled_line(label@, v@),
{
    let mut s = label.to_owned();
    s.append(v);
    proof {
        assert(s@ =~= label@ + v@);
    }
    s
}

/// The system-details report: operating system, version, kernel and host.
pub open spec fn spec_system_details_lines(
    os_name: Seq<char>,
    os_version: Seq<char>,
    kernel_version: Seq<char>,
    hostname: Seq<char>,
) -> Seq<Seq<char>> {
    seq![
        "OS Name: "@ + os_name,
        "OS Version: "@ + os_version,
        "Kernel Version: "@ + kernel_version,
        "Hostname: "@ + hostname,
    ]
}

/// Renders the system-details report.
pub fn format_system_details_lines(
    os_name: &str,
    os_version: &str,
    kernel_version: &str,
    hostname: &str,
) -> (r: Vec<String>)
    ensures
        r.deep_view() =~= spec_system_details_lines(
            os_name@,
            os_version@,
            kernel_version@,
            hostname@,
        ),
{
    let mut r: Vec<String> = Vec::new();
    r.push(labelled_line("OS Name: ", os_name));
    r.push(labelled_line("OS Version: ", os_version));
    r.push(labelled_line("Kernel Version: ", kernel_version));
    r.push(labelled_line("Hostname: ", hostname));
    proof {
        assert(r.deep_view() =~= seq![r@[0]@, r@[1]@, r@[2]@, r@[3]@]);
    }
    r
}

/// The uptime report line.
pub open spec fn spec_uptime_line(u: Uptime) -> Seq<char> {
    "System Uptime: "@ + u.spec_report()
}

/// Renders the uptime report line.
pub fn format_uptime_line(u: &Uptime) -> (r: String)
    ensures
        r@ == spec_uptime_line(*u),
{
    proof {
        reveal_strlit("System Uptime: ");
    }
    let mut s = "System Uptime: ".to_owned();
    let rep = u.to_string();
    s.append(rep.as_str());
    proof {
        assert(s@ =~= spec_uptime_line(*u));
    }
    s
}

/// The monitor the collection component holds: it refreshes before every
/// read and renders the probe's report lines.
pub struct SysInfoMonitor {
    system_info: SystemInfo,
}

impl SysInfoMonitor {
    /// A monitor with freshly initialized machine handles.
    pub fn new() -> SysInfoMonitor {
        SysInfoMonitor { system_info: SystemInfo::new() }
    }

    /// Re-reads the system data.
    pub fn refresh(&mut self) {
        self.system_info.refresh();
    }

    /// Re-reads everything.
    pub fn refresh_all(&mut self) {
        self.system_info.refresh_all();
    }

    /// Re-reads the system data.
    pub fn refresh_system(&mut self) {
        self.system_info.refresh_system();
    }

    /// Re-reads the hardware components.
    pub fn refresh_components(&mut self) {
        self.system_info.refresh_components();
    }

    /// Re-reads the disks.
    pub fn refresh_disks(&mut self) {
        self.system_info.refresh_disks();
    }

    /// Re-reads the network interfaces.
    pub fn refresh_networks(&mut self) {
        self.system_info.refresh_networks();
    }

    /// Re-reads the user table.
    pub fn refresh_users(&mut self) {
        self.system_info.refresh_users();
    }

    /// Memory usage, freshly read.
    pub fn get_memory_info(&mut self) -> MemoryInfo {
        self.refresh_system();
        self.system_info.memory_info()
    }

    /// Writes the memory report out.
    pub fn log_memory_info(&mut self) {
        let m = self.get_memory_info();
        let lines = format_memory_lines(&m);
        emit_lines(&lines);
    }

    /// The user table, freshly read.
    pub fn get_user_info(&mut self) -> &sysinfo::Users {
        self.refresh_users();
        self.system_info.get_users()
    }

    /// Writes the user report out.
    pub fn log_user_info(&mut self) {
        self.refresh_users();
        let names = self.system_info.user_names();
        emit_line("Users:");
        let mut i: usize = 0;
        while i < names.len()
            decreases names@.len() - i,
        {
            let line = labelled_line("Name: ", names[i].as_str());
            emit_line(line.as_str());
            i = i + 1;
        }
    }

    /// One record per disk, freshly read.
    pub fn get_disk_info(&mut self) -> Vec<DiskInfo> {
        self.refresh_disks();
        self.system_info.disk_info()
    }

    /// Writes the disk report out.
    pub fn log_disk_info(&mut self) {
        let disks = self.get_disk_info();
        emit_line("Disk Usage:");
        let mut i: usize = 0;
        while i < disks.len()
            decreases disks@.len() - i,
        {
            let line = format_disk_line(&disks[i]);
            emit_line(line.as_str());
            i = i + 1;
        }
    }

    /// One record per network interface, freshly read.
    pub fn get_network_info(&mut self) -> Vec<NetworkInfo> {
        self.refresh_networks();
        self.system_info.network_info()
    }

    /// Writes the network report out.
    pub fn log_network_info(&mut self) {
        let nets = self.get_network_info();
        emit_line("Network Usage:");
        let mut i: usize = 0;
        while i < nets.len()
            decreases nets@.len() - i,
        {
            let line = format_network_line(&nets[i]);
            emit_line(line.as_str());
            i = i + 1;
        }
    }

    /// One record per process, freshly read.
    pub fn get_process_info(&mut self) -> Vec<ProcessInfo> {
        self.refresh_system();
        self.system_info.process_info()
    }

    /// Writes the process report out.
    pub fn log_process_info(&mut self) {
        let procs = self.get_process_info();
        emit_line("Process List:");
        let mut i: usize = 0;
        while i < procs.len()
            decreases procs@.len() - i,
        {
            let line = format_process_line(&procs[i]);
            emit_line(line.as_str());
            i = i + 1;
        }
    }

    /// Operating-system name, version, kernel and host name, freshly read.
    pub fn get_system_details(&mut self) -> (String, String, String, String) {
        self.refresh_system();
        self.system_info.system_details()
    }

    /// Writes the system-details report out.
    pub fn log_system_details(&mut self) {
        let (os_name, os_version, kernel_version, hostname) = self.get_system_details();
        let lines = format_system_details_lines(
            os_name.as_str(),
            os_version.as_str(),
            kernel_version.as_str(),
            hostname.as_str(),
        );
        emit_lines(&lines);
    }

    /// The uptime, freshly read, with its breakdown consistent with the
    /// raw total it carries.
    pub fn get_uptime(&mut self) -> (r: Uptime)
        ensures
            r.days == r.total_seconds / 86400,
            r.hours == (r.total_seconds % 86400) / 3600,
            r.minutes == (r.total_seconds % 3600) / 60,
            r.seconds == r.total_seconds % 60,
    {
        self.refresh_system();
        self.system_info.uptime()
    }

    /// Writes the uptime report out.
    pub fn log_uptime(&mut self) {
        let u = self.get_uptime();
        let line = format_uptime_line(&u);
        emit_line(line.as_str());
    }

    /// The hardware components, freshly read.
    pub fn get_components(&mut self) -> &sysinfo::Components {
        self.refresh_components();
        self.system_info.get_components()
    }

    /// The host's name, with the documented fallback.
    pub fn get_host_name(&mut self) -> String {
        self.system_info.host_name()
    }

    /// The per-core usage percentages as raw bit patterns, freshly read.
    pub fn get_cpu_usage_bits(&mut self) -> Vec<u32> {
        self.refresh_system();
        self.system_info.cpu_usage_bits()
    }

    /// The number of logical processors.
    pub fn get_cpu_count(&mut self) -> usize {
        self.system_info.cpu_count()
    }

    /// The processor architecture's name.
    pub fn get_cpu_arch(&mut self) -> String {
        self.system_info.cpu_arch()
    }

    /// Writes the whole startup report out.
    pub fn setup_monitoring(&mut self) {
        emit_line("Setting up system monitoring...");
        self.log_system_details();
        self.log_uptime();
        self.log_memory_info();
        emit_line("System monitoring setup complete.");
    }
}

} // verus!
