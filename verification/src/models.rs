//! Plain data records handed between the probe's components: temperature
//! readings, topology summaries, and the uptime breakdown.
//!
//! Temperatures in sensor records are carried as integer millidegrees
//! Celsius, so that the decoded values stay exact and provable; a consumer
//! that wants floating-point degrees divides by 1000 at the boundary.
use vstd::prelude::*;

verus! {

/// One core's reading from the sensor tool: label, temperature and the two
/// alarm thresholds, all in millidegrees Celsius.
#[derive(Debug, Clone, PartialEq)]
pub struct CpuCoreData {
    pub core_name: String,
    pub temperature: i64,
    pub high_threshold: i64,
    pub critical_threshold: i64,
}

/// One package section of the sensor tool's output: the adapter label that
/// opened the section, the package-level reading, and the cores seen inside
/// the section, in order of appearance.
#[derive(Debug, Clone, PartialEq)]
pub struct CpuPackageData {
    pub package_id: String,
    pub adapter_name: String,
    pub package_temperature: i64,
    pub high_threshold: i64,
    pub critical_threshold: i64,
    pub cores: Vec<CpuCoreData>,
}

/// System uptime broken into days, hours, minutes and seconds, with the
/// original total kept alongside.
#[derive(Debug, Clone)]
pub struct Uptime {
    pub days: u64,
    pub hours: u64,
    pub minutes: u64,
    pub seconds: u64,
    pub total_seconds: u64,
}

impl Uptime {
    /// The textual report of an uptime: the four fields and the raw total.
    pub open spec fn spec_report(&self) -> Seq<char> {
        crate::text::spec_u64_str(self.days as int) + " days "@ + crate::text::spec_u64_str(
            self.hours as int,
        ) + " hours "@ + crate::text::spec_u64_str(self.minutes as int) + " minutes "@
            + crate::text::spec_u64_str(self.seconds as int) + " seconds ["@
            + crate::text::spec_u64_str(self.total_seconds as int) + "]"@
    }

    /// Writes the uptime as text: days, hours, minutes and seconds, with
    /// the raw total in brackets.
    pub fn to_string(&self) -> (r: String)
        ensures
            r@ == self.spec_report(),
    {
        proof {
            reveal_strlit(" days ");
            reveal_strlit(" hours ");
            reveal_strlit(" minutes ");
            reveal_strlit(" seconds [");
            reveal_strlit("]");
        }
        let mut out = crate::text::u64_to_string(self.days);
        out.append(" days ");
        let h = crate::text::u64_to_string(self.hours);
        out.append(h.as_str());
        out.append(" hours ");
        let m = crate::text::u64_to_string(self.minutes);
        out.append(m.as_str());
        out.append(" minutes ");
        let s = crate::text::u64_to_string(self.seconds);
        out.append(s.as_str());
        out.append(" seconds [");
        let t = crate::text::u64_to_string(self.total_seconds);
        out.append(t.as_str());
        out.append("]");
        proof {
            assert(out@ =~= self.spec_report());
        }
        out
    }

    /// Breaks a number of seconds into days, hours, minutes and seconds.
    pub fn from_seconds(total_seconds: u64) -> (r: Uptime)
        ensures
            r.days == total_seconds / 86400,
            r.hours == (total_seconds % 86400) / 3600,
            r.minutes == (total_seconds % 3600) / 60,
            r.seconds == total_seconds % 60,
            r.total_seconds == total_seconds,
    {
        let days = total_seconds / 86400;
        let hours = (total_seconds % 86400) / 3600;
        let minutes = (total_seconds % 3600) / 60;
        let seconds = total_seconds % 60;
        Uptime { days, hours, minutes, seconds, total_seconds }
    }
}

/// Memory usage in bytes.
#[derive(Debug, Clone)]
pub struct MemoryInfo {
    pub total: u64,
    pub used: u64,
    pub total_swap: u64,
    pub used_swap: u64,
}

/// One disk's capacity and traffic in bytes.
#[derive(Debug, Clone)]
pub struct DiskInfo {
    pub name: String,
    pub total_space: u64,
    pub available_space: u64,
    pub read_bytes: u64,
    pub written_bytes: u64,
}

/// One network interface's traffic in bytes.
#[derive(Debug, Clone)]
pub struct NetworkInfo {
    pub interface_name: String,
    pub received: u64,
    pub transmitted: u64,
    pub mtu: Option<u64>,
}

/// One process's identity and memory use.
#[derive(Debug, Clone)]
pub struct ProcessInfo {
    pub name: String,
    pub pid: u32,
    pub memory: u64,
}

/// The host's identity as reported alongside sensor data.
#[derive(Debug, Clone)]
pub struct SystemInfo {
    pub hostname: String,
    pub uptime: Uptime,
    pub management_ip: String,
}

/// The structured readings of one collection pass.
#[derive(Debug, Clone)]
pub struct SensorData {
    pub cpu_packages: Vec<CpuPackageData>,
}

/// The socket, core and thread counts of the host, as decoded from the
/// hypervisor's topology block. Decode failures leave a count at zero, and
/// counts are never negative.
#[derive(Debug, Clone, PartialEq, Eq, Structural)]
pub struct MsrTopology {
    pub sockets: i32,
    pub cores: i32,
    pub threads: i32,
}

impl MsrTopology {
    /// The counts are never negative.
    pub open spec fn wf(&self) -> bool {
        self.sockets >= 0 && self.cores >= 0 && self.threads >= 0
    }

    /// Builds a topology from decoded counts, clamping negative decodes to
    /// the failure default of zero.
    pub fn from_counts(sockets: i32, cores: i32, threads: i32) -> (r: MsrTopology)
        ensures
            r.wf(),
            r.sockets == (if sockets < 0 { 0i32 } else { sockets }),
            r.cores == (if cores < 0 { 0i32 } else { cores }),
            r.threads == (if threads < 0 { 0i32 } else { threads }),
    {
        MsrTopology {
            sockets: if sockets < 0 { 0 } else { sockets },
            cores: if cores < 0 { 0 } else { cores },
            threads: if threads < 0 { 0 } else { threads },
        }
    }
}

/// One core's decoded register reading, with every field already rendered
/// as text: decode failures leave the documented sentinels in place.
#[derive(Debug, Clone, PartialEq)]
pub struct EsxiCoreDetail {
    pub core_id: String,
    pub temperature: String,
    pub digital_readout: String,
    pub core_type: String,
}

/// One logical processor with its socket and its core readings.
#[derive(Debug, Clone, PartialEq)]
pub struct EsxiCpuDetail {
    pub cpu_id: String,
    pub socket_id: String,
    pub cores: Vec<EsxiCoreDetail>,
}

/// The whole host's decoded register data: calibration value, topology
/// summary, and one entry per logical processor.
#[derive(Debug, Clone)]
pub struct EsxiSystemDto {
    pub tjmax: i32,
    pub sockets: i32,
    pub cores_per_socket: i32,
    pub threads_per_core: i32,
    pub logical_processors: i32,
    pub cpus: Vec<EsxiCpuDetail>,
}

/// What was read back from the hypervisor for one logical processor: the
/// processor's name, its core/socket block, and its thermal register dump.
/// `None` stands for a failed read.
#[derive(Debug, Clone)]
pub struct CpuMsrReads {
    pub cpu_id: String,
    pub core_socket_read: Option<String>,
    pub temp_read: Option<String>,
}

} // verus!
