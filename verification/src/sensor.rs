//! The sensor-text parser: a line-oriented state machine over the free-form
//! output of the diagnostic sensor tool. Adapter-marker lines open a new
//! pending package, package-marker lines fill its numeric fields, core
//! lines append per-core readings, and everything else is ignored. The
//! parser never fails: malformed lines degrade to omission or zero
//! defaults.
use vstd::prelude::*;

use crate::models::CpuCoreData;
use crate::models::CpuPackageData;
use crate::text::spec_contains;
use crate::text::spec_temp_field;
use crate::text::spec_tokens;
use crate::text::contains_sub;
use crate::text::parse_temp_field;
use crate::text::tokens;
use crate::text::spec_lines;
use crate::text::split_lines;

verus! {

/// The mathematical content of one core reading.
pub struct CoreRead {
    pub name: Seq<char>,
    pub temp: int,
    pub high: int,
    pub crit: int,
}

/// The mathematical content of one package record.
pub struct PackageRead {
    pub id: Seq<char>,
    pub adapter: Seq<char>,
    pub temp: int,
    pub high: int,
    pub crit: int,
    pub cores: Seq<CoreRead>,
}

impl View for CpuCoreData {
    type V = CoreRead;

    open spec fn view(&self) -> CoreRead {
        CoreRead {
            name: self.core_name@,
            temp: self.temperature as int,
            high: self.high_threshold as int,
            crit: self.critical_threshold as int,
        }
    }
}

impl DeepView for CpuCoreData {
    type V = CoreRead;

    open spec fn deep_view(&self) -> CoreRead {
        self.view()
    }
}

impl View for CpuPackageData {
    type V = PackageRead;

    open spec fn view(&self) -> PackageRead {
        PackageRead {
            id: self.package_id@,
            adapter: self.adapter_name@,
            temp: self.package_temperature as int,
            high: self.high_threshold as int,
            crit: self.critical_threshold as int,
            cores: self.cores.deep_view(),
        }
    }
}

impl DeepView for CpuPackageData {
    type V = PackageRead;

    open spec fn deep_view(&self) -> PackageRead {
        self.view()
    }
}

/// A line that names a sensor adapter of the processor-temperature module.
pub open spec fn spec_is_adapter_line(l: Seq<char>) -> bool {
    spec_contains(l, "coretemp-"@)
}

/// A line that carries a package-level reading.
pub open spec fn spec_is_package_line(l: Seq<char>) -> bool {
    spec_contains(l, "Package id"@)
}

/// A line that carries a core-level reading.
pub open spec fn spec_is_core_line(l: Seq<char>) -> bool {
    spec_contains(l, "Core"@)
}

/// The fresh pending package an adapter line opens: its adapter label is
/// the line's first token, all other fields start empty or zero.
pub open spec fn spec_new_package(l: Seq<char>) -> PackageRead {
    let ts = spec_tokens(l);
    PackageRead {
        id: Seq::empty(),
        adapter: if ts.len() > 0 {
            ts[0]
        } else {
            "Unknown"@
        },
        temp: 0,
        high: 0,
        crit: 0,
        cores: Seq::empty(),
    }
}

/// A package line's effect on the pending package: with at least ten
/// tokens, the id and the three temperatures are taken from their fixed
/// positions; with fewer, the package is left as it was.
pub open spec fn spec_update_package(p: PackageRead, l: Seq<char>) -> PackageRead {
    let ts = spec_tokens(l);
    if ts.len() >= 10 {
        PackageRead {
            id: ts[2],
            temp: spec_temp_field(ts[3]),
            high: spec_temp_field(ts[6]),
            crit: spec_temp_field(ts[9]),
            ..p
        }
    } else {
        p
    }
}

/// A core line's effect on the pending package: with at least six tokens a
/// core reading is appended; with fewer, none is.
pub open spec fn spec_add_core(p: PackageRead, l: Seq<char>) -> PackageRead {
    let ts = spec_tokens(l);
    if ts.len() >= 6 {
        PackageRead {
            cores: p.cores.push(
                CoreRead {
                    name: ts[0],
                    temp: spec_temp_field(ts[1]),
                    high: spec_temp_field(ts[4]),
                    crit: spec_temp_field(ts[5]),
                },
            ),
            ..p
        }
    } else {
        p
    }
}

/// Parser state: the finished packages and the pending one, if any.
pub type ParseState = (Seq<PackageRead>, Option<PackageRead>);

/// Moves a pending package, if any, onto the finished list.
pub open spec fn spec_flush(st: ParseState) -> Seq<PackageRead> {
    match st.1 {
        Some(p) => st.0.push(p),
        None => st.0,
    }
}

/// One line's effect on the parser state, markers checked in priority
/// order.
pub open spec fn spec_parse_step(st: ParseState, l: Seq<char>) -> ParseState {
    if spec_is_adapter_line(l) {
        (spec_flush(st), Some(spec_new_package(l)))
    } else if spec_is_package_line(l) {
        match st.1 {
            Some(p) => (st.0, Some(spec_update_package(p, l))),
            None => st,
        }
    } else if spec_is_core_line(l) {
        match st.1 {
            Some(p) => (st.0, Some(spec_add_core(p, l))),
            None => st,
        }
    } else {
        st
    }
}

/// Runs the parser over the remaining lines and flushes at the end.
pub open spec fn spec_parse_lines_from(lines: Seq<Seq<char>>, st: ParseState) -> Seq<PackageRead>
    decreases lines.len(),
{
    if lines.len() == 0 {
        spec_flush(st)
    } else {
        spec_parse_lines_from(lines.drop_first(), spec_parse_step(st, lines[0]))
    }
}

/// The package records a sequence of lines parses to.
pub open spec fn spec_parse_lines(lines: Seq<Seq<char>>) -> Seq<PackageRead> {
    spec_parse_lines_from(lines, (Seq::empty(), None))
}

/// The package records a raw text parses to.
pub open spec fn spec_parse_sensor(text: Seq<char>) -> Seq<PackageRead> {
    spec_parse_lines(spec_lines(text))
}

/// Checks if a line indicates an adapter.
pub fn is_adapter_line(line: &str) -> (r: bool)
    ensures
        r == spec_is_adapter_line(line@),
{
    contains_sub(line, "coretemp-")
}

/// Checks if a line indicates a package.
pub fn is_package_line(line: &str) -> (r: bool)
    ensures
        r == spec_is_package_line(line@),
{
    contains_sub(line, "Package id")
}

/// Checks if a line indicates a core.
pub fn is_core_line(line: &str) -> (r: bool)
    ensures
        r == spec_is_core_line(line@),
{
    contains_sub(line, "Core")
}

/// Opens the pending package an adapter line announces.
pub fn parse_adapter_line(line: &str) -> (r: CpuPackageData)
    ensures
        r@ == spec_new_package(line@),
{
    let ts = tokens(line);
    let adapter_name = if ts.len() > 0 {
        let ghost dv = ts.deep_view();
        let first = ts[0].clone();
        proof {
            assert(first@ == dv[0]);
        }
        first
    } else {
        "Unknown".to_owned()
    };
    let r = CpuPackageData {
        package_id: String::new(),
        adapter_name,
        package_temperature: 0,
        high_threshold: 0,
        critical_threshold: 0,
        cores: Vec::new(),
    };
    proof {
        assert(r.cores.deep_view() =~= Seq::<CoreRead>::empty());
    }
    r
}

/// Fills the pending package's fields from a package line.
pub fn parse_package_line(line: &str, package: &mut CpuPackageData)
    ensures
        final(package)@ == spec_update_package(old(package)@, line@),
{
    let ts = tokens(line);
    let ghost dv = ts.deep_view();
    if ts.len() >= 10 {
        proof {
            assert(dv[2] == ts@[2]@);
            assert(dv[3] == ts@[3]@);
            assert(dv[6] == ts@[6]@);
            assert(dv[9] == ts@[9]@);
        }
        package.package_id = ts[2].clone();
        package.package_temperature = parse_temp_field(ts[3].as_str());
        package.high_threshold = parse_temp_field(ts[6].as_str());
        package.critical_threshold = parse_temp_field(ts[9].as_str());
    }
}

/// Appends a core reading from a core line to the pending package.
pub fn parse_core_line(line: &str, package: &mut CpuPackageData)
    ensures
        final(package)@ == spec_add_core(old(package)@, line@),
{
    let ts = tokens(line);
    let ghost dv = ts.deep_view();
    if ts.len() >= 6 {
        proof {
            assert(dv[0] == ts@[0]@);
            assert(dv[1] == ts@[1]@);
            assert(dv[4] == ts@[4]@);
            assert(dv[5] == ts@[5]@);
        }
        let core = CpuCoreData {
            core_name: ts[0].clone(),
            temperature: parse_temp_field(ts[1].as_str()),
            high_threshold: parse_temp_field(ts[4].as_str()),
            critical_threshold: parse_temp_field(ts[5].as_str()),
        };
        let ghost old_cores = package.cores.deep_view();
        package.cores.push(core);
        proof {
            assert(package.cores.deep_view() =~= old_cores.push(core@));
        }
    }
}

/// Parses the raw text of the sensor tool into package records, one per
/// adapter section, in first-seen order.
#[verifier::loop_isolation(false)]
pub fn parse_sensor_data(raw_data: &str) -> (r: Vec<CpuPackageData>)
    ensures
        r.deep_view() == spec_parse_sensor(raw_data@),
{
    let lines = split_lines(raw_data);
    let ghost lv = lines.deep_view();
    let mut out: Vec<CpuPackageData> = Vec::new();
    let mut cur: Option<CpuPackageData> = None;
    let mut i: usize = 0;
    proof {
        assert(lv.subrange(0, lv.len() as int) =~= lv);
        assert(out.deep_view() =~= Seq::<PackageRead>::empty());
    }
    while i < lines.len()
        invariant
            i <= lines@.len(),
            spec_parse_sensor(raw_data@) == spec_parse_lines_from(
                lv.subrange(i as int, lv.len() as int),
                (
                    out.deep_view(),
                    match cur {
                        Some(p) => Some(p@),
                        None => None,
                    },
                ),
            ),
        decreases lines@.len() - i,
    {
        let line = &lines[i];
        proof {
            assert(lv[i as int] == lines@[i as int]@);
            assert(lv.subrange(i as int, lv.len() as int).drop_first() =~= lv.subrange(
                i as int + 1,
                lv.len() as int,
            ));
            assert(lv.subrange(i as int, lv.len() as int)[0] == lv[i as int]);
        }
        if is_adapter_line(line.as_str()) {
            match cur {
                Some(p) => {
                    let ghost old_out = out.deep_view();
                    out.push(p);
                    proof {
                        assert(out.deep_view() =~= old_out.push(p@));
                    }
                },
                None => {},
            }
            cur = Some(parse_adapter_line(line.as_str()));
        } else if is_package_line(line.as_str()) {
            match cur {
                Some(p) => {
                    let mut p2 = p;
                    parse_package_line(line.as_str(), &mut p2);
                    cur = Some(p2);
                },
                None => {
                    cur = None;
                },
            }
        } else if is_core_line(line.as_str()) {
            match cur {
                Some(p) => {
                    let mut p2 = p;
                    parse_core_line(line.as_str(), &mut p2);
                    cur = Some(p2);
                },
                None => {
                    cur = None;
                },
            }
        }
        i = i + 1;
    }
    proof {
        assert(lv.subrange(lv.len() as int, lv.len() as int) =~= Seq::<Seq<char>>::empty());
    }
    match cur {
        Some(p) => {
            let ghost old_out = out.deep_view();
            out.push(p);
            proof {
                assert(out.deep_view() =~= old_out.push(p@));
            }
        },
        None => {},
    }
    out
}

/// The structured readings a captured run of the sensor tool yields:
/// the parsed records when output was captured, nothing when the run
/// itself failed.
pub fn collect_sensor_data(captured: Option<String>) -> (r: Option<crate::models::SensorData>)
    ensures
        match r {
            Some(d) => captured matches Some(ref s) && d.cpu_packages.deep_view()
                == spec_parse_sensor(s@),
            None => captured is None,
        },
{
    match captured {
        Some(s) => Some(
            crate::models::SensorData { cpu_packages: parse_sensor_data(s.as_str()) },
        ),
        None => None,
    }
}

/// Sensor-text operations gathered under one name.
pub struct SensorUtils;

impl SensorUtils {
    /// Checks if a line indicates an adapter.
    pub fn is_adapter_line(line: &str) -> (r: bool)
        ensures
            r == spec_is_adapter_line(line@),
    {
        is_adapter_line(line)
    }

    /// Checks if a line indicates a package.
    pub fn is_package_line(line: &str) -> (r: bool)
        ensures
            r == spec_is_package_line(line@),
    {
        is_package_line(line)
    }

    /// Checks if a line indicates a core.
    pub fn is_core_line(line: &str) -> (r: bool)
        ensures
            r == spec_is_core_line(line@),
    {
        is_core_line(line)
    }

    /// Opens the pending package an adapter line announces.
    pub fn parse_adapter_line(line: &str) -> (r: CpuPackageData)
        ensures
            r@ == spec_new_package(line@),
    {
        parse_adapter_line(line)
    }

    /// Fills the pending package's fields from a package line.
    pub fn parse_package_line(line: &str, package: &mut CpuPackageData)
        ensures
            final(package)@ == spec_update_package(old(package)@, line@),
    {
        parse_package_line(line, package)
    }

    /// Appends a core reading from a core line to the pending package.
    pub fn parse_core_line(line: &str, package: &mut CpuPackageData)
        ensures
            final(package)@ == spec_add_core(old(package)@, line@),
    {
        parse_core_line(line, package)
    }

    /// Parses the raw text of the sensor tool into package records.
    pub fn parse_sensor_data(raw_data: &str) -> (r: Vec<CpuPackageData>)
        ensures
            r.deep_view() == spec_parse_sensor(raw_data@),
    {
        parse_sensor_data(raw_data)
    }

    /// The package records a captured run of the sensor tool yields: the
    /// parsed records when output was captured, none when the run failed.
    pub fn collect_cpu_package_data(captured: Option<String>) -> (r: Vec<CpuPackageData>)
        ensures
            match captured {
                Some(ref s) => r.deep_view() == spec_parse_sensor(s@),
                None => r.deep_view() == Seq::<PackageRead>::empty(),
            },
    {
        match captured {
            Some(s) => parse_sensor_data(s.as_str()),
            None => {
                let r: Vec<CpuPackageData> = Vec::new();
                proof {
                    assert(r.deep_view() =~= Seq::<PackageRead>::empty());
                }
                r
            },
        }
    }
}

} // verus!
