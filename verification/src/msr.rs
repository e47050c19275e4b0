//! The register decoder and its caches: turning the hypervisor's
//! `0x`-prefixed register dumps into calibrated temperatures, its key/value
//! topology block into socket/core/thread counts, and its per-processor
//! blocks into core and socket identities. All reads reach this module as
//! plain captured text; a `None` stands for a read that failed. Decode
//! failures degrade to the documented sentinels and never to an error.
use vstd::prelude::*;

use crate::models::CpuMsrReads;
use crate::models::EsxiCoreDetail;
use crate::models::EsxiCpuDetail;
use crate::models::EsxiSystemDto;
use crate::text::spec_contains;
use crate::text::spec_ascii_lower;
use crate::text::spec_find_char;
use crate::text::spec_hex_val;
use crate::text::spec_i64_str;
use crate::text::spec_lines;
use crate::text::spec_parse_i32_or_zero;
use crate::text::spec_trim;
use crate::text::spec_trim_slash;
use crate::text::spec_validate_hex;
use crate::text::contains_sub;
use crate::text::contains_sub_lower;
use crate::text::find_char;
use crate::text::i64_to_string;
use crate::text::lemma_find_char;
use crate::text::parse_i32_or_zero;
use crate::text::scan_hex_bounded;
use crate::text::split_lines;
use crate::text::str_eq;
use crate::text::trim_slash;
use crate::text::trim_spaces;
use crate::text::validate_hex;

verus! {

/// The register value a captured dump line denotes: the line is trimmed of
/// whitespace, must carry the `0x` marker with at least one hexadecimal
/// digit after it, and must fit a 32-bit signed integer.
pub open spec fn spec_hex_register(s: Seq<char>) -> Option<int> {
    let t = spec_trim(s);
    if spec_validate_hex(t) && t.len() > 2 && spec_hex_val(t.subrange(2, t.len() as int))
        <= 0x7fff_ffff {
        Some(spec_hex_val(t.subrange(2, t.len() as int)))
    } else {
        None
    }
}

/// Decodes a register dump line into its 32-bit value.
pub fn decode_hex_register(s: &str) -> (r: Option<i32>)
    ensures
        match r {
            Some(v) => spec_hex_register(s@) == Some(v as int) && v >= 0,
            None => spec_hex_register(s@) is None,
        },
{
    let t = trim_spaces(s);
    let ts = t.as_str();
    if !validate_hex(ts) {
        return None;
    }
    let n = ts.unicode_len();
    if n <= 2 {
        return None;
    }
    match scan_hex_bounded(ts, 2, n, 0x7fff_ffff) {
        Some(v) => Some(v as i32),
        None => None,
    }
}

/// The junction-temperature ceiling a calibration dump denotes: bits 16 to
/// 23 of the register, or the documented default of 100 when the dump does
/// not decode.
pub open spec fn spec_tjmax_decode(s: Seq<char>) -> int {
    match spec_hex_register(s) {
        Some(v) => (v / 0x10000) % 0x100,
        None => 100,
    }
}

/// The junction-temperature ceiling of a calibration read, with the default
/// of 100 when the read itself failed.
pub open spec fn spec_tjmax_of_read(read: Option<Seq<char>>) -> int {
    match read {
        Some(s) => spec_tjmax_decode(s),
        None => 100,
    }
}

/// The uncalibrated thermal offset held in bits 16 to 22 of a thermal
/// register value.
pub open spec fn spec_digital_readout(v: int) -> int {
    (v / 0x10000) % 0x80
}

/// The position of the first line that contains `key`, or the number of
/// lines when none does.
pub open spec fn spec_find_line_idx(lines: Seq<Seq<char>>, key: Seq<char>) -> int
    decreases lines.len(),
{
    if lines.len() == 0 {
        0
    } else if spec_contains(lines[0], key) {
        0
    } else {
        1 + spec_find_line_idx(lines.drop_first(), key)
    }
}

/// What `spec_find_line_idx` finds: the first matching line, with no match
/// before it.
proof fn lemma_find_line_idx(lines: Seq<Seq<char>>, key: Seq<char>)
    ensures
        0 <= spec_find_line_idx(lines, key) <= lines.len(),
        spec_find_line_idx(lines, key) < lines.len() ==> spec_contains(
            lines[spec_find_line_idx(lines, key)],
            key,
        ),
        forall|k: int|
            0 <= k < spec_find_line_idx(lines, key) ==> !spec_contains(lines[k], key),
    decreases lines.len(),
{
    if lines.len() > 0 && !spec_contains(lines[0], key) {
        lemma_find_line_idx(lines.drop_first(), key);
        assert forall|k: int|
            0 <= k < spec_find_line_idx(lines, key) implies !spec_contains(lines[k], key) by {
            if k > 0 {
                assert(lines.drop_first()[k - 1] == lines[k]);
            }
        }
    }
}

/// The position of the first line that contains `key` once folded to lower
/// case, or the number of lines when none does.
pub open spec fn spec_find_line_idx_ci(lines: Seq<Seq<char>>, key: Seq<char>) -> int
    decreases lines.len(),
{
    if lines.len() == 0 {
        0
    } else if spec_contains(spec_ascii_lower(lines[0]), key) {
        0
    } else {
        1 + spec_find_line_idx_ci(lines.drop_first(), key)
    }
}

/// What `spec_find_line_idx_ci` finds.
proof fn lemma_find_line_idx_ci(lines: Seq<Seq<char>>, key: Seq<char>)
    ensures
        0 <= spec_find_line_idx_ci(lines, key) <= lines.len(),
        spec_find_line_idx_ci(lines, key) < lines.len() ==> spec_contains(
            spec_ascii_lower(lines[spec_find_line_idx_ci(lines, key)]),
            key,
        ),
        forall|k: int|
            0 <= k < spec_find_line_idx_ci(lines, key) ==> !spec_contains(
                spec_ascii_lower(lines[k]),
                key,
            ),
    decreases lines.len(),
{
    if lines.len() > 0 && !spec_contains(spec_ascii_lower(lines[0]), key) {
        lemma_find_line_idx_ci(lines.drop_first(), key);
        assert forall|k: int|
            0 <= k < spec_find_line_idx_ci(lines, key) implies !spec_contains(
            spec_ascii_lower(lines[k]),
            key,
        ) by {
            if k > 0 {
                assert(lines.drop_first()[k - 1] == lines[k]);
            }
        }
    }
}

/// The text between a line's first and second colon: what taking the second
/// colon-separated piece of the line yields, when the line has a colon at
/// all.
pub open spec fn spec_after_colon(l: Seq<char>) -> Option<Seq<char>> {
    let c1 = spec_find_char(l, ':');
    if c1 < l.len() {
        let rest = l.subrange(c1 + 1, l.len() as int);
        Some(rest.take(spec_find_char(rest, ':')))
    } else {
        None
    }
}

/// Takes the second colon-separated piece of a line.
fn after_colon(l: &str) -> (r: Option<String>)
    ensures
        match r {
            Some(s) => spec_after_colon(l@) == Some(s@),
            None => spec_after_colon(l@) is None,
        },
{
    let n = l.unicode_len();
    let c1 = find_char(l, ':');
    proof {
        lemma_find_char(l@, ':');
    }
    if c1 < n {
        let rest = l.substring_char(c1 + 1, n).to_owned();
        let rs = rest.as_str();
        let c2 = find_char(rs, ':');
        proof {
            lemma_find_char(rs@, ':');
            assert(rs@.subrange(0, c2 as int) =~= rs@.take(c2 as int));
        }
        Some(rs.substring_char(0, c2).to_owned())
    } else {
        None
    }
}

/// The integer a topology block gives for `key`: on the first line that
/// contains `key`, the piece after the colon, trimmed and read as a 32-bit
/// integer; zero when the line, the colon or the number is missing.
pub open spec fn spec_topology_value(info: Seq<char>, key: Seq<char>) -> int {
    let ls = spec_lines(info);
    let f = spec_find_line_idx(ls, key);
    if f < ls.len() {
        match spec_after_colon(ls[f]) {
            Some(seg) => spec_parse_i32_or_zero(spec_trim(seg)),
            None => 0,
        }
    } else {
        0
    }
}

/// The identity a per-processor block gives for `key` (matched with the
/// block folded to lower case): the piece after the colon on the first
/// matching line, trimmed; the sentinel `N/A` when the line or the colon is
/// missing.
pub open spec fn spec_core_socket_value(info: Seq<char>, key: Seq<char>) -> Seq<char> {
    let ls = spec_lines(info);
    let f = spec_find_line_idx_ci(ls, key);
    if f < ls.len() {
        match spec_after_colon(ls[f]) {
            Some(seg) => spec_trim(seg),
            None => "N/A"@,
        }
    } else {
        "N/A"@
    }
}

/// What a thermal register read renders as: the digital readout and the
/// temperature, both as text, or the documented sentinels when the read or
/// the decode failed.
pub open spec fn spec_cpu_temp_strings(read: Option<Seq<char>>, tjmax: int) -> (Seq<char>, Seq<
    char,
>) {
    match read {
        Some(s) => match spec_hex_register(s) {
            Some(v) => (
                spec_i64_str(spec_digital_readout(v)),
                spec_i64_str(tjmax - spec_digital_readout(v)),
            ),
            None => ("N/A"@, "Invalid temperature value"@),
        },
        None => ("N/A"@, "Error reading MSR"@),
    }
}

/// The core identity of one processor's reads.
pub open spec fn spec_core_id_of(cs_read: Option<Seq<char>>) -> Seq<char> {
    match cs_read {
        Some(s) => spec_core_socket_value(s, "core:"@),
        None => "N/A"@,
    }
}

/// The socket identity of one processor's reads.
pub open spec fn spec_socket_id_of(cs_read: Option<Seq<char>>) -> Seq<char> {
    match cs_read {
        Some(s) => spec_core_socket_value(s, "package:"@),
        None => "N/A"@,
    }
}

/// One calibration request's effect on the cache: a cached value is
/// returned and kept; an empty cache is filled from the read and the
/// decoded value returned.
pub open spec fn spec_tjmax_step(cache: Option<i32>, read: Option<Seq<char>>) -> (int, Option<
    i32,
>) {
    match cache {
        Some(v) => (v as int, Some(v)),
        None => (spec_tjmax_of_read(read), Some(spec_tjmax_of_read(read) as i32)),
    }
}

/// One topology-block request's effect on the cache: a cached block is
/// returned and kept; an empty cache stores the read (an empty text for a
/// failed read).
pub open spec fn spec_cpu_info_step(cache: Option<Seq<char>>, read: Option<Seq<char>>) -> (
    Seq<char>,
    Option<Seq<char>>,
) {
    match cache {
        Some(s) => (s, Some(s)),
        None => {
            let t = match read {
                Some(s) => s,
                None => Seq::<char>::empty(),
            };
            (t, Some(t))
        },
    }
}

/// One processor-list request's effect on the cache.
pub open spec fn spec_cpu_list_step(
    cache: Option<Seq<Seq<char>>>,
    read: Option<Seq<char>>,
) -> (Seq<Seq<char>>, Option<Seq<Seq<char>>>) {
    match cache {
        Some(l) => (l, Some(l)),
        None => {
            let l = match read {
                Some(s) => spec_cpu_list(s),
                None => Seq::<Seq<char>>::empty(),
            };
            (l, Some(l))
        },
    }
}

/// The decoded calibration value always lies between zero and 255.
pub proof fn lemma_tjmax_in_range(read: Option<Seq<char>>)
    ensures
        0 <= spec_tjmax_of_read(read) < 256,
{
}

/// Repeated calibration requests return bit-identical values after the
/// first computation, whatever the later reads return.
pub proof fn lemma_tjmax_cache_stable(
    cache: Option<i32>,
    read1: Option<Seq<char>>,
    read2: Option<Seq<char>>,
)
    ensures
        ({
            let (v1, c1) = spec_tjmax_step(cache, read1);
            let (v2, c2) = spec_tjmax_step(c1, read2);
            v2 == v1 && c2 == c1
        }),
{
    lemma_tjmax_in_range(read1);
}

/// Repeated topology-block requests return the bit-identical block after
/// the first read, and with it bit-identical decoded counts.
pub proof fn lemma_cpu_info_cache_stable(
    cache: Option<Seq<char>>,
    read1: Option<Seq<char>>,
    read2: Option<Seq<char>>,
)
    ensures
        ({
            let (t1, c1) = spec_cpu_info_step(cache, read1);
            let (t2, c2) = spec_cpu_info_step(c1, read2);
            t2 == t1 && c2 == c1
        }),
{
}

/// Repeated processor-list requests return the bit-identical list after
/// the first read.
pub proof fn lemma_cpu_list_cache_stable(
    cache: Option<Seq<Seq<char>>>,
    read1: Option<Seq<char>>,
    read2: Option<Seq<char>>,
)
    ensures
        ({
            let (l1, c1) = spec_cpu_list_step(cache, read1);
            let (l2, c2) = spec_cpu_list_step(c1, read2);
            l2 == l1 && c2 == c1
        }),
{
}

/// The memoizing decoder service. Values that are expensive to read are
/// computed once per instance and handed back unchanged afterwards; the
/// instance is owned by the collection component and passed by reference.
pub struct EsxiUtil {
    tjmax: Option<i32>,
    cpu_info: Option<String>,
    cpu_list: Option<Vec<String>>,
}

impl EsxiUtil {
    /// The cached calibration value, if one has been computed.
    pub closed spec fn tjmax_cache(&self) -> Option<i32> {
        self.tjmax
    }

    /// The cached topology block, if one has been stored.
    pub closed spec fn cpu_info_cache(&self) -> Option<Seq<char>> {
        match self.cpu_info {
            Some(ref s) => Some(s@),
            None => None,
        }
    }

    /// The cached processor list, if one has been stored.
    pub closed spec fn cpu_list_cache(&self) -> Option<Seq<Seq<char>>> {
        match self.cpu_list {
            Some(ref v) => Some(v.deep_view()),
            None => None,
        }
    }

    /// A fresh service with every cache empty.
    pub fn new() -> (r: EsxiUtil)
        ensures
            r.tjmax_cache() is None,
            r.cpu_info_cache() is None,
            r.cpu_list_cache() is None,
    {
        EsxiUtil { tjmax: None, cpu_info: None, cpu_list: None }
    }

    /// Whether the next calibration request needs a register read.
    pub fn needs_tjmax(&self) -> (r: bool)
        ensures
            r == (self.tjmax_cache() is None),
    {
        self.tjmax.is_none()
    }

    /// Whether the next topology request needs a block read.
    pub fn needs_cpu_info(&self) -> (r: bool)
        ensures
            r == (self.cpu_info_cache() is None),
    {
        self.cpu_info.is_none()
    }

    /// Whether the next processor-list request needs a listing read.
    pub fn needs_cpu_list(&self) -> (r: bool)
        ensures
            r == (self.cpu_list_cache() is None),
    {
        self.cpu_list.is_none()
    }

    /// Checks the `0x`-prefixed hexadecimal shape of a register dump.
    pub fn validate_hex(input: &str) -> (r: bool)
        ensures
            r == spec_validate_hex(input@),
    {
        validate_hex(input)
    }

    /// The calibration value: decoded from `read` on the first call, the
    /// cached value on every later one, which leaves the service unchanged.
    pub fn get_tjmax(&mut self, read: Option<String>) -> (r: i32)
        ensures
            ({
                let rv = match read {
                    Some(ref s) => Some(s@),
                    None => None,
                };
                let step = spec_tjmax_step(old(self).tjmax_cache(), rv);
                r as int == step.0 && final(self).tjmax_cache() == step.1
                    && final(self).cpu_info_cache() == old(self).cpu_info_cache()
                    && final(self).cpu_list_cache() == old(self).cpu_list_cache()
            }),
    {
        proof {
            lemma_tjmax_in_range(
                match read {
                    Some(ref s) => Some(s@),
                    None => None,
                },
            );
        }
        match self.tjmax {
            Some(v) => v,
            None => {
                let v: i32 = match read {
                    Some(s) => {
                        match decode_hex_register(s.as_str()) {
                            Some(raw) => (raw / 0x10000) % 0x100,
                            None => 100,
                        }
                    },
                    None => 100,
                };
                self.tjmax = Some(v);
                v
            },
        }
    }

    /// The topology block: stored from `read` on the first call (an empty
    /// text for a failed read), the cached text on every later one.
    pub fn get_cached_cpu_info(&mut self, read: Option<String>) -> (r: String)
        ensures
            ({
                let rv = match read {
                    Some(ref s) => Some(s@),
                    None => None,
                };
                let step = spec_cpu_info_step(old(self).cpu_info_cache(), rv);
                r@ == step.0 && final(self).cpu_info_cache() == step.1
                    && final(self).tjmax_cache() == old(self).tjmax_cache()
                    && final(self).cpu_list_cache() == old(self).cpu_list_cache()
            }),
    {
        match self.cpu_info {
            Some(ref s) => s.clone(),
            None => {
                let s = match read {
                    Some(s) => s,
                    None => String::new(),
                };
                let r = s.clone();
                self.cpu_info = Some(s);
                r
            },
        }
    }

    /// Parses one labelled count out of the topology block.
    pub fn parse_topology_value(cpu_info: &str, key: &str) -> (r: i32)
        ensures
            r as int == spec_topology_value(cpu_info@, key@),
    {
        let lines = split_lines(cpu_info);
        let ghost lv = lines.deep_view();
        let ghost f = spec_find_line_idx(lv, key@);
        proof {
            lemma_find_line_idx(lv, key@);
        }
        let mut i: usize = 0;
        while i < lines.len()
            invariant
                lv == lines.deep_view(),
                lv == spec_lines(cpu_info@),
                f == spec_find_line_idx(lv, key@),
                0 <= f <= lv.len(),
                f < lv.len() ==> spec_contains(lv[f], key@),
                forall|k: int| 0 <= k < f ==> !spec_contains(lv[k], key@),
                i <= lv.len(),
                forall|k: int| 0 <= k < i ==> !spec_contains(lv[k], key@),
                lv.len() == lines@.len(),
            decreases lines@.len() - i,
        {
            proof {
                assert(lv[i as int] == lines@[i as int]@);
            }
            if contains_sub(lines[i].as_str(), key) {
                proof {
                    if f < i {
                        assert(!spec_contains(lv[f], key@));
                        assert(false);
                    }
                    if f > i {
                        assert(!spec_contains(lv[i as int], key@));
                        assert(false);
                    }
                }
                let seg = after_colon(lines[i].as_str());
                return match seg {
                    Some(s) => {
                        let t = trim_spaces(s.as_str());
                        parse_i32_or_zero(t.as_str())
                    },
                    None => 0,
                };
            }
            i = i + 1;
        }
        proof {
            if f < lv.len() {
                assert(!spec_contains(lv[f], key@));
                assert(false);
            }
        }
        0
    }

    /// The socket, core and thread counts of the topology block, by their
    /// exact labels. The block is read once: later calls decode the cached
    /// text and so return the same triple.
    pub fn get_cpu_topology(&mut self, read: Option<String>) -> (r: (i32, i32, i32))
        ensures
            ({
                let rv = match read {
                    Some(ref s) => Some(s@),
                    None => None,
                };
                let step = spec_cpu_info_step(old(self).cpu_info_cache(), rv);
                r.0 as int == spec_topology_value(step.0, "Number of packages"@)
                    && r.1 as int == spec_topology_value(step.0, "Number of cores"@)
                    && r.2 as int == spec_topology_value(step.0, "Number of CPUs (threads)"@)
                    && final(self).cpu_info_cache() == step.1
                    && final(self).tjmax_cache() == old(self).tjmax_cache()
                    && final(self).cpu_list_cache() == old(self).cpu_list_cache()
            }),
    {
        let cpu_info = self.get_cached_cpu_info(read);
        let sockets = Self::parse_topology_value(cpu_info.as_str(), "Number of packages");
        let cores = Self::parse_topology_value(cpu_info.as_str(), "Number of cores");
        let threads = Self::parse_topology_value(cpu_info.as_str(), "Number of CPUs (threads)");
        (sockets, cores, threads)
    }

    /// Parses one case-insensitively labelled identity out of a
    /// per-processor block.
    pub fn parse_core_socket_info(info: &str, key: &str) -> (r: String)
        ensures
            r@ == spec_core_socket_value(info@, key@),
    {
        let lines = split_lines(info);
        let ghost lv = lines.deep_view();
        let ghost f = spec_find_line_idx_ci(lv, key@);
        proof {
            lemma_find_line_idx_ci(lv, key@);
        }
        let mut i: usize = 0;
        while i < lines.len()
            invariant
                lv == lines.deep_view(),
                lv == spec_lines(info@),
                f == spec_find_line_idx_ci(lv, key@),
                0 <= f <= lv.len(),
                f < lv.len() ==> spec_contains(spec_ascii_lower(lv[f]), key@),
                forall|k: int| 0 <= k < f ==> !spec_contains(spec_ascii_lower(lv[k]), key@),
                i <= lv.len(),
                forall|k: int| 0 <= k < i ==> !spec_contains(spec_ascii_lower(lv[k]), key@),
                lv.len() == lines@.len(),
            decreases lines@.len() - i,
        {
            proof {
                assert(lv[i as int] == lines@[i as int]@);
            }
            if contains_sub_lower(lines[i].as_str(), key) {
                proof {
                    if f < i {
                        assert(!spec_contains(spec_ascii_lower(lv[f]), key@));
                        assert(false);
                    }
                    if f > i {
                        assert(!spec_contains(spec_ascii_lower(lv[i as int]), key@));
                        assert(false);
                    }
                }
                let seg = after_colon(lines[i].as_str());
                return match seg {
                    Some(s) => trim_spaces(s.as_str()),
                    None => "N/A".to_owned(),
                };
            }
            i = i + 1;
        }
        proof {
            if f < lv.len() {
                assert(!spec_contains(spec_ascii_lower(lv[f]), key@));
                assert(false);
            }
        }
        "N/A".to_owned()
    }

    /// The core and socket identities of one processor's block read, with
    /// the `N/A` sentinels for a failed read.
    pub fn get_core_socket_info(read: Option<String>) -> (r: (String, String))
        ensures
            r.0@ == spec_core_id_of(
                match read {
                    Some(ref s) => Some(s@),
                    None => None,
                },
            ),
            r.1@ == spec_socket_id_of(
                match read {
                    Some(ref s) => Some(s@),
                    None => None,
                },
            ),
    {
        match read {
            Some(info) => {
                let core = Self::parse_core_socket_info(info.as_str(), "core:");
                let socket = Self::parse_core_socket_info(info.as_str(), "package:");
                (core, socket)
            },
            None => ("N/A".to_owned(), "N/A".to_owned()),
        }
    }

    /// The digital readout and the calibrated temperature of one thermal
    /// register read, both rendered as text; the documented sentinels stand
    /// in when the read or the decode failed.
    pub fn get_cpu_temperature(read: Option<String>, tjmax: i32) -> (r: (String, String))
        ensures
            ({
                let exp = spec_cpu_temp_strings(
                    match read {
                        Some(ref s) => Some(s@),
                        None => None,
                    },
                    tjmax as int,
                );
                r.0@ == exp.0 && r.1@ == exp.1
            }),
    {
        match read {
            Some(s) => {
                match decode_hex_register(s.as_str()) {
                    Some(raw) => {
                        let digital: i32 = (raw / 0x10000) % 0x80;
                        let temperature: i64 = (tjmax as i64) - (digital as i64);
                        (i64_to_string(digital as i64), i64_to_string(temperature))
                    },
                    None => ("N/A".to_owned(), "Invalid temperature value".to_owned()),
                }
            },
            None => ("N/A".to_owned(), "Error reading MSR".to_owned()),
        }
    }
}

/// The mathematical content of one rendered core reading.
pub struct CoreDetailV {
    pub core_id: Seq<char>,
    pub temperature: Seq<char>,
    pub digital_readout: Seq<char>,
    pub core_type: Seq<char>,
}

/// The mathematical content of one processor entry.
pub struct CpuDetailV {
    pub cpu_id: Seq<char>,
    pub socket_id: Seq<char>,
    pub cores: Seq<CoreDetailV>,
}

/// The mathematical content of one processor's captured reads.
pub struct CpuReadsV {
    pub cpu_id: Seq<char>,
    pub cs: Option<Seq<char>>,
    pub temp: Option<Seq<char>>,
}

impl View for EsxiCoreDetail {
    type V = CoreDetailV;

    open spec fn view(&self) -> CoreDetailV {
        CoreDetailV {
            core_id: self.core_id@,
            temperature: self.temperature@,
            digital_readout: self.digital_readout@,
            core_type: self.core_type@,
        }
    }
}

impl DeepView for EsxiCoreDetail {
    type V = CoreDetailV;

    open spec fn deep_view(&self) -> CoreDetailV {
        self.view()
    }
}

impl View for EsxiCpuDetail {
    type V = CpuDetailV;

    open spec fn view(&self) -> CpuDetailV {
        CpuDetailV {
            cpu_id: self.cpu_id@,
            socket_id: self.socket_id@,
            cores: self.cores.deep_view(),
        }
    }
}

impl DeepView for EsxiCpuDetail {
    type V = CpuDetailV;

    open spec fn deep_view(&self) -> CpuDetailV {
        self.view()
    }
}

impl View for CpuMsrReads {
    type V = CpuReadsV;

    open spec fn view(&self) -> CpuReadsV {
        CpuReadsV {
            cpu_id: self.cpu_id@,
            cs: self.core_socket_read.deep_view(),
            temp: self.temp_read.deep_view(),
        }
    }
}

impl DeepView for CpuMsrReads {
    type V = CpuReadsV;

    open spec fn deep_view(&self) -> CpuReadsV {
        self.view()
    }
}

/// The processor names a directory listing denotes: one per line, with
/// trailing slashes removed.
pub open spec fn spec_cpu_list(text: Seq<char>) -> Seq<Seq<char>> {
    spec_lines(text).map_values(|l: Seq<char>| spec_trim_slash(l))
}

/// Clones a list of strings.
fn clone_strings(v: &Vec<String>) -> (r: Vec<String>)
    ensures
        r.deep_view() == v.deep_view(),
{
    let mut r: Vec<String> = Vec::new();
    let mut i: usize = 0;
    proof {
        assert(r.deep_view() =~= v.deep_view().take(0));
    }
    while i < v.len()
        invariant
            i <= v@.len(),
            r.deep_view() == v.deep_view().take(i as int),
        decreases v@.len() - i,
    {
        let ghost prev = r.deep_view();
        let s = v[i].clone();
        proof {
            assert(v.deep_view()[i as int] == v@[i as int]@);
        }
        r.push(s);
        proof {
            assert(r.deep_view() =~= prev.push(v.deep_view()[i as int]));
            assert(prev.push(v.deep_view()[i as int]) =~= v.deep_view().take(i as int + 1));
        }
        i = i + 1;
    }
    proof {
        assert(v.deep_view().take(v.deep_view().len() as int) =~= v.deep_view());
    }
    r
}

impl EsxiUtil {
    /// The processor list: computed from `read` on the first call (empty
    /// for a failed read), the cached list on every later one, which leaves
    /// the service unchanged.
    pub fn get_cached_cpu_list(&mut self, read: Option<String>) -> (r: Vec<String>)
        ensures
            ({
                let rv = match read {
                    Some(ref s) => Some(s@),
                    None => None,
                };
                let step = spec_cpu_list_step(old(self).cpu_list_cache(), rv);
                r.deep_view() == step.0 && final(self).cpu_list_cache() == step.1
                    && final(self).tjmax_cache() == old(self).tjmax_cache()
                    && final(self).cpu_info_cache() == old(self).cpu_info_cache()
            }),
    {
        match self.cpu_list {
            Some(ref v) => clone_strings(v),
            None => {
                let list: Vec<String> = match read {
                    Some(s) => {
                        let lines = split_lines(s.as_str());
                        let ghost lv = lines.deep_view();
                        let mut out: Vec<String> = Vec::new();
                        let mut i: usize = 0;
                        proof {
                            assert(out.deep_view() =~= spec_cpu_list(s@).take(0));
                        }
                        while i < lines.len()
                            invariant
                                i <= lines@.len(),
                                lv == lines.deep_view(),
                                lv == spec_lines(s@),
                                out.deep_view() == spec_cpu_list(s@).take(i as int),
                            decreases lines@.len() - i,
                        {
                            proof {
                                assert(lv[i as int] == lines@[i as int]@);
                            }
                            let t = trim_slash(lines[i].as_str());
                            let ghost prev = out.deep_view();
                            out.push(t);
                            proof {
                                assert(out.deep_view() =~= prev.push(spec_trim_slash(lv[i as int])));
                                assert(prev.push(spec_trim_slash(lv[i as int])) =~= spec_cpu_list(
                                    s@,
                                ).take(i as int + 1));
                            }
                            i = i + 1;
                        }
                        proof {
                            assert(spec_cpu_list(s@).take(spec_cpu_list(s@).len() as int)
                                =~= spec_cpu_list(s@));
                        }
                        out
                    },
                    None => {
                        let out: Vec<String> = Vec::new();
                        proof {
                            assert(out.deep_view() =~= Seq::<Seq<char>>::empty());
                        }
                        out
                    },
                };
                let r = clone_strings(&list);
                self.cpu_list = Some(list);
                r
            },
        }
    }

    /// The single rendered core reading of one processor: identity from its
    /// core/socket block, readout and temperature from its thermal
    /// register, and `Unknown` as the kind when the identity is unknown,
    /// `Real Core` otherwise.
    pub fn get_core_details(
        cs_read: Option<String>,
        temp_read: Option<String>,
        tjmax: i32,
    ) -> (r: Vec<EsxiCoreDetail>)
        ensures
            ({
                let csv = cs_read.deep_view();
                let tv = temp_read.deep_view();
                let id = spec_core_id_of(csv);
                let strs = spec_cpu_temp_strings(tv, tjmax as int);
                r.deep_view() =~= seq![
                    CoreDetailV {
                        core_id: id,
                        temperature: strs.1,
                        digital_readout: strs.0,
                        core_type: if id == "N/A"@ {
                            "Unknown"@
                        } else {
                            "Real Core"@
                        },
                    },
                ]
            }),
    {
        let (core, _socket) = Self::get_core_socket_info(cs_read);
        let (digital_readout, temperature) = Self::get_cpu_temperature(temp_read, tjmax);
        let core_type = if str_eq(core.as_str(), "N/A") {
            "Unknown".to_owned()
        } else {
            "Real Core".to_owned()
        };
        let mut r: Vec<EsxiCoreDetail> = Vec::new();
        r.push(
            EsxiCoreDetail { core_id: core, temperature, digital_readout, core_type },
        );
        proof {
            assert(r.deep_view() =~= Seq::<CoreDetailV>::empty().push(r@[0]@));
        }
        r
    }
}

/// Negative counts clamped to zero: the topology's counts are declared
/// non-negative, with zero standing for a failed decode.
pub open spec fn spec_clamp0(v: int) -> int {
    if v < 0 {
        0
    } else {
        v
    }
}

/// A divisor clamped to at least one, so that a missing topology count
/// cannot divide by zero.
pub open spec fn spec_at_least1(v: int) -> int {
    if v < 1 {
        1
    } else {
        v
    }
}

/// The kind of the core entry at position `i`: `Unknown` for an unknown
/// identity, `Real Core` for the first processor seen with its core
/// identity, `Virtual Thread` for every later processor sharing it.
pub open spec fn spec_core_type_at(rs: Seq<CpuReadsV>, i: int) -> Seq<char> {
    let id = spec_core_id_of(rs[i].cs);
    if id == "N/A"@ {
        "Unknown"@
    } else if exists|j: int| 0 <= j < i && spec_core_id_of(rs[j].cs) == id {
        "Virtual Thread"@
    } else {
        "Real Core"@
    }
}

/// The processor entry at position `i` of the topology summary.
pub open spec fn spec_cpu_detail_at(rs: Seq<CpuReadsV>, i: int, tjmax: int) -> CpuDetailV {
    let id = spec_core_id_of(rs[i].cs);
    let strs = spec_cpu_temp_strings(rs[i].temp, tjmax);
    CpuDetailV {
        cpu_id: rs[i].cpu_id,
        socket_id: spec_socket_id_of(rs[i].cs),
        cores: seq![
            CoreDetailV {
                core_id: id,
                temperature: strs.1,
                digital_readout: strs.0,
                core_type: spec_core_type_at(rs, i),
            },
        ],
    }
}

/// Whether a list of strings holds one equal to `s`.
fn contains_string(v: &Vec<String>, s: &str) -> (r: bool)
    ensures
        r == exists|k: int| 0 <= k < v.deep_view().len() && v.deep_view()[k] == s@,
{
    let mut i: usize = 0;
    while i < v.len()
        invariant
            i <= v@.len(),
            forall|k: int| 0 <= k < i ==> v.deep_view()[k] != s@,
        decreases v@.len() - i,
    {
        proof {
            assert(v.deep_view()[i as int] == v@[i as int]@);
        }
        if str_eq(v[i].as_str(), s) {
            return true;
        }
        i = i + 1;
    }
    false
}

fn clone_opt_string(o: &Option<String>) -> (r: Option<String>)
    ensures
        r.deep_view() == o.deep_view(),
{
    match o {
        Some(s) => Some(s.clone()),
        None => None,
    }
}

impl EsxiUtil {
    /// Builds the host's topology summary from the calibration value, the
    /// three topology counts and the captured per-processor reads. Counts
    /// are clamped to zero from below; the per-socket and per-core ratios
    /// divide by at least one. The first processor seen with each core
    /// identity is a real core; later ones sharing it are its hyperthread
    /// siblings.
    #[verifier::loop_isolation(false)]
    #[verifier::rlimit(30)]
    pub fn build_esxi_system_dto(
        tjmax: i32,
        sockets: i32,
        cores: i32,
        threads: i32,
        cpu_reads: &Vec<CpuMsrReads>,
    ) -> (r: EsxiSystemDto)
        ensures
            ({
                let rs = cpu_reads.deep_view();
                r.tjmax == tjmax && r.sockets as int == spec_clamp0(sockets as int)
                    && r.logical_processors as int == spec_clamp0(threads as int)
                    && r.cores_per_socket as int == spec_clamp0(cores as int) / spec_at_least1(
                    spec_clamp0(sockets as int),
                ) && r.threads_per_core as int == spec_clamp0(threads as int) / spec_at_least1(
                    spec_clamp0(cores as int),
                ) && r.cpus.deep_view() == Seq::new(
                    rs.len(),
                    |i: int| spec_cpu_detail_at(rs, i, tjmax as int),
                )
            }),
    {
        let ghost rs = cpu_reads.deep_view();
        let sockets_c: i32 = if sockets < 0 {
            0
        } else {
            sockets
        };
        let cores_c: i32 = if cores < 0 {
            0
        } else {
            cores
        };
        let threads_c: i32 = if threads < 0 {
            0
        } else {
            threads
        };
        let socket_div: i32 = if sockets_c < 1 {
            1
        } else {
            sockets_c
        };
        let core_div: i32 = if cores_c < 1 {
            1
        } else {
            cores_c
        };
        let cores_per_socket = cores_c / socket_div;
        let threads_per_core = threads_c / core_div;
        let mut cpus: Vec<EsxiCpuDetail> = Vec::new();
        let mut ids: Vec<String> = Vec::new();
        let mut i: usize = 0;
        proof {
            assert(cpus.deep_view() =~= Seq::new(0nat, |k: int| spec_cpu_detail_at(rs, k, tjmax as int)));
            assert(ids.deep_view() =~= Seq::new(0nat, |k: int| spec_core_id_of(rs[k].cs)));
        }
        while i < cpu_reads.len()
            invariant
                i <= rs.len(),
                cpus.deep_view() == Seq::new(
                    i as nat,
                    |k: int| spec_cpu_detail_at(rs, k, tjmax as int),
                ),
                ids.deep_view() == Seq::new(i as nat, |k: int| spec_core_id_of(rs[k].cs)),
            decreases rs.len() - i,
        {
            proof {
                assert(rs[i as int] == cpu_reads@[i as int]@);
            }
            let cr = &cpu_reads[i];
            let cs_read = clone_opt_string(&cr.core_socket_read);
            let temp_read = clone_opt_string(&cr.temp_read);
            let (core, socket) = Self::get_core_socket_info(cs_read);
            let (digital_readout, temperature) = Self::get_cpu_temperature(temp_read, tjmax);
            let ghost id = spec_core_id_of(rs[i as int].cs);
            let core_type: String = if str_eq(core.as_str(), "N/A") {
                "Unknown".to_owned()
            } else if contains_string(&ids, core.as_str()) {
                proof {
                    let k0 = choose|k: int|
                        0 <= k < ids.deep_view().len() && ids.deep_view()[k] == core@;
                    assert(spec_core_id_of(rs[k0].cs) == id);
                }
                "Virtual Thread".to_owned()
            } else {
                proof {
                    if exists|j: int| 0 <= j < i && spec_core_id_of(rs[j].cs) == id {
                        let j0 = choose|j: int| 0 <= j < i && spec_core_id_of(rs[j].cs) == id;
                        assert(ids.deep_view()[j0] == id);
                        assert(false);
                    }
                }
                "Real Core".to_owned()
            };
            proof {
                assert(core_type@ == spec_core_type_at(rs, i as int));
            }
            let ghost prev_ids = ids.deep_view();
            ids.push(core.clone());
            proof {
                assert(ids.deep_view() =~= prev_ids.push(id));
                assert(prev_ids.push(id) =~= Seq::new(
                    (i + 1) as nat,
                    |k: int| spec_core_id_of(rs[k].cs),
                ));
            }
            let core_detail = EsxiCoreDetail {
                core_id: core,
                temperature,
                digital_readout,
                core_type,
            };
            let mut core_vec: Vec<EsxiCoreDetail> = Vec::new();
            core_vec.push(core_detail);
            let detail = EsxiCpuDetail {
                cpu_id: cr.cpu_id.clone(),
                socket_id: socket,
                cores: core_vec,
            };
            let ghost prev = cpus.deep_view();
            proof {
                assert(detail.cores.deep_view() =~= seq![detail.cores@[0]@]);
                assert(detail@ == spec_cpu_detail_at(rs, i as int, tjmax as int));
            }
            let ghost dv = detail@;
            cpus.push(detail);
            proof {
                assert(cpus.deep_view() =~= prev.push(dv));
                assert(prev.push(dv) =~= Seq::new(
                    (i + 1) as nat,
                    |k: int| spec_cpu_detail_at(rs, k, tjmax as int),
                ));
            }
            i = i + 1;
        }
        EsxiSystemDto {
            tjmax,
            sockets: sockets_c,
            cores_per_socket,
            threads_per_core,
            logical_processors: threads_c,
            cpus,
        }
    }
}

} // verus!
