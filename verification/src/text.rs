//! Verified text utilities: whitespace tokenization, line splitting,
//! substring search, trimming, and conversions between decimal text and
//! integers. These are the primitives the sensor parser and the register
//! decoder are built on.
use vstd::prelude::*;

verus! {

/// The whitespace characters recognized when splitting a line into tokens:
/// space, tab, line feed, carriage return, vertical tab and form feed.
pub open spec fn is_space_char(c: char) -> bool {
    c == ' ' || c == '\t' || c == '\n' || c == '\r' || c == '\u{b}' || c == '\u{c}'
}

fn is_space(c: char) -> (r: bool)
    ensures
        r == is_space_char(c),
{
    c == ' ' || c == '\t' || c == '\n' || c == '\r' || c == '\u{b}' || c == '\u{c}'
}

/// Tokenization state: characters still to read, tokens already produced,
/// and the characters of the token currently being read.
pub open spec fn spec_tokens_from(s: Seq<char>, done: Seq<Seq<char>>, cur: Seq<char>) -> Seq<
    Seq<char>,
>
    decreases s.len(),
{
    if s.len() == 0 {
        if cur.len() > 0 {
            done.push(cur)
        } else {
            done
        }
    } else if is_space_char(s[0]) {
        if cur.len() > 0 {
            spec_tokens_from(s.drop_first(), done.push(cur), Seq::empty())
        } else {
            spec_tokens_from(s.drop_first(), done, Seq::empty())
        }
    } else {
        spec_tokens_from(s.drop_first(), done, cur.push(s[0]))
    }
}

/// The whitespace-delimited tokens of a line, in order.
pub open spec fn spec_tokens(s: Seq<char>) -> Seq<Seq<char>> {
    spec_tokens_from(s, Seq::empty(), Seq::empty())
}

/// Splits a line into its whitespace-delimited tokens.
pub fn tokens(line: &str) -> (r: Vec<String>)
    ensures
        r.deep_view() == spec_tokens(line@),
{
    let n = line.unicode_len();
    let mut done: Vec<String> = Vec::new();
    let mut start: Option<usize> = None;
    let mut i: usize = 0;
    proof {
        assert(line@.subrange(0, line@.len() as int) =~= line@);
        assert(done.deep_view() =~= Seq::<Seq<char>>::empty());
    }
    while i < n
        invariant
            n == line@.len(),
            i <= n,
            match start {
                Some(st) => st < i && spec_tokens(line@) == spec_tokens_from(
                    line@.subrange(i as int, n as int),
                    done.deep_view(),
                    line@.subrange(st as int, i as int),
                ),
                None => spec_tokens(line@) == spec_tokens_from(
                    line@.subrange(i as int, n as int),
                    done.deep_view(),
                    Seq::empty(),
                ),
            },
        decreases n - i,
    {
        let c = line.get_char(i);
        proof {
            assert(line@.subrange(i as int, n as int).drop_first() =~= line@.subrange(
                i as int + 1,
                n as int,
            ));
            assert(line@.subrange(i as int, n as int)[0] == line@[i as int]);
        }
        if is_space(c) {
            if let Some(st) = start {
                let tok = line.substring_char(st, i).to_owned();
                let ghost old_dv = done.deep_view();
                done.push(tok);
                proof {
                    assert(done.deep_view() =~= old_dv.push(line@.subrange(st as int, i as int)));
                }
                start = None;
            }
        } else {
            match start {
                None => {
                    start = Some(i);
                    proof {
                        assert(line@.subrange(i as int, i as int + 1) =~= Seq::empty().push(
                            line@[i as int],
                        ));
                    }
                },
                Some(st) => {
                    proof {
                        assert(line@.subrange(st as int, i as int + 1) =~= line@.subrange(
                            st as int,
                            i as int,
                        ).push(line@[i as int]));
                    }
                },
            }
        }
        i = i + 1;
    }
    proof {
        assert(line@.subrange(n as int, n as int) =~= Seq::<char>::empty());
    }
    if let Some(st) = start {
        let tok = line.substring_char(st, n).to_owned();
        let ghost old_dv = done.deep_view();
        done.push(tok);
        proof {
            assert(done.deep_view() =~= old_dv.push(line@.subrange(st as int, n as int)));
        }
    }
    done
}

/// One line has been completed by a line feed: a single trailing carriage
/// return belongs to the line ending and is dropped.
pub open spec fn spec_finish_line(cur: Seq<char>) -> Seq<char> {
    if cur.len() > 0 && cur[cur.len() - 1] == '\r' {
        cur.drop_last()
    } else {
        cur
    }
}

/// Line-splitting state: characters still to read, lines already produced,
/// and the characters of the line currently being read.
pub open spec fn spec_lines_from(s: Seq<char>, done: Seq<Seq<char>>, cur: Seq<char>) -> Seq<
    Seq<char>,
>
    decreases s.len(),
{
    if s.len() == 0 {
        if cur.len() > 0 {
            done.push(cur)
        } else {
            done
        }
    } else if s[0] == '\n' {
        spec_lines_from(s.drop_first(), done.push(spec_finish_line(cur)), Seq::empty())
    } else {
        spec_lines_from(s.drop_first(), done, cur.push(s[0]))
    }
}

/// The lines of a text: split at line feeds, with carriage-return/line-feed
/// endings treated as one ending, and no empty line after a final line feed.
pub open spec fn spec_lines(s: Seq<char>) -> Seq<Seq<char>> {
    spec_lines_from(s, Seq::empty(), Seq::empty())
}

/// Splits a text into lines.
pub fn split_lines(text: &str) -> (r: Vec<String>)
    ensures
        r.deep_view() == spec_lines(text@),
{
    let n = text.unicode_len();
    let mut done: Vec<String> = Vec::new();
    let mut start: usize = 0;
    let mut i: usize = 0;
    proof {
        assert(text@.subrange(0, text@.len() as int) =~= text@);
        assert(text@.subrange(0, 0) =~= Seq::<char>::empty());
        assert(done.deep_view() =~= Seq::<Seq<char>>::empty());
    }
    while i < n
        invariant
            n == text@.len(),
            start <= i <= n,
            spec_lines(text@) == spec_lines_from(
                text@.subrange(i as int, n as int),
                done.deep_view(),
                text@.subrange(start as int, i as int),
            ),
        decreases n - i,
    {
        let c = text.get_char(i);
        proof {
            assert(text@.subrange(i as int, n as int).drop_first() =~= text@.subrange(
                i as int + 1,
                n as int,
            ));
            assert(text@.subrange(i as int, n as int)[0] == text@[i as int]);
        }
        if c == '\n' {
            let end = if start < i && text.get_char(i - 1) == '\r' {
                i - 1
            } else {
                i
            };
            proof {
                let cur = text@.subrange(start as int, i as int);
                if start < i && text@[i as int - 1] == '\r' {
                    assert(cur[cur.len() - 1] == '\r');
                    assert(spec_finish_line(cur) =~= text@.subrange(start as int, i as int - 1));
                } else {
                    assert(spec_finish_line(cur) == cur);
                }
            }
            let ln = text.substring_char(start, end).to_owned();
            let ghost old_dv = done.deep_view();
            done.push(ln);
            proof {
                assert(done.deep_view() =~= old_dv.push(
                    spec_finish_line(text@.subrange(start as int, i as int)),
                ));
            }
            start = i + 1;
            proof {
                assert(text@.subrange(start as int, start as int) =~= Seq::<char>::empty());
            }
        } else {
            proof {
                assert(text@.subrange(start as int, i as int + 1) =~= text@.subrange(
                    start as int,
                    i as int,
                ).push(text@[i as int]));
            }
        }
        i = i + 1;
    }
    proof {
        assert(text@.subrange(n as int, n as int) =~= Seq::<char>::empty());
    }
    if start < n {
        let ln = text.substring_char(start, n).to_owned();
        let ghost old_dv = done.deep_view();
        done.push(ln);
        proof {
            assert(done.deep_view() =~= old_dv.push(text@.subrange(start as int, n as int)));
        }
    }
    done
}

/// The needle occurs in the haystack starting at position `i`.
pub open spec fn spec_contains_at(h: Seq<char>, n: Seq<char>, i: int) -> bool {
    0 <= i && i + n.len() <= h.len() && h.subrange(i, i + n.len()) == n
}

/// The needle occurs somewhere in the haystack.
pub open spec fn spec_contains(h: Seq<char>, n: Seq<char>) -> bool {
    exists|i: int| spec_contains_at(h, n, i)
}

/// Substring search: does `needle` occur anywhere in `hay`?
pub fn contains_sub(hay: &str, needle: &str) -> (r: bool)
    ensures
        r == spec_contains(hay@, needle@),
{
    let hn = hay.unicode_len();
    let nn = needle.unicode_len();
    if nn > hn {
        return false;
    }
    if nn == 0 {
        proof {
            assert(hay@.subrange(0, 0) =~= needle@);
            assert(spec_contains_at(hay@, needle@, 0));
        }
        return true;
    }
    let mut i: usize = 0;
    let last = hn - nn;
    while i <= last
        invariant
            hn == hay@.len(),
            nn == needle@.len(),
            1 <= nn <= hn,
            last == hn - nn,
            i <= last + 1,
            forall|k: int| 0 <= k < i ==> !spec_contains_at(hay@, needle@, k),
        decreases last + 1 - i,
    {
        let mut j: usize = 0;
        let mut matched = true;
        while j < nn
            invariant
                hn == hay@.len(),
                nn == needle@.len(),
                i + nn <= hn,
                j <= nn,
                matched ==> forall|l: int| 0 <= l < j ==> hay@[i + l] == needle@[l],
                !matched ==> !spec_contains_at(hay@, needle@, i as int),
            decreases nn - j,
        {
            if hay.get_char(i + j) != needle.get_char(j) {
                proof {
                    let sub = hay@.subrange(i as int, i + nn);
                    assert(sub[j as int] == hay@[i + j]);
                }
                matched = false;
                j = nn;
            } else {
                j = j + 1;
            }
        }
        if matched {
            proof {
                assert(hay@.subrange(i as int, i + nn) =~= needle@);
                assert(spec_contains_at(hay@, needle@, i as int));
            }
            return true;
        }
        i = i + 1;
    }
    proof {
        assert forall|k: int| !spec_contains_at(hay@, needle@, k) by {
            if 0 <= k && k + needle@.len() <= hay@.len() {
                assert(k < i);
            }
        }
    }
    false
}

/// Character-for-character string equality.
pub fn str_eq(a: &str, b: &str) -> (r: bool)
    ensures
        r == (a@ == b@),
{
    let an = a.unicode_len();
    let bn = b.unicode_len();
    if an != bn {
        return false;
    }
    let mut i: usize = 0;
    while i < an
        invariant
            an == a@.len(),
            an == b@.len(),
            i <= an,
            forall|k: int| 0 <= k < i ==> a@[k] == b@[k],
        decreases an - i,
    {
        if a.get_char(i) != b.get_char(i) {
            return false;
        }
        i = i + 1;
    }
    proof {
        assert(a@ =~= b@);
    }
    true
}

/// Leading `+` signs removed, as the sensor tool prints them before
/// temperatures.
pub open spec fn spec_trim_plus(s: Seq<char>) -> Seq<char>
    decreases s.len(),
{
    if s.len() > 0 && s[0] == '+' {
        spec_trim_plus(s.drop_first())
    } else {
        s
    }
}

/// Removes every leading `+` sign.
pub fn trim_plus(s: &str) -> (r: String)
    ensures
        r@ == spec_trim_plus(s@),
{
    let n = s.unicode_len();
    let mut i: usize = 0;
    proof {
        assert(s@.subrange(0, n as int) =~= s@);
    }
    while i < n && s.get_char(i) == '+'
        invariant
            n == s@.len(),
            i <= n,
            spec_trim_plus(s@) == spec_trim_plus(s@.subrange(i as int, n as int)),
        decreases n - i,
    {
        proof {
            assert(s@.subrange(i as int, n as int).drop_first() =~= s@.subrange(
                i as int + 1,
                n as int,
            ));
            assert(s@.subrange(i as int, n as int)[0] == s@[i as int]);
        }
        i = i + 1;
    }
    proof {
        let rest = s@.subrange(i as int, n as int);
        if i < n {
            assert(rest[0] == s@[i as int]);
        }
        assert(spec_trim_plus(rest) == rest);
    }
    s.substring_char(i, n).to_owned()
}

/// The degree-Celsius suffix printed by the sensor tool.
pub open spec fn spec_is_deg_suffix(s: Seq<char>) -> bool {
    s.len() >= 2 && s[s.len() - 2] == '\u{b0}' && s[s.len() - 1] == 'C'
}

/// Trailing degree-Celsius suffixes removed.
pub open spec fn spec_trim_deg(s: Seq<char>) -> Seq<char>
    decreases s.len(),
{
    if spec_is_deg_suffix(s) {
        spec_trim_deg(s.take(s.len() - 2))
    } else {
        s
    }
}

/// Removes every trailing degree-Celsius suffix.
pub fn trim_deg(s: &str) -> (r: String)
    ensures
        r@ == spec_trim_deg(s@),
{
    let n = s.unicode_len();
    let mut e: usize = n;
    proof {
        assert(s@.subrange(0, n as int) =~= s@);
    }
    while e >= 2 && s.get_char(e - 2) == '\u{b0}' && s.get_char(e - 1) == 'C'
        invariant
            n == s@.len(),
            e <= n,
            spec_trim_deg(s@) == spec_trim_deg(s@.subrange(0, e as int)),
        decreases e,
    {
        proof {
            let cur = s@.subrange(0, e as int);
            assert(cur[e - 2] == s@[e - 2]);
            assert(cur[e - 1] == s@[e - 1]);
            assert(spec_is_deg_suffix(cur));
            assert(cur.take(e - 2) =~= s@.subrange(0, e as int - 2));
        }
        e = e - 2;
    }
    proof {
        let cur = s@.subrange(0, e as int);
        if e >= 2 {
            assert(cur[e - 2] == s@[e - 2]);
            assert(cur[e - 1] == s@[e - 1]);
        }
        assert(!spec_is_deg_suffix(cur));
    }
    s.substring_char(0, e).to_owned()
}

/// Leading whitespace removed.
pub open spec fn spec_trim_start(s: Seq<char>) -> Seq<char>
    decreases s.len(),
{
    if s.len() > 0 && is_space_char(s[0]) {
        spec_trim_start(s.drop_first())
    } else {
        s
    }
}

/// Trailing whitespace removed.
pub open spec fn spec_trim_end(s: Seq<char>) -> Seq<char>
    decreases s.len(),
{
    if s.len() > 0 && is_space_char(s.last()) {
        spec_trim_end(s.drop_last())
    } else {
        s
    }
}

/// Whitespace removed from both ends.
pub open spec fn spec_trim(s: Seq<char>) -> Seq<char> {
    spec_trim_end(spec_trim_start(s))
}

/// Removes whitespace from both ends.
pub fn trim_spaces(s: &str) -> (r: String)
    ensures
        r@ == spec_trim(s@),
{
    let n = s.unicode_len();
    let mut lo: usize = 0;
    proof {
        assert(s@.subrange(0, n as int) =~= s@);
    }
    while lo < n && is_space(s.get_char(lo))
        invariant
            n == s@.len(),
            lo <= n,
            spec_trim_start(s@) == spec_trim_start(s@.subrange(lo as int, n as int)),
        decreases n - lo,
    {
        proof {
            assert(s@.subrange(lo as int, n as int).drop_first() =~= s@.subrange(
                lo as int + 1,
                n as int,
            ));
            assert(s@.subrange(lo as int, n as int)[0] == s@[lo as int]);
        }
        lo = lo + 1;
    }
    proof {
        let rest = s@.subrange(lo as int, n as int);
        if lo < n {
            assert(rest[0] == s@[lo as int]);
        }
        assert(spec_trim_start(s@) == rest);
    }
    let mut hi: usize = n;
    while hi > lo && is_space(s.get_char(hi - 1))
        invariant
            n == s@.len(),
            lo <= hi <= n,
            spec_trim_start(s@) == s@.subrange(lo as int, n as int),
            spec_trim_end(s@.subrange(lo as int, n as int)) == spec_trim_end(
                s@.subrange(lo as int, hi as int),
            ),
        decreases hi,
    {
        proof {
            let cur = s@.subrange(lo as int, hi as int);
            assert(cur.last() == s@[hi as int - 1]);
            assert(cur.drop_last() =~= s@.subrange(lo as int, hi as int - 1));
        }
        hi = hi - 1;
    }
    proof {
        let cur = s@.subrange(lo as int, hi as int);
        if hi > lo {
            assert(cur.last() == s@[hi as int - 1]);
        }
        assert(spec_trim_end(cur) == cur);
    }
    s.substring_char(lo, hi).to_owned()
}

/// A decimal digit.
pub open spec fn is_digit_char(c: char) -> bool {
    48 <= c as u32 <= 57
}

/// The value of a decimal digit.
pub open spec fn digit_val(c: char) -> int {
    c as u32 - 48
}

/// Every character is a decimal digit.
pub open spec fn all_digits(s: Seq<char>) -> bool {
    forall|i: int| 0 <= i < s.len() ==> is_digit_char(#[trigger] s[i])
}

/// The integer a string of decimal digits denotes.
pub open spec fn spec_digits_val(s: Seq<char>) -> int
    decreases s.len(),
{
    if s.len() == 0 {
        0
    } else {
        spec_digits_val(s.drop_last()) * 10 + digit_val(s.last())
    }
}

/// The value of a digit string is never negative.
proof fn lemma_digits_val_nonneg(s: Seq<char>)
    requires
        all_digits(s),
    ensures
        spec_digits_val(s) >= 0,
    decreases s.len(),
{
    if s.len() > 0 {
        assert(all_digits(s.drop_last()));
        lemma_digits_val_nonneg(s.drop_last());
    }
}

/// Appending digits never decreases the value of a digit string.
proof fn lemma_digits_val_extend(s: Seq<char>, k: int)
    requires
        all_digits(s),
        0 <= k <= s.len(),
    ensures
        spec_digits_val(s.take(k)) <= spec_digits_val(s),
    decreases s.len() - k,
{
    if k < s.len() {
        let p = s.take(k + 1);
        assert(all_digits(p));
        assert(p.drop_last() =~= s.take(k));
        assert(all_digits(s.take(k)));
        lemma_digits_val_nonneg(s.take(k));
        lemma_digits_val_extend(s, k + 1);
    } else {
        assert(s.take(k) =~= s);
    }
}

fn is_digit(c: char) -> (r: bool)
    ensures
        r == is_digit_char(c),
{
    let v = c as u32;
    48 <= v && v <= 57
}

/// Reads the digits of `s` between `from` and `to`. Returns their value when
/// all characters are digits and the value is at most `bound`, and `None`
/// otherwise.
fn scan_digits_bounded(s: &str, from: usize, to: usize, bound: u64) -> (r: Option<u64>)
    requires
        from <= to <= s@.len(),
    ensures
        ({
            let d = s@.subrange(from as int, to as int);
            match r {
                Some(v) => all_digits(d) && v == spec_digits_val(d) && v <= bound,
                None => !(all_digits(d) && spec_digits_val(d) <= bound),
            }
        }),
{
    let ghost d = s@.subrange(from as int, to as int);
    let mut acc: u64 = 0;
    let mut i: usize = from;
    proof {
        assert(d.take(0) =~= Seq::<char>::empty());
    }
    while i < to
        invariant
            from <= i <= to <= s@.len(),
            d == s@.subrange(from as int, to as int),
            all_digits(d.take(i - from)),
            acc == spec_digits_val(d.take(i - from)),
            acc <= bound,
        decreases to - i,
    {
        let c = s.get_char(i);
        proof {
            assert(d[i - from] == s@[i as int]);
            assert(d.take(i - from + 1).drop_last() =~= d.take(i - from));
            assert(d.take(i - from + 1).last() == d[i - from]);
        }
        if !is_digit(c) {
            proof {
                assert(!is_digit_char(d[i - from]));
            }
            return None;
        }
        let dv = (c as u32 - 48) as u64;
        if acc > (u64::MAX - dv) / 10 || acc * 10 + dv > bound {
            proof {
                let p = d.take(i - from + 1);
                assert(all_digits(p));
                assert(spec_digits_val(p) == acc * 10 + dv);
                if all_digits(d) {
                    lemma_digits_val_extend(d, i - from + 1);
                }
            }
            return None;
        }
        acc = acc * 10 + dv;
        i = i + 1;
    }
    proof {
        assert(d.take(to - from) =~= d);
    }
    Some(acc)
}

/// Splits an optional leading sign off a number: whether the sign is minus,
/// and the characters after the sign.
pub open spec fn spec_sign_split(s: Seq<char>) -> (bool, Seq<char>) {
    if s.len() > 0 && (s[0] == '+' || s[0] == '-') {
        (s[0] == '-', s.drop_first())
    } else {
        (false, s)
    }
}

/// The string is an optional sign followed by at least one digit, and its
/// value fits a 32-bit signed integer.
pub open spec fn valid_i32_decimal(s: Seq<char>) -> bool {
    let (neg, d) = spec_sign_split(s);
    d.len() > 0 && all_digits(d) && (if neg {
        spec_digits_val(d) <= 0x8000_0000
    } else {
        spec_digits_val(d) <= 0x7fff_ffff
    })
}

/// The 32-bit signed integer a string denotes, or zero when it does not
/// denote one.
pub open spec fn spec_parse_i32_or_zero(s: Seq<char>) -> int {
    if valid_i32_decimal(s) {
        let (neg, d) = spec_sign_split(s);
        if neg {
            -spec_digits_val(d)
        } else {
            spec_digits_val(d)
        }
    } else {
        0
    }
}

/// Parses a decimal 32-bit signed integer, with zero for anything that is
/// not one.
pub fn parse_i32_or_zero(s: &str) -> (r: i32)
    ensures
        r as int == spec_parse_i32_or_zero(s@),
{
    let n = s.unicode_len();
    let mut i0: usize = 0;
    let mut neg = false;
    if n > 0 {
        let c = s.get_char(0);
        if c == '+' || c == '-' {
            i0 = 1;
            neg = c == '-';
        }
    }
    proof {
        if i0 == 1 {
            assert(s@.drop_first() =~= s@.subrange(1, n as int));
        } else {
            assert(s@.subrange(0, n as int) =~= s@);
        }
        assert(spec_sign_split(s@) == (neg, s@.subrange(i0 as int, n as int)));
    }
    if i0 == n {
        return 0;
    }
    match scan_digits_bounded(s, i0, n, 0x8000_0000u64) {
        None => 0,
        Some(v) => {
            if neg {
                if v == 0x8000_0000u64 {
                    i32::MIN
                } else {
                    -(v as i32)
                }
            } else {
                if v >= 0x8000_0000u64 {
                    0
                } else {
                    v as i32
                }
            }
        },
    }
}

/// The characters of an unsigned number after an optional leading plus.
pub open spec fn spec_u64_body(s: Seq<char>) -> Seq<char> {
    if s.len() > 0 && s[0] == '+' {
        s.drop_first()
    } else {
        s
    }
}

/// The string is an optional plus followed by at least one digit, and its
/// value fits a 64-bit unsigned integer.
pub open spec fn valid_u64_decimal(s: Seq<char>) -> bool {
    let d = spec_u64_body(s);
    d.len() > 0 && all_digits(d) && spec_digits_val(d) <= u64::MAX
}

/// The 64-bit unsigned integer a string denotes, when it denotes one.
pub open spec fn spec_parse_u64(s: Seq<char>) -> Option<int> {
    if valid_u64_decimal(s) {
        Some(spec_digits_val(spec_u64_body(s)))
    } else {
        None
    }
}

/// Parses a decimal 64-bit unsigned integer.
pub fn parse_u64_opt(s: &str) -> (r: Option<u64>)
    ensures
        match r {
            Some(v) => spec_parse_u64(s@) == Some(v as int),
            None => spec_parse_u64(s@) is None,
        },
{
    let n = s.unicode_len();
    let mut i0: usize = 0;
    if n > 0 && s.get_char(0) == '+' {
        i0 = 1;
    }
    proof {
        if i0 == 1 {
            assert(s@.drop_first() =~= s@.subrange(1, n as int));
        } else {
            assert(s@.subrange(0, n as int) =~= s@);
        }
        assert(spec_u64_body(s@) == s@.subrange(i0 as int, n as int));
    }
    if i0 == n {
        return None;
    }
    scan_digits_bounded(s, i0, n, u64::MAX)
}

/// A hexadecimal digit, in either case.
pub open spec fn is_hex_digit_char(c: char) -> bool {
    is_digit_char(c) || 97 <= c as u32 <= 102 || 65 <= c as u32 <= 70
}

/// The value of a hexadecimal digit.
pub open spec fn hex_digit_val(c: char) -> int {
    if is_digit_char(c) {
        c as u32 - 48
    } else if 65 <= c as u32 <= 70 {
        c as u32 - 55
    } else {
        c as u32 - 87
    }
}

/// Every character is a hexadecimal digit.
pub open spec fn all_hex_digits(s: Seq<char>) -> bool {
    forall|i: int| 0 <= i < s.len() ==> is_hex_digit_char(#[trigger] s[i])
}

/// The integer a string of hexadecimal digits denotes.
pub open spec fn spec_hex_val(s: Seq<char>) -> int
    decreases s.len(),
{
    if s.len() == 0 {
        0
    } else {
        spec_hex_val(s.drop_last()) * 16 + hex_digit_val(s.last())
    }
}

/// The value of a hexadecimal digit string is never negative.
proof fn lemma_hex_val_nonneg(s: Seq<char>)
    requires
        all_hex_digits(s),
    ensures
        spec_hex_val(s) >= 0,
    decreases s.len(),
{
    if s.len() > 0 {
        assert(all_hex_digits(s.drop_last()));
        lemma_hex_val_nonneg(s.drop_last());
    }
}

/// Appending hexadecimal digits never decreases the value.
proof fn lemma_hex_val_extend(s: Seq<char>, k: int)
    requires
        all_hex_digits(s),
        0 <= k <= s.len(),
    ensures
        spec_hex_val(s.take(k)) <= spec_hex_val(s),
    decreases s.len() - k,
{
    if k < s.len() {
        let p = s.take(k + 1);
        assert(all_hex_digits(p));
        assert(p.drop_last() =~= s.take(k));
        assert(all_hex_digits(s.take(k)));
        lemma_hex_val_nonneg(s.take(k));
        lemma_hex_val_extend(s, k + 1);
    } else {
        assert(s.take(k) =~= s);
    }
}

fn is_hex_digit(c: char) -> (r: bool)
    ensures
        r == is_hex_digit_char(c),
{
    let v = c as u32;
    (48 <= v && v <= 57) || (97 <= v && v <= 102) || (65 <= v && v <= 70)
}

fn hex_digit(c: char) -> (r: u64)
    requires
        is_hex_digit_char(c),
    ensures
        r == hex_digit_val(c),
{
    let v = c as u32;
    if 48 <= v && v <= 57 {
        (v - 48) as u64
    } else if 65 <= v && v <= 70 {
        (v - 55) as u64
    } else {
        (v - 87) as u64
    }
}

/// The string begins with the marker `0x` and everything after it is
/// hexadecimal digits; a bare `0x` counts as well-formed, as the underlying
/// check accepts it.
pub open spec fn spec_validate_hex(s: Seq<char>) -> bool {
    s.len() >= 2 && s[0] == '0' && s[1] == 'x' && all_hex_digits(s.subrange(2, s.len() as int))
}

/// Checks the `0x`-prefixed hexadecimal shape of a register dump line.
pub fn validate_hex(s: &str) -> (r: bool)
    ensures
        r == spec_validate_hex(s@),
{
    let n = s.unicode_len();
    if n < 2 || s.get_char(0) != '0' || s.get_char(1) != 'x' {
        return false;
    }
    let ghost d = s@.subrange(2, n as int);
    let mut i: usize = 2;
    while i < n
        invariant
            n == s@.len(),
            2 <= i <= n,
            d == s@.subrange(2, n as int),
            forall|k: int| 0 <= k < i - 2 ==> is_hex_digit_char(#[trigger] d[k]),
        decreases n - i,
    {
        proof {
            assert(d[i - 2] == s@[i as int]);
        }
        if !is_hex_digit(s.get_char(i)) {
            return false;
        }
        i = i + 1;
    }
    true
}

/// Reads the hexadecimal digits of `s` between `from` and `to`. Returns
/// their value when all characters are hexadecimal digits and the value is
/// at most `bound`, and `None` otherwise.
pub fn scan_hex_bounded(s: &str, from: usize, to: usize, bound: u64) -> (r: Option<u64>)
    requires
        from <= to <= s@.len(),
    ensures
        ({
            let d = s@.subrange(from as int, to as int);
            match r {
                Some(v) => all_hex_digits(d) && v == spec_hex_val(d) && v <= bound,
                None => !(all_hex_digits(d) && spec_hex_val(d) <= bound),
            }
        }),
{
    let ghost d = s@.subrange(from as int, to as int);
    let mut acc: u64 = 0;
    let mut i: usize = from;
    proof {
        assert(d.take(0) =~= Seq::<char>::empty());
    }
    while i < to
        invariant
            from <= i <= to <= s@.len(),
            d == s@.subrange(from as int, to as int),
            all_hex_digits(d.take(i - from)),
            acc == spec_hex_val(d.take(i - from)),
            acc <= bound,
        decreases to - i,
    {
        let c = s.get_char(i);
        proof {
            assert(d[i - from] == s@[i as int]);
            assert(d.take(i - from + 1).drop_last() =~= d.take(i - from));
            assert(d.take(i - from + 1).last() == d[i - from]);
        }
        if !is_hex_digit(c) {
            proof {
                assert(!is_hex_digit_char(d[i - from]));
            }
            return None;
        }
        let dv = hex_digit(c);
        if acc > (u64::MAX - dv) / 16 || acc * 16 + dv > bound {
            proof {
                let p = d.take(i - from + 1);
                assert(all_hex_digits(p));
                assert(spec_hex_val(p) == acc * 16 + dv);
                if all_hex_digits(d) {
                    lemma_hex_val_extend(d, i - from + 1);
                }
            }
            return None;
        }
        acc = acc * 16 + dv;
        i = i + 1;
    }
    proof {
        assert(d.take(to - from) =~= d);
    }
    Some(acc)
}

/// The position of the first decimal point, or the length when there is
/// none.
pub open spec fn spec_dot_index(s: Seq<char>) -> int
    decreases s.len(),
{
    if s.len() == 0 {
        0
    } else if s[0] == '.' {
        0
    } else {
        1 + spec_dot_index(s.drop_first())
    }
}

/// What `spec_dot_index` finds: the first decimal point, with none before
/// it.
proof fn lemma_dot_index(s: Seq<char>)
    ensures
        0 <= spec_dot_index(s) <= s.len(),
        spec_dot_index(s) < s.len() ==> s[spec_dot_index(s)] == '.',
        forall|k: int| 0 <= k < spec_dot_index(s) ==> s[k] != '.',
    decreases s.len(),
{
    if s.len() > 0 && s[0] != '.' {
        lemma_dot_index(s.drop_first());
        assert forall|k: int| 0 <= k < spec_dot_index(s) implies s[k] != '.' by {
            if k > 0 {
                assert(s.drop_first()[k - 1] == s[k]);
            }
        }
    }
}

/// The digits before the decimal point.
pub open spec fn spec_temp_int_part(b: Seq<char>) -> Seq<char> {
    b.take(spec_dot_index(b))
}

/// The digits after the decimal point.
pub open spec fn spec_temp_frac_part(b: Seq<char>) -> Seq<char> {
    if spec_dot_index(b) < b.len() {
        b.subrange(spec_dot_index(b) + 1, b.len() as int)
    } else {
        Seq::empty()
    }
}

/// The millidegrees contributed by a fraction: its first three digits,
/// padded with zeros to three places. Digits past the third are dropped.
pub open spec fn spec_frac_millis(f: Seq<char>) -> int {
    let f3 = if f.len() > 3 {
        f.take(3)
    } else {
        f
    };
    if f3.len() == 0 {
        0
    } else if f3.len() == 1 {
        spec_digits_val(f3) * 100
    } else if f3.len() == 2 {
        spec_digits_val(f3) * 10
    } else {
        spec_digits_val(f3)
    }
}

/// A temperature number after the sign: digits, an optional decimal point
/// with digits around it, at least one digit in all, and an integer part
/// below 10^15 so that the millidegree value fits a 64-bit integer.
pub open spec fn valid_temp_body(b: Seq<char>) -> bool {
    let ip = spec_temp_int_part(b);
    let fp = spec_temp_frac_part(b);
    all_digits(ip) && all_digits(fp) && ip.len() + fp.len() >= 1 && spec_digits_val(ip)
        < 1000000000000000
}

/// The string denotes a (possibly signed) decimal temperature.
pub open spec fn valid_temp_decimal(s: Seq<char>) -> bool {
    valid_temp_body(spec_sign_split(s).1)
}

/// The millidegree value a temperature string denotes, or zero when it does
/// not denote one.
pub open spec fn spec_temp_millis_or_zero(s: Seq<char>) -> int {
    if valid_temp_decimal(s) {
        let (neg, b) = spec_sign_split(s);
        let m = spec_digits_val(spec_temp_int_part(b)) * 1000 + spec_frac_millis(
            spec_temp_frac_part(b),
        );
        if neg {
            -m
        } else {
            m
        }
    } else {
        0
    }
}

/// Parses a decimal temperature into millidegrees, with zero for anything
/// that is not one.
#[verifier::loop_isolation(false)]
#[verifier::rlimit(60)]
pub fn parse_temp_millis(s: &str) -> (r: i64)
    ensures
        r as int == spec_temp_millis_or_zero(s@),
{
    let n = s.unicode_len();
    let mut i0: usize = 0;
    let mut neg = false;
    if n > 0 {
        let c = s.get_char(0);
        if c == '+' || c == '-' {
            i0 = 1;
            neg = c == '-';
        }
    }
    proof {
        if i0 == 1 {
            assert(s@.drop_first() =~= s@.subrange(1, n as int));
        } else {
            assert(s@.subrange(0, n as int) =~= s@);
        }
        assert(spec_sign_split(s@) == (neg, s@.subrange(i0 as int, n as int)));
    }
    let ghost b = s@.subrange(i0 as int, n as int);
    // Find the first decimal point.
    let mut di: usize = i0;
    while di < n && s.get_char(di) != '.'
        invariant
            n == s@.len(),
            i0 <= di <= n,
            b == s@.subrange(i0 as int, n as int),
            forall|k: int| 0 <= k < di - i0 ==> b[k] != '.',
        decreases n - di,
    {
        proof {
            assert(b[di - i0] == s@[di as int]);
        }
        di = di + 1;
    }
    proof {
        lemma_dot_index(b);
        if di < n {
            assert(b[di - i0] == s@[di as int]);
            assert(b[di - i0] == '.');
        }
        if spec_dot_index(b) < di - i0 {
            assert(b[spec_dot_index(b)] != '.');
            assert(false);
        }
        if spec_dot_index(b) > di - i0 {
            assert(di - i0 < b.len());
            assert(b[di - i0] != '.');
            assert(false);
        }
        assert(spec_dot_index(b) == di - i0);
        assert(spec_temp_int_part(b) =~= s@.subrange(i0 as int, di as int));
    }
    // Integer part.
    let ipv = match scan_digits_bounded(s, i0, di, 999999999999999u64) {
        Some(v) => v,
        None => {
            return 0;
        },
    };
    // Fraction part.
    let ghost fp = spec_temp_frac_part(b);
    let mut frac3: u64 = 0;
    let mut flen: usize = 0;
    if di < n {
        proof {
            assert(fp =~= s@.subrange(di as int + 1, n as int));
        }
        let mut j = di + 1;
        proof {
            assert(fp.take(0) =~= Seq::<char>::empty());
        }
        while j < n
            invariant
                n == s@.len(),
                di < j <= n,
                fp == s@.subrange(di as int + 1, n as int),
                forall|k: int| 0 <= k < j - di - 1 ==> is_digit_char(#[trigger] fp[k]),
                frac3 == spec_digits_val(fp.take(if j - di - 1 < 3 {
                    (j - di - 1) as int
                } else {
                    3
                })),
                j - di - 1 == 0 ==> frac3 == 0,
                j - di - 1 == 1 ==> frac3 <= 9,
                j - di - 1 == 2 ==> frac3 <= 99,
                frac3 <= 999,
            decreases n - j,
        {
            let c = s.get_char(j);
            proof {
                assert(fp[j - di - 1] == s@[j as int]);
            }
            if !is_digit(c) {
                proof {
                    assert(!is_digit_char(fp[j - di - 1]));
                    assert(!all_digits(fp)) by {
                        if all_digits(fp) {
                            assert(is_digit_char(fp[j - di - 1]));
                        }
                    }
                    assert(!valid_temp_decimal(s@));
                }
                return 0;
            }
            if j - di - 1 < 3 {
                proof {
                    let k = (j - di - 1) as int;
                    assert(fp.take(k + 1).drop_last() =~= fp.take(k));
                    assert(fp.take(k + 1).last() == fp[k]);
                }
                frac3 = frac3 * 10 + (c as u32 - 48) as u64;
            }
            j = j + 1;
        }
        flen = n - di - 1;
        proof {
            assert(fp.len() == flen);
            if flen <= 3 {
                assert(fp.take(flen as int) =~= fp);
            }
        }
    } else {
        proof {
            assert(fp.len() == 0);
            assert(fp.take(0) =~= fp);
        }
    }
    // At least one digit in all.
    if di == i0 && flen == 0 {
        return 0;
    }
    let fm: u64 = if flen == 0 {
        0
    } else if flen == 1 {
        frac3 * 100
    } else if flen == 2 {
        frac3 * 10
    } else {
        frac3
    };
    proof {
        assert(fm == spec_frac_millis(fp));
        assert(valid_temp_decimal(s@));
    }
    let mag: u64 = ipv * 1000 + fm;
    if neg {
        -(mag as i64)
    } else {
        mag as i64
    }
}

/// The composition applied to one numeric token of the sensor tool's
/// output: leading plus signs and trailing degree suffixes stripped, then
/// read as millidegrees, with zero for an unreadable token.
pub open spec fn spec_temp_field(s: Seq<char>) -> int {
    spec_temp_millis_or_zero(spec_trim_deg(spec_trim_plus(s)))
}

/// Reads one numeric token of the sensor tool's output as millidegrees.
pub fn parse_temp_field(tok: &str) -> (r: i64)
    ensures
        r as int == spec_temp_field(tok@),
{
    let t1 = trim_plus(tok);
    let t2 = trim_deg(t1.as_str());
    parse_temp_millis(t2.as_str())
}

/// The character for a decimal digit value.
pub open spec fn spec_digit_char(d: int) -> char {
    if d == 0 {
        '0'
    } else if d == 1 {
        '1'
    } else if d == 2 {
        '2'
    } else if d == 3 {
        '3'
    } else if d == 4 {
        '4'
    } else if d == 5 {
        '5'
    } else if d == 6 {
        '6'
    } else if d == 7 {
        '7'
    } else if d == 8 {
        '8'
    } else {
        '9'
    }
}

fn digit_str(d: u64) -> (r: &'static str)
    requires
        d < 10,
    ensures
        r@ =~= seq![spec_digit_char(d as int)],
{
    proof {
        reveal_strlit("0");
        reveal_strlit("1");
        reveal_strlit("2");
        reveal_strlit("3");
        reveal_strlit("4");
        reveal_strlit("5");
        reveal_strlit("6");
        reveal_strlit("7");
        reveal_strlit("8");
        reveal_strlit("9");
    }
    if d == 0 {
        "0"
    } else if d == 1 {
        "1"
    } else if d == 2 {
        "2"
    } else if d == 3 {
        "3"
    } else if d == 4 {
        "4"
    } else if d == 5 {
        "5"
    } else if d == 6 {
        "6"
    } else if d == 7 {
        "7"
    } else if d == 8 {
        "8"
    } else {
        "9"
    }
}

/// The decimal text of a non-negative integer, without leading zeros except
/// for zero itself.
pub open spec fn spec_u64_str(n: int) -> Seq<char>
    decreases n,
{
    if n < 10 {
        seq![spec_digit_char(n)]
    } else {
        spec_u64_str(n / 10).push(spec_digit_char(n % 10))
    }
}

/// Writes a 64-bit unsigned integer in decimal.
#[verifier::loop_isolation(false)]
pub fn u64_to_string(v: u64) -> (r: String)
    ensures
        r@ == spec_u64_str(v as int),
{
    let mut digits: Vec<u64> = Vec::new();
    let mut m = v;
    let ghost rev = |dg: Seq<u64>|
        Seq::new(dg.len(), |i: int| spec_digit_char(dg[dg.len() - 1 - i] as int));
    while m >= 10
        invariant
            spec_u64_str(v as int) =~= spec_u64_str(m as int) + rev(digits@),
            forall|i: int| 0 <= i < digits@.len() ==> #[trigger] digits@[i] < 10,
        decreases m,
    {
        let d = m % 10;
        let ghost prev = digits@;
        digits.push(d);
        proof {
            assert(rev(digits@) =~= seq![spec_digit_char(d as int)] + rev(prev));
            assert(spec_u64_str(m as int) + rev(prev) =~= spec_u64_str(m as int / 10) + rev(
                digits@,
            ));
        }
        m = m / 10;
    }
    let ghost prev = digits@;
    digits.push(m);
    proof {
        assert(rev(digits@) =~= seq![spec_digit_char(m as int)] + rev(prev));
        assert(spec_u64_str(v as int) =~= rev(digits@));
    }
    let mut out = String::new();
    let mut j = digits.len();
    while j > 0
        invariant
            j <= digits@.len(),
            forall|i: int| 0 <= i < digits@.len() ==> #[trigger] digits@[i] < 10,
            out@ =~= rev(digits@).take(digits@.len() - j),
        decreases j,
    {
        j = j - 1;
        let ds = digit_str(digits[j]);
        let ghost prev_out = out@;
        out.append(ds);
        proof {
            assert(out@ =~= rev(digits@).take(digits@.len() - j));
        }
    }
    proof {
        assert(rev(digits@).take(digits@.len() as int) =~= rev(digits@));
    }
    out
}

/// The decimal text of a signed integer.
pub open spec fn spec_i64_str(n: int) -> Seq<char> {
    if n < 0 {
        seq!['-'] + spec_u64_str(-n)
    } else {
        spec_u64_str(n)
    }
}

/// Writes a 64-bit signed integer in decimal.
pub fn i64_to_string(v: i64) -> (r: String)
    ensures
        r@ == spec_i64_str(v as int),
{
    if v >= 0 {
        u64_to_string(v as u64)
    } else {
        let m: u64 = if v == i64::MIN {
            9223372036854775808u64
        } else {
            (-v) as u64
        };
        proof {
            reveal_strlit("-");
        }
        let mut out = "-".to_owned();
        let tail = u64_to_string(m);
        out.append(tail.as_str());
        proof {
            assert(out@ =~= spec_i64_str(v as int));
        }
        out
    }
}

/// The position of the first occurrence of `c`, or the length when there is
/// none.
pub open spec fn spec_find_char(s: Seq<char>, c: char) -> int
    decreases s.len(),
{
    if s.len() == 0 {
        0
    } else if s[0] == c {
        0
    } else {
        1 + spec_find_char(s.drop_first(), c)
    }
}

/// What `spec_find_char` finds: the first occurrence, with none before it.
pub proof fn lemma_find_char(s: Seq<char>, c: char)
    ensures
        0 <= spec_find_char(s, c) <= s.len(),
        spec_find_char(s, c) < s.len() ==> s[spec_find_char(s, c)] == c,
        forall|k: int| 0 <= k < spec_find_char(s, c) ==> s[k] != c,
    decreases s.len(),
{
    if s.len() > 0 && s[0] != c {
        lemma_find_char(s.drop_first(), c);
        assert forall|k: int| 0 <= k < spec_find_char(s, c) implies s[k] != c by {
            if k > 0 {
                assert(s.drop_first()[k - 1] == s[k]);
            }
        }
    }
}

/// Finds the first occurrence of `c` in `s`, or the length when there is
/// none.
#[verifier::loop_isolation(false)]
pub fn find_char(s: &str, c: char) -> (r: usize)
    ensures
        r == spec_find_char(s@, c),
{
    let n = s.unicode_len();
    let mut i: usize = 0;
    while i < n && s.get_char(i) != c
        invariant
            i <= n,
            forall|k: int| 0 <= k < i ==> s@[k] != c,
        decreases n - i,
    {
        i = i + 1;
    }
    proof {
        lemma_find_char(s@, c);
        let f = spec_find_char(s@, c);
        if f < i {
            assert(s@[f] == c);
            assert(false);
        }
        if f > i {
            assert(i < s@.len());
            assert(s@[i as int] != c);
            assert(false);
        }
    }
    i
}

/// Trailing slashes removed, as directory listings print them after names.
pub open spec fn spec_trim_slash(s: Seq<char>) -> Seq<char>
    decreases s.len(),
{
    if s.len() > 0 && s.last() == '/' {
        spec_trim_slash(s.drop_last())
    } else {
        s
    }
}

/// Removes every trailing slash.
pub fn trim_slash(s: &str) -> (r: String)
    ensures
        r@ == spec_trim_slash(s@),
{
    let n = s.unicode_len();
    let mut e: usize = n;
    proof {
        assert(s@.subrange(0, n as int) =~= s@);
    }
    while e > 0 && s.get_char(e - 1) == '/'
        invariant
            n == s@.len(),
            e <= n,
            spec_trim_slash(s@) == spec_trim_slash(s@.subrange(0, e as int)),
        decreases e,
    {
        proof {
            let cur = s@.subrange(0, e as int);
            assert(cur.last() == s@[e as int - 1]);
            assert(cur.drop_last() =~= s@.subrange(0, e as int - 1));
        }
        e = e - 1;
    }
    proof {
        let cur = s@.subrange(0, e as int);
        if e > 0 {
            assert(cur.last() == s@[e as int - 1]);
        }
        assert(spec_trim_slash(cur) == cur);
    }
    s.substring_char(0, e).to_owned()
}

/// A character with any upper-case basic-latin letter folded to lower case.
pub open spec fn spec_lower_char(c: char) -> char {
    if 65 <= c as u32 <= 90 {
        ((c as u32 + 32) as u8) as char
    } else {
        c
    }
}

/// A string with every basic-latin letter folded to lower case.
pub open spec fn spec_ascii_lower(s: Seq<char>) -> Seq<char> {
    s.map_values(|c: char| spec_lower_char(c))
}

fn lower_char(c: char) -> (r: char)
    ensures
        r == spec_lower_char(c),
{
    let v = c as u32;
    if 65 <= v && v <= 90 {
        ((v + 32) as u8) as char
    } else {
        c
    }
}

/// Substring search on the case-folded haystack: does `needle` occur in
/// `hay` once `hay`'s basic-latin letters are folded to lower case?
#[verifier::loop_isolation(false)]
pub fn contains_sub_lower(hay: &str, needle: &str) -> (r: bool)
    ensures
        r == spec_contains(spec_ascii_lower(hay@), needle@),
{
    let ghost lh = spec_ascii_lower(hay@);
    proof {
        assert(lh.len() == hay@.len());
    }
    let hn = hay.unicode_len();
    let nn = needle.unicode_len();
    if nn > hn {
        return false;
    }
    if nn == 0 {
        proof {
            assert(lh.subrange(0, 0) =~= needle@);
            assert(spec_contains_at(lh, needle@, 0));
        }
        return true;
    }
    let mut i: usize = 0;
    let last = hn - nn;
    while i <= last
        invariant
            i <= last + 1,
            forall|k: int| 0 <= k < i ==> !spec_contains_at(lh, needle@, k),
        decreases last + 1 - i,
    {
        let mut j: usize = 0;
        let mut matched = true;
        while j < nn
            invariant
                i + nn <= hn,
                j <= nn,
                matched ==> forall|l: int| 0 <= l < j ==> lh[i + l] == needle@[l],
                !matched ==> !spec_contains_at(lh, needle@, i as int),
            decreases nn - j,
        {
            if lower_char(hay.get_char(i + j)) != needle.get_char(j) {
                proof {
                    let sub = lh.subrange(i as int, i + nn);
                    assert(sub[j as int] == lh[i + j]);
                    assert(lh[i + j] == spec_lower_char(hay@[i + j]));
                }
                matched = false;
                j = nn;
            } else {
                proof {
                    assert(lh[i + j] == spec_lower_char(hay@[i + j]));
                }
                j = j + 1;
            }
        }
        if matched {
            proof {
                assert(lh.subrange(i as int, i + nn) =~= needle@);
                assert(spec_contains_at(lh, needle@, i as int));
            }
            return true;
        }
        i = i + 1;
    }
    proof {
        assert forall|k: int| !spec_contains_at(lh, needle@, k) by {
            if 0 <= k && k + needle@.len() <= lh.len() {
                assert(k < i);
            }
        }
    }
    false
}

} // verus!
