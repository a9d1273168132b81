use crate::algorithms::{reorg_score, reorg_spec, MAX_SCORE};
use crate::errors::Error;
use chrono::{Datelike, NaiveDate};
use vstd::prelude::*;
use vstd::string::StrSliceExecFns;

verus! {

/// Number of characters in the calendar-day tag that opens every log line.
pub const DAY_TAG_LEN: usize = 8;

/// The day number (1 for 0001-01-01 in the proleptic Gregorian calendar)
/// that chrono reads from a tag in `%Y%m%d` form, if it reads one.
pub uninterp spec fn calendar_day_of(tag: Seq<char>) -> Option<i32>;

/// Relies on chrono's `NaiveDate::parse_from_str` with the format `%Y%m%d`,
/// and on `Datelike::num_days_from_ce` to turn the date into its day number.
#[verifier::external_body]
fn parse_day_tag(tag: &str) -> (r: Option<i32>)
    ensures
        r == calendar_day_of(tag@),
{
    match NaiveDate::parse_from_str(tag, "%Y%m%d") {
        Ok(date) => Some(date.num_days_from_ce()),
        Err(_) => None,
    }
}

/// The value of a string of decimal digits.
pub open spec fn digits_value(s: Seq<char>) -> int
    decreases s.len(),
{
    if s.len() == 0 {
        0
    } else {
        digits_value(s.drop_last()) * 10 + (s.last() as u32 - '0' as u32)
    }
}

pub open spec fn all_digits(s: Seq<char>) -> bool {
    forall|i: int| 0 <= i < s.len() ==> '0' <= #[trigger] s[i] <= '9'
}

/// What `u8`'s `FromStr` reads from `s`: an optional `+` followed by one or
/// more ASCII digits whose value fits in a byte.
pub open spec fn parsed_u8(s: Seq<char>) -> Option<u8> {
    let d = if s.len() > 0 && s[0] == '+' {
        s.drop_first()
    } else {
        s
    };
    if d.len() > 0 && all_digits(d) && digits_value(d) <= 255 {
        Some(digits_value(d) as u8)
    } else {
        None
    }
}

/// Relies on `str::parse::<u8>`: an optional `+` sign and decimal digits,
/// with an error on anything else and on values above 255.
#[verifier::external_body]
fn parse_u8(s: &str) -> (r: Option<u8>)
    ensures
        r == parsed_u8(s@),
{
    s.parse::<u8>().ok()
}

/// The token that marks a reorganisation line.
pub open spec fn reorg_marker() -> Seq<char> {
    seq!['R', 'E', 'O', 'R', 'G']
}

/// The label that stands right before the depth of a reorganisation.
pub open spec fn depth_label() -> Seq<char> {
    seq!['d', 'e', 'p', 't', 'h', ':', ' ']
}

pub open spec fn occurs_at(s: Seq<char>, pat: Seq<char>, i: int) -> bool {
    0 <= i && i + pat.len() <= s.len() && s.subrange(i, i + pat.len()) == pat
}

/// The first position at or after `from` where `pat` occurs in `s`.
pub open spec fn find_from(s: Seq<char>, pat: Seq<char>, from: int) -> Option<int>
    decreases s.len() + 1 - from,
{
    if from < 0 || from + pat.len() > s.len() {
        None
    } else if occurs_at(s, pat, from) {
        Some(from)
    } else {
        find_from(s, pat, from + 1)
    }
}

/// The day a log line is tagged with: its first eight characters read as a
/// date. A shorter line has no tag.
pub open spec fn line_day(line: Seq<char>) -> Option<i32> {
    if line.len() >= DAY_TAG_LEN {
        calendar_day_of(line.subrange(0, DAY_TAG_LEN as int))
    } else {
        None
    }
}

/// The day tags of all the lines.
pub open spec fn line_days(lines: Seq<String>) -> Seq<Option<i32>> {
    lines.map_values(|l: String| line_day(l@))
}

/// Whether a line tagged `day` falls on day `today` or the day before it.
pub open spec fn in_window(day: Option<i32>, today: i32) -> bool {
    match day {
        Some(d) => d == today || d as int == today as int - 1,
        None => false,
    }
}

pub open spec fn is_reorg_line(line: Seq<char>) -> bool {
    find_from(line, reorg_marker(), 0) is Some
}

/// A reorganisation line of the window.
pub open spec fn counted(line: Seq<char>, day: Option<i32>, today: i32) -> bool {
    in_window(day, today) && is_reorg_line(line)
}

/// The depth of a reorganisation line: what follows the first depth label,
/// up to the line's last character, which is left out.
pub open spec fn line_depth(line: Seq<char>) -> Option<u8> {
    match find_from(line, depth_label(), 0) {
        Some(p) => if p + depth_label().len() <= line.len() - 1 {
            parsed_u8(line.subrange(p + depth_label().len(), line.len() - 1))
        } else {
            None
        },
        None => None,
    }
}

/// Number of counted lines among the first `n`, the line at `i` being
/// tagged `days[i]`.
pub open spec fn window_count(lines: Seq<String>, days: Seq<Option<i32>>, today: i32, n: int) -> nat
    decreases n,
{
    if n <= 0 {
        0
    } else {
        window_count(lines, days, today, n - 1) + if counted(lines[n - 1]@, days[n - 1], today) {
            1nat
        } else {
            0nat
        }
    }
}

/// Greatest depth among the counted lines of the first `n`, or 0 if none.
pub open spec fn window_deepest(lines: Seq<String>, days: Seq<Option<i32>>, today: i32, n: int) -> u8
    decreases n,
{
    if n <= 0 {
        0
    } else {
        let before = window_deepest(lines, days, today, n - 1);
        if counted(lines[n - 1]@, days[n - 1], today) {
            match line_depth(lines[n - 1]@) {
                Some(d) => if d > before {
                    d
                } else {
                    before
                },
                None => before,
            }
        } else {
            before
        }
    }
}

/// Indices, in order, of the first `n` lines that carry no day tag.
pub open spec fn undated_lines(days: Seq<Option<i32>>, n: int) -> Seq<usize>
    decreases n,
{
    if n <= 0 {
        Seq::empty()
    } else if days[n - 1] is None {
        undated_lines(days, n - 1).push((n - 1) as usize)
    } else {
        undated_lines(days, n - 1)
    }
}

/// The first counted line among the first `n` whose depth cannot be read.
pub open spec fn first_fault(lines: Seq<String>, days: Seq<Option<i32>>, today: i32, n: int) -> Option<int>
    decreases n,
{
    if n <= 0 {
        None
    } else {
        match first_fault(lines, days, today, n - 1) {
            Some(i) => Some(i),
            None => if counted(lines[n - 1]@, days[n - 1], today) && line_depth(lines[n - 1]@) is None {
                Some(n - 1)
            } else {
                None
            },
        }
    }
}

/// The reorganisations of the trailing window: today's and yesterday's.
#[derive(Debug, PartialEq, Eq)]
pub struct ReorgWindow {
    /// How many reorganisation lines the window holds.
    pub count: usize,
    /// The greatest depth among them, 0 if there are none.
    pub deepest: u8,
    /// Indices of the lines skipped for want of a readable day tag.
    pub undated: Vec<usize>,
}

fn chars_of(s: &str) -> (r: Vec<char>)
    ensures
        r@ == s@,
{
    let mut r: Vec<char> = Vec::new();
    for c in it: s.chars()
        invariant
            it.seq() == s@,
            r@ == s@.take(it.index() as int),
    {
        r.push(c);
    }
    r
}

fn occurs_in(s: &Vec<char>, pat: &Vec<char>, at: usize) -> (r: bool)
    requires
        at + pat.len() <= s.len(),
    ensures
        r == occurs_at(s@, pat@, at as int),
{
    let mut j: usize = 0;
    while j < pat.len()
        invariant
            j <= pat.len(),
            at + pat.len() <= s.len(),
            forall|k: int| 0 <= k < j ==> s@[at + k] == pat@[k],
        decreases pat.len() - j,
    {
        if s[at + j] != pat[j] {
            assert(s@.subrange(at as int, at + pat.len())[j as int] != pat@[j as int]);
            return false;
        }
        j += 1;
    }
    assert(s@.subrange(at as int, at + pat.len()) =~= pat@);
    true
}

/// Finds the first occurrence of `pat` in `s`.
fn find_first(s: &Vec<char>, pat: &Vec<char>) -> (r: Option<usize>)
    requires
        pat.len() > 0,
    ensures
        r matches Some(i) ==> find_from(s@, pat@, 0) == Some(i as int),
        r is None ==> find_from(s@, pat@, 0) is None,
{
    if pat.len() > s.len() {
        return None;
    }
    let last: usize = s.len() - pat.len();
    let mut i: usize = 0;
    while i <= last
        invariant
            pat.len() > 0,
            last == s.len() - pat.len(),
            i <= last + 1,
            find_from(s@, pat@, 0) == find_from(s@, pat@, i as int),
        decreases last + 1 - i,
    {
        if occurs_in(s, pat, i) {
            return Some(i);
        }
        i += 1;
    }
    None
}

proof fn lemma_find_from_found(s: Seq<char>, pat: Seq<char>, from: int)
    ensures
        find_from(s, pat, from) matches Some(i) ==> from <= i && occurs_at(s, pat, i),
    decreases s.len() + 1 - from,
{
    if from >= 0 && from + pat.len() <= s.len() && !occurs_at(s, pat, from) {
        lemma_find_from_found(s, pat, from + 1);
    }
}

proof fn lemma_first_fault_kept(
    lines: Seq<String>,
    days: Seq<Option<i32>>,
    today: i32,
    k: int,
    n: int,
)
    requires
        0 <= k <= n,
        first_fault(lines, days, today, k) is Some,
    ensures
        first_fault(lines, days, today, n) == first_fault(lines, days, today, k),
    decreases n - k,
{
    if k < n {
        lemma_first_fault_kept(lines, days, today, k, n - 1);
    }
}

/// Reads the depth of a reorganisation line whose characters are `cs`.
fn depth_of(line: &str, cs: &Vec<char>, label: &Vec<char>) -> (r: Option<u8>)
    requires
        cs@ == line@,
        label@ == depth_label(),
    ensures
        r == line_depth(line@),
{
    let len: usize = cs.len();
    match find_first(cs, label) {
        None => None,
        Some(p) => {
            proof {
                lemma_find_from_found(cs@, label@, 0);
                assert(occurs_at(cs@, label@, p as int));
            }
            let start = p + label.len();
            if start <= len - 1 {
                parse_u8(line.substring_char(start, len - 1))
            } else {
                None
            }
        },
    }
}

/// Reads the day tag of every line.
pub fn day_tags(lines: &Vec<String>) -> (r: Vec<Option<i32>>)
    ensures
        r@ == line_days(lines@),
{
    let mut r: Vec<Option<i32>> = Vec::new();
    let mut i: usize = 0;
    while i < lines.len()
        invariant
            i <= lines.len(),
            r@ == line_days(lines@).take(i as int),
        decreases lines.len() - i,
    {
        let line: &str = lines[i].as_str();
        let day = if line.unicode_len() < DAY_TAG_LEN {
            None
        } else {
            parse_day_tag(line.substring_char(0, DAY_TAG_LEN))
        };
        r.push(day);
        proof {
            assert(line_days(lines@).take(i + 1) =~= line_days(lines@).take(i as int).push(day));
        }
        i += 1;
    }
    assert(line_days(lines@).take(lines.len() as int) =~= line_days(lines@));
    r
}

/// Sums up the reorganisations of the trailing window, the lines tagged with
/// day `today` or the day before it, where the line at `i` is tagged
/// `days[i]`. A line without a tag is skipped and its index recorded. The
/// first reorganisation line of the window whose depth cannot be read fails
/// the whole scan.
pub fn summarize_window(lines: &Vec<String>, days: &Vec<Option<i32>>, today: i32) -> (r: Result<
    ReorgWindow,
    Error,
>)
    requires
        days.len() == lines.len(),
    ensures
        r is Err <==> first_fault(lines@, days@, today, lines.len() as int) is Some,
        r matches Err(e) ==> e == (Error::LogParseFault {
            line: first_fault(lines@, days@, today, lines.len() as int)->0 as usize,
        }),
        r matches Ok(w) ==> w.count == window_count(lines@, days@, today, lines.len() as int)
            && w.deepest == window_deepest(lines@, days@, today, lines.len() as int)
            && w.undated@ == undated_lines(days@, lines.len() as int),
{
    let marker: Vec<char> = vec!['R', 'E', 'O', 'R', 'G'];
    let label: Vec<char> = vec!['d', 'e', 'p', 't', 'h', ':', ' '];
    assert(marker@ =~= reorg_marker());
    assert(label@ =~= depth_label());
    let mut count: usize = 0;
    let mut deepest: u8 = 0;
    let mut undated: Vec<usize> = Vec::new();
    let mut i: usize = 0;
    while i < lines.len()
        invariant
            days.len() == lines.len(),
            i <= lines.len(),
            count <= i,
            count == window_count(lines@, days@, today, i as int),
            deepest == window_deepest(lines@, days@, today, i as int),
            undated@ == undated_lines(days@, i as int),
            first_fault(lines@, days@, today, i as int) is None,
            marker@ == reorg_marker(),
            label@ == depth_label(),
        decreases lines.len() - i,
    {
        match days[i] {
            None => {
                undated.push(i);
            },
            Some(d) => {
                if d == today || d as i64 == today as i64 - 1 {
                    let line: &str = lines[i].as_str();
                    let cs = chars_of(line);
                    if find_first(&cs, &marker).is_some() {
                        match depth_of(line, &cs, &label) {
                            None => {
                                proof {
                                    lemma_first_fault_kept(
                                        lines@,
                                        days@,
                                        today,
                                        i + 1,
                                        lines.len() as int,
                                    );
                                }
                                return Err(Error::LogParseFault { line: i });
                            },
                            Some(depth) => {
                                count += 1;
                                if depth > deepest {
                                    deepest = depth;
                                }
                            },
                        }
                    }
                }
            },
        }
        i += 1;
    }
    Ok(ReorgWindow { count, deepest, undated })
}

/// Scans log lines for the reorganisations of the trailing window: the lines
/// whose first eight characters read as day `today` or the day before it.
pub fn reorg_window(lines: &Vec<String>, today: i32) -> (r: Result<ReorgWindow, Error>)
    ensures
        r is Err <==> first_fault(lines@, line_days(lines@), today, lines.len() as int) is Some,
        r matches Err(e) ==> e == (Error::LogParseFault {
            line: first_fault(lines@, line_days(lines@), today, lines.len() as int)->0 as usize,
        }),
        r matches Ok(w) ==> w.count == window_count(lines@, line_days(lines@), today, lines.len() as int)
            && w.deepest == window_deepest(lines@, line_days(lines@), today, lines.len() as int)
            && w.undated@ == undated_lines(line_days(lines@), lines.len() as int),
{
    let days = day_tags(lines);
    summarize_window(lines, &days, today)
}

/// The reorganisation score of the trailing window, with the figures it was
/// computed from.
#[derive(Debug, Clone, Copy, PartialEq, Eq, Structural)]
pub struct ReorgScore {
    pub overall_score: u8,
    /// Reorganisations in the window.
    pub count: usize,
    /// Depth of the deepest of them.
    pub deepest: u8,
    /// When the score was computed, in seconds since the Unix epoch.
    pub last_checked: i64,
}

impl ReorgScore {
    /// A blank record stamped with the time `now`.
    pub fn new(now: i64) -> (r: Result<ReorgScore, Error>)
        ensures
            r == Ok::<ReorgScore, Error>(
                ReorgScore { overall_score: 0, count: 0, deepest: 0, last_checked: now },
            ),
    {
        Ok(ReorgScore { overall_score: 0, count: 0, deepest: 0, last_checked: now })
    }

    /// Rescores from the log `lines`, for the window that ends on day `today`,
    /// and stamps the record with `now`. Returns the indices of the lines
    /// skipped for want of a day tag. On a fault the record is left as it was.
    pub fn update(&mut self, lines: &Vec<String>, today: i32, now: i64) -> (r: Result<
        Vec<usize>,
        Error,
    >)
        ensures
            r is Err <==> first_fault(lines@, line_days(lines@), today, lines.len() as int) is Some,
            r matches Err(e) ==> e == (Error::LogParseFault {
                line: first_fault(lines@, line_days(lines@), today, lines.len() as int)->0 as usize,
            }) && *final(self) == *old(self),
            r matches Ok(u) ==> u@ == undated_lines(line_days(lines@), lines.len() as int)
                && final(self).count == window_count(
                lines@,
                line_days(lines@),
                today,
                lines.len() as int,
            ) && final(self).deepest == window_deepest(
                lines@,
                line_days(lines@),
                today,
                lines.len() as int,
            )
                && final(self).overall_score as int == reorg_spec(
                final(self).count as int,
                final(self).deepest as int,
            ) && final(self).overall_score <= MAX_SCORE && final(self).last_checked == now,
    {
        let window = match reorg_window(lines, today) {
            Ok(w) => w,
            Err(e) => {
                return Err(e);
            },
        };
        // Every count past 20 scores alike, so a saturated byte loses nothing.
        let count: u8 = if window.count > 255 {
            255
        } else {
            window.count as u8
        };
        let score = match reorg_score(count, window.deepest) {
            Ok(s) => s,
            Err(e) => {
                return Err(e);
            },
        };
        self.overall_score = score;
        self.count = window.count;
        self.deepest = window.deepest;
        self.last_checked = now;
        Ok(window.undated)
    }
}

} // verus!
