use vstd::prelude::*;
use std::collections::HashMap;
use crate::static_cache::strings_view;

verus! {

broadcast use vstd::std_specs::hash::group_hash_axioms;

// A report line carries a process's usage as a token that ends in
// `.<pid>,<bytes in>,<bytes out>,`: some non-blank text, a dot, then three
// comma-terminated runs of decimal digits. Where a line holds several such
// places, the first token that holds one counts, and within that token the
// last dot that starts one.

/// White space, as Unicode's White_Space property lists it.
pub open spec fn is_space(c: char) -> bool {
    ('\t' <= c && c <= '\r') || c == ' ' || c == '\u{85}' || c == '\u{a0}' || c == '\u{1680}'
        || ('\u{2000}' <= c && c <= '\u{200a}') || c == '\u{2028}' || c == '\u{2029}' || c
        == '\u{202f}' || c == '\u{205f}' || c == '\u{3000}'
}

pub open spec fn is_digit(c: char) -> bool {
    '0' <= c && c <= '9'
}

/// Index just past the run of digits that starts at `i`.
pub open spec fn digit_run_end(s: Seq<char>, i: int) -> int
    decreases s.len() - i,
{
    if 0 <= i < s.len() && is_digit(s[i]) {
        digit_run_end(s, i + 1)
    } else {
        i
    }
}

/// Where a non-empty run of digits starts at `i` and a comma follows it: the
/// comma's index.
pub open spec fn comma_field(s: Seq<char>, i: int) -> Option<int> {
    let e = digit_run_end(s, i);
    if e > i && e < s.len() && s[e] == ',' {
        Some(e)
    } else {
        None
    }
}

/// Where a usage field group starts at the dot at `d` (preceded by a
/// non-blank character): the indices of its three commas.
pub open spec fn fields_at(s: Seq<char>, d: int) -> Option<(int, int, int)> {
    if 1 <= d < s.len() && !is_space(s[d - 1]) && s[d] == '.' {
        match comma_field(s, d + 1) {
            Some(e1) => match comma_field(s, e1 + 1) {
                Some(e2) => match comma_field(s, e2 + 1) {
                    Some(e3) => Some((e1, e2, e3)),
                    None => None,
                },
                None => None,
            },
            None => None,
        }
    } else {
        None
    }
}

pub open spec fn valid_dot(s: Seq<char>, d: int) -> bool {
    fields_at(s, d) is Some
}

pub open spec fn no_space_in(s: Seq<char>, a: int, b: int) -> bool {
    forall|k: int| a <= k < b ==> !is_space(#[trigger] s[k])
}

/// `d` is the dot whose fields a line yields: every earlier such dot lies in
/// the same token, and every later one in a later token.
pub open spec fn selected_dot(s: Seq<char>, d: int) -> bool {
    &&& valid_dot(s, d)
    &&& forall|e: int| 0 <= e < d && valid_dot(s, e) ==> no_space_in(s, e, d)
    &&& forall|e: int| d < e < s.len() && valid_dot(s, e) ==> !no_space_in(s, d, e)
}

pub open spec fn digit_value(c: char) -> nat {
    ((c as u32) - ('0' as u32)) as nat
}

/// The number that a string of decimal digits denotes.
pub open spec fn decimal_value(s: Seq<char>) -> nat
    decreases s.len(),
{
    if s.len() == 0 {
        0
    } else {
        decimal_value(s.drop_last()) * 10 + digit_value(s.last())
    }
}

pub open spec fn values_at(s: Seq<char>, d: int) -> Option<(nat, nat, nat)> {
    match fields_at(s, d) {
        Some((e1, e2, e3)) => Some(
            (
                decimal_value(s.subrange(d + 1, e1)),
                decimal_value(s.subrange(e1 + 1, e2)),
                decimal_value(s.subrange(e2 + 1, e3)),
            ),
        ),
        None => None,
    }
}

/// The (pid, bytes in, bytes out) that a line states, if any.
pub open spec fn line_fields(s: Seq<char>) -> Option<(nat, nat, nat)> {
    if exists|d: int| selected_dot(s, d) {
        values_at(s, choose|d: int| selected_dot(s, d))
    } else {
        None
    }
}

/// What one report line contributes.
#[derive(Clone, Copy, Debug, PartialEq, Eq, Structural)]
pub enum LineOutcome {
    /// The line states no usage.
    Skipped,
    Usage { pid: u32, rx: u64, tx: u64 },
    /// The line states a usage whose numbers do not fit their types.
    Malformed,
}

pub open spec fn spec_line_outcome(s: Seq<char>) -> LineOutcome {
    match line_fields(s) {
        None => LineOutcome::Skipped,
        Some((p, rx, tx)) => if p <= u32::MAX && rx <= u64::MAX && tx <= u64::MAX {
            LineOutcome::Usage { pid: p as u32, rx: rx as u64, tx: tx as u64 }
        } else {
            LineOutcome::Malformed
        },
    }
}

proof fn lemma_selected_unique(s: Seq<char>, d1: int, d2: int)
    requires
        selected_dot(s, d1),
        selected_dot(s, d2),
    ensures
        d1 == d2,
{
    if d1 < d2 {
        assert(no_space_in(s, d1, d2));
        assert(!no_space_in(s, d1, d2));
    } else if d2 < d1 {
        assert(no_space_in(s, d2, d1));
        assert(!no_space_in(s, d2, d1));
    }
}

proof fn lemma_selected_fields(s: Seq<char>, d: int)
    requires
        selected_dot(s, d),
    ensures
        line_fields(s) == values_at(s, d),
{
    let c = choose|d: int| selected_dot(s, d);
    lemma_selected_unique(s, c, d);
}

proof fn lemma_digit_run(s: Seq<char>, i: int)
    requires
        0 <= i <= s.len(),
    ensures
        i <= digit_run_end(s, i) <= s.len(),
        forall|k: int| i <= k < digit_run_end(s, i) ==> is_digit(#[trigger] s[k]),
    decreases s.len() - i,
{
    if i < s.len() && is_digit(s[i]) {
        lemma_digit_run(s, i + 1);
    }
}

fn is_space_char(c: char) -> (r: bool)
    ensures
        r == is_space(c),
{
    ('\t' <= c && c <= '\r') || c == ' ' || c == '\u{85}' || c == '\u{a0}' || c == '\u{1680}'
        || ('\u{2000}' <= c && c <= '\u{200a}') || c == '\u{2028}' || c == '\u{2029}' || c
        == '\u{202f}' || c == '\u{205f}' || c == '\u{3000}'
}

fn to_chars(line: &str) -> (r: Vec<char>)
    ensures
        r@ == line@,
{
    let n = line.unicode_len();
    let mut out: Vec<char> = Vec::new();
    let mut i: usize = 0;
    while i < n
        invariant
            n == line@.len(),
            i <= n,
            out@ == line@.subrange(0, i as int),
        decreases n - i,
    {
        out.push(line.get_char(i));
        i = i + 1;
        assert(out@ =~= line@.subrange(0, i as int));
    }
    assert(out@ =~= line@);
    out
}

fn digit_run_end_at(s: &Vec<char>, i: usize) -> (r: usize)
    requires
        i <= s@.len(),
    ensures
        r == digit_run_end(s@, i as int),
{
    let mut j = i;
    while j < s.len() && '0' <= s[j] && s[j] <= '9'
        invariant
            i <= j <= s@.len(),
            digit_run_end(s@, i as int) == digit_run_end(s@, j as int),
        decreases s.len() - j,
    {
        j = j + 1;
    }
    j
}

fn comma_field_at(s: &Vec<char>, i: usize) -> (r: Option<usize>)
    requires
        i <= s@.len(),
    ensures
        comma_field(s@, i as int) == match r {
            Some(e) => Some(e as int),
            None => None::<int>,
        },
        r matches Some(e) ==> e < s@.len(),
{
    let e = digit_run_end_at(s, i);
    proof {
        lemma_digit_run(s@, i as int);
    }
    if e > i && e < s.len() && s[e] == ',' {
        Some(e)
    } else {
        None
    }
}

fn fields_at_dot(s: &Vec<char>, d: usize) -> (r: Option<(usize, usize, usize)>)
    requires
        d < s@.len(),
    ensures
        fields_at(s@, d as int) == match r {
            Some((a, b, c)) => Some((a as int, b as int, c as int)),
            None => None::<(int, int, int)>,
        },
{
    let n = s.len();
    if 1 <= d && d < n && !is_space_char(s[d - 1]) && s[d] == '.' {
        match comma_field_at(s, d + 1) {
            Some(e1) => match comma_field_at(s, e1 + 1) {
                Some(e2) => match comma_field_at(s, e2 + 1) {
                    Some(e3) => Some((e1, e2, e3)),
                    None => None,
                },
                None => None,
            },
            None => None,
        }
    } else {
        None
    }
}

/// The value of the digits `s[from..to]`, if it does not exceed `limit`.
fn decimal_at(s: &Vec<char>, from: usize, to: usize, limit: u64) -> (r: Option<u64>)
    requires
        from <= to <= s@.len(),
        forall|k: int| from <= k < to ==> is_digit(#[trigger] s@[k]),
    ensures
        match r {
            Some(v) => v == decimal_value(s@.subrange(from as int, to as int)) && v <= limit,
            None => decimal_value(s@.subrange(from as int, to as int)) > limit,
        },
{
    let mut acc: u64 = 0;
    let mut over = false;
    let mut j = from;
    assert(s@.subrange(from as int, from as int) =~= Seq::<char>::empty());
    while j < to
        invariant
            from <= j <= to <= s@.len(),
            forall|k: int| from <= k < to ==> is_digit(#[trigger] s@[k]),
            !over ==> acc == decimal_value(s@.subrange(from as int, j as int)) && acc <= limit,
            over ==> decimal_value(s@.subrange(from as int, j as int)) > limit,
        decreases to - j,
    {
        let ghost prev = decimal_value(s@.subrange(from as int, j as int));
        assert(s@.subrange(from as int, j as int + 1).drop_last() =~= s@.subrange(
            from as int,
            j as int,
        ));
        let ghost next = decimal_value(s@.subrange(from as int, j as int + 1));
        assert(next == prev * 10 + digit_value(s@[j as int]));
        let c = s[j];
        assert(is_digit(c));
        let dv: u32 = (c as u32) - ('0' as u32);
        if over {
            assert(next > limit) by (nonlinear_arith)
                requires
                    prev > limit,
                    next == prev * 10 + digit_value(c),
            ;
        } else {
            let wide: u128 = (acc as u128) * 10 + (dv as u128);
            if wide > limit as u128 {
                over = true;
            } else {
                acc = wide as u64;
            }
        }
        j = j + 1;
    }
    if over {
        None
    } else {
        Some(acc)
    }
}

/// The dot whose fields the line yields, if the line has one.
fn select_dot(s: &Vec<char>) -> (r: Option<usize>)
    ensures
        match r {
            Some(d) => selected_dot(s@, d as int),
            None => forall|e: int| 0 <= e < s@.len() ==> !valid_dot(s@, e),
        },
{
    let n = s.len();
    let mut best: Option<usize> = None;
    let mut gap = false;
    let mut done = false;
    let mut d: usize = 0;
    while d < n && !done
        invariant
            n == s@.len(),
            d <= n,
            done ==> best is Some && gap,
            match best {
                None => forall|e: int| 0 <= e < d ==> !valid_dot(s@, e),
                Some(b) => {
                    &&& b < d
                    &&& valid_dot(s@, b as int)
                    &&& forall|e: int|
                        0 <= e < b && valid_dot(s@, e) ==> no_space_in(s@, e, b as int)
                    &&& forall|e: int|
                        b < e < d && valid_dot(s@, e) ==> !no_space_in(s@, b as int, e)
                    &&& gap == !no_space_in(s@, b as int, d as int)
                },
            },
        decreases n - d + if done {
            0int
        } else {
            1int
        },
    {
        match best {
            Some(b) => {
                if gap {
                    done = true;
                    continue;
                }
            },
            None => {},
        }
        let valid = match fields_at_dot(s, d) {
            Some(_) => true,
            None => false,
        };
        let sp = is_space_char(s[d]);
        if valid {
            match best {
                Some(b) => {
                    assert forall|e: int| 0 <= e < d && valid_dot(s@, e) implies no_space_in(
                        s@,
                        e,
                        d as int,
                    ) by {
                        if e < b {
                            assert(no_space_in(s@, e, b as int));
                        } else if e > b {
                            assert(!no_space_in(s@, b as int, e));
                            assert(no_space_in(s@, b as int, e));
                        }
                    }
                },
                None => {},
            }
            best = Some(d);
            gap = sp;
        } else {
            gap = gap || sp;
        }
        d = d + 1;
    }
    best
}

/// What one report line contributes.
pub fn parse_line(line: &str) -> (r: LineOutcome)
    ensures
        r == spec_line_outcome(line@),
{
    let s = to_chars(line);
    match select_dot(&s) {
        None => {
            assert(!exists|d: int| selected_dot(s@, d));
            LineOutcome::Skipped
        },
        Some(d) => {
            proof {
                lemma_selected_fields(s@, d as int);
            }
            match fields_at_dot(&s, d) {
                Some((e1, e2, e3)) => {
                    proof {
                        lemma_digit_run(s@, d as int + 1);
                        lemma_digit_run(s@, e1 as int + 1);
                        lemma_digit_run(s@, e2 as int + 1);
                    }
                    let pid = decimal_at(&s, d + 1, e1, u32::MAX as u64);
                    let rx = decimal_at(&s, e1 + 1, e2, u64::MAX);
                    let tx = decimal_at(&s, e2 + 1, e3, u64::MAX);
                    match (pid, rx, tx) {
                        (Some(p), Some(a), Some(b)) => LineOutcome::Usage {
                            pid: p as u32,
                            rx: a,
                            tx: b,
                        },
                        _ => LineOutcome::Malformed,
                    }
                },
                None => LineOutcome::Skipped,
            }
        },
    }
}

/// A report line whose usage numbers do not fit their types, by its index.
#[derive(Clone, Copy, Debug, PartialEq, Eq, Structural)]
pub struct UsageParseError {
    pub line: usize,
}

/// Per-process (bytes in, bytes out) stated by the report lines, a later
/// line for a pid replacing an earlier one; or the index of the first line
/// whose numbers do not fit, which fails the whole report.
pub open spec fn usage_of(lines: Seq<Seq<char>>) -> Result<Map<u32, (u64, u64)>, nat>
    decreases lines.len(),
{
    if lines.len() == 0 {
        Ok(Map::empty())
    } else {
        match usage_of(lines.drop_last()) {
            Err(i) => Err(i),
            Ok(m) => match spec_line_outcome(lines.last()) {
                LineOutcome::Skipped => Ok(m),
                LineOutcome::Usage { pid, rx, tx } => Ok(m.insert(pid, (rx, tx))),
                LineOutcome::Malformed => Err((lines.len() - 1) as nat),
            },
        }
    }
}

proof fn lemma_error_persists(ls: Seq<Seq<char>>, k: int)
    requires
        0 <= k <= ls.len(),
        usage_of(ls.take(k)) is Err,
    ensures
        usage_of(ls) == usage_of(ls.take(k)),
    decreases ls.len(),
{
    if ls.len() == k {
        assert(ls.take(k) =~= ls);
    } else {
        assert(ls.drop_last().take(k) =~= ls.take(k));
        lemma_error_persists(ls.drop_last(), k);
    }
}

pub open spec fn usage_result_view(r: Result<HashMap<u32, (u64, u64)>, UsageParseError>) -> Result<
    Map<u32, (u64, u64)>,
    nat,
> {
    match r {
        Ok(m) => Ok(m@),
        Err(e) => Err(e.line as nat),
    }
}

/// Per-process network usage from the lines of a report.
pub fn parse_usage_lines(lines: &Vec<String>) -> (r: Result<HashMap<u32, (u64, u64)>, UsageParseError>)
    ensures
        usage_result_view(r) == usage_of(strings_view(lines@)),
{
    let ghost ls = strings_view(lines@);
    let mut m: HashMap<u32, (u64, u64)> = HashMap::new();
    let mut i: usize = 0;
    while i < lines.len()
        invariant
            i <= lines@.len(),
            ls == strings_view(lines@),
            usage_of(ls.take(i as int)) == Ok::<Map<u32, (u64, u64)>, nat>(m@),
        decreases lines.len() - i,
    {
        assert(ls.take(i as int + 1).drop_last() =~= ls.take(i as int));
        assert(ls.take(i as int + 1).last() == lines@[i as int]@);
        match parse_line(lines[i].as_str()) {
            LineOutcome::Skipped => {},
            LineOutcome::Usage { pid, rx, tx } => {
                m.insert(pid, (rx, tx));
            },
            LineOutcome::Malformed => {
                proof {
                    lemma_error_persists(ls, i as int + 1);
                }
                return Err(UsageParseError { line: i });
            },
        }
        i = i + 1;
    }
    assert(ls.take(i as int) =~= ls);
    Ok(m)
}

/// Where per-process network usage comes from: a platform with no such
/// source, or the lines of the report of the platform's diagnostic tool.
pub enum NetworkSource {
    Unsupported,
    Report(Vec<String>),
}

pub open spec fn spec_network_usage(source: NetworkSource) -> Result<Map<u32, (u64, u64)>, nat> {
    match source {
        NetworkSource::Unsupported => Ok(Map::empty()),
        NetworkSource::Report(lines) => usage_of(strings_view(lines@)),
    }
}

/// Per-process (bytes in, bytes out), by pid; empty where the platform has
/// no source for it.
pub fn get_network_usage(source: &NetworkSource) -> (r: Result<HashMap<u32, (u64, u64)>, UsageParseError>)
    ensures
        usage_result_view(r) == spec_network_usage(*source),
{
    match source {
        NetworkSource::Unsupported => Ok(HashMap::new()),
        NetworkSource::Report(lines) => parse_usage_lines(lines),
    }
}

} // verus!
