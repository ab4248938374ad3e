use vstd::prelude::*;

verus! {

/// ASCII decimal digit.
pub open spec fn is_digit(b: u8) -> bool {
    48 <= b && b <= 57
}

/// ASCII whitespace, as trimmed around the extracted duration field.
pub open spec fn is_space(b: u8) -> bool {
    b == 32 || b == 9 || b == 10 || b == 13 || b == 12
}

/// All bytes of `s` in `[from, to)` are decimal digits.
pub open spec fn all_digits_in(s: Seq<u8>, from: int, to: int) -> bool {
    forall|k: int| from <= k < to ==> is_digit(#[trigger] s[k])
}

/// Decimal value of the digits of `s` in `[from, to)`.
pub open spec fn dec_value_in(s: Seq<u8>, from: int, to: int) -> nat
    decreases to - from,
{
    if to <= from {
        0
    } else {
        (dec_value_in(s, from, to - 1) * 10 + (s[to - 1] - 48)) as nat
    }
}

/// Milliseconds encoded by the fractional digits in `[from, to)`: the first
/// three digits, zero-extended on the right.
pub open spec fn frac_ms_in(s: Seq<u8>, from: int, to: int) -> nat {
    if to - from <= 0 {
        0
    } else if to - from == 1 {
        ((s[from] - 48) * 100) as nat
    } else if to - from == 2 {
        ((s[from] - 48) * 100 + (s[from + 1] - 48) * 10) as nat
    } else {
        ((s[from] - 48) * 100 + (s[from + 1] - 48) * 10 + (s[from + 2] - 48)) as nat
    }
}

/// First index in `[from, to)` holding byte `b`.
pub open spec fn find_byte_in(s: Seq<u8>, b: u8, from: int, to: int) -> Option<int>
    decreases to - from,
{
    if from < 0 || from >= to || to > s.len() {
        None
    } else if s[from] == b {
        Some(from)
    } else {
        find_byte_in(s, b, from + 1, to)
    }
}

/// The token that introduces a duration value in the media tool's diagnostic
/// output, `Duration:`, starting at index `i`.
pub open spec fn duration_token_at(s: Seq<u8>, i: int) -> bool {
    &&& 0 <= i
    &&& i + 9 <= s.len()
    &&& s[i] == 68  // 'D'
    &&& s[i + 1] == 117  // 'u'
    &&& s[i + 2] == 114  // 'r'
    &&& s[i + 3] == 97  // 'a'
    &&& s[i + 4] == 116  // 't'
    &&& s[i + 5] == 105  // 'i'
    &&& s[i + 6] == 111  // 'o'
    &&& s[i + 7] == 110  // 'n'
    &&& s[i + 8] == 58  // ':'
}

/// First index in `[from, to)` where the duration token starts.
pub open spec fn find_token_in(s: Seq<u8>, from: int, to: int) -> Option<int>
    decreases to - from,
{
    if from < 0 || from + 9 > to || to > s.len() {
        None
    } else if duration_token_at(s, from) {
        Some(from)
    } else {
        find_token_in(s, from + 1, to)
    }
}

/// First index in `[from, to)` holding a non-whitespace byte, or `to`.
pub open spec fn skip_spaces(s: Seq<u8>, from: int, to: int) -> int
    decreases to - from,
{
    if from >= to {
        from
    } else if is_space(s[from]) {
        skip_spaces(s, from + 1, to)
    } else {
        from
    }
}

/// End of `[from, to)` with trailing whitespace removed.
pub open spec fn trim_end_from(s: Seq<u8>, from: int, to: int) -> int
    decreases to - from,
{
    if to <= from {
        to
    } else if is_space(s[to - 1]) {
        trim_end_from(s, from, to - 1)
    } else {
        to
    }
}

/// The duration in milliseconds encoded by a trimmed `HH:MM:SS` field with an
/// optional fractional second part, occupying `[a, b)` with its two colons at
/// `c1` and `c2`; `None` if a field is empty or non-numeric or the value does
/// not fit in a `u64` millisecond counter.
pub open spec fn fields_value(s: Seq<u8>, a: int, c1: int, c2: int, b: int) -> Option<u64> {
    let sec_end = match find_byte_in(s, 46, c2 + 1, b) {
        Some(d) => d,
        None => b,
    };
    let frac_start = match find_byte_in(s, 46, c2 + 1, b) {
        Some(d) => d + 1,
        None => b,
    };
    if a < c1 && all_digits_in(s, a, c1) && c1 + 1 < c2 && all_digits_in(s, c1 + 1, c2) && c2 + 1
        < sec_end && all_digits_in(s, c2 + 1, sec_end) && all_digits_in(s, frac_start, b) {
        let total = (dec_value_in(s, a, c1) * 3600 + dec_value_in(s, c1 + 1, c2) * 60
            + dec_value_in(s, c2 + 1, sec_end)) * 1000 + frac_ms_in(s, frac_start, b);
        if total <= u64::MAX {
            Some(total as u64)
        } else {
            None
        }
    } else {
        None
    }
}

/// What scanning the line `[ls, le)` decides: `None` to keep scanning (no
/// duration token, or not exactly three colon-separated fields), `Some(r)`
/// when the scan stops with result `r`.
pub open spec fn line_outcome(s: Seq<u8>, ls: int, le: int) -> Option<Option<u64>> {
    match find_token_in(s, ls, le) {
        None => None,
        Some(p) => {
            let rest = p + 9;
            let cand_end = match find_byte_in(s, 44, rest, le) {
                Some(c) => c,
                None => le,
            };
            let a = skip_spaces(s, rest, cand_end);
            let b = trim_end_from(s, a, cand_end);
            match find_byte_in(s, 58, a, b) {
                None => None,
                Some(c1) => match find_byte_in(s, 58, c1 + 1, b) {
                    None => None,
                    Some(c2) => match find_byte_in(s, 58, c2 + 1, b) {
                        Some(c3) => None,
                        None => Some(fields_value(s, a, c1, c2, b)),
                    },
                },
            }
        },
    }
}

/// Result of scanning the diagnostic text line by line from index `i` on.
pub open spec fn scan_from(s: Seq<u8>, i: int) -> Option<u64>
    decreases s.len() - i,
{
    if i < 0 || i > s.len() {
        None
    } else {
        let le0 = match find_byte_in(s, 10, i, s.len() as int) {
            Some(e) => e,
            None => s.len() as int,
        };
        let le = if le0 < i {
            i
        } else {
            le0
        };
        match line_outcome(s, i, le) {
            Some(r) => r,
            None => if le >= s.len() {
                None
            } else {
                scan_from(s, le + 1)
            },
        }
    }
}

/// The duration, in whole milliseconds, that the media tool's diagnostic
/// text reports: the first line holding a `Duration:` token followed by an
/// `HH:MM:SS` field (up to the next comma, whitespace trimmed, with an
/// optional fractional second part) decides the result.
pub open spec fn spec_duration_ms(s: Seq<u8>) -> Option<u64> {
    scan_from(s, 0)
}

fn find_byte(s: &[u8], b: u8, from: usize, to: usize) -> (r: Option<usize>)
    requires
        from <= to && to <= s@.len(),
    ensures
        match r {
            Some(j) => find_byte_in(s@, b, from as int, to as int) == Some(j as int) && from <= j
                < to,
            None => find_byte_in(s@, b, from as int, to as int) is None,
        },
{
    let mut i = from;
    while i < to
        invariant
            from <= i <= to <= s@.len(),
            find_byte_in(s@, b, from as int, to as int) == find_byte_in(s@, b, i as int, to as int),
        decreases to - i,
    {
        if s[i] == b {
            return Some(i);
        }
        i = i + 1;
    }
    None
}

fn find_token(s: &[u8], from: usize, to: usize) -> (r: Option<usize>)
    requires
        from <= to && to <= s@.len(),
    ensures
        match r {
            Some(p) => find_token_in(s@, from as int, to as int) == Some(p as int) && from <= p && p
                + 9 <= to,
            None => find_token_in(s@, from as int, to as int) is None,
        },
{
    let mut i = from;
    while i < to && to - i >= 9
        invariant
            from <= i <= to <= s@.len(),
            find_token_in(s@, from as int, to as int) == find_token_in(s@, i as int, to as int),
        decreases to - i,
    {
        if s[i] == 68 && s[i + 1] == 117 && s[i + 2] == 114 && s[i + 3] == 97 && s[i + 4] == 116
            && s[i + 5] == 105 && s[i + 6] == 111 && s[i + 7] == 110 && s[i + 8] == 58 {
            return Some(i);
        }
        i = i + 1;
    }
    None
}

fn skip_spaces_exec(s: &[u8], from: usize, to: usize) -> (r: usize)
    requires
        from <= to && to <= s@.len(),
    ensures
        r == skip_spaces(s@, from as int, to as int),
        from <= r <= to,
{
    let mut i = from;
    while i < to
        invariant
            from <= i <= to <= s@.len(),
            skip_spaces(s@, from as int, to as int) == skip_spaces(s@, i as int, to as int),
        decreases to - i,
    {
        let c = s[i];
        if !(c == 32 || c == 9 || c == 10 || c == 13 || c == 12) {
            return i;
        }
        i = i + 1;
    }
    i
}

fn trim_end_exec(s: &[u8], from: usize, to: usize) -> (r: usize)
    requires
        from <= to && to <= s@.len(),
    ensures
        r == trim_end_from(s@, from as int, to as int),
        from <= r <= to,
{
    let mut i = to;
    while i > from
        invariant
            from <= i <= to <= s@.len(),
            trim_end_from(s@, from as int, to as int) == trim_end_from(s@, from as int, i as int),
        decreases i,
    {
        let c = s[i - 1];
        if !(c == 32 || c == 9 || c == 10 || c == 13 || c == 12) {
            return i;
        }
        i = i - 1;
    }
    i
}

fn all_digits(s: &[u8], from: usize, to: usize) -> (r: bool)
    requires
        from <= to && to <= s@.len(),
    ensures
        r == all_digits_in(s@, from as int, to as int),
{
    let mut i = from;
    while i < to
        invariant
            from <= i <= to <= s@.len(),
            all_digits_in(s@, from as int, i as int),
        decreases to - i,
    {
        let c = s[i];
        if c < 48 || c > 57 {
            return false;
        }
        i = i + 1;
    }
    true
}

proof fn lemma_dec_value_extend(s: Seq<u8>, from: int, i: int, to: int)
    requires
        from <= i <= to <= s.len(),
        all_digits_in(s, from, to),
    ensures
        dec_value_in(s, from, to) >= dec_value_in(s, from, i),
    decreases to - i,
{
    if i < to {
        lemma_dec_value_extend(s, from, i + 1, to);
        assert(dec_value_in(s, from, i + 1) >= dec_value_in(s, from, i));
    }
}

/// Decimal value of the digits in `[from, to)`, or `None` if it does not fit
/// in a `u64`.
fn dec_value(s: &[u8], from: usize, to: usize) -> (r: Option<u64>)
    requires
        from <= to && to <= s@.len(),
        all_digits_in(s@, from as int, to as int),
    ensures
        match r {
            Some(v) => v == dec_value_in(s@, from as int, to as int),
            None => dec_value_in(s@, from as int, to as int) > u64::MAX,
        },
{
    let mut acc: u64 = 0;
    let mut i = from;
    while i < to
        invariant
            from <= i <= to <= s@.len(),
            all_digits_in(s@, from as int, to as int),
            acc == dec_value_in(s@, from as int, i as int),
        decreases to - i,
    {
        let d = s[i] - 48;
        let shifted = match acc.checked_mul(10) {
            Some(x) => x,
            None => {
                proof {
                    lemma_dec_value_extend(s@, from as int, i + 1, to as int);
                }
                return None;
            },
        };
        let next = match shifted.checked_add(d as u64) {
            Some(x) => x,
            None => {
                proof {
                    lemma_dec_value_extend(s@, from as int, i + 1, to as int);
                }
                return None;
            },
        };
        acc = next;
        i = i + 1;
    }
    Some(acc)
}

/// Extracts the total duration, in whole milliseconds, from the media tool's
/// diagnostic text: scans line by line for the first `Duration:` token whose
/// following field (up to the next comma, whitespace trimmed) splits on `:`
/// into exactly three parts, and reads it as hours, minutes and seconds with
/// an optional fractional part.  Returns `None` when no line decides a value,
/// when the deciding field is non-numeric, or when the duration does not fit
/// in the millisecond counter.
pub fn extract_duration_from_ffmpeg_output(diagnostics: &[u8]) -> (r: Option<u64>)
    ensures
        r == spec_duration_ms(diagnostics@),
{
    let s = diagnostics;
    let len = s.len();
    let mut ls: usize = 0;
    loop
        invariant
            s@ == diagnostics@,
            ls <= len == s@.len(),
            scan_from(s@, 0) == scan_from(s@, ls as int),
        decreases len - ls,
    {
        let le = match find_byte(s, 10, ls, len) {
            Some(e) => e,
            None => len,
        };
        proof {
            let le0 = match find_byte_in(s@, 10, ls as int, s@.len() as int) {
                Some(e) => e,
                None => s@.len() as int,
            };
            assert(le as int == if le0 < ls as int {
                ls as int
            } else {
                le0
            });
            assert(scan_from(s@, ls as int) == (match line_outcome(s@, ls as int, le as int) {
                Some(r) => r,
                None => if le as int >= s@.len() {
                    None
                } else {
                    scan_from(s@, le as int + 1)
                },
            }));
        }
        match line_decide(s, ls, le) {
            Some(r) => {
                return r;
            },
            None => {
                if le >= len {
                    return None;
                }
                ls = le + 1;
            },
        }
    }
}

/// Scans one line for the duration token and field, deciding the overall
/// result or asking for the scan to continue.
fn line_decide(s: &[u8], ls: usize, le: usize) -> (r: Option<Option<u64>>)
    requires
        ls <= le && le <= s@.len(),
    ensures
        r == line_outcome(s@, ls as int, le as int),
{
    let p = match find_token(s, ls, le) {
        Some(p) => p,
        None => {
            return None;
        },
    };
    let rest = p + 9;
    let cand_end = match find_byte(s, 44, rest, le) {
        Some(c) => c,
        None => le,
    };
    let a = skip_spaces_exec(s, rest, cand_end);
    let b = trim_end_exec(s, a, cand_end);
    let c1 = match find_byte(s, 58, a, b) {
        Some(c) => c,
        None => {
            return None;
        },
    };
    let c2 = match find_byte(s, 58, c1 + 1, b) {
        Some(c) => c,
        None => {
            return None;
        },
    };
    match find_byte(s, 58, c2 + 1, b) {
        Some(_) => {
            return None;
        },
        None => {},
    };
    Some(fields_value_exec(s, a, c1, c2, b))
}

/// Reads the three colon-separated fields as hours, minutes and seconds with
/// an optional fractional part, in whole milliseconds.
fn fields_value_exec(s: &[u8], a: usize, c1: usize, c2: usize, b: usize) -> (r: Option<u64>)
    requires
        a <= c1 && c1 + 1 <= c2 && c2 + 1 <= b && b <= s@.len(),
    ensures
        r == fields_value(s@, a as int, c1 as int, c2 as int, b as int),
{
    let (sec_end, frac_start) = match find_byte(s, 46, c2 + 1, b) {
        Some(d) => (d, d + 1),
        None => (b, b),
    };
    if !(a < c1 && all_digits(s, a, c1)) {
        return None;
    }
    if !(c1 + 1 < c2 && all_digits(s, c1 + 1, c2)) {
        return None;
    }
    if !(c2 + 1 < sec_end && all_digits(s, c2 + 1, sec_end)) {
        return None;
    }
    if !all_digits(s, frac_start, b) {
        return None;
    }
    let hours = match dec_value(s, a, c1) {
        Some(v) => v,
        None => {
            return None;
        },
    };
    let minutes = match dec_value(s, c1 + 1, c2) {
        Some(v) => v,
        None => {
            return None;
        },
    };
    let seconds = match dec_value(s, c2 + 1, sec_end) {
        Some(v) => v,
        None => {
            return None;
        },
    };
    let frac: u64 = if frac_start >= b {
        0
    } else if b - frac_start == 1 {
        (s[frac_start] - 48) as u64 * 100
    } else if b - frac_start == 2 {
        (s[frac_start] - 48) as u64 * 100 + (s[frac_start + 1] - 48) as u64 * 10
    } else {
        (s[frac_start] - 48) as u64 * 100 + (s[frac_start + 1] - 48) as u64 * 10 + (s[frac_start
            + 2] - 48) as u64
    };
    let hm = match hours.checked_mul(3600) {
        Some(v) => v,
        None => {
            return None;
        },
    };
    let mm = match minutes.checked_mul(60) {
        Some(v) => v,
        None => {
            return None;
        },
    };
    let sec_total = match hm.checked_add(mm) {
        Some(v) => match v.checked_add(seconds) {
            Some(w) => w,
            None => {
                return None;
            },
        },
        None => {
            return None;
        },
    };
    let ms = match sec_total.checked_mul(1000) {
        Some(v) => match v.checked_add(frac) {
            Some(w) => w,
            None => {
                return None;
            },
        },
        None => {
            return None;
        },
    };
    Some(ms)
}

/// Diagnostic text that holds no `Duration:` token never parses to a
/// duration: the scan fails rather than defaulting to zero.
pub proof fn lemma_no_token_means_no_duration(s: Seq<u8>)
    requires
        forall|i: int| !duration_token_at(s, i),
    ensures
        spec_duration_ms(s) is None,
{
    lemma_scan_no_token(s, 0);
}

proof fn lemma_find_token_none(s: Seq<u8>, from: int, to: int)
    requires
        forall|i: int| !duration_token_at(s, i),
    ensures
        find_token_in(s, from, to) is None,
    decreases to - from,
{
    if !(from < 0 || from + 9 > to || to > s.len()) {
        lemma_find_token_none(s, from + 1, to);
    }
}

proof fn lemma_scan_no_token(s: Seq<u8>, i: int)
    requires
        forall|i2: int| !duration_token_at(s, i2),
    ensures
        scan_from(s, i) is None,
    decreases s.len() - i,
{
    if 0 <= i <= s.len() {
        let le0 = match find_byte_in(s, 10, i, s.len() as int) {
            Some(e) => e,
            None => s.len() as int,
        };
        let le = if le0 < i {
            i
        } else {
            le0
        };
        lemma_find_token_none(s, i, le);
        if le < s.len() {
            lemma_scan_no_token(s, le + 1);
        }
    }
}

} // verus!
