//! What the diagnostics page shows: the Windows version parsed from the
//! output of `ver`, the taskbar's identity and occupancy, and the runtime
//! information of the application.
use vstd::prelude::*;

use crate::occupancy::{OccupancySource, TaskbarOccupancy};
use crate::taskbar::TaskbarIdentity;
use crate::text::{
    chars_of, decimal, is_ascii_digit, joined, push_str, string_from_chars, string_from_range,
    trim_seq, trimmed,
};

verus! {

/// The Windows product name, version and build.
#[derive(Debug)]
pub struct WindowsVersionDiagnostic {
    pub product_name: String,
    pub version: String,
    pub build: u32,
}

/// The main taskbar's window handle and Explorer process id.
#[derive(Debug, Clone, Copy, PartialEq, Eq, Structural)]
pub struct TaskbarIdentityDiagnostic {
    pub hwnd: u64,
    pub explorer_process_id: u32,
}

/// Where the occupied regions came from, why a fallback was taken, and how
/// many regions there are.
#[derive(Debug)]
pub struct TaskbarOccupancyDiagnostic {
    pub source: String,
    pub fallback_reason: Option<String>,
    pub region_count: usize,
}

/// The application's version and start time.
#[derive(Debug)]
pub struct RuntimeInfo {
    pub application_version: String,
    pub started_at_unix_ms: u64,
}

// ---------------------------------------------------------------------------
// Windows version.
// ---------------------------------------------------------------------------

/// Index of the first `c` in `s`.
pub open spec fn index_of(s: Seq<char>, c: char) -> Option<int>
    decreases s.len(),
{
    if s.len() == 0 {
        None
    } else if s[0] == c {
        Some(0)
    } else {
        match index_of(s.drop_first(), c) {
            Some(i) => Some(i + 1),
            None => None,
        }
    }
}

/// The text between the first `[` and the first `]` after it, trimmed.
pub open spec fn bracketed(text: Seq<char>) -> Option<Seq<char>> {
    match index_of(text, '[') {
        None => None,
        Some(i) => {
            let rest = text.skip(i + 1);
            match index_of(rest, ']') {
                None => None,
                Some(j) => Some(trim_seq(rest.take(j))),
            }
        },
    }
}

/// Number of leading characters that are not ASCII digits.
pub open spec fn leading_non_digits(s: Seq<char>) -> nat
    decreases s.len(),
{
    if s.len() > 0 && !is_ascii_digit(s[0]) {
        1 + leading_non_digits(s.drop_first())
    } else {
        0
    }
}

/// The `n`-th part of `s` split at `sep`, if there are that many.
pub open spec fn split_part(s: Seq<char>, sep: char, n: nat) -> Option<Seq<char>>
    decreases n,
{
    match index_of(s, sep) {
        None => if n == 0 {
            Some(s)
        } else {
            None
        },
        Some(i) => if n == 0 {
            Some(s.take(i))
        } else {
            split_part(s.skip(i + 1), sep, (n - 1) as nat)
        },
    }
}

/// The value of a sequence of ASCII digits.
pub open spec fn digits_value(s: Seq<char>) -> nat
    decreases s.len(),
{
    if s.len() == 0 {
        0
    } else {
        (digits_value(s.drop_last()) * 10 + (s.last() as int - '0' as int)) as nat
    }
}

/// One or more ASCII digits of a value that fits in a `u32`.
pub open spec fn parse_digits(d: Seq<char>) -> Option<u32> {
    if d.len() > 0 && (forall|i: int| 0 <= i < d.len() ==> is_ascii_digit(#[trigger] d[i]))
        && digits_value(d) <= u32::MAX {
        Some(digits_value(d) as u32)
    } else {
        None
    }
}

/// `str::parse::<u32>`: an optional `+`, then one or more ASCII digits of a
/// value that fits in a `u32`.
pub open spec fn parse_u32(s: Seq<char>) -> Option<u32> {
    if s.len() > 0 && s[0] == '+' {
        parse_digits(s.drop_first())
    } else {
        parse_digits(s)
    }
}

/// The version text: what stands in brackets, without leading non-digits.
pub open spec fn version_text(text: Seq<char>) -> Option<Seq<char>> {
    match bracketed(text) {
        None => None,
        Some(v) => Some(v.skip(leading_non_digits(v) as int)),
    }
}

/// The build number: the third dot-separated part of the version.
pub open spec fn build_of(version: Seq<char>) -> Option<u32> {
    match split_part(version, '.', 2) {
        None => None,
        Some(p) => parse_u32(p),
    }
}

pub open spec fn unrecognised_message() -> Seq<char> {
    "Windows 版本命令返回了无法识别的内容"@
}

pub open spec fn no_build_message(version: Seq<char>) -> Seq<char> {
    "无法从版本号 "@ + version + " 中读取构建号"@
}

/// "Windows 11" from build 22000 on.
pub open spec fn product_name_of(build: u32) -> Seq<char> {
    if build >= 22000 {
        "Windows 11"@
    } else {
        "Windows"@
    }
}

fn find_char(s: &[char], from: usize, c: char) -> (r: Option<usize>)
    requires
        from <= s@.len(),
    ensures
        r matches Some(i) ==> from <= i < s@.len() && i < s.len(),
        match (r, index_of(s@.skip(from as int), c)) {
            (Some(i), Some(j)) => i == from + j,
            (None, None) => true,
            _ => false,
        },
{
    let mut i = from;
    proof {
        assert(s@.skip(from as int).skip(0) =~= s@.skip(from as int));
    }
    while i < s.len()
        invariant
            from <= i <= s@.len(),
            index_of(s@.skip(from as int), c) == match index_of(s@.skip(i as int), c) {
                Some(k) => Some(k + (i - from)),
                None => None::<int>,
            },
        decreases s.len() - i,
    {
        proof {
            assert(s@.skip(i as int).drop_first() =~= s@.skip(i + 1));
            assert(s@.skip(i as int)[0] == s@[i as int]);
        }
        if s[i] == c {
            return Some(i);
        }
        i += 1;
    }
    None
}

fn parse_build(p: &[char]) -> (r: Option<u32>)
    ensures
        r == parse_u32(p@),
{
    let start: usize = if p.len() > 0 && p[0] == '+' { 1 } else { 0 };
    let ghost d = p@.skip(start as int);
    proof {
        if start == 1 {
            assert(d =~= p@.drop_first());
        } else {
            assert(d =~= p@);
        }
    }
    if start == p.len() {
        return None;
    }
    let mut value: u64 = 0;
    let mut i = start;
    while i < p.len()
        invariant
            start <= i <= p@.len(),
            start < p@.len(),
            d == p@.skip(start as int),
            parse_u32(p@) == parse_digits(d),
            forall|k: int| 0 <= k < i - start ==> is_ascii_digit(#[trigger] d[k]),
            value == digits_value(d.take(i - start)),
            value <= u32::MAX,
        decreases p.len() - i,
    {
        let c = p[i];
        assert(d[i - start] == c);
        if !('0' <= c && c <= '9') {
            assert(!is_ascii_digit(d[i - start]));
            return None;
        }
        proof {
            assert(d.take(i - start + 1).drop_last() =~= d.take(i - start));
            assert(d.take(i - start + 1).last() == c);
        }
        let digit = (c as u32 - '0' as u32) as u64;
        value = value * 10 + digit;
        i += 1;
        if value > u32::MAX as u64 {
            proof {
                if forall|k: int| 0 <= k < d.len() ==> is_ascii_digit(#[trigger] d[k]) {
                    lemma_digits_prefix(d, i - start);
                }
            }
            return None;
        }
    }
    proof {
        assert(d.take(d.len() as int) =~= d);
    }
    Some(value as u32)
}

proof fn lemma_digits_prefix(d: Seq<char>, n: int)
    requires
        0 <= n <= d.len(),
        forall|k: int| 0 <= k < d.len() ==> is_ascii_digit(#[trigger] d[k]),
    ensures
        digits_value(d) >= digits_value(d.take(n)),
    decreases d.len() - n,
{
    if n < d.len() {
        lemma_digits_prefix(d, n + 1);
        assert(d.take(n + 1).drop_last() =~= d.take(n));
        assert(d.take(n + 1).last() == d[n]);
        assert(is_ascii_digit(d[n]));
    } else {
        assert(d.take(n) =~= d);
    }
}

fn bracketed_text(chars: &[char]) -> (r: Option<Vec<char>>)
    ensures
        match (r, bracketed(chars@)) {
            (Some(v), Some(w)) => v@ == w,
            (None, None) => true,
            _ => false,
        },
{
    proof {
        assert(chars@.skip(0) =~= chars@);
    }
    let open = match find_char(chars, 0, '[') {
        Some(i) => i,
        None => return None,
    };
    let close = match find_char(chars, open + 1, ']') {
        Some(j) => j,
        None => return None,
    };
    let mut inner: Vec<char> = Vec::new();
    let mut k = open + 1;
    while k < close
        invariant
            open + 1 <= k <= close <= chars@.len(),
            inner@ == chars@.subrange(open + 1, k as int),
        decreases close - k,
    {
        inner.push(chars[k]);
        k += 1;
        proof {
            assert(inner@ =~= chars@.subrange(open + 1, k as int));
        }
    }
    proof {
        assert(inner@ =~= chars@.skip(open + 1).take(close - open - 1));
    }
    Some(trimmed(inner.as_slice()))
}

fn skip_non_digits(t: &[char]) -> (r: Vec<char>)
    ensures
        r@ == t@.skip(leading_non_digits(t@) as int),
{
    let mut s: usize = 0;
    proof {
        assert(t@.skip(0) =~= t@);
    }
    while s < t.len() && !('0' <= t[s] && t[s] <= '9')
        invariant
            s <= t@.len(),
            leading_non_digits(t@) == s + leading_non_digits(t@.skip(s as int)),
        decreases t.len() - s,
    {
        proof {
            assert(t@.skip(s as int).drop_first() =~= t@.skip(s + 1));
            assert(t@.skip(s as int)[0] == t@[s as int]);
        }
        s += 1;
    }
    proof {
        if s < t@.len() {
            assert(t@.skip(s as int)[0] == t@[s as int]);
        }
    }
    let mut r: Vec<char> = Vec::new();
    let mut k = s;
    while k < t.len()
        invariant
            s <= k <= t@.len(),
            r@ == t@.subrange(s as int, k as int),
        decreases t.len() - k,
    {
        r.push(t[k]);
        k += 1;
        proof {
            assert(r@ =~= t@.subrange(s as int, k as int));
        }
    }
    proof {
        assert(r@ =~= t@.skip(s as int));
    }
    r
}

fn third_part(v: &[char]) -> (r: Option<Vec<char>>)
    ensures
        match (r, split_part(v@, '.', 2)) {
            (Some(p), Some(q)) => p@ == q,
            (None, None) => true,
            _ => false,
        },
{
    proof {
        reveal_with_fuel(split_part, 3);
        assert(v@.skip(0) =~= v@);
    }
    let a = match find_char(v, 0, '.') {
        Some(a) => a,
        None => return None,
    };
    let b = match find_char(v, a + 1, '.') {
        Some(b) => b,
        None => return None,
    };
    proof {
        assert(v@.skip(a + 1).skip(b - a) =~= v@.skip(b + 1));
    }
    let end = match find_char(v, b + 1, '.') {
        Some(c) => c,
        None => v.len(),
    };
    let mut p: Vec<char> = Vec::new();
    let mut k = b + 1;
    while k < end
        invariant
            b + 1 <= k <= end <= v@.len(),
            p@ == v@.subrange(b + 1, k as int),
        decreases end - k,
    {
        p.push(v[k]);
        k += 1;
        proof {
            assert(p@ =~= v@.subrange(b + 1, k as int));
        }
    }
    proof {
        if end < v@.len() {
            assert(v@.skip(b + 1).take(end - b - 1) =~= p@);
        } else {
            assert(v@.skip(b + 1) =~= p@);
        }
    }
    Some(p)
}

/// Parses the output of `ver`.
pub fn parse_windows_version(text: &str) -> (r: Result<WindowsVersionDiagnostic, String>)
    ensures
        version_text(text@) is None ==> (r matches Err(e) && e@ == unrecognised_message()),
        version_text(text@) matches Some(v) ==> (build_of(v) is None ==> (r matches Err(e) && e@
            == no_build_message(v))),
        version_text(text@) matches Some(v) ==> (build_of(v) matches Some(b) ==> (r matches Ok(d)
            && d.version@ == v && d.build == b && d.product_name@ == product_name_of(b))),
{
    let chars = chars_of(text);
    let inner = match bracketed_text(chars.as_slice()) {
        Some(t) => t,
        None => return Err("Windows 版本命令返回了无法识别的内容".to_owned()),
    };
    let v = skip_non_digits(inner.as_slice());
    let version = string_from_chars(v.as_slice());
    let build = match third_part(v.as_slice()) {
        Some(p) => parse_build(p.as_slice()),
        None => None,
    };
    match build {
        None => {
            let mut m = joined("无法从版本号 ", version.as_str());
            push_str(&mut m, " 中读取构建号");
            Err(m)
        },
        Some(b) => {
            let product_name = if b >= 22000 {
                "Windows 11".to_owned()
            } else {
                "Windows".to_owned()
            };
            Ok(WindowsVersionDiagnostic { product_name, version, build: b })
        },
    }
}

// ---------------------------------------------------------------------------
// Taskbar and runtime.
// ---------------------------------------------------------------------------

/// The identity diagnostic of a validated taskbar.
pub fn taskbar_identity_diagnostic(taskbar: &TaskbarIdentity) -> (r: TaskbarIdentityDiagnostic)
    ensures
        r.hwnd == taskbar.spec_handle(),
        r.explorer_process_id == taskbar.spec_explorer_process_id(),
{
    TaskbarIdentityDiagnostic {
        hwnd: taskbar.handle_value(),
        explorer_process_id: taskbar.explorer_process_id(),
    }
}

/// The occupancy diagnostic of a reading.
pub fn taskbar_occupancy_diagnostic(occupancy: &TaskbarOccupancy) -> (r: TaskbarOccupancyDiagnostic)
    ensures
        r.source@ == (match occupancy.spec_source() {
            OccupancySource::UiAutomation => "uiAutomation"@,
            OccupancySource::Win32Fallback => "win32Fallback"@,
        }),
        match r.fallback_reason {
            Some(f) => occupancy.spec_fallback_reason() == Some(f@),
            None => occupancy.spec_fallback_reason() is None,
        },
        r.region_count == occupancy.spec_regions().len(),
{
    let source = occupancy.source().as_str().to_owned();
    let fallback_reason = match occupancy.fallback_reason() {
        Some(f) => Some(f.to_owned()),
        None => None,
    };
    TaskbarOccupancyDiagnostic { source, fallback_reason, region_count: occupancy.regions().len() }
}

/// The runtime information from the start time in milliseconds since the
/// Unix epoch (or the text of the error where the start time is before the
/// epoch).
pub fn runtime_info(application_version: String, started_at_ms: Result<u128, String>) -> (r: Result<
    RuntimeInfo,
    String,
>)
    ensures
        started_at_ms matches Err(e) ==> (r matches Err(m) && m@ == "无法转换应用启动时间："@ + e@),
        started_at_ms matches Ok(ms) ==> (ms > u64::MAX ==> (r matches Err(m) && m@
            == "应用启动时间超出可表示范围"@)),
        started_at_ms matches Ok(ms) ==> (ms <= u64::MAX ==> (r matches Ok(info)
            && info.application_version@ == application_version@ && info.started_at_unix_ms
            == ms)),
{
    match started_at_ms {
        Err(e) => Err(joined("无法转换应用启动时间：", e.as_str())),
        Ok(ms) => {
            if ms > u64::MAX as u128 {
                Err("应用启动时间超出可表示范围".to_owned())
            } else {
                Ok(RuntimeInfo { application_version, started_at_unix_ms: ms as u64 })
            }
        },
    }
}

} // verus!
