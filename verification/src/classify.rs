//! Classification of recorded diagnostic events by their names and details: the lifecycle
//! phase, the outcome and the source each event is filed under.
use vstd::prelude::*;

use crate::text::{
    ascii_lower_seq, ascii_lowercase, char_is_white_space, chars_of, contains_seq, has_text,
    is_white_space, starts_with_chars, starts_with_seq,
};

verus! {

/// The lifecycle phase an event belongs to.
#[derive(Clone, Copy, Debug, PartialEq, Eq, Structural)]
pub enum DiagnosticPhase {
    Handoff,
    Decide,
    Timer,
    Shutdown,
    Observe,
    Acquire,
    Release,
    Verify,
    Persist,
    Render,
    Complete,
}

/// The outcome an event reports.
#[derive(Clone, Copy, Debug, PartialEq, Eq, Structural)]
pub enum DiagnosticOutcome {
    TimedOut,
    Suppressed,
    Cancelled,
    Unverified,
    Failed,
    InProgress,
    Completed,
}

/// Where an event comes from.
#[derive(Clone, Copy, Debug, PartialEq, Eq, Structural)]
pub enum DiagnosticSource {
    PowerEvent,
    Startup,
    Pause,
    Resume,
    Handoff,
    Timer,
    Shutdown,
    Policy,
    Ownership,
    Native,
    TrayCommand,
    Internal,
}

/// The phase of an event name: the first of handoff, policy, duration or pause, shutdown or
/// quit, query or observation, acquire or request, release or stop, verification, config or
/// startup, window or tray status that the name contains; otherwise complete.
pub open spec fn phase_spec(name: Seq<char>) -> DiagnosticPhase {
    if contains_seq(name, "handoff"@) {
        DiagnosticPhase::Handoff
    } else if contains_seq(name, "policy"@) {
        DiagnosticPhase::Decide
    } else if contains_seq(name, "duration"@) || contains_seq(name, "pause"@) {
        DiagnosticPhase::Timer
    } else if contains_seq(name, "shutdown"@) || contains_seq(name, "quit"@) {
        DiagnosticPhase::Shutdown
    } else if contains_seq(name, "query"@) || contains_seq(name, "observation"@) {
        DiagnosticPhase::Observe
    } else if contains_seq(name, "acquire"@) || contains_seq(name, "request"@) {
        DiagnosticPhase::Acquire
    } else if contains_seq(name, "release"@) || contains_seq(name, "stop"@) {
        DiagnosticPhase::Release
    } else if contains_seq(name, "verification"@) {
        DiagnosticPhase::Verify
    } else if contains_seq(name, "config"@) || contains_seq(name, "startup"@) {
        DiagnosticPhase::Persist
    } else if contains_seq(name, "window"@) || contains_seq(name, "tray.status"@) {
        DiagnosticPhase::Render
    } else {
        DiagnosticPhase::Complete
    }
}

/// The lifecycle phase of an event.
pub fn diagnostic_phase(name: &str) -> (p: DiagnosticPhase)
    ensures
        p == phase_spec(name@),
{
    let n = chars_of(name);
    if has_text(&n, "handoff") {
        DiagnosticPhase::Handoff
    } else if has_text(&n, "policy") {
        DiagnosticPhase::Decide
    } else if has_text(&n, "duration") || has_text(&n, "pause") {
        DiagnosticPhase::Timer
    } else if has_text(&n, "shutdown") || has_text(&n, "quit") {
        DiagnosticPhase::Shutdown
    } else if has_text(&n, "query") || has_text(&n, "observation") {
        DiagnosticPhase::Observe
    } else if has_text(&n, "acquire") || has_text(&n, "request") {
        DiagnosticPhase::Acquire
    } else if has_text(&n, "release") || has_text(&n, "stop") {
        DiagnosticPhase::Release
    } else if has_text(&n, "verification") {
        DiagnosticPhase::Verify
    } else if has_text(&n, "config") || has_text(&n, "startup") {
        DiagnosticPhase::Persist
    } else if has_text(&n, "window") || has_text(&n, "tray.status") {
        DiagnosticPhase::Render
    } else {
        DiagnosticPhase::Complete
    }
}

/// The outcome of an event, from its name and details lower-cased and joined by a space: the
/// first of a timeout, a suppression, a cancellation, an unverified or uncertain result, an
/// error or failure, a start or pending state; otherwise completed.
pub open spec fn outcome_spec(name: Seq<char>, details: Seq<char>) -> DiagnosticOutcome {
    let v = ascii_lower_seq(name + " "@ + details);
    if contains_seq(v, "timedout"@) || contains_seq(v, "timeout"@) {
        DiagnosticOutcome::TimedOut
    } else if contains_seq(v, "suppressed"@) {
        DiagnosticOutcome::Suppressed
    } else if contains_seq(v, "cancel"@) {
        DiagnosticOutcome::Cancelled
    } else if contains_seq(v, "unverified"@) || contains_seq(v, "uncertain"@) {
        DiagnosticOutcome::Unverified
    } else if contains_seq(v, "error"@) || contains_seq(v, "failed"@) {
        DiagnosticOutcome::Failed
    } else if contains_seq(v, "started"@) || contains_seq(v, "pending"@) {
        DiagnosticOutcome::InProgress
    } else {
        DiagnosticOutcome::Completed
    }
}

/// Whether the lower-cased text of an event names any reason it did not simply complete.
pub open spec fn names_no_outcome_word(v: Seq<char>) -> bool {
    !contains_seq(v, "timedout"@) && !contains_seq(v, "timeout"@) && !contains_seq(
        v,
        "suppressed"@,
    ) && !contains_seq(v, "cancel"@) && !contains_seq(v, "unverified"@) && !contains_seq(
        v,
        "uncertain"@,
    ) && !contains_seq(v, "error"@) && !contains_seq(v, "failed"@) && !contains_seq(
        v,
        "started"@,
    ) && !contains_seq(v, "pending"@)
}

/// An event whose lower-cased name and details mention an error or a failure is failed, unless
/// they also report a timeout, a suppression, a cancellation or an unverified or uncertain
/// result, which take precedence; and an event counts as completed only when its text names
/// none of these outcomes, nor a start or a pending state.
pub proof fn lemma_error_text_is_a_failure(name: Seq<char>, details: Seq<char>)
    ensures
        ({
            let v = ascii_lower_seq(name + " "@ + details);
            &&& (contains_seq(v, "error"@) || contains_seq(v, "failed"@)) && !contains_seq(
                v,
                "timedout"@,
            ) && !contains_seq(v, "timeout"@) && !contains_seq(v, "suppressed"@)
                && !contains_seq(v, "cancel"@) && !contains_seq(v, "unverified"@)
                && !contains_seq(v, "uncertain"@) ==> outcome_spec(name, details)
                == DiagnosticOutcome::Failed
            &&& outcome_spec(name, details) == DiagnosticOutcome::Completed <==> names_no_outcome_word(v)
        }),
{
}

/// The outcome of an event.
pub fn diagnostic_outcome(name: &str, details: &str) -> (o: DiagnosticOutcome)
    ensures
        o == outcome_spec(name@, details@),
{
    let mut joined = chars_of(name);
    joined.push(' ');
    let d = chars_of(details);
    let mut i: usize = 0;
    let ghost base = joined@;
    proof {
        reveal_strlit(" ");
        assert(base =~= name@ + " "@);
    }
    while i < d.len()
        invariant
            base == name@ + " "@,
            d@ == details@,
            0 <= i <= d@.len(),
            joined@ == base + d@.subrange(0, i as int),
        decreases d@.len() - i,
    {
        joined.push(d[i]);
        i = i + 1;
        assert(joined@ =~= base + d@.subrange(0, i as int));
    }
    proof {
        reveal_strlit(" ");
        assert(d@.subrange(0, i as int) =~= d@);
        assert(joined@ =~= name@ + " "@ + details@);
    }
    let v = ascii_lowercase(&joined);
    if has_text(&v, "timedout") || has_text(&v, "timeout") {
        DiagnosticOutcome::TimedOut
    } else if has_text(&v, "suppressed") {
        DiagnosticOutcome::Suppressed
    } else if has_text(&v, "cancel") {
        DiagnosticOutcome::Cancelled
    } else if has_text(&v, "unverified") || has_text(&v, "uncertain") {
        DiagnosticOutcome::Unverified
    } else if has_text(&v, "error") || has_text(&v, "failed") {
        DiagnosticOutcome::Failed
    } else if has_text(&v, "started") || has_text(&v, "pending") {
        DiagnosticOutcome::InProgress
    } else {
        DiagnosticOutcome::Completed
    }
}

/// The source of an event name: the first of power, startup, pause, resume, handoff, duration,
/// shutdown or quit, policy, ownership that it contains; a "native." or "timer." prefix; a tray
/// command; otherwise internal.
pub open spec fn source_spec(name: Seq<char>) -> DiagnosticSource {
    if contains_seq(name, "power"@) {
        DiagnosticSource::PowerEvent
    } else if contains_seq(name, "startup"@) {
        DiagnosticSource::Startup
    } else if contains_seq(name, "pause"@) {
        DiagnosticSource::Pause
    } else if contains_seq(name, "resume"@) {
        DiagnosticSource::Resume
    } else if contains_seq(name, "handoff"@) {
        DiagnosticSource::Handoff
    } else if contains_seq(name, "duration"@) {
        DiagnosticSource::Timer
    } else if contains_seq(name, "shutdown"@) || contains_seq(name, "quit"@) {
        DiagnosticSource::Shutdown
    } else if contains_seq(name, "policy"@) {
        DiagnosticSource::Policy
    } else if contains_seq(name, "ownership"@) {
        DiagnosticSource::Ownership
    } else if starts_with_seq(name, "native."@) || starts_with_seq(name, "timer."@) {
        DiagnosticSource::Native
    } else if contains_seq(name, "tray.command"@) {
        DiagnosticSource::TrayCommand
    } else {
        DiagnosticSource::Internal
    }
}

/// The source of an event.
pub fn diagnostic_source(name: &str) -> (s: DiagnosticSource)
    ensures
        s == source_spec(name@),
{
    let n = chars_of(name);
    if has_text(&n, "power") {
        DiagnosticSource::PowerEvent
    } else if has_text(&n, "startup") {
        DiagnosticSource::Startup
    } else if has_text(&n, "pause") {
        DiagnosticSource::Pause
    } else if has_text(&n, "resume") {
        DiagnosticSource::Resume
    } else if has_text(&n, "handoff") {
        DiagnosticSource::Handoff
    } else if has_text(&n, "duration") {
        DiagnosticSource::Timer
    } else if has_text(&n, "shutdown") || has_text(&n, "quit") {
        DiagnosticSource::Shutdown
    } else if has_text(&n, "policy") {
        DiagnosticSource::Policy
    } else if has_text(&n, "ownership") {
        DiagnosticSource::Ownership
    } else if starts_with_chars(&n, "native.") || starts_with_chars(&n, "timer.") {
        DiagnosticSource::Native
    } else if has_text(&n, "tray.command") {
        DiagnosticSource::TrayCommand
    } else {
        DiagnosticSource::Internal
    }
}

/// The value of a run of decimal digits.
pub open spec fn digits_value(s: Seq<char>) -> int
    decreases s.len(),
{
    if s.len() == 0 {
        0
    } else {
        digits_value(s.drop_last()) * 10 + (s.last() as u32 - '0' as u32)
    }
}

/// Whether every character is an ASCII digit.
pub open spec fn all_digits(s: Seq<char>) -> bool {
    forall|i: int| 0 <= i < s.len() ==> '0' <= #[trigger] s[i] && s[i] <= '9'
}

/// What `str::parse::<i64>` gives: an optional '+' or '-' sign, then one or more ASCII digits,
/// whose value must fit in `i64`.
pub open spec fn parse_i64_spec(s: Seq<char>) -> Option<i64> {
    let negative = s.len() > 0 && s[0] == '-';
    let body = if s.len() > 0 && (s[0] == '-' || s[0] == '+') {
        s.drop_first()
    } else {
        s
    };
    signed_digits_value(negative, body)
}

/// The value of a run of digits with a sign, when it fits in `i64`.
pub open spec fn signed_digits_value(negative: bool, body: Seq<char>) -> Option<i64> {
    if body.len() == 0 || !all_digits(body) {
        None
    } else {
        let v = if negative {
            -digits_value(body)
        } else {
            digits_value(body)
        };
        if i64::MIN <= v <= i64::MAX {
            Some(v as i64)
        } else {
            None
        }
    }
}

proof fn lemma_digits_value_nonnegative(s: Seq<char>)
    requires
        all_digits(s),
    ensures
        digits_value(s) >= 0,
    decreases s.len(),
{
    if s.len() > 0 {
        lemma_digits_value_nonnegative(s.drop_last());
    }
}

/// Parses the characters `chars[from..to]` as a decimal `i64`.
pub fn parse_i64_chars(chars: &Vec<char>, from: usize, to: usize) -> (r: Option<i64>)
    requires
        from <= to <= chars@.len(),
    ensures
        r == parse_i64_spec(chars@.subrange(from as int, to as int)),
{
    let ghost s = chars@.subrange(from as int, to as int);
    let mut start = from;
    let mut negative = false;
    if from < to && (chars[from] == '-' || chars[from] == '+') {
        negative = chars[from] == '-';
        start = from + 1;
    }
    let ghost body = chars@.subrange(start as int, to as int);
    proof {
        if from < to && (s[0] == '-' || s[0] == '+') {
            assert(body =~= s.drop_first());
        } else {
            assert(body =~= s);
        }
    }
    if start == to {
        return None;
    }
    let limit: u64 = 0x8000_0000_0000_0000;
    let mut value: u64 = 0;
    let mut overflow = false;
    let mut k = start;
    while k < to
        invariant
            from <= start < to <= chars@.len(),
            start <= k <= to,
            limit == 0x8000_0000_0000_0000u64,
            body == chars@.subrange(start as int, to as int),
            parse_i64_spec(chars@.subrange(from as int, to as int)) == signed_digits_value(
                negative,
                body,
            ),
            all_digits(chars@.subrange(start as int, k as int)),
            !overflow ==> value == digits_value(chars@.subrange(start as int, k as int)) && value
                <= limit,
            overflow ==> digits_value(chars@.subrange(start as int, k as int)) > limit,
        decreases to - k,
    {
        let c = chars[k];
        if !('0' <= c && c <= '9') {
            proof {
                assert(body[k - start] == c);
                assert(!all_digits(body));
            }
            return None;
        }
        let d: u64 = (c as u32 - '0' as u32) as u64;
        assert(d <= 9);
        proof {
            let prefix = chars@.subrange(start as int, k + 1);
            assert(prefix.drop_last() =~= chars@.subrange(start as int, k as int));
            lemma_digits_value_nonnegative(chars@.subrange(start as int, k as int));
            assert forall|i: int| 0 <= i < prefix.len() implies '0' <= #[trigger] prefix[i]
                && prefix[i] <= '9' by {
                if i < prefix.len() - 1 {
                    assert(prefix[i] == chars@.subrange(start as int, k as int)[i]);
                }
            }
        }
        if !overflow {
            if value > (limit - d) / 10 {
                overflow = true;
            } else {
                value = value * 10 + d;
            }
        }
        k = k + 1;
    }
    proof {
        assert(chars@.subrange(start as int, k as int) =~= body);
    }
    if overflow {
        return None;
    }
    if negative {
        if value == limit {
            Some(i64::MIN)
        } else {
            Some(-(value as i64))
        }
    } else {
        if value == limit {
            None
        } else {
            Some(value as i64)
        }
    }
}

/// The number of leading characters that are not white space.
pub open spec fn field_len(s: Seq<char>) -> nat
    decreases s.len(),
{
    if s.len() > 0 && !is_white_space(s[0]) {
        1 + field_len(s.drop_first())
    } else {
        0
    }
}

/// The index of the first '=' in a field, or -1.
pub open spec fn first_equals(f: Seq<char>) -> int
    decreases f.len(),
{
    if f.len() == 0 {
        -1
    } else if f[0] == '=' {
        0
    } else {
        let rest = first_equals(f.drop_first());
        if rest < 0 {
            -1
        } else {
            rest + 1
        }
    }
}

/// The number a `key=value` field holds for `key`, when its value parses.
pub open spec fn field_number(f: Seq<char>, key: Seq<char>) -> Option<i64> {
    let e = first_equals(f);
    if e >= 0 && f.take(e) == key {
        parse_i64_spec(f.skip(e + 1))
    } else {
        None
    }
}

/// The number of the first white-space separated `key=value` field of `s` whose key is `key`
/// and whose value parses as `i64`.
pub open spec fn detail_number(s: Seq<char>, key: Seq<char>) -> Option<i64>
    decreases s.len(),
{
    if s.len() == 0 {
        None
    } else if is_white_space(s[0]) {
        detail_number(s.drop_first(), key)
    } else {
        let n = field_len(s);
        proof {
            lemma_field_len_positive(s);
        }
        match field_number(s.take(n as int), key) {
            Some(v) => Some(v),
            None => detail_number(s.skip(n as int), key),
        }
    }
}

/// A field that starts with a non-white-space character is nonempty and fits in the text.
pub proof fn lemma_field_len_positive(s: Seq<char>)
    requires
        s.len() > 0,
        !is_white_space(s[0]),
    ensures
        1 <= field_len(s) <= s.len(),
    decreases s.len(),
{
    lemma_field_len_bounded(s.drop_first());
}

/// A field fits in the text it starts.
pub proof fn lemma_field_len_bounded(s: Seq<char>)
    ensures
        field_len(s) <= s.len(),
    decreases s.len(),
{
    if s.len() > 0 && !is_white_space(s[0]) {
        lemma_field_len_bounded(s.drop_first());
    }
}

proof fn lemma_first_equals_bounds(f: Seq<char>)
    ensures
        -1 <= first_equals(f) < f.len(),
    decreases f.len(),
{
    if f.len() > 0 {
        lemma_first_equals_bounds(f.drop_first());
    }
}

/// Finds the first '=' of `chars[from..to]`, as an offset from `from`, or -1.
fn find_equals(chars: &Vec<char>, from: usize, to: usize) -> (r: i64)
    requires
        from <= to <= chars@.len(),
        to <= i64::MAX,
    ensures
        r == first_equals(chars@.subrange(from as int, to as int)),
{
    let mut k = from;
    while k < to
        invariant
            from <= k <= to <= chars@.len(),
            to <= i64::MAX,
            first_equals(chars@.subrange(from as int, to as int)) == (if first_equals(
                chars@.subrange(k as int, to as int),
            ) < 0 {
                -1
            } else {
                (k - from) + first_equals(chars@.subrange(k as int, to as int))
            }),
        decreases to - k,
    {
        if chars[k] == '=' {
            return (k - from) as i64;
        }
        proof {
            assert(chars@.subrange(k as int, to as int).drop_first() =~= chars@.subrange(
                k + 1,
                to as int,
            ));
        }
        k = k + 1;
    }
    -1
}

/// The number of the first `key=value` field of `details` whose value parses as `i64`.
pub fn numeric_detail(details: &str, key: &str) -> (r: Option<i64>)
    requires
        details@.len() <= i64::MAX,
    ensures
        r == detail_number(details@, key@),
{
    let chars = chars_of(details);
    let key_chars = chars_of(key);
    let n = chars.len();
    let mut i: usize = 0;
    assert(chars@.skip(0) =~= chars@);
    while i < n
        invariant
            chars@ == details@,
            key_chars@ == key@,
            n == chars@.len(),
            n <= i64::MAX,
            0 <= i <= n,
            detail_number(details@, key@) == detail_number(chars@.skip(i as int), key@),
        decreases n - i,
    {
        if char_is_white_space(chars[i]) {
            proof {
                assert(chars@.skip(i as int).drop_first() =~= chars@.skip(i + 1));
            }
            i = i + 1;
        } else {
            let ghost rest = chars@.skip(i as int);
            let mut j = i;
            while j < n && !char_is_white_space(chars[j])
                invariant
                    chars@ == details@,
                    n == chars@.len(),
                    i <= j <= n,
                    rest == chars@.skip(i as int),
                    field_len(rest) == (j - i) + field_len(chars@.skip(j as int)),
                decreases n - j,
            {
                proof {
                    assert(chars@.skip(j as int).drop_first() =~= chars@.skip(j + 1));
                }
                j = j + 1;
            }
            proof {
                lemma_field_len_positive(rest);
                assert(rest.take(field_len(rest) as int) =~= chars@.subrange(i as int, j as int));
                assert(rest.skip(field_len(rest) as int) =~= chars@.skip(j as int));
            }
            let e = find_equals(&chars, i, j);
            proof {
                lemma_first_equals_bounds(chars@.subrange(i as int, j as int));
            }
            let mut found: Option<i64> = None;
            if e >= 0 {
                let eq_at = i + (e as usize);
                let klen = key_chars.len();
                let mut same = eq_at - i == klen;
                let mut t: usize = 0;
                while same && t < klen
                    invariant
                        chars@ == details@,
                        key_chars@ == key@,
                        i <= eq_at <= j <= n,
                        n == chars@.len(),
                        klen == key_chars@.len(),
                        same ==> eq_at - i == klen,
                        0 <= t <= klen,
                        same ==> forall|q: int| 0 <= q < t ==> chars@[i + q] == key_chars@[q],
                        !same ==> chars@.subrange(i as int, eq_at as int) != key@,
                    decreases klen - t + (if same {
                        1int
                    } else {
                        0int
                    }),
                {
                    if chars[i + t] != key_chars[t] {
                        proof {
                            assert(chars@.subrange(i as int, eq_at as int)[t as int] != key@[t as int]);
                        }
                        same = false;
                    } else {
                        t = t + 1;
                    }
                }
                proof {
                    let f = chars@.subrange(i as int, j as int);
                    assert(f.take(e as int) =~= chars@.subrange(i as int, eq_at as int));
                    assert(f.skip(e + 1) =~= chars@.subrange(eq_at + 1, j as int));
                    if same {
                        assert(chars@.subrange(i as int, eq_at as int) =~= key@);
                    }
                }
                if same {
                    found = parse_i64_chars(&chars, eq_at + 1, j);
                }
            }
            if found.is_some() {
                return found;
            }
            i = j;
        }
    }
    None
}

/// What a native-call event reports, read from its name and its `key=value` details.
#[derive(Clone, Copy, Debug, PartialEq, Eq, Structural)]
pub struct NativeOutcome {
    pub ntstatus: Option<i32>,
    pub win32_last_error: Option<u32>,
    pub requested_hns: Option<u64>,
    pub selected_hns: Option<u64>,
    pub effective_hns: Option<u64>,
}

/// An `i64` as an `i32`, when it fits.
pub open spec fn fit_i32(v: Option<i64>) -> Option<i32> {
    match v {
        Some(x) => if i32::MIN <= x <= i32::MAX {
            Some(x as i32)
        } else {
            None
        },
        None => None,
    }
}

/// An `i64` as a `u32`, when it fits.
pub open spec fn fit_u32(v: Option<i64>) -> Option<u32> {
    match v {
        Some(x) => if 0 <= x <= u32::MAX {
            Some(x as u32)
        } else {
            None
        },
        None => None,
    }
}

/// An `i64` reinterpreted as a `u64`.
pub open spec fn as_u64(v: Option<i64>) -> Option<u64> {
    match v {
        Some(x) => Some(x as u64),
        None => None,
    }
}

/// The outcome of a native-call event: an NT status for Nt calls and timer events; a Win32
/// error from `raw_error`, or from `raw_status` for GetLastError calls and for other native
/// calls without an NT status; and the requested, selected and effective timing.
pub open spec fn native_outcome_spec(name: Seq<char>, details: Seq<char>) -> NativeOutcome {
    let raw_status = detail_number(details, "raw_status"@);
    let raw_error = detail_number(details, "raw_error"@);
    let nt_call = contains_seq(name, "Nt"@) || starts_with_seq(name, "timer."@);
    let ntstatus = if nt_call {
        fit_i32(raw_status)
    } else {
        None
    };
    let last_error_call = contains_seq(name, "GetLastError"@);
    let native_call = starts_with_seq(name, "native."@);
    let win32 = if last_error_call || raw_error is Some || (native_call && ntstatus is None) {
        let chosen = if raw_error is Some {
            raw_error
        } else if last_error_call && raw_status is Some {
            raw_status
        } else if native_call {
            raw_status
        } else {
            None
        };
        fit_u32(chosen)
    } else {
        None
    };
    NativeOutcome {
        ntstatus,
        win32_last_error: win32,
        requested_hns: as_u64(detail_number(details, "requested_hns"@)),
        selected_hns: as_u64(detail_number(details, "selected_hns"@)),
        effective_hns: as_u64(detail_number(details, "effective_hns"@)),
    }
}

fn to_i32(v: Option<i64>) -> (r: Option<i32>)
    ensures
        r == fit_i32(v),
{
    match v {
        Some(x) => if i32::MIN as i64 <= x && x <= i32::MAX as i64 {
            Some(x as i32)
        } else {
            None
        },
        None => None,
    }
}

fn to_u32(v: Option<i64>) -> (r: Option<u32>)
    ensures
        r == fit_u32(v),
{
    match v {
        Some(x) => if 0 <= x && x <= u32::MAX as i64 {
            Some(x as u32)
        } else {
            None
        },
        None => None,
    }
}

fn to_u64(v: Option<i64>) -> (r: Option<u64>)
    ensures
        r == as_u64(v),
{
    match v {
        Some(x) => Some(x as u64),
        None => None,
    }
}

/// Reads the native outcome of an event from its name and details.
pub fn native_outcome(name: &str, details: &str) -> (o: NativeOutcome)
    requires
        details@.len() <= i64::MAX,
    ensures
        o == native_outcome_spec(name@, details@),
{
    let raw_status = numeric_detail(details, "raw_status");
    let raw_error = numeric_detail(details, "raw_error");
    let n = chars_of(name);
    let nt_call = has_text(&n, "Nt") || starts_with_chars(&n, "timer.");
    let ntstatus = if nt_call {
        to_i32(raw_status)
    } else {
        None
    };
    let last_error_call = has_text(&n, "GetLastError");
    let native_call = starts_with_chars(&n, "native.");
    let win32_last_error = if last_error_call || raw_error.is_some() || (native_call
        && ntstatus.is_none()) {
        let chosen = if raw_error.is_some() {
            raw_error
        } else if last_error_call && raw_status.is_some() {
            raw_status
        } else if native_call {
            raw_status
        } else {
            None
        };
        to_u32(chosen)
    } else {
        None
    };
    NativeOutcome {
        ntstatus,
        win32_last_error,
        requested_hns: to_u64(numeric_detail(details, "requested_hns")),
        selected_hns: to_u64(numeric_detail(details, "selected_hns")),
        effective_hns: to_u64(numeric_detail(details, "effective_hns")),
    }
}

/// Whether an event proves a failed log write or retention step: a `storage.` event that failed
/// or was suppressed (a write withheld for want of free space is recorded as suppressed).
pub fn is_storage_failure_event(name: &str, outcome: DiagnosticOutcome) -> (b: bool)
    ensures
        b == (starts_with_seq(name@, "storage."@) && (outcome == DiagnosticOutcome::Failed
            || outcome == DiagnosticOutcome::Suppressed)),
{
    let n = chars_of(name);
    starts_with_chars(&n, "storage.") && match outcome {
        DiagnosticOutcome::Failed | DiagnosticOutcome::Suppressed => true,
        _ => false,
    }
}

} // verus!
