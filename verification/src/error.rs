//! The error type, and the value conversions every wrapper call goes through:
//! C strings in and out, newline-joined lists, nanosecond counts.

use std::time::Duration;

use vstd::prelude::*;
use vstd::string::StringSliceAdditionalSpecFns;
use vstd::utf8::{decode_utf8, valid_utf8};

use crate::enums::Datatype;

verus! {

/// Everything that can go wrong talking to depthai-core.
#[derive(Debug)]
pub enum DepthaiError {
    /// A C++ exception inside depthai-core (device lost, bad pipeline, XLink
    /// error, ...), with its message. This is the common case.
    Native(String),
    /// A queue delivered a message of a different type than the queue was typed
    /// as. The message is consumed.
    UnexpectedDatatype { expected: Datatype, got: Datatype },
    /// A `&str` argument contained an interior NUL byte: the index of the first
    /// one, and the argument's bytes.
    Nul { position: usize, bytes: Vec<u8> },
    /// A node type's fixed port is missing: the wrapper's port table and the
    /// linked depthai-core disagree.
    MissingPort { node: String, kind: &'static str, name: String },
    /// A message whose contents contradict its own description.
    Malformed(String),
}

pub type Result<T> = core::result::Result<T, DepthaiError>;

/// No byte of `b` is NUL.
pub open spec fn nul_free(b: Seq<u8>) -> bool {
    forall|i: int| 0 <= i < b.len() ==> b[i] != 0u8
}

/// The index of the first NUL byte of `b`, or `b.len()` when there is none.
pub open spec fn nul_end(b: Seq<u8>) -> int
    decreases b.len(),
{
    if b.len() == 0 {
        0
    } else if b[0] == 0u8 {
        0
    } else {
        1 + nul_end(b.drop_first())
    }
}

/// `nul_end` is the first NUL, or the length when the bytes are NUL-free.
pub proof fn lemma_nul_end(b: Seq<u8>)
    ensures
        0 <= nul_end(b) <= b.len(),
        nul_free(b.take(nul_end(b))),
        nul_end(b) < b.len() ==> b[nul_end(b)] == 0u8,
        nul_end(b) == b.len() <==> nul_free(b),
    decreases b.len(),
{
    if b.len() > 0 && b[0] != 0u8 {
        lemma_nul_end(b.drop_first());
        let t = b.drop_first();
        assert forall|i: int| 0 <= i < nul_end(b) implies b.take(nul_end(b))[i] != 0u8 by {
            if i > 0 {
                assert(b.take(nul_end(b))[i] == t.take(nul_end(t))[i - 1]);
            }
        }
        if nul_free(t) {
            assert forall|i: int| 0 <= i < b.len() implies b[i] != 0u8 by {
                if i > 0 {
                    assert(b[i] == t[i - 1]);
                }
            }
        }
        if nul_free(b) {
            assert forall|i: int| 0 <= i < t.len() implies t[i] != 0u8 by {
                assert(t[i] == b[i + 1]);
            }
        }
    }
}

/// `nul_end` is the first index holding NUL.
pub proof fn lemma_nul_end_at(b: Seq<u8>, j: int)
    requires
        0 <= j <= b.len(),
        nul_free(b.take(j)),
        j < b.len() ==> b[j] == 0u8,
    ensures
        nul_end(b) == j,
    decreases b.len(),
{
    if j > 0 {
        let t = b.drop_first();
        assert(b.take(j)[0] == b[0]);
        assert forall|i: int| 0 <= i < j - 1 implies #[trigger] t.take(j - 1)[i] != 0u8 by {
            assert(t.take(j - 1)[i] == b.take(j)[i + 1]);
        }
        lemma_nul_end_at(t, j - 1);
    }
}

/// The NUL-terminated C string `CString::new(s)` builds: `s`'s UTF-8 bytes
/// followed by one NUL. Fails with [`DepthaiError::Nul`] when `s` itself holds a
/// NUL byte, naming the first one.
pub fn cstring(s: &str) -> (r: Result<Vec<u8>>)
    ensures
        r is Ok <==> nul_free(s.spec_bytes()),
        r matches Ok(v) ==> v@ == s.spec_bytes().push(0u8),
        r matches Err(e) ==> e matches DepthaiError::Nul { position, bytes }
            && bytes@ == s.spec_bytes() && position == nul_end(s.spec_bytes()),
{
    let b = s.as_bytes();
    let mut out: Vec<u8> = Vec::new();
    let mut i: usize = 0;
    while i < b.len()
        invariant
            b@ == s.spec_bytes(),
            i <= b.len(),
            out@ == b@.take(i as int),
            nul_free(b@.take(i as int)),
        decreases b.len() - i,
    {
        if b[i] == 0u8 {
            proof {
                lemma_nul_end_at(b@, i as int);
            }
            let mut all: Vec<u8> = out;
            let mut k: usize = i;
            while k < b.len()
                invariant
                    b@ == s.spec_bytes(),
                    i <= k <= b.len(),
                    all@ == b@.take(k as int),
                decreases b.len() - k,
            {
                all.push(b[k]);
                assert(b@.take(k as int).push(b@[k as int]) =~= b@.take(k + 1));
                k = k + 1;
            }
            assert(all@ =~= b@);
            return Err(DepthaiError::Nul { position: i, bytes: all });
        }
        out.push(b[i]);
        assert(b@.take(i as int).push(b@[i as int]) =~= b@.take(i + 1));
        i = i + 1;
    }
    assert(b@.take(i as int) =~= b@);
    out.push(0u8);
    Ok(out)
}

/// What a "fill this buffer, report the total count" shim call asks for next.
#[derive(Debug, Clone, Copy, PartialEq, Eq, Structural)]
pub enum FillStep {
    /// Grow the buffer to this many slots and fill it again.
    Grow(usize),
    /// Done: keep this many leading slots of the buffer.
    Keep(usize),
}

/// The step `fill_step` takes: grow once, when the count did not fit and the
/// buffer has not been grown yet; else keep as many as the buffer holds.
pub open spec fn fill_step_of(len: usize, reported: usize, grown: bool) -> FillStep {
    if !grown && reported > len {
        FillStep::Grow(reported)
    } else {
        FillStep::Keep(if reported < len { reported } else { len })
    }
}

/// The decision between the calls of a buffer fill: after a call reported
/// `reported` items into a buffer of `len` slots, either grow the buffer to
/// the reported count and call again (once), or keep what fits.
pub fn fill_step(len: usize, reported: usize, grown: bool) -> (step: FillStep)
    ensures
        step == fill_step_of(len, reported, grown),
{
    if !grown && reported > len {
        FillStep::Grow(reported)
    } else if reported < len {
        FillStep::Keep(reported)
    } else {
        FillStep::Keep(len)
    }
}

/// A buffer fill grows at most once: after growing to the reported count,
/// the next step keeps, and never more than the grown buffer holds.
pub proof fn lemma_fill_grows_once(len: usize, reported: usize, again: usize)
    requires
        fill_step_of(len, reported, false) is Grow,
    ensures
        fill_step_of(len, reported, false) == FillStep::Grow(reported),
        reported > len,
        fill_step_of(reported, again, true) matches FillStep::Keep(k) && k <= reported && k <= again,
{
}

/// How a poll-style shim call (`1` / `0` / negative) came out.
#[derive(Debug, Clone, Copy, PartialEq, Eq, Structural)]
pub enum PollStatus {
    /// `1`: the call handed something out.
    Ready,
    /// `0`: there was nothing to hand out.
    Empty,
    /// Anything else: the call failed; the shim's last error says why.
    Failed,
}

/// The outcome a poll-style return code stands for.
pub fn poll_status(rc: i32) -> (p: PollStatus)
    ensures
        p == (if rc == 1 {
            PollStatus::Ready
        } else if rc == 0 {
            PollStatus::Empty
        } else {
            PollStatus::Failed
        }),
{
    if rc == 1 {
        PollStatus::Ready
    } else if rc == 0 {
        PollStatus::Empty
    } else {
        PollStatus::Failed
    }
}

/// What `String::from_utf8_lossy` makes of a byte string.
pub uninterp spec fn utf8_lossy(bytes: Seq<u8>) -> Seq<char>;

/// `String::from_utf8_lossy(bytes)`, owned. std decodes the bytes as UTF-8 and
/// replaces every invalid sequence with U+FFFD; this claims that the result is
/// a function of the bytes, and that valid UTF-8 comes back as exactly the
/// characters it encodes. What replaces an invalid sequence is not stated.
#[verifier::external_body]
fn string_from_utf8_lossy(bytes: &[u8]) -> (s: String)
    ensures
        s@ == utf8_lossy(bytes@),
        valid_utf8(bytes@) ==> s@ == decode_utf8(bytes@),
{
    String::from_utf8_lossy(bytes).into_owned()
}

/// The characters of a NUL-terminated fixed-size C char array: its bytes up to
/// the first NUL (all of them when there is none), decoded as UTF-8, lossily
/// where they are not valid UTF-8.
pub open spec fn fixed_string_chars(bytes: Seq<u8>) -> Seq<char> {
    let p = bytes.take(nul_end(bytes));
    if valid_utf8(p) { decode_utf8(p) } else { utf8_lossy(p) }
}

/// Copy a NUL-terminated fixed-size C char array into a `String`.
pub fn fixed_string(bytes: &[u8]) -> (s: String)
    ensures
        s@ == fixed_string_chars(bytes@),
{
    let mut end: usize = 0;
    while end < bytes.len() && bytes[end] != 0u8
        invariant
            end <= bytes@.len(),
            nul_free(bytes@.take(end as int)),
        decreases bytes@.len() - end,
    {
        assert(bytes@.take(end as int).push(bytes@[end as int]) =~= bytes@.take(end + 1));
        end = end + 1;
    }
    proof {
        lemma_nul_end_at(bytes@, end as int);
    }
    string_from_utf8_lossy(&bytes[0..end])
}

/// The number of nanoseconds a `Duration` spans, as `Duration::as_nanos`
/// reports it.
pub uninterp spec fn duration_nanos(d: Duration) -> u128;

/// `Duration::from_nanos(n)`: a duration of exactly `n` nanoseconds (std
/// documents it as such; `as_nanos` then reports `n`).
#[verifier::external_body]
fn duration_of_nanos(n: u64) -> (d: Duration)
    ensures
        duration_nanos(d) == n as u128,
{
    Duration::from_nanos(n)
}

/// `Duration::as_nanos(d)`: the total number of whole nanoseconds in `d`.
#[verifier::external_body]
fn duration_as_nanos(d: Duration) -> (n: u128)
    ensures
        n == duration_nanos(d),
{
    d.as_nanos()
}

/// The nanoseconds of the `Duration` a shim `int64_t` count stands for:
/// the count, or zero when it is negative.
pub open spec fn duration_nanos_of_ns(ns: i64) -> u128 {
    if ns < 0 { 0 } else { ns as u128 }
}

/// The shim `int64_t` count for a duration of `n` nanoseconds: `n`, saturated
/// at `i64::MAX`.
pub open spec fn ns_of_duration_nanos(n: u128) -> i64 {
    if n > i64::MAX as u128 { i64::MAX } else { n as i64 }
}

/// A shim `int64_t` nanosecond count as a `Duration` (negative becomes zero).
pub fn duration_from_ns(ns: i64) -> (d: Duration)
    ensures
        duration_nanos(d) == duration_nanos_of_ns(ns),
{
    let n: u64 = if ns < 0 { 0 } else { ns as u64 };
    duration_of_nanos(n)
}

/// A `Duration` as the shim's `int64_t` nanoseconds, saturating at `i64::MAX`.
pub fn duration_to_ns(d: Duration) -> (ns: i64)
    ensures
        ns == ns_of_duration_nanos(duration_nanos(d)),
{
    let n = duration_as_nanos(d);
    if n > i64::MAX as u128 {
        i64::MAX
    } else {
        n as i64
    }
}

/// A nanosecond count survives the trip into a `Duration` and back, except
/// that a negative count comes back as zero.
pub proof fn lemma_duration_ns_round_trip(ns: i64)
    ensures
        ns_of_duration_nanos(duration_nanos_of_ns(ns)) == if ns < 0 { 0 } else { ns },
{
}

/// The characters of each string in `v`.
pub open spec fn string_views(v: Seq<String>) -> Seq<Seq<char>> {
    v.map_values(|x: String| x@)
}

/// `l` without one trailing carriage return.
pub open spec fn strip_cr(l: Seq<char>) -> Seq<char> {
    if l.len() > 0 && l.last() == '\r' { l.drop_last() } else { l }
}

/// `seq![l]` for a non-empty `l`, nothing for an empty one.
pub open spec fn keep_nonempty(l: Seq<char>) -> Seq<Seq<char>> {
    if l.len() == 0 { seq![] } else { seq![l] }
}

/// The non-empty lines of `cur + s`, where `cur` is a line already begun: the
/// text is cut at every `\n`, a line ended by `\n` loses one trailing `\r`
/// (as `str::lines` does), and empty lines are dropped.
pub open spec fn lines_from(s: Seq<char>, cur: Seq<char>) -> Seq<Seq<char>>
    decreases s.len(),
{
    if s.len() == 0 {
        keep_nonempty(cur)
    } else if s[0] == '\n' {
        keep_nonempty(strip_cr(cur)) + lines_from(s.drop_first(), seq![])
    } else {
        lines_from(s.drop_first(), cur.push(s[0]))
    }
}

/// The non-empty lines of `s`, as `s.lines().filter(|l| !l.is_empty())` yields them.
pub open spec fn nonempty_lines_of(s: Seq<char>) -> Seq<Seq<char>> {
    lines_from(s, seq![])
}

/// Every line is non-empty and holds no `\n`, given that the line already
/// begun holds none.
pub proof fn lemma_lines_from_are_lines(s: Seq<char>, cur: Seq<char>)
    requires
        !cur.contains('\n'),
    ensures
        forall|k: int|
            0 <= k < lines_from(s, cur).len() ==> (#[trigger] lines_from(s, cur)[k]).len() > 0
                && !lines_from(s, cur)[k].contains('\n'),
    decreases s.len(),
{
    if s.len() == 0 {
        if cur.len() > 0 {
            assert(keep_nonempty(cur)[0] == cur);
        }
    } else if s[0] == '\n' {
        let l = strip_cr(cur);
        assert(!l.contains('\n')) by {
            if l.contains('\n') {
                let k = choose|k: int| 0 <= k < l.len() && l[k] == '\n';
                assert(cur[k] == '\n');
            }
        }
        lemma_lines_from_are_lines(s.drop_first(), seq![]);
        let head = keep_nonempty(l);
        let tail = lines_from(s.drop_first(), seq![]);
        assert(lines_from(s, cur) == head + tail);
        assert forall|k: int| 0 <= k < (head + tail).len() implies (#[trigger] (head + tail)[k]).len()
            > 0 && !(head + tail)[k].contains('\n') by {
            if k >= head.len() {
                assert((head + tail)[k] == tail[k - head.len()]);
            } else {
                assert((head + tail)[k] == l);
            }
        }
    } else {
        let next = cur.push(s[0]);
        assert(!next.contains('\n')) by {
            if next.contains('\n') {
                let k = choose|k: int| 0 <= k < next.len() && next[k] == '\n';
                if k < cur.len() {
                    assert(cur[k] == '\n');
                }
            }
        }
        lemma_lines_from_are_lines(s.drop_first(), next);
        assert(lines_from(s, cur) == lines_from(s.drop_first(), next));
    }
}

/// No line of a list is empty or holds a line break.
pub proof fn lemma_nonempty_lines_are_lines(s: Seq<char>)
    ensures
        forall|k: int|
            0 <= k < nonempty_lines_of(s).len() ==> (#[trigger] nonempty_lines_of(s)[k]).len() > 0
                && !nonempty_lines_of(s)[k].contains('\n'),
{
    lemma_lines_from_are_lines(s, seq![]);
}

/// The shim's newline-joined lists (port names, class names, group members)
/// as a list: every non-empty line of `s`.
pub fn nonempty_lines(s: &str) -> (lines: Vec<String>)
    ensures
        string_views(lines@) == nonempty_lines_of(s@),
{
    let n = s.unicode_len();
    let mut out: Vec<String> = Vec::new();
    let mut start: usize = 0;
    let mut i: usize = 0;
    assert(s@.skip(0) =~= s@);
    assert(s@.subrange(0, 0) =~= Seq::<char>::empty());
    assert(string_views(out@) =~= Seq::<Seq<char>>::empty());
    while i < n
        invariant
            n == s@.len(),
            start <= i <= n,
            string_views(out@) + lines_from(s@.skip(i as int), s@.subrange(start as int, i as int))
                == nonempty_lines_of(s@),
        decreases n - i,
    {
        let c = s.get_char(i);
        let ghost rest = s@.skip(i as int);
        let ghost cur = s@.subrange(start as int, i as int);
        assert(rest[0] == c);
        assert(rest.drop_first() =~= s@.skip(i + 1));
        if c == '\n' {
            let end: usize = if i > start && s.get_char(i - 1) == '\r' { i - 1 } else { i };
            assert(strip_cr(cur) =~= s@.subrange(start as int, end as int));
            let ghost prev = out@;
            if end > start {
                let piece = s.substring_char(start, end).to_owned();
                out.push(piece);
            }
            assert(string_views(out@) =~= string_views(prev) + keep_nonempty(strip_cr(cur)));
            assert(s@.subrange((i + 1) as int, (i + 1) as int) =~= Seq::<char>::empty());
            start = i + 1;
        } else {
            assert(cur.push(c) =~= s@.subrange(start as int, i + 1));
        }
        i = i + 1;
    }
    assert(s@.skip(n as int) =~= Seq::<char>::empty());
    let ghost prev = out@;
    if n > start {
        let piece = s.substring_char(start, n).to_owned();
        out.push(piece);
    }
    assert(string_views(out@) =~= string_views(prev) + keep_nonempty(s@.subrange(start as int, n as int)));
    out
}

} // verus!
