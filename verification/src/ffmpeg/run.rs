//! The decisions taken while an ffmpeg child runs: reading its `-progress` output,
//! when to kill it, and what the run's outcome is. Spawning, waiting and killing are
//! done by the caller, which hands each observation in and acts on the answer.

use vstd::prelude::*;
use crate::error::MediaError;
use crate::text::{
    chars_of, eq_str, parse_u64_max, parse_unsigned, push_all, push_str, slice_chars, string_of,
    trim, trim_end_char, trim_end_matches, trim_ws, float_text, is_float_text,
};

verus! {

/// One parsed `-progress` block.
#[derive(Debug, Clone)]
pub struct ProgressUpdate {
    /// Output position in microseconds.
    pub out_time_us: Option<u64>,
    /// Output size so far in bytes.
    pub total_size: Option<u64>,
    /// The encoding speed as ffmpeg printed it, without its trailing `x`s (only when it
    /// reads as a number).
    pub speed: Option<String>,
    /// Whether ffmpeg reported the end of the run.
    pub done: bool,
}

/// The value of a [`ProgressUpdate`].
pub struct ProgressUpdateView {
    pub out_time_us: Option<u64>,
    pub total_size: Option<u64>,
    pub speed: Option<Seq<char>>,
    pub done: bool,
}

impl View for ProgressUpdate {
    type V = ProgressUpdateView;

    open spec fn view(&self) -> ProgressUpdateView {
        ProgressUpdateView {
            out_time_us: self.out_time_us,
            total_size: self.total_size,
            speed: crate::format::opt_text(self.speed),
            done: self.done,
        }
    }
}

/// The empty progress block.
pub open spec fn empty_update() -> ProgressUpdateView {
    ProgressUpdateView { out_time_us: None, total_size: None, speed: None, done: false }
}

/// The index of the first `c` in `s`, if any.
pub open spec fn first_index_of(s: Seq<char>, c: char) -> Option<int>
    decreases s.len(),
{
    if s.len() == 0 {
        None
    } else if s[0] == c {
        Some(0)
    } else {
        match first_index_of(s.drop_first(), c) {
            Some(i) => Some(i + 1),
            None => None,
        }
    }
}

proof fn lemma_first_index_of(s: Seq<char>, c: char)
    ensures
        first_index_of(s, c) matches Some(i) ==> 0 <= i < s.len() && s[i] == c && forall|j: int|
            0 <= j < i ==> s[j] != c,
        first_index_of(s, c) is None ==> forall|j: int| 0 <= j < s.len() ==> s[j] != c,
    decreases s.len(),
{
    if s.len() > 0 && s[0] != c {
        lemma_first_index_of(s.drop_first(), c);
        assert forall|j: int| 0 < j < s.len() implies s[j] == s.drop_first()[j - 1] by {}
    }
}

/// The value a `u64` field of a progress line holds, when it parses.
pub open spec fn u64_value(v: Seq<char>) -> Option<u64> {
    match parse_unsigned(trim(v), u64::MAX as nat) {
        Some(n) => Some(n as u64),
        None => None,
    }
}

/// How one line of `-progress` output changes the block being read, and the block it
/// completes, if any (a `progress=` line completes it, `progress=end` marking the
/// last; the next block starts empty).
pub open spec fn progress_step(acc: ProgressUpdateView, line: Seq<char>) -> (
    ProgressUpdateView,
    Option<ProgressUpdateView>,
) {
    match first_index_of(line, '=') {
        None => (acc, None),
        Some(i) => {
            let key = trim(line.take(i));
            let value = line.skip(i + 1);
            if key == "out_time_us"@ || key == "out_time_ms"@ {
                match u64_value(value) {
                    Some(v) => (ProgressUpdateView { out_time_us: Some(v), ..acc }, None),
                    None => (acc, None),
                }
            } else if key == "total_size"@ {
                (ProgressUpdateView { total_size: u64_value(value), ..acc }, None)
            } else if key == "speed"@ {
                let v = trim_end_char(trim(value), 'x');
                (
                    ProgressUpdateView {
                        speed: if float_text(v) {
                            Some(v)
                        } else {
                            None
                        },
                        ..acc
                    },
                    None,
                )
            } else if key == "progress"@ {
                (empty_update(), Some(ProgressUpdateView { done: trim(value) == "end"@, ..acc }))
            } else {
                (acc, None)
            }
        },
    }
}

/// Reads ffmpeg's `-progress` output line by line.
pub struct ProgressReader {
    acc: ProgressUpdate,
}

impl View for ProgressReader {
    type V = ProgressUpdateView;

    closed spec fn view(&self) -> ProgressUpdateView {
        self.acc@
    }
}

fn find_char(v: &Vec<char>, c: char) -> (r: Option<usize>)
    ensures
        match r {
            Some(i) => first_index_of(v@, c) == Some(i as int),
            None => first_index_of(v@, c) is None,
        },
{
    proof {
        lemma_first_index_of(v@, c);
    }
    let mut i: usize = 0;
    while i < v.len()
        invariant
            i <= v.len(),
            forall|j: int| 0 <= j < i ==> v@[j] != c,
        decreases v.len() - i,
    {
        if v[i] == c {
            proof {
                lemma_first_index_matches(v@, c, i as int);
            }
            return Some(i);
        }
        i = i + 1;
    }
    proof {
        lemma_first_index_none(v@, c);
    }
    None
}

proof fn lemma_first_index_matches(s: Seq<char>, c: char, i: int)
    requires
        0 <= i < s.len(),
        s[i] == c,
        forall|j: int| 0 <= j < i ==> s[j] != c,
    ensures
        first_index_of(s, c) == Some(i),
    decreases i,
{
    if i > 0 {
        assert forall|j: int| 0 <= j < i - 1 implies s.drop_first()[j] != c by {
            assert(s.drop_first()[j] == s[j + 1]);
        }
        lemma_first_index_matches(s.drop_first(), c, i - 1);
    }
}

proof fn lemma_first_index_none(s: Seq<char>, c: char)
    requires
        forall|j: int| 0 <= j < s.len() ==> s[j] != c,
    ensures
        first_index_of(s, c) is None,
    decreases s.len(),
{
    if s.len() > 0 {
        assert forall|j: int| 0 <= j < s.len() - 1 implies s.drop_first()[j] != c by {
            assert(s.drop_first()[j] == s[j + 1]);
        }
        lemma_first_index_none(s.drop_first(), c);
    }
}

fn parse_u64_field(v: &Vec<char>) -> (r: Option<u64>)
    ensures
        r == u64_value(v@),
{
    let t = trim_ws(v);
    match parse_u64_max(&t, u64::MAX) {
        Some(n) => Some(n),
        None => None,
    }
}

fn copy_update(u: &ProgressUpdate) -> (r: ProgressUpdate)
    ensures
        r@ == u@,
{
    ProgressUpdate {
        out_time_us: u.out_time_us,
        total_size: u.total_size,
        speed: crate::format::copy_opt_string(&u.speed),
        done: u.done,
    }
}

impl ProgressReader {
    /// A reader at the start of the output.
    pub fn new() -> (r: Self)
        ensures
            r@ == empty_update(),
    {
        ProgressReader {
            acc: ProgressUpdate { out_time_us: None, total_size: None, speed: None, done: false },
        }
    }

    /// Reads one line; answers with the block it completes, if any.
    pub fn feed(&mut self, line: &str) -> (r: Option<ProgressUpdate>)
        ensures
            final(self)@ == progress_step(old(self)@, line@).0,
            match r {
                Some(u) => progress_step(old(self)@, line@).1 == Some(u@),
                None => progress_step(old(self)@, line@).1 is None,
            },
    {
        let v = chars_of(line);
        let i = match find_char(&v, '=') {
            Some(i) => i,
            None => {
                return None;
            },
        };
        proof {
            lemma_first_index_of(v@, '=');
        }
        assert(i < v.len());
        let key = trim_ws(&slice_chars(&v, 0, i));
        let value = slice_chars(&v, i + 1, v.len());
        if eq_str(&key, "out_time_us") || eq_str(&key, "out_time_ms") {
            if let Some(x) = parse_u64_field(&value) {
                self.acc.out_time_us = Some(x);
            }
            None
        } else if eq_str(&key, "total_size") {
            self.acc.total_size = parse_u64_field(&value);
            None
        } else if eq_str(&key, "speed") {
            let s = trim_end_matches(&trim_ws(&value), 'x');
            self.acc.speed = if is_float_text(&s) {
                Some(string_of(&s))
            } else {
                None
            };
            None
        } else if eq_str(&key, "progress") {
            let t = trim_ws(&value);
            let mut done = copy_update(&self.acc);
            done.done = eq_str(&t, "end");
            self.acc = ProgressUpdate { out_time_us: None, total_size: None, speed: None, done: false };
            Some(done)
        } else {
            None
        }
    }
}

// ───────────────────────── watching and outcome ─────────────────────────

/// Why a watched run is killed, after one look at the cancellation flag and the clock:
/// an earlier reason stands; otherwise a cancellation, then an elapsed limit.
pub open spec fn kill_reason_spec(
    earlier: Option<MediaError>,
    cancelled: bool,
    over_limit: bool,
    limit_secs: u64,
) -> Option<MediaError> {
    if earlier is Some {
        earlier
    } else if cancelled {
        Some(MediaError::Cancelled)
    } else if over_limit {
        Some(MediaError::Timeout(limit_secs))
    } else {
        None
    }
}

/// One look at a running child: given the reason it was already killed for (if any),
/// whether cancellation was requested, and whether the time limit `limit_secs` has
/// passed, answers with the reason it is killed for now and whether to kill it now.
pub fn watch_step(earlier: Option<MediaError>, cancelled: bool, over_limit: bool, limit_secs: u64)
    -> (r: (Option<MediaError>, bool))
    ensures
        r.0 == kill_reason_spec(earlier, cancelled, over_limit, limit_secs),
        r.1 == (earlier is None && (cancelled || over_limit)),
{
    match earlier {
        Some(e) => (Some(e), false),
        None => {
            if cancelled {
                (Some(MediaError::Cancelled), true)
            } else if over_limit {
                (Some(MediaError::Timeout(limit_secs)), true)
            } else {
                (None, false)
            }
        },
    }
}

/// The message of a run that exited unsuccessfully.
pub open spec fn exit_message(status: Seq<char>, stderr_tail: Seq<char>) -> Seq<char> {
    if trim(stderr_tail).len() == 0 {
        "ffmpeg exited with "@ + status
    } else {
        "ffmpeg exited with "@ + status + ": "@ + trim(stderr_tail)
    }
}

/// The outcome of a finished run: the kill reason when it was killed; otherwise
/// success when it exited successfully, else an ffmpeg error naming the exit `status`
/// and the trimmed tail of its error output.
pub fn run_outcome(killed: Option<MediaError>, success: bool, status: &str, stderr_tail: &str)
    -> (r: Result<(), MediaError>)
    ensures
        match killed {
            Some(k) => r == Err::<(), MediaError>(k),
            None => if success {
                r is Ok
            } else {
                r matches Err(MediaError::Ffmpeg(m)) && m@ == exit_message(status@, stderr_tail@)
            },
        },
{
    if let Some(reason) = killed {
        return Err(reason);
    }
    if success {
        return Ok(());
    }
    let tail = trim_ws(&chars_of(stderr_tail));
    let mut m = chars_of("ffmpeg exited with ");
    push_str(&mut m, status);
    if tail.len() > 0 {
        push_str(&mut m, ": ");
        push_all(&mut m, &tail);
    }
    Err(MediaError::Ffmpeg(string_of(&m)))
}

/// The last `n` characters of `s` (all of it when shorter).
pub open spec fn tail_of(s: Seq<char>, n: nat) -> Seq<char> {
    if s.len() <= n {
        s
    } else {
        s.skip(s.len() - n)
    }
}

/// The last `n` characters of `text`: how much of a child's error output is kept.
pub fn tail_chars(text: &str, n: usize) -> (r: String)
    ensures
        r@ == tail_of(text@, n as nat),
{
    let v = chars_of(text);
    if v.len() <= n {
        string_of(&v)
    } else {
        string_of(&slice_chars(&v, v.len() - n, v.len()))
    }
}

} // verus!
