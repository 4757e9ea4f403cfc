//! Project-relative short paths.
//!
//! A short path is a forward-pointing relative path with normalized
//! separators: segments are separated by single `/` characters, no segment
//! is empty, `.` or `..`, and the path neither starts nor ends with `/`.
//! The empty path is allowed.  Promise artifacts are identified by such a
//! path once concrete, and consumers may assert one ahead of resolution.

use vstd::prelude::*;
use vstd::string::*;

verus! {

/// Scanner state while walking one path segment.
#[derive(Debug, Clone, Copy, PartialEq, Eq, Structural)]
pub enum SegmentState {
    /// At the start of a segment (start of the path or just after `/`).
    Start,
    /// The segment read so far is exactly `.`.
    Dot,
    /// The segment read so far is exactly `..`.
    DotDot,
    /// The segment read so far is a valid, nonempty segment.
    Plain,
}

/// One scanner transition; `None` means the path is invalid at this point:
/// an empty segment, or a complete `.` or `..` segment.
pub open spec fn spec_segment_step(st: SegmentState, c: char) -> Option<SegmentState> {
    match st {
        SegmentState::Start => if c == '/' {
            None
        } else if c == '.' {
            Some(SegmentState::Dot)
        } else {
            Some(SegmentState::Plain)
        },
        SegmentState::Dot => if c == '/' {
            None
        } else if c == '.' {
            Some(SegmentState::DotDot)
        } else {
            Some(SegmentState::Plain)
        },
        SegmentState::DotDot => if c == '/' {
            None
        } else {
            Some(SegmentState::Plain)
        },
        SegmentState::Plain => if c == '/' {
            Some(SegmentState::Start)
        } else {
            Some(SegmentState::Plain)
        },
    }
}

/// Runs the scanner over `s` starting in state `st`.
pub open spec fn spec_scan(s: Seq<char>, st: SegmentState) -> Option<SegmentState>
    decreases s.len(),
{
    if s.len() == 0 {
        Some(st)
    } else {
        match spec_segment_step(st, s[0]) {
            None => None,
            Some(st2) => spec_scan(s.drop_first(), st2),
        }
    }
}

/// Whether `s` is a valid short path: empty, or scanned without fault and
/// ending inside a plain segment (so no trailing `/`, `.` or `..`).
pub open spec fn is_valid_short_path(s: Seq<char>) -> bool {
    s.len() == 0 || spec_scan(s, SegmentState::Start) == Some(SegmentState::Plain)
}

/// Checks `is_valid_short_path` on a string.
pub fn check_short_path(s: &str) -> (b: bool)
    ensures
        b == is_valid_short_path(s@),
{
    let n = s.unicode_len();
    if n == 0 {
        return true;
    }
    let mut st = SegmentState::Start;
    let mut i: usize = 0;
    proof {
        assert(s@.skip(0) =~= s@);
    }
    while i < n
        invariant
            i <= n,
            n == s@.len(),
            spec_scan(s@, SegmentState::Start) == spec_scan(s@.skip(i as int), st),
        decreases n - i,
    {
        let c = s.get_char(i);
        proof {
            assert(s@.skip(i as int)[0] == s@[i as int]);
            assert(s@.skip(i as int).drop_first() =~= s@.skip(i as int + 1));
        }
        st = match st {
            SegmentState::Start => {
                if c == '/' {
                    return false;
                } else if c == '.' {
                    SegmentState::Dot
                } else {
                    SegmentState::Plain
                }
            },
            SegmentState::Dot => {
                if c == '/' {
                    return false;
                } else if c == '.' {
                    SegmentState::DotDot
                } else {
                    SegmentState::Plain
                }
            },
            SegmentState::DotDot => {
                if c == '/' {
                    return false;
                } else {
                    SegmentState::Plain
                }
            },
            SegmentState::Plain => {
                if c == '/' {
                    SegmentState::Start
                } else {
                    SegmentState::Plain
                }
            },
        };
        i = i + 1;
    }
    proof {
        assert(s@.skip(n as int) =~= Seq::<char>::empty());
    }
    st == SegmentState::Plain
}

/// A scan that completes on input ending in `/` ends at a segment start.
proof fn lemma_scan_ending_slash(s: Seq<char>, st: SegmentState)
    requires
        s.len() > 0,
        s[s.len() - 1] == '/',
        spec_scan(s, st) is Some,
    ensures
        spec_scan(s, st) == Some(SegmentState::Start),
    decreases s.len(),
{
    if s.len() > 1 {
        let st2 = spec_segment_step(st, s[0]);
        assert(st2 is Some);
        assert(s.drop_first()[s.drop_first().len() - 1] == s[s.len() - 1]);
        lemma_scan_ending_slash(s.drop_first(), st2.unwrap());
    }
}

/// A nonempty valid short path neither starts nor ends with `/`: the
/// separators are strictly interior, as normalization promises.
pub proof fn lemma_valid_short_path_trimmed(s: Seq<char>)
    requires
        is_valid_short_path(s),
        s.len() > 0,
    ensures
        s[0] != '/',
        s[s.len() - 1] != '/',
{
    if s[s.len() - 1] == '/' {
        lemma_scan_ending_slash(s, SegmentState::Start);
    }
}

/// The error returned when a string is not a valid short path.
#[derive(Debug)]
pub struct InvalidShortPathError {
    /// The rejected string.
    pub path: String,
}

/// A validated project-relative short path.
#[derive(Debug, Hash)]
pub struct ShortPath {
    path: String,
}

impl View for ShortPath {
    type V = Seq<char>;

    closed spec fn view(&self) -> Seq<char> {
        self.path@
    }
}

impl ShortPath {
    /// Every value of this type satisfies the validity predicate.
    pub closed spec fn wf(&self) -> bool {
        is_valid_short_path(self.path@)
    }

    /// Validates `path` and wraps it; returns the error exactly on strings
    /// that are not valid short paths.
    pub fn new(path: String) -> (r: Result<ShortPath, InvalidShortPathError>)
        ensures
            r is Ok <==> is_valid_short_path(path@),
            r matches Ok(p) ==> p@ == path@ && p.wf(),
            r matches Err(e) ==> e.path@ == path@,
    {
        if check_short_path(path.as_str()) {
            Ok(ShortPath { path })
        } else {
            Err(InvalidShortPathError { path })
        }
    }

    /// The path as a string slice.
    pub fn as_str(&self) -> (s: &str)
        ensures
            s@ == self@,
    {
        self.path.as_str()
    }
}

impl Clone for ShortPath {
    fn clone(&self) -> (r: Self)
        ensures
            r == *self,
    {
        ShortPath { path: self.path.clone() }
    }
}

impl PartialEq for ShortPath {
    fn eq(&self, other: &Self) -> (r: bool) {
        self.path == other.path
    }
}

impl Eq for ShortPath {

}

impl vstd::std_specs::cmp::PartialEqSpecImpl for ShortPath {
    open spec fn obeys_eq_spec() -> bool {
        true
    }

    open spec fn eq_spec(&self, other: &Self) -> bool {
        self@ == other@
    }
}

} // verus!
