//! Commands: high-level ones received as text lines, and the waypoint sets
//! the sequencer hands to the executor.
use vstd::prelude::*;
use vstd::string::StringSliceAdditionalSpecFns;
use crate::config::{MAX_COORD, MAX_STEP};
use crate::leg::Leg;
use crate::position::{LegPositions, Point};

verus! {

/// The per-tick step `v` on one axis never leads away from the target `e`.
pub open spec fn heading(c: i32, e: i32, v: i32) -> bool {
    v == 0 || c == e || (v > 0) == (e > c)
}

pub open spec fn point_heading(c: Point, e: Point, v: Point) -> bool {
    heading(c.x, e.x, v.x) && heading(c.y, e.y, v.y) && heading(c.z, e.z, v.z)
}

/// The axis gets to its target: it is there, or it has a step toward it.
pub open spec fn axis_converging(c: i32, e: i32, v: i32) -> bool {
    c == e || (v != 0 && (v > 0) == (e > c))
}

pub open spec fn point_converging(c: Point, e: Point, v: Point) -> bool {
    axis_converging(c.x, e.x, v.x) && axis_converging(c.y, e.y, v.y) && axis_converging(
        c.z,
        e.z,
        v.z,
    )
}

/// A snapshot of the sequencer's positions handed to the executor: where
/// each foot is, where it should go, and its step per tick.
#[derive(Debug, Clone, Copy, PartialEq, Eq, Structural)]
pub struct ServoCommand {
    pub current_pos: LegPositions,
    pub expected_pos: LegPositions,
    pub velocity: LegPositions,
}

impl ServoCommand {
    pub fn new(current_pos: LegPositions, expected_pos: LegPositions, velocity: LegPositions) -> (r:
        ServoCommand)
        ensures
            r == (ServoCommand { current_pos, expected_pos, velocity }),
    {
        ServoCommand { current_pos, expected_pos, velocity }
    }

    /// Positions are legal coordinates, steps are bounded, and no step leads
    /// away from its target.
    pub open spec fn wf(self) -> bool {
        &&& self.current_pos.within(MAX_COORD as int)
        &&& self.expected_pos.within(MAX_COORD as int)
        &&& self.velocity.within(MAX_STEP as int)
        &&& forall|leg: Leg|
            point_heading(
                #[trigger] self.current_pos.at(leg),
                self.expected_pos.at(leg),
                self.velocity.at(leg),
            )
    }
}

fn heading_exec(c: i32, e: i32, v: i32) -> (r: bool)
    ensures
        r == heading(c, e, v),
{
    v == 0 || c == e || (v > 0) == (e > c)
}

fn within_exec(p: Point, bound: i32) -> (r: bool)
    requires
        bound >= 0,
    ensures
        r == p.within(bound as int),
{
    -bound <= p.x && p.x <= bound && -bound <= p.y && p.y <= bound && -bound <= p.z && p.z
        <= bound
}

fn leg_well_formed(cmd: &ServoCommand, leg: Leg) -> (r: bool)
    ensures
        r == (cmd.current_pos.at(leg).within(MAX_COORD as int) && cmd.expected_pos.at(leg).within(
            MAX_COORD as int,
        ) && cmd.velocity.at(leg).within(MAX_STEP as int) && point_heading(
            cmd.current_pos.at(leg),
            cmd.expected_pos.at(leg),
            cmd.velocity.at(leg),
        )),
{
    let c = cmd.current_pos.get(leg);
    let e = cmd.expected_pos.get(leg);
    let v = cmd.velocity.get(leg);
    within_exec(c, MAX_COORD) && within_exec(e, MAX_COORD) && within_exec(v, MAX_STEP)
        && heading_exec(c.x, e.x, v.x) && heading_exec(c.y, e.y, v.y) && heading_exec(
        c.z,
        e.z,
        v.z,
    )
}

impl ServoCommand {
    /// Whether the command is well formed: legal positions, bounded steps,
    /// none leading away from its target.
    pub fn is_well_formed(&self) -> (r: bool)
        ensures
            r == self.wf(),
    {
        let r = leg_well_formed(self, Leg::FrontLeft) && leg_well_formed(self, Leg::BottomLeft)
            && leg_well_formed(self, Leg::FrontRight) && leg_well_formed(self, Leg::BottomRight);
        proof {
            if r {
                assert forall|leg: Leg|
                    #![trigger self.current_pos.at(leg)]
                    #![trigger self.expected_pos.at(leg)]
                    #![trigger self.velocity.at(leg)]
                    self.current_pos.at(leg).within(MAX_COORD as int)
                        && self.expected_pos.at(leg).within(MAX_COORD as int)
                        && self.velocity.at(leg).within(MAX_STEP as int) && point_heading(
                        self.current_pos.at(leg),
                        self.expected_pos.at(leg),
                        self.velocity.at(leg),
                    ) by {
                    match leg {
                        Leg::FrontLeft => {},
                        Leg::BottomLeft => {},
                        Leg::FrontRight => {},
                        Leg::BottomRight => {},
                    }
                }
            }
        }
        r
    }
}

/// A high-level command.
#[derive(Debug, Clone, Copy, PartialEq, Eq)]
pub enum TcpCommand {
    Calibrate,
    Test,
    Sit,
    Stand,
    Wave(u8),
    StepForward(u8),
    TurnLeft(u8),
    TurnRight(u8),
    SetAngles([u8; 12]),
}

/// A line that names no command.
#[derive(Debug, Clone, Copy, PartialEq, Eq, Structural)]
pub struct ParseCommandError;

/// ASCII whitespace: space, tab, line feed, vertical tab, form feed,
/// carriage return.
pub open spec fn is_space(b: u8) -> bool {
    b == 32 || (9 <= b && b <= 13)
}

/// The three-byte UTF-8 forms of the whitespace code points U+1680,
/// U+2000 to U+200A, U+2028, U+2029, U+202F, U+205F and U+3000.
pub open spec fn is_wide_space(a: u8, b: u8, c: u8) -> bool {
    (a == 0xE1 && b == 0x9A && c == 0x80) || (a == 0xE2 && b == 0x80 && ((0x80 <= c && c <= 0x8A)
        || c == 0xA8 || c == 0xA9 || c == 0xAF)) || (a == 0xE2 && b == 0x81 && c == 0x9F) || (a
        == 0xE3 && b == 0x80 && c == 0x80)
}

/// Length in bytes of the whitespace character that starts at `i`, or 0
/// where none does. Whitespace is Unicode's: the ASCII ones, U+0085 and
/// U+00A0 (two bytes), and those of `is_wide_space` (three bytes).
pub open spec fn space_len(s: Seq<u8>, i: int) -> int {
    if i < 0 || i >= s.len() {
        0
    } else if is_space(s[i]) {
        1
    } else if s[i] == 0xC2 && i + 1 < s.len() && (s[i + 1] == 0x85 || s[i + 1] == 0xA0) {
        2
    } else if i + 2 < s.len() && is_wide_space(s[i], s[i + 1], s[i + 2]) {
        3
    } else {
        0
    }
}

/// The first index from `i` on where no whitespace starts, or the end.
pub open spec fn skip_space(s: Seq<u8>, i: int) -> int
    decreases s.len() - i,
{
    if space_len(s, i) == 0 {
        i
    } else {
        skip_space(s, i + space_len(s, i))
    }
}

/// The first index from `i` on where whitespace starts, or the end.
pub open spec fn token_end(s: Seq<u8>, i: int) -> int
    decreases s.len() - i,
{
    if i < 0 || i >= s.len() || space_len(s, i) > 0 {
        i
    } else {
        token_end(s, i + 1)
    }
}

pub open spec fn is_digit(b: u8) -> bool {
    48 <= b && b <= 57
}

pub open spec fn all_digits(t: Seq<u8>) -> bool {
    forall|i: int| 0 <= i < t.len() ==> is_digit(#[trigger] t[i])
}

/// The number that the decimal digits `t` write.
pub open spec fn digits_value(t: Seq<u8>) -> int
    decreases t.len(),
{
    if t.len() == 0 {
        0
    } else {
        digits_value(t.drop_last()) * 10 + (t.last() - 48)
    }
}

/// A count token read as a `u8`: an optional `+` and at least one decimal
/// digit, of value at most 255.
pub open spec fn count_of(t: Seq<u8>) -> Option<u8> {
    let d = if t.len() > 0 && t[0] == 43 {
        t.subrange(1, t.len() as int)
    } else {
        t
    };
    if d.len() > 0 && all_digits(d) && digits_value(d) <= 255 {
        Some(digits_value(d) as u8)
    } else {
        None
    }
}

/// A command line: the first word (words being separated by Unicode
/// whitespace, as `str::split_whitespace` separates them) names the command,
/// the second, where there is one and it reads as a `u8`, is its count,
/// which is 1 otherwise. Further words are ignored.
pub open spec fn parse_line(s: Seq<u8>) -> Result<TcpCommand, ParseCommandError> {
    let a = skip_space(s, 0);
    let b = token_end(s, a);
    let c = skip_space(s, b);
    let d = token_end(s, c);
    let word = s.subrange(a, b);
    let n: u8 = if c < s.len() {
        match count_of(s.subrange(c, d)) {
            Some(v) => v,
            None => 1,
        }
    } else {
        1
    };
    let one = word.len() == 1;
    let two = word.len() == 2 && word[0] == 116;
    if one && word[0] == 116 {
        Ok(TcpCommand::Test)
    } else if one && word[0] == 119 {
        Ok(TcpCommand::Wave(n))
    } else if one && word[0] == 100 {
        Ok(TcpCommand::StepForward(n))
    } else if one && word[0] == 114 {
        Ok(TcpCommand::Sit)
    } else if one && word[0] == 115 {
        Ok(TcpCommand::Stand)
    } else if one && word[0] == 99 {
        Ok(TcpCommand::Calibrate)
    } else if two && word[1] == 108 {
        Ok(TcpCommand::TurnLeft(n))
    } else if two && word[1] == 114 {
        Ok(TcpCommand::TurnRight(n))
    } else {
        Err(ParseCommandError)
    }
}

fn is_space_exec(b: u8) -> (r: bool)
    ensures
        r == is_space(b),
{
    b == 32 || (9 <= b && b <= 13)
}

fn space_len_exec(s: &[u8], i: usize) -> (r: usize)
    requires
        i <= s@.len(),
    ensures
        r == space_len(s@, i as int),
        r <= s@.len() - i,
{
    let n = s.len();
    if i >= n {
        return 0;
    }
    let a = s[i];
    if is_space_exec(a) {
        return 1;
    }
    if a == 0xC2 && i + 1 < n && (s[i + 1] == 0x85 || s[i + 1] == 0xA0) {
        return 2;
    }
    if n - i > 2 {
        let b = s[i + 1];
        let c = s[i + 2];
        if (a == 0xE1 && b == 0x9A && c == 0x80) || (a == 0xE2 && b == 0x80 && ((0x80 <= c && c
            <= 0x8A) || c == 0xA8 || c == 0xA9 || c == 0xAF)) || (a == 0xE2 && b == 0x81 && c
            == 0x9F) || (a == 0xE3 && b == 0x80 && c == 0x80) {
            return 3;
        }
    }
    0
}

fn skip_space_exec(s: &[u8], i: usize) -> (r: usize)
    requires
        i <= s@.len(),
    ensures
        r == skip_space(s@, i as int),
        i <= r <= s@.len(),
{
    let mut j = i;
    let mut k = space_len_exec(s, j);
    while k > 0
        invariant
            i <= j <= s@.len(),
            k == space_len(s@, j as int),
            k <= s@.len() - j,
            s@.len() == s.len(),
            skip_space(s@, j as int) == skip_space(s@, i as int),
        decreases s@.len() - j,
    {
        j = j + k;
        k = space_len_exec(s, j);
    }
    j
}

fn token_end_exec(s: &[u8], i: usize) -> (r: usize)
    requires
        i <= s@.len(),
    ensures
        r == token_end(s@, i as int),
        i <= r <= s@.len(),
{
    let mut j = i;
    while j < s.len() && space_len_exec(s, j) == 0
        invariant
            i <= j <= s@.len(),
            token_end(s@, j as int) == token_end(s@, i as int),
        decreases s@.len() - j,
    {
        j = j + 1;
    }
    j
}

proof fn lemma_digits_grow(t: Seq<u8>, k: int)
    requires
        0 <= k <= t.len(),
        all_digits(t),
    ensures
        digits_value(t.subrange(0, k)) <= digits_value(t),
        digits_value(t.subrange(0, k)) >= 0,
    decreases t.len(),
{
    if t.len() > 0 {
        let p = t.drop_last();
        assert(all_digits(p)) by {
            assert forall|i: int| 0 <= i < p.len() implies is_digit(#[trigger] p[i]) by {
                assert(p[i] == t[i]);
            }
        }
        assert(is_digit(t[t.len() - 1]));
        if k < t.len() {
            lemma_digits_grow(p, k);
            assert(p.subrange(0, k) =~= t.subrange(0, k));
            lemma_digits_grow(p, p.len() as int);
            assert(p.subrange(0, p.len() as int) =~= p);
        } else {
            assert(t.subrange(0, k) =~= t);
            lemma_digits_grow(p, p.len() as int);
            assert(p.subrange(0, p.len() as int) =~= p);
        }
    } else {
        assert(t.subrange(0, k) =~= t);
    }
}

/// The count in `s[start..end]`, or `None` where it does not read as one.
fn count_exec(s: &[u8], start: usize, end: usize) -> (r: Option<u8>)
    requires
        start <= end <= s@.len(),
    ensures
        r == count_of(s@.subrange(start as int, end as int)),
{
    let ghost t = s@.subrange(start as int, end as int);
    let mut i = start;
    if i < end && s[i] == 43 {
        i = i + 1;
    }
    let ghost d = s@.subrange(i as int, end as int);
    assert(d =~= (if t.len() > 0 && t[0] == 43 {
        t.subrange(1, t.len() as int)
    } else {
        t
    }));
    if i == end {
        return None;
    }
    let first = i;
    let mut value: u32 = 0;
    while i < end
        invariant
            first <= i <= end <= s@.len(),
            d == s@.subrange(first as int, end as int),
            t == s@.subrange(start as int, end as int),
            count_of(t) == (if d.len() > 0 && all_digits(d) && digits_value(d) <= 255 {
                Some(digits_value(d) as u8)
            } else {
                None
            }),
            all_digits(s@.subrange(first as int, i as int)),
            value as int == digits_value(s@.subrange(first as int, i as int)),
            value <= 255,
        decreases end - i,
    {
        let b = s[i];
        if !(48 <= b && b <= 57) {
            proof {
                assert(d[i - first] == b);
                assert(!is_digit(d[i - first]));
            }
            return None;
        }
        let ghost prev = s@.subrange(first as int, i as int);
        let ghost next = s@.subrange(first as int, i as int + 1);
        assert(next.drop_last() =~= prev);
        assert(all_digits(next)) by {
            assert forall|k: int| 0 <= k < next.len() implies is_digit(#[trigger] next[k]) by {
                if k < prev.len() {
                    assert(next[k] == prev[k]);
                }
            }
        }
        assert(next.last() == b);
        assert(digits_value(next) == digits_value(prev) * 10 + (b - 48));
        value = value * 10 + (b - 48) as u32;
        i = i + 1;
        if value > 255 {
            proof {
                assert(d.subrange(0, (i - first) as int) =~= next);
                if all_digits(d) {
                    lemma_digits_grow(d, (i - first) as int);
                }
            }
            return None;
        }
    }
    assert(d =~= s@.subrange(first as int, i as int));
    Some(value as u8)
}

/// Parses a command line; see `parse_line`.
pub fn parse_command(s: &[u8]) -> (r: Result<TcpCommand, ParseCommandError>)
    ensures
        r == parse_line(s@),
{
    let a = skip_space_exec(s, 0);
    let b = token_end_exec(s, a);
    let c = skip_space_exec(s, b);
    let d = token_end_exec(s, c);
    let n: u8 = if c < s.len() {
        match count_exec(s, c, d) {
            Some(v) => v,
            None => 1,
        }
    } else {
        1
    };
    let len = b - a;
    let one = len == 1;
    let two = len == 2 && s[a] == 116;
    if one && s[a] == 116 {
        Ok(TcpCommand::Test)
    } else if one && s[a] == 119 {
        Ok(TcpCommand::Wave(n))
    } else if one && s[a] == 100 {
        Ok(TcpCommand::StepForward(n))
    } else if one && s[a] == 114 {
        Ok(TcpCommand::Sit)
    } else if one && s[a] == 115 {
        Ok(TcpCommand::Stand)
    } else if one && s[a] == 99 {
        Ok(TcpCommand::Calibrate)
    } else if two && s[a + 1] == 108 {
        Ok(TcpCommand::TurnLeft(n))
    } else if two && s[a + 1] == 114 {
        Ok(TcpCommand::TurnRight(n))
    } else {
        Err(ParseCommandError)
    }
}

impl<'a> TryFrom<&'a str> for TcpCommand {
    type Error = ParseCommandError;

    fn try_from(value: &'a str) -> Result<TcpCommand, ParseCommandError> {
        parse_command(value.as_bytes())
    }
}

impl<'a> vstd::std_specs::convert::TryFromSpecImpl<&'a str> for TcpCommand {
    open spec fn obeys_try_from_spec() -> bool {
        true
    }

    open spec fn try_from_spec(v: &'a str) -> Result<TcpCommand, ParseCommandError> {
        parse_line(v.spec_bytes())
    }
}

} // verus!
