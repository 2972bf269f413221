use vstd::prelude::*;

use crate::geometry::RoomName;

verus! {

/// The pattern of a room name, capturing its two numbers.
pub const ROOM_NUMBER_RE: &'static str = "^[WE]([0-9]+)[NS]([0-9]+)$";

/// The decimal digits of `n`, most significant first.
pub open spec fn decimal(n: nat) -> Seq<char>
    decreases n,
{
    if n < 10 {
        seq![(48 + n) as char]
    } else {
        decimal(n / 10).push((48 + n % 10) as char)
    }
}

pub open spec fn is_digit(c: char) -> bool {
    '0' <= c && c <= '9'
}

pub open spec fn all_digits(s: Seq<char>) -> bool {
    forall|i: int| 0 <= i < s.len() ==> is_digit(#[trigger] s[i])
}

/// The number a string of decimal digits stands for.
pub open spec fn decimal_value(s: Seq<char>) -> nat
    decreases s.len(),
{
    if s.len() == 0 {
        0
    } else {
        decimal_value(s.drop_last()) * 10 + ((s.last() as int - 48) as nat)
    }
}

/// A room's name as the game writes it: `E<x>` or `W<-x-1>`, then `S<y>`
/// or `N<-y-1>`.
pub open spec fn spec_room_text(x: int, y: int) -> Seq<char> {
    (if x >= 0 { seq!['E'] + decimal(x as nat) } else { seq!['W'] + decimal((-x - 1) as nat) }) + (if y >= 0 {
        seq!['S'] + decimal(y as nat)
    } else {
        seq!['N'] + decimal((-y - 1) as nat)
    })
}

/// The game's packed form of a room's coordinates: `x + 128` in the high
/// byte, `y + 128` in the low one.
pub open spec fn spec_packed(r: RoomName) -> int {
    (r.x_coord + 128) * 256 + (r.y_coord + 128)
}

pub fn packed(r: RoomName) -> (p: u16)
    requires
        r.valid(),
    ensures
        p == spec_packed(r),
{
    let hi: u16 = (r.x_coord + 128) as u16;
    let lo: u16 = (r.y_coord + 128) as u16;
    hi * 256 + lo
}

/// The name of the room with packed coordinates `packed`, as
/// `screeps::RoomName` displays it (the format the game expects).
#[verifier::external_body]
fn room_text(packed: u16) -> (s: String)
    ensures
        s@ == spec_room_text(packed / 256 - 128, packed % 256 - 128),
{
    screeps::RoomName::from_packed(packed).to_string()
}

/// `t` splits at `i` into `W` or `E`, digits, `N` or `S`, digits.
pub open spec fn room_split(t: Seq<char>, i: int) -> bool {
    &&& 2 <= i && i + 1 < t.len()
    &&& (t[0] == 'W' || t[0] == 'E')
    &&& (t[i] == 'N' || t[i] == 'S')
    &&& all_digits(t.subrange(1, i))
    &&& all_digits(t.subrange(i + 1, t.len() as int))
}

/// What `ROOM_NUMBER_RE` captures in `t`: the two runs of digits of a
/// whole room name.
pub open spec fn spec_room_parts(t: Seq<char>) -> Option<(Seq<char>, Seq<char>)> {
    if exists|i: int| room_split(t, i) {
        let i = choose|i: int| room_split(t, i);
        Some((t.subrange(1, i), t.subrange(i + 1, t.len() as int)))
    } else {
        None
    }
}

/// A compiled room name pattern and the text it was compiled from. Only
/// `get_room_regex` makes one.
pub struct RoomPattern {
    re: regex::Regex,
    pattern: &'static str,
}

impl View for RoomPattern {
    type V = Seq<char>;

    /// The text of the pattern.
    closed spec fn view(&self) -> Seq<char> {
        self.pattern@
    }
}

#[verifier::external_type_specification]
#[verifier::external_body]
pub struct ExRegex(regex::Regex);

/// Compiles `pattern` with `regex::Regex::new`; the pattern must be
/// `ROOM_NUMBER_RE`, a valid pattern, so the compilation cannot fail.
#[verifier::external_body]
fn compile_room_pattern(pattern: &'static str) -> regex::Regex
    requires
        pattern@ == ROOM_NUMBER_RE@,
{
    regex::Regex::new(pattern).expect("expect regex is valid")
}

/// The room name pattern: `ROOM_NUMBER_RE`, compiled.
pub fn get_room_regex() -> (p: RoomPattern)
    ensures
        p@ == ROOM_NUMBER_RE@,
{
    RoomPattern { re: compile_room_pattern(ROOM_NUMBER_RE), pattern: ROOM_NUMBER_RE }
}

/// The two groups `regex::Regex::captures` finds in `text` (as `Captures`
/// indexing gives them), or none when the text does not match; for the
/// room name pattern these are the two numbers of a whole room name.
#[verifier::external_body]
fn room_captures(p: &RoomPattern, text: &str) -> (r: Option<(String, String)>)
    ensures
        p@ == ROOM_NUMBER_RE@ ==> match r {
            Some((a, b)) => spec_room_parts(text@) == Some((a@, b@)),
            None => spec_room_parts(text@) is None,
        },
{
    p.re.captures(text).map(|c| (c[1].to_string(), c[2].to_string()))
}

/// `u32::from_str`: a non-empty string of decimal digits parses to its
/// value when that fits in a `u32`, and fails otherwise. Of other strings
/// nothing is said here.
#[verifier::external_body]
fn parse_u32(s: &str) -> (r: Option<u32>)
    ensures
        s@.len() > 0 && all_digits(s@) ==> r == (if decimal_value(s@) <= u32::MAX {
            Some(decimal_value(s@) as u32)
        } else {
            None
        }),
{
    <u32 as std::str::FromStr>::from_str(s).ok()
}

/// The two numbers of a room name.
pub open spec fn spec_room_numbers(r: RoomName) -> Option<(u32, u32)> {
    match spec_room_parts(spec_room_text(r.x_coord as int, r.y_coord as int)) {
        Some((a, b)) => if decimal_value(a) <= u32::MAX && decimal_value(b) <= u32::MAX {
            Some((decimal_value(a) as u32, decimal_value(b) as u32))
        } else {
            None
        },
        None => None,
    }
}

/// The numbers written in a room's name (`E12N3` gives 12 and 3), read
/// with the room name pattern.
pub fn capture_room_numbers(p: &RoomPattern, r: RoomName) -> (n: Option<(u32, u32)>)
    requires
        r.valid(),
    ensures
        p@ == ROOM_NUMBER_RE@ ==> n == spec_room_numbers(r),
{
    let text = room_text(packed(r));
    proof {
        assert(spec_packed(r) / 256 - 128 == r.x_coord) by (nonlinear_arith)
            requires
                -128 <= r.x_coord < 128,
                -128 <= r.y_coord < 128;
        assert(spec_packed(r) % 256 - 128 == r.y_coord) by (nonlinear_arith)
            requires
                -128 <= r.x_coord < 128,
                -128 <= r.y_coord < 128;
    }
    match room_captures(p, text.as_str()) {
        Some((a, b)) => {
            proof {
                lemma_parts_are_digits(text@);
            }
            let first = match parse_u32(a.as_str()) {
                Some(v) => v,
                None => return None,
            };
            let second = match parse_u32(b.as_str()) {
                Some(v) => v,
                None => return None,
            };
            Some((first, second))
        },
        None => None,
    }
}

/// The last digits of the two numbers of a room name: where the room lies
/// in its sector.
pub open spec fn spec_room_parts_mod(r: RoomName) -> Option<(u32, u32)> {
    match spec_room_numbers(r) {
        Some((a, b)) => Some((a % 10, b % 10)),
        None => None,
    }
}

pub fn capture_room_parts(p: &RoomPattern, r: RoomName) -> (n: Option<(u32, u32)>)
    requires
        r.valid(),
    ensures
        p@ == ROOM_NUMBER_RE@ ==> n == spec_room_parts_mod(r),
{
    match capture_room_numbers(p, r) {
        Some((a, b)) => Some((a % 10, b % 10)),
        None => None,
    }
}

/// Captured parts are non-empty digit strings.
proof fn lemma_parts_are_digits(t: Seq<char>)
    ensures
        spec_room_parts(t) matches Some((a, b)) ==> a.len() > 0 && all_digits(a) && b.len() > 0 && all_digits(b),
{
    if exists|i: int| room_split(t, i) {
        let i = choose|i: int| room_split(t, i);
        assert(room_split(t, i));
    }
}

/// Every character of a number's decimal form is a digit, and reading the
/// digits back gives the number.
pub proof fn lemma_decimal(n: nat)
    ensures
        decimal(n).len() > 0,
        all_digits(decimal(n)),
        decimal_value(decimal(n)) == n,
    decreases n,
{
    if n >= 10 {
        lemma_decimal(n / 10);
        let d = decimal(n / 10);
        assert(decimal(n).drop_last() =~= d);
        let c = (48 + n % 10) as char;
        assert(c as int == 48 + n % 10);
        assert(decimal(n).last() == c);
        assert((n / 10) * 10 + n % 10 == n) by (nonlinear_arith);
        assert(decimal_value(decimal(n)) == decimal_value(d) * 10 + ((c as int - 48) as nat));
        assert(decimal_value(d) == n / 10);
        assert forall|i: int| 0 <= i < decimal(n).len() implies is_digit(#[trigger] decimal(n)[i]) by {
            if i < d.len() {
                assert(decimal(n)[i] == d[i]);
            }
        }
    } else {
        assert(decimal(n).drop_last() =~= Seq::<char>::empty());
        let c = (48 + n) as char;
        assert(c as int == 48 + n);
        assert(decimal(n) =~= seq![c]);
        assert(decimal_value(decimal(n)) == decimal_value(Seq::<char>::empty()) * 10 + ((c as int - 48) as nat));
    }
}

/// The rendering of one coordinate: its letter and its number.
pub open spec fn coord_text(v: int, pos: char, neg: char) -> Seq<char> {
    if v >= 0 { seq![pos] + decimal(v as nat) } else { seq![neg] + decimal((-v - 1) as nat) }
}

pub open spec fn coord_number(v: int) -> nat {
    if v >= 0 { v as nat } else { (-v - 1) as nat }
}

/// A room's name splits right after its first number, and only there.
proof fn lemma_room_split(x: int, y: int)
    ensures
        ({
            let t = spec_room_text(x, y);
            let i: int = 1 + decimal(coord_number(x)).len() as int;
            &&& room_split(t, i)
            &&& forall|j: int| room_split(t, j) ==> j == i
            &&& t.subrange(1, i) == decimal(coord_number(x))
            &&& t.subrange(i + 1, t.len() as int) == decimal(coord_number(y))
        }),
{
    let t = spec_room_text(x, y);
    let dx = decimal(coord_number(x));
    let dy = decimal(coord_number(y));
    lemma_decimal(coord_number(x));
    lemma_decimal(coord_number(y));
    let a = coord_text(x, 'E', 'W');
    let b = coord_text(y, 'S', 'N');
    assert(t =~= a + b);
    let i: int = 1 + dx.len() as int;
    assert(a =~= seq![a[0]] + dx);
    assert(b =~= seq![b[0]] + dy);
    assert(t.subrange(1, i) =~= dx);
    assert(t.subrange(i + 1, t.len() as int) =~= dy);
    assert(t[i] == b[0]);
    assert forall|j: int| room_split(t, j) implies j == i by {
        if j < i {
            assert(t.subrange(1, i)[j - 1] == t[j]);
            assert(is_digit(dx[j - 1]));
        } else if j > i {
            assert(t.subrange(i + 1, t.len() as int)[j - i - 1] == t[j]);
            assert(is_digit(dy[j - i - 1]));
        }
    }
}

/// The numbers read from a room's name are the ones written into it: the
/// east or south coordinate itself, or for west and north one less than
/// its negation.
pub proof fn lemma_room_numbers(r: RoomName)
    requires
        r.valid(),
    ensures
        spec_room_numbers(r) == Some((coord_number(r.x_coord as int) as u32, coord_number(r.y_coord as int) as u32)),
{
    let x = r.x_coord as int;
    let y = r.y_coord as int;
    lemma_room_split(x, y);
    lemma_decimal(coord_number(x));
    lemma_decimal(coord_number(y));
    let t = spec_room_text(x, y);
    let i: int = 1 + decimal(coord_number(x)).len() as int;
    assert(room_split(t, i));
    let k = choose|j: int| room_split(t, j);
    assert(k == i);
}

} // verus!
