use vstd::prelude::*;

verus! {

/// A highway room: one of its room numbers is a multiple of ten.
pub fn is_highway(f_mod: u32, s_mod: u32) -> (r: bool)
    ensures
        r == (f_mod == 0 || s_mod == 0),
{
    f_mod == 0 || s_mod == 0
}

/// A highway crossing: both room numbers are multiples of ten.
pub fn is_cross_road(f_mod: u32, s_mod: u32) -> (r: bool)
    ensures
        r == (f_mod == 0 && s_mod == 0),
{
    f_mod == 0 && s_mod == 0
}

/// The centre room of a sector: both numbers end in five.
pub fn is_central(f_mod: u32, s_mod: u32) -> (r: bool)
    ensures
        r == (f_mod == 5 && s_mod == 5),
{
    f_mod == 5 && s_mod == 5
}

/// A source-keeper room that borders the sector centre on a side.
pub fn is_skr_walkway(f_rem: u32, s_rem: u32) -> (r: bool)
    ensures
        r == ((f_rem == 5 && (s_rem == 4 || s_rem == 6)) || (s_rem == 5 && (f_rem == 4 || f_rem == 6))),
{
    (f_rem == 5 && (s_rem == 4 || s_rem == 6)) || (s_rem == 5 && (f_rem == 4 || f_rem == 6))
}

/// A source-keeper room: within one of the sector centre on both axes, but
/// not the centre itself.
pub fn is_skr(f_mod: u32, s_mod: u32) -> (r: bool)
    ensures
        r == (4 <= f_mod <= 6 && 4 <= s_mod <= 6 && !(f_mod == 5 && s_mod == 5)),
{
    if is_central(f_mod, s_mod) {
        false
    } else {
        4 <= f_mod && f_mod <= 6 && 4 <= s_mod && s_mod <= 6
    }
}

} // verus!
