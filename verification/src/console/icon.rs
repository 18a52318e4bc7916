//! The icon of the native console's window.

use vstd::prelude::*;

verus! {

broadcast use vstd::seq_lib::group_seq_properties;

/// How many pixels the icon is wide and high.
pub const ICON_SIZE: u32 = 64;

/// The part of the icon that a pixel belongs to.
#[derive(Debug, Clone, Copy, PartialEq, Eq, Structural)]
pub enum Part {
    Border,
    Mark,
    Letter,
    Ground,
}

/// The distance from zero.
pub open spec fn distance(n: int) -> int {
    if n < 0 {
        -n
    } else {
        n
    }
}

/// The part that the pixel belongs to: a frame, four marks in its corners, and the letter A.
pub open spec fn part_at(x: int, y: int) -> Part {
    let border = !(5 <= x <= 58) || !(5 <= y <= 58);
    let crossbar = 30 <= y <= 34 && 20 <= x <= 44;
    let left_leg = 10 < x < 32 && 9 < y < 55 && distance(x - y / 2 - 5) < 3;
    let right_leg = 32 < x < 54 && 9 < y < 55 && distance(x + y / 2 - 58) < 3;
    let mark = (12 <= x <= 24 || 40 <= x <= 52) && (14 <= y <= 18 || 46 <= y <= 50);
    if border {
        Part::Border
    } else if mark {
        Part::Mark
    } else if left_leg || right_leg || crossbar {
        Part::Letter
    } else {
        Part::Ground
    }
}

/// The red, green, blue and opacity of the part.
pub open spec fn colour(p: Part) -> Seq<u8> {
    match p {
        Part::Border => seq![228u8, 228u8, 231u8, 255u8],
        Part::Mark => seq![147u8, 197u8, 253u8, 255u8],
        Part::Letter => seq![244u8, 114u8, 182u8, 255u8],
        Part::Ground => seq![0u8, 0u8, 0u8, 255u8],
    }
}

/// The pixels from the top left, row by row, up to `n`.
pub open spec fn pixels(n: int) -> Seq<u8>
    decreases n,
{
    if n <= 0 {
        Seq::empty()
    } else {
        pixels(n - 1) + colour(part_at((n - 1) % 64, (n - 1) / 64))
    }
}

fn part_of(x: u32, y: u32) -> (r: Part)
    requires
        x < 64,
        y < 64,
    ensures
        r == part_at(x as int, y as int),
{
    let border = !(5 <= x && x <= 58) || !(5 <= y && y <= 58);
    let crossbar = 30 <= y && y <= 34 && 20 <= x && x <= 44;
    let half: i32 = (y / 2) as i32;
    let left: i32 = x as i32 - half - 5;
    let right: i32 = x as i32 + half - 58;
    let left_leg = x > 10 && x < 32 && y > 9 && y < 55 && left < 3 && left > -3;
    let right_leg = x > 32 && x < 54 && y > 9 && y < 55 && right < 3 && right > -3;
    let mark = ((12 <= x && x <= 24) || (40 <= x && x <= 52)) && ((14 <= y && y <= 18) || (46 <= y
        && y <= 50));
    if border {
        Part::Border
    } else if mark {
        Part::Mark
    } else if left_leg || right_leg || crossbar {
        Part::Letter
    } else {
        Part::Ground
    }
}

fn push_colour(out: &mut Vec<u8>, p: Part)
    ensures
        final(out)@ == old(out)@ + colour(p),
{
    let ghost before = out@;
    match p {
        Part::Border => {
            out.push(228);
            out.push(228);
            out.push(231);
        },
        Part::Mark => {
            out.push(147);
            out.push(197);
            out.push(253);
        },
        Part::Letter => {
            out.push(244);
            out.push(114);
            out.push(182);
        },
        Part::Ground => {
            out.push(0);
            out.push(0);
            out.push(0);
        },
    }
    out.push(255);
    assert(out@ =~= before + colour(p));
}

/// The icon: four bytes a pixel, row by row.
pub fn athena_window_icon() -> (r: Vec<u8>)
    ensures
        r@ == pixels(4096),
{
    let mut out: Vec<u8> = Vec::new();
    let mut n: u32 = 0;
    while n < 4096
        invariant
            n <= 4096,
            out@ == pixels(n as int),
        decreases 4096 - n,
    {
        push_colour(&mut out, part_of(n % ICON_SIZE, n / ICON_SIZE));
        n = n + 1;
    }
    out
}

/// The icon has four bytes for each of its pixels.
pub proof fn the_icon_is_complete(n: int)
    requires
        0 <= n,
    ensures
        pixels(n).len() == 4 * n,
    decreases n,
{
    if n > 0 {
        the_icon_is_complete(n - 1);
    }
}

} // verus!
