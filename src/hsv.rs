//! The discrete part of the HSV to RGB conversion.
//!
//! The hue circle is cut into six sectors of 60 degrees. In each sector the
//! red, green and blue channels take, in some order, the chroma `C`, the
//! intermediate value `X` and zero; the lightness offset is added afterwards.
use vstd::prelude::*;

use egui::Color32;

verus! {

#[verifier::external_type_specification]
#[verifier::external_body]
pub struct ExColor32(Color32);

/// The red, green, blue and alpha bytes of a colour, in that order.
pub uninterp spec fn color_bytes(c: Color32) -> Seq<u8>;

/// Relies on `Color32::from_rgb`: the colour holds the three bytes given and
/// is fully opaque.
pub assume_specification[ Color32::from_rgb ](r: u8, g: u8, b: u8) -> (c: Color32)
    ensures
        color_bytes(c) == seq![r, g, b, 255u8],
;

/// Degrees of hue covered by one sector.
pub const SECTOR_DEGREES: u32 = 60;

/// Number of sectors on the hue circle.
pub const SECTOR_COUNT: u8 = 6;

/// Which of the three conversion terms a colour channel takes.
#[derive(Clone, Copy, Debug, PartialEq, Eq, Structural)]
pub enum Term {
    /// The chroma `C = v * s`.
    Chroma,
    /// The intermediate `X = C * (1 - |(h / 60) mod 2 - 1|)`.
    Intermediate,
    /// Zero.
    Zero,
}

/// The sector of a hue whose whole degrees are `degrees`.
pub open spec fn spec_sector(degrees: nat) -> nat {
    degrees / (SECTOR_DEGREES as nat)
}

/// The terms taken by red, green and blue in a sector.
pub open spec fn spec_channels(sector: nat) -> (Term, Term, Term) {
    if sector == 0 {
        (Term::Chroma, Term::Intermediate, Term::Zero)
    } else if sector == 1 {
        (Term::Intermediate, Term::Chroma, Term::Zero)
    } else if sector == 2 {
        (Term::Zero, Term::Chroma, Term::Intermediate)
    } else if sector == 3 {
        (Term::Zero, Term::Intermediate, Term::Chroma)
    } else if sector == 4 {
        (Term::Intermediate, Term::Zero, Term::Chroma)
    } else {
        (Term::Chroma, Term::Zero, Term::Intermediate)
    }
}

/// The three channels take three different terms.
pub open spec fn is_arrangement(t: (Term, Term, Term)) -> bool {
    t.0 != t.1 && t.1 != t.2 && t.0 != t.2
}

/// From `a` to `b` one channel keeps its term and the other two exchange
/// theirs, the intermediate term being one of the two exchanged.
pub open spec fn swaps_intermediate(a: (Term, Term, Term), b: (Term, Term, Term)) -> bool {
    ||| (a.0 == b.0 && a.1 == b.2 && a.2 == b.1 && (a.1 == Term::Intermediate || a.2
        == Term::Intermediate))
    ||| (a.1 == b.1 && a.0 == b.2 && a.2 == b.0 && (a.0 == Term::Intermediate || a.2
        == Term::Intermediate))
    ||| (a.2 == b.2 && a.0 == b.1 && a.1 == b.0 && (a.0 == Term::Intermediate || a.1
        == Term::Intermediate))
}

/// The conversion is continuous around the hue circle: passing from a sector
/// into the next one, the last wrapping to the first, one channel keeps its
/// term and the intermediate term exchanges places with another. At the
/// boundary the intermediate equals the term it exchanges with (the chroma
/// when the sector number is even, zero when it is odd), so no channel jumps.
pub proof fn lemma_neighbour_sectors(sector: nat)
    requires
        sector < SECTOR_COUNT,
    ensures
        swaps_intermediate(spec_channels(sector), spec_channels((sector + 1) % 6)),
{
}

/// The sector of a hue in `[0, 360)` degrees, given its whole degrees. Since
/// the sector bounds are whole degrees, the hue and its whole part lie in the
/// same sector.
pub fn hue_sector(degrees: u32) -> (r: u8)
    requires
        degrees < 360,
    ensures
        r == spec_sector(degrees as nat),
        r < SECTOR_COUNT,
        SECTOR_DEGREES * r <= degrees < SECTOR_DEGREES * (r + 1),
{
    let r = degrees / SECTOR_DEGREES;
    assert(SECTOR_DEGREES * r <= degrees < SECTOR_DEGREES * (r + 1)) by (nonlinear_arith)
        requires
            r == degrees / SECTOR_DEGREES,
            SECTOR_DEGREES == 60,
    ;
    r as u8
}

/// The terms taken by red, green and blue in `sector`.
pub fn sector_channels(sector: u8) -> (r: (Term, Term, Term))
    requires
        sector < SECTOR_COUNT,
    ensures
        r == spec_channels(sector as nat),
        is_arrangement(r),
{
    match sector {
        0 => (Term::Chroma, Term::Intermediate, Term::Zero),
        1 => (Term::Intermediate, Term::Chroma, Term::Zero),
        2 => (Term::Zero, Term::Chroma, Term::Intermediate),
        3 => (Term::Zero, Term::Intermediate, Term::Chroma),
        4 => (Term::Intermediate, Term::Zero, Term::Chroma),
        _ => (Term::Chroma, Term::Zero, Term::Intermediate),
    }
}

/// The byte of the term `t`, given the byte of each term.
pub open spec fn spec_term_byte(t: Term, chroma: u8, intermediate: u8, zero: u8) -> u8 {
    match t {
        Term::Chroma => chroma,
        Term::Intermediate => intermediate,
        Term::Zero => zero,
    }
}

/// The byte of the term `t`, given the byte of each term.
pub fn term_byte(t: Term, chroma: u8, intermediate: u8, zero: u8) -> (r: u8)
    ensures
        r == spec_term_byte(t, chroma, intermediate, zero),
{
    match t {
        Term::Chroma => chroma,
        Term::Intermediate => intermediate,
        Term::Zero => zero,
    }
}

/// The opaque colour of a hue in `sector`, given the byte to which each term
/// comes once the lightness offset is added and the sum scaled to 255: each
/// of red, green and blue takes the byte of the term that the sector gives it.
pub fn sector_color(sector: u8, chroma: u8, intermediate: u8, zero: u8) -> (r: Color32)
    requires
        sector < SECTOR_COUNT,
    ensures
        color_bytes(r) == seq![
            spec_term_byte(spec_channels(sector as nat).0, chroma, intermediate, zero),
            spec_term_byte(spec_channels(sector as nat).1, chroma, intermediate, zero),
            spec_term_byte(spec_channels(sector as nat).2, chroma, intermediate, zero),
            255u8,
        ],
{
    let (r, g, b) = sector_channels(sector);
    Color32::from_rgb(
        term_byte(r, chroma, intermediate, zero),
        term_byte(g, chroma, intermediate, zero),
        term_byte(b, chroma, intermediate, zero),
    )
}

} // verus!
