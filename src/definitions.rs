//! The toolkit's font definitions: which font data is registered under which
//! key, and which fonts, in order of priority, each generic family draws with.
use vstd::prelude::*;

use egui::{FontData, FontDefinitions, FontFamily};

use crate::font::Family;

verus! {

#[verifier::external_type_specification]
#[verifier::external_body]
pub struct ExFontDefinitions(FontDefinitions);

/// The font data registered in `d`: the bytes of each font, by key.
pub uninterp spec fn font_bytes(d: FontDefinitions) -> Map<Seq<char>, Seq<u8>>;

/// The fonts of the proportional family in `d`, highest priority first, if
/// the family is listed.
pub uninterp spec fn proportional_fonts(d: FontDefinitions) -> Option<Seq<Seq<char>>>;

/// The fonts of the monospace family in `d`, highest priority first, if the
/// family is listed.
pub uninterp spec fn monospace_fonts(d: FontDefinitions) -> Option<Seq<Seq<char>>>;

/// The keys of the font data registered in `d`.
pub open spec fn registered_fonts(d: FontDefinitions) -> Set<Seq<char>> {
    font_bytes(d).dom()
}

/// The fonts of a generic family in `d`, if the family is listed.
pub open spec fn family_fonts(d: FontDefinitions, family: Family) -> Option<Seq<Seq<char>>> {
    match family {
        Family::Proportional => proportional_fonts(d),
        Family::Monospace => monospace_fonts(d),
    }
}

/// The fonts that the toolkit ships and registers by default.
pub open spec fn default_font_keys() -> Set<Seq<char>> {
    set!["Hack"@, "Ubuntu-Light"@, "NotoEmoji-Regular"@, "emoji-icon-font"@]
}

/// The toolkit's default fonts of a generic family, highest priority first:
/// a monospace font leads the monospace family, a light sans-serif font the
/// proportional one, and two emoji fonts close both.
pub open spec fn default_family_fonts(family: Family) -> Seq<Seq<char>> {
    match family {
        Family::Monospace => seq!["Hack"@, "Ubuntu-Light"@, "NotoEmoji-Regular"@, "emoji-icon-font"@],
        Family::Proportional => seq!["Ubuntu-Light"@, "NotoEmoji-Regular"@, "emoji-icon-font"@],
    }
}

/// A family's list names only registered fonts, each once.
pub open spec fn list_consistent(keys: Set<Seq<char>>, fonts: Seq<Seq<char>>) -> bool {
    &&& fonts.no_duplicates()
    &&& forall|i: int| 0 <= i < fonts.len() ==> keys.contains(#[trigger] fonts[i])
}

/// Both generic families are listed, and each names only registered fonts,
/// each once.
pub open spec fn definitions_consistent(d: FontDefinitions) -> bool {
    &&& proportional_fonts(d) is Some
    &&& monospace_fonts(d) is Some
    &&& list_consistent(registered_fonts(d), proportional_fonts(d).unwrap())
    &&& list_consistent(registered_fonts(d), monospace_fonts(d).unwrap())
}

/// Relies on `FontDefinitions::default` with the toolkit's default fonts,
/// which egui's default features turn on: it registers four fonts and lists
/// them in the two generic families.
#[verifier::external_body]
pub(crate) fn default_definitions() -> (r: FontDefinitions)
    ensures
        registered_fonts(r) == default_font_keys(),
        proportional_fonts(r) == Some(default_family_fonts(Family::Proportional)),
        monospace_fonts(r) == Some(default_family_fonts(Family::Monospace)),
{
    FontDefinitions::default()
}

/// Relies on `BTreeMap::insert` into `FontDefinitions::font_data`, of the
/// value that `FontData::from_static` makes of `data`: `data` becomes the
/// font registered under `name`, and the families stay as they were.
#[verifier::external_body]
pub(crate) fn register_font(d: &mut FontDefinitions, name: &str, data: &'static [u8])
    ensures
        font_bytes(*final(d)) == font_bytes(*old(d)).insert(name@, data@),
        proportional_fonts(*final(d)) == proportional_fonts(*old(d)),
        monospace_fonts(*final(d)) == monospace_fonts(*old(d)),
{
    d.font_data.insert(name.to_owned(), FontData::from_static(data));
}

/// Relies on `BTreeMap::get_mut` on `FontDefinitions::families`, which finds
/// a listed family, and on `Vec::insert` at index zero: `name` comes first in
/// `family`, and nothing else changes.
#[verifier::external_body]
pub(crate) fn put_first(d: &mut FontDefinitions, family: Family, name: &str)
    requires
        family_fonts(*old(d), family) is Some,
    ensures
        family_fonts(*final(d), family) == Some(
            seq![name@] + family_fonts(*old(d), family).unwrap(),
        ),
        forall|f: Family| f != family ==> family_fonts(*final(d), f) == family_fonts(*old(d), f),
        font_bytes(*final(d)) == font_bytes(*old(d)),
{
    let key = match family {
        Family::Proportional => FontFamily::Proportional,
        Family::Monospace => FontFamily::Monospace,
    };
    d.families.get_mut(&key).unwrap().insert(0, name.to_owned());
}

} // verus!
