//! The fonts bundled with the themes, and how each one is installed.
use vstd::prelude::*;

use egui::FontDefinitions;

use crate::definitions::{
    default_definitions, default_family_fonts, default_font_keys, definitions_consistent,
    family_fonts, font_bytes, list_consistent, put_first, register_font, registered_fonts,
};

verus! {

/// A generic font family of the toolkit.
#[derive(Clone, Copy, Debug, PartialEq, Eq, Structural)]
pub enum Family {
    Proportional,
    Monospace,
}

/// The named text styles that a theme sizes.
#[derive(Clone, Copy, Debug, PartialEq, Eq, Structural)]
pub enum TextKind {
    Small,
    Body,
    Monospace,
    Button,
    Heading,
}

/// Number of text styles that a font sizes.
pub const TEXT_KIND_COUNT: usize = 5;

/// The text styles in the order in which they are listed.
pub open spec fn kind_at(i: int) -> TextKind {
    if i == 0 {
        TextKind::Small
    } else if i == 1 {
        TextKind::Body
    } else if i == 2 {
        TextKind::Monospace
    } else if i == 3 {
        TextKind::Button
    } else {
        TextKind::Heading
    }
}

/// The family in which a text style is drawn: monospace text in the monospace
/// family, everything else in the proportional one.
pub open spec fn spec_family_of(kind: TextKind) -> Family {
    match kind {
        TextKind::Monospace => Family::Monospace,
        _ => Family::Proportional,
    }
}

/// The family in which a text style is drawn.
pub fn family_of(kind: TextKind) -> (r: Family)
    ensures
        r == spec_family_of(kind),
{
    match kind {
        TextKind::Monospace => Family::Monospace,
        _ => Family::Proportional,
    }
}

/// A font shipped with the themes.
#[derive(Clone, Copy, Debug, PartialEq, Eq, Structural)]
pub enum Font {
    OpenSans,
    ProggyClean,
}

impl Font {
    /// The key under which the font's data is registered.
    pub open spec fn spec_name(self) -> Seq<char> {
        match self {
            Font::OpenSans => "OpenSans"@,
            Font::ProggyClean => "ProggyClean"@,
        }
    }

    /// The key under which the font's data is registered.
    pub fn name(&self) -> (r: &'static str)
        ensures
            r@ == self.spec_name(),
    {
        match self {
            Font::OpenSans => "OpenSans",
            Font::ProggyClean => "ProggyClean",
        }
    }

    /// Whether the font is put first in a family: the bitmap font serves both
    /// families, the proportional font only the proportional one.
    pub open spec fn spec_leads(self, family: Family) -> bool {
        match self {
            Font::OpenSans => family == Family::Proportional,
            Font::ProggyClean => true,
        }
    }

    /// Whether the font takes the highest priority in `family`.
    pub fn leads(&self, family: Family) -> (r: bool)
        ensures
            r == self.spec_leads(family),
    {
        match self {
            Font::OpenSans => family == Family::Proportional,
            Font::ProggyClean => true,
        }
    }

    /// `after` is `before` with this font installed from `data`: the data is
    /// registered under the font's name, the font comes first in each family
    /// that it leads, and the other family keeps its fonts.
    pub open spec fn installed(
        self,
        before: FontDefinitions,
        data: Seq<u8>,
        after: FontDefinitions,
    ) -> bool {
        &&& font_bytes(after) == font_bytes(before).insert(self.spec_name(), data)
        &&& forall|f: Family|
            #[trigger] family_fonts(after, f) == if self.spec_leads(f) {
                Some(seq![self.spec_name()] + family_fonts(before, f).unwrap())
            } else {
                family_fonts(before, f)
            }
    }

    /// Registers `data` as this font's data in `defs` and puts the font first in
    /// each family that it leads; the other family keeps its fonts.
    pub fn install(&self, defs: &mut FontDefinitions, data: &'static [u8])
        requires
            forall|f: Family| self.spec_leads(f) ==> (#[trigger] family_fonts(*old(defs), f)) is Some,
        ensures
            self.installed(*old(defs), data@, *final(defs)),
    {
        let name = self.name();
        register_font(defs, name, data);
        if self.leads(Family::Proportional) {
            assert(family_fonts(*old(defs), Family::Proportional) is Some);
            put_first(defs, Family::Proportional, name);
        }
        if self.leads(Family::Monospace) {
            assert(family_fonts(*old(defs), Family::Monospace) is Some);
            put_first(defs, Family::Monospace, name);
        }
        assert forall|f: Family|
            #[trigger] family_fonts(*defs, f) == if self.spec_leads(f) {
                Some(seq![self.spec_name()] + family_fonts(*old(defs), f).unwrap())
            } else {
                family_fonts(*old(defs), f)
            } by {
            match f {
                Family::Proportional => {},
                Family::Monospace => {},
            }
        }
    }

    /// The toolkit's default font definitions with this font installed over
    /// them: `data` is registered under the font's name beside the default
    /// fonts, and each family that the font leads lists it before its default
    /// fonts, the other family keeping only its defaults. The result is
    /// consistent, so the font occurs once in each family that it leads.
    pub fn font_definitions(&self, data: &'static [u8]) -> (r: FontDefinitions)
        ensures
            registered_fonts(r) == default_font_keys().insert(self.spec_name()),
            font_bytes(r)[self.spec_name()] == data@,
            forall|f: Family|
                #[trigger] family_fonts(r, f) == Some(
                    if self.spec_leads(f) {
                        seq![self.spec_name()] + default_family_fonts(f)
                    } else {
                        default_family_fonts(f)
                    },
                ),
            definitions_consistent(r),
    {
        let mut defs = default_definitions();
        proof {
            lemma_defaults_consistent(defs);
            lemma_name_not_default(*self);
        }
        let ghost before = defs;
        self.install(&mut defs, data);
        proof {
            lemma_install_consistent(*self, before, data@, defs);
        }
        assert forall|f: Family|
            #[trigger] family_fonts(defs, f) == Some(
                if self.spec_leads(f) {
                    seq![self.spec_name()] + default_family_fonts(f)
                } else {
                    default_family_fonts(f)
                },
            ) by {
            match f {
                Family::Proportional => {},
                Family::Monospace => {},
            }
        }
        defs
    }

    /// Size in points of a text style when this font is installed. The bitmap
    /// font is drawn at its native 16 points, headings at twice that.
    pub open spec fn spec_size(self, kind: TextKind) -> nat {
        match self {
            Font::ProggyClean => match kind {
                TextKind::Heading => 32,
                _ => 16,
            },
            Font::OpenSans => match kind {
                TextKind::Small => 10,
                TextKind::Heading => 16,
                _ => 12,
            },
        }
    }

    /// Size in points of a text style when this font is installed.
    pub fn text_size(&self, kind: TextKind) -> (r: u32)
        ensures
            r == self.spec_size(kind),
    {
        match self {
            Font::ProggyClean => match kind {
                TextKind::Heading => 32,
                _ => 16,
            },
            Font::OpenSans => match kind {
                TextKind::Small => 10,
                TextKind::Heading => 16,
                _ => 12,
            },
        }
    }

    /// The text styles of this font, in the order small, body, monospace,
    /// button, heading: each with its size in points and its family.
    pub fn text_styles(&self) -> (r: Vec<(TextKind, u32, Family)>)
        ensures
            r@.len() == TEXT_KIND_COUNT,
            forall|i: int|
                0 <= i < TEXT_KIND_COUNT ==> #[trigger] r@[i] == (
                    kind_at(i),
                    self.spec_size(kind_at(i)) as u32,
                    spec_family_of(kind_at(i)),
                ),
    {
        let kinds = [
            TextKind::Small,
            TextKind::Body,
            TextKind::Monospace,
            TextKind::Button,
            TextKind::Heading,
        ];
        let mut r: Vec<(TextKind, u32, Family)> = Vec::new();
        let mut i: usize = 0;
        while i < TEXT_KIND_COUNT
            invariant
                i <= TEXT_KIND_COUNT,
                kinds@.len() == TEXT_KIND_COUNT,
                forall|j: int| 0 <= j < TEXT_KIND_COUNT ==> #[trigger] kinds@[j] == kind_at(j),
                r@.len() == i,
                forall|j: int|
                    0 <= j < i ==> #[trigger] r@[j] == (
                        kind_at(j),
                        self.spec_size(kind_at(j)) as u32,
                        spec_family_of(kind_at(j)),
                    ),
            decreases TEXT_KIND_COUNT - i,
        {
            let kind = kinds[i];
            r.push((kind, self.text_size(kind), family_of(kind)));
            i = i + 1;
        }
        r
    }
}

/// Prepending a font that is not registered yet to a consistent list, and
/// registering it, leaves a consistent list; so does registering it alone.
proof fn lemma_prepend_consistent(keys: Set<Seq<char>>, fonts: Seq<Seq<char>>, name: Seq<char>)
    requires
        list_consistent(keys, fonts),
        !keys.contains(name),
    ensures
        list_consistent(keys.insert(name), fonts),
        list_consistent(keys.insert(name), seq![name] + fonts),
{
    let l = seq![name] + fonts;
    assert forall|i: int| 0 <= i < l.len() implies keys.insert(name).contains(#[trigger] l[i]) by {
        if i > 0 {
            assert(l[i] == fonts[i - 1]);
        }
    }
    assert forall|i: int, j: int| 0 <= i < l.len() && 0 <= j < l.len() && i != j implies l[i]
        != l[j] by {
        if i > 0 {
            assert(l[i] == fonts[i - 1]);
        }
        if j > 0 {
            assert(l[j] == fonts[j - 1]);
        }
    }
}

/// Installing a font that is not yet registered keeps font definitions
/// consistent: every listed font stays registered, and the new font, first in
/// each family that it leads, occurs there once.
pub proof fn lemma_install_consistent(
    font: Font,
    before: FontDefinitions,
    data: Seq<u8>,
    after: FontDefinitions,
)
    requires
        definitions_consistent(before),
        !registered_fonts(before).contains(font.spec_name()),
        font.installed(before, data, after),
    ensures
        definitions_consistent(after),
{
    let name = font.spec_name();
    assert(registered_fonts(after) == registered_fonts(before).insert(name));
    let p = family_fonts(before, Family::Proportional).unwrap();
    let m = family_fonts(before, Family::Monospace).unwrap();
    lemma_prepend_consistent(registered_fonts(before), p, name);
    lemma_prepend_consistent(registered_fonts(before), m, name);
    assert(family_fonts(after, Family::Proportional) == if font.spec_leads(Family::Proportional) {
        Some(seq![name] + p)
    } else {
        Some(p)
    });
    assert(family_fonts(after, Family::Monospace) == if font.spec_leads(Family::Monospace) {
        Some(seq![name] + m)
    } else {
        Some(m)
    });
}

/// The toolkit's default font definitions are consistent.
proof fn lemma_defaults_consistent(d: FontDefinitions)
    requires
        registered_fonts(d) == default_font_keys(),
        family_fonts(d, Family::Proportional) == Some(default_family_fonts(Family::Proportional)),
        family_fonts(d, Family::Monospace) == Some(default_family_fonts(Family::Monospace)),
    ensures
        definitions_consistent(d),
{
    reveal_strlit("Hack");
    reveal_strlit("Ubuntu-Light");
    reveal_strlit("NotoEmoji-Regular");
    reveal_strlit("emoji-icon-font");
    let p = default_family_fonts(Family::Proportional);
    let m = default_family_fonts(Family::Monospace);
    assert("Hack"@.len() != "Ubuntu-Light"@.len());
    assert("Hack"@.len() != "NotoEmoji-Regular"@.len());
    assert("Hack"@.len() != "emoji-icon-font"@.len());
    assert("Ubuntu-Light"@.len() != "NotoEmoji-Regular"@.len());
    assert("Ubuntu-Light"@.len() != "emoji-icon-font"@.len());
    assert("NotoEmoji-Regular"@.len() != "emoji-icon-font"@.len());
    assert(p.no_duplicates());
    assert(m.no_duplicates());
}

/// Neither bundled font shares its name with a default font.
proof fn lemma_name_not_default(font: Font)
    ensures
        !default_font_keys().contains(font.spec_name()),
{
    reveal_strlit("Hack");
    reveal_strlit("Ubuntu-Light");
    reveal_strlit("NotoEmoji-Regular");
    reveal_strlit("emoji-icon-font");
    reveal_strlit("OpenSans");
    reveal_strlit("ProggyClean");
    assert("OpenSans"@[0] != "Hack"@[0]);
    assert("OpenSans"@[0] != "Ubuntu-Light"@[0]);
    assert("OpenSans"@.len() != "NotoEmoji-Regular"@.len());
    assert("OpenSans"@.len() != "emoji-icon-font"@.len());
    assert("ProggyClean"@[0] != "Hack"@[0]);
    assert("ProggyClean"@[0] != "Ubuntu-Light"@[0]);
    assert("ProggyClean"@.len() != "NotoEmoji-Regular"@.len());
    assert("ProggyClean"@.len() != "emoji-icon-font"@.len());
}

} // verus!
