//! The glyph table of a text renderer: which glyph is drawn for which
//! character. Characters are held by their code points; what a glyph is made
//! of is left to the renderer.

use std::collections::HashMap;
use vstd::prelude::*;

verus! {

/// Whether the code point is that of a small letter `a` to `z`.
pub open spec fn is_small_letter(code: u32) -> bool {
    97 <= code <= 122
}

/// The code point of the capital of a small letter.
pub open spec fn capital_of(code: u32) -> u32 {
    (code - 32) as u32
}

/// The table that a font gives: each character with the glyph that the font
/// names for it last.
pub open spec fn font_table<V>(font: Seq<(u32, V)>) -> Map<u32, V>
    decreases font.len(),
{
    if font.len() == 0 {
        Map::empty()
    } else {
        font_table(font.drop_last()).insert(font.last().0, font.last().1)
    }
}

/// Whether the font has a glyph for every small letter or for its capital.
pub open spec fn covers_letters<V>(font: Seq<(u32, V)>) -> bool {
    forall|code: u32|
        #[trigger] is_small_letter(code) && !font_table(font).contains_key(code) ==> font_table(
            font,
        ).contains_key(capital_of(code))
}

/// Builds the glyph table of a font. Every character of the font gets a
/// copy of its glyph; a small letter that the font leaves out gets a copy of
/// the glyph of its capital.
pub fn create_character_vertices<V: Clone>(font: &[(u32, V)]) -> (vertices: HashMap<u32, V>)
    requires
        covers_letters(font@),
    ensures
        forall|code: u32|
            #![trigger vertices@.contains_key(code)]
            vertices@.contains_key(code) <==> font_table(font@).contains_key(code)
                || is_small_letter(code),
        forall|code: u32|
            #![trigger vertices@[code]]
            font_table(font@).contains_key(code) ==> cloned(
                font_table(font@)[code],
                vertices@[code],
            ),
        forall|code: u32|
            #![trigger vertices@[code]]
            is_small_letter(code) && !font_table(font@).contains_key(code) ==> cloned(
                vertices@[capital_of(code)],
                vertices@[code],
            ),
{
    let mut vertices: HashMap<u32, V> = HashMap::new();
    let mut i: usize = 0;
    while i < font.len()
        invariant
            i <= font.len(),
            forall|code: u32|
                #![trigger vertices@.contains_key(code)]
                vertices@.contains_key(code) <==> font_table(font@.take(i as int)).contains_key(
                    code,
                ),
            forall|code: u32|
                #![trigger vertices@[code]]
                font_table(font@.take(i as int)).contains_key(code) ==> cloned(
                    font_table(font@.take(i as int))[code],
                    vertices@[code],
                ),
        decreases font.len() - i,
    {
        let glyph = font[i].1.clone();
        vertices.insert(font[i].0, glyph);
        proof {
            assert(font@.take(i + 1).drop_last() =~= font@.take(i as int));
        }
        i += 1;
    }
    proof {
        assert(font@.take(font@.len() as int) =~= font@);
    }
    let ghost from_font = vertices@;
    let mut letter: u32 = 0;
    while letter < 26
        invariant
            letter <= 26,
            covers_letters(font@),
            forall|code: u32|
                #![trigger from_font.contains_key(code)]
                from_font.contains_key(code) <==> font_table(font@).contains_key(code),
            forall|code: u32|
                #![trigger vertices@.contains_key(code)]
                vertices@.contains_key(code) <==> from_font.contains_key(code) || (97 <= code < 97
                    + letter),
            forall|code: u32|
                #![trigger vertices@[code]]
                from_font.contains_key(code) ==> vertices@[code] == from_font[code],
            forall|code: u32|
                #![trigger vertices@[code]]
                97 <= code < 97 + letter && !from_font.contains_key(code) ==> cloned(
                    vertices@[capital_of(code)],
                    vertices@[code],
                ),
        decreases 26 - letter,
    {
        let lower: u32 = letter + 97;
        let upper: u32 = letter + 65;
        if !vertices.contains_key(&lower) {
            assert(is_small_letter(lower));
            assert(!from_font.contains_key(lower));
            assert(capital_of(lower) == upper);
            assert(from_font.contains_key(upper));
            let glyph = match vertices.get(&upper) {
                Some(glyph) => glyph.clone(),
                None => vstd::pervasive::unreached(),
            };
            vertices.insert(lower, glyph);
        }
        letter += 1;
    }
    proof {
        assert forall|code: u32| #![trigger vertices@[code]] font_table(font@).contains_key(code)
            implies cloned(font_table(font@)[code], vertices@[code]) by {
            assert(from_font.contains_key(code));
        }
    }
    vertices
}

} // verus!
