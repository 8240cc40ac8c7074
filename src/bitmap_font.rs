use std::collections::HashMap;
use vstd::prelude::*;
use crate::xml_tree::{
    XmlElement, XmlTree, attribute_of, elements_named, first_element_named, parse_xml, parsed_xml,
    string_view, xml_parse_is_safe, xml_parse_safe,
};

verus! {

broadcast use vstd::std_specs::hash::group_hash_axioms;

/// A bitmap font, as generated by a tool like BMFont: the size of its atlas
/// texture and, for each character code, the rectangle of the atlas that holds
/// the character's bitmap, with its placement metrics.
pub struct BitmapFont {
    pub scale_w: u8,
    pub scale_h: u8,
    /// Glyph metrics, keyed by character code.
    pub characters: HashMap<u32, BitmapCharacter>,
}

/// The metrics of one glyph: its rectangle in the atlas, its offset from the
/// cursor, and how far it moves the cursor.
#[derive(Debug, Clone, Copy, PartialEq, Eq, Structural)]
pub struct BitmapCharacter {
    pub x: u8,
    pub y: u8,
    pub width: u8,
    pub height: u8,
    pub xoffset: u8,
    pub yoffset: u8,
    pub xadvance: u8,
}

/// The glyph that stands in for a character missing from a font: all zero.
pub open spec fn zero_character() -> BitmapCharacter {
    BitmapCharacter { x: 0, y: 0, width: 0, height: 0, xoffset: 0, yoffset: 0, xadvance: 0 }
}

impl Default for BitmapCharacter {
    fn default() -> (r: BitmapCharacter)
        ensures
            r == zero_character(),
    {
        BitmapCharacter { x: 0, y: 0, width: 0, height: 0, xoffset: 0, yoffset: 0, xadvance: 0 }
    }
}

pub open spec fn is_decimal_digit(c: char) -> bool {
    '0' <= c && c <= '9'
}

/// The value of a string of decimal digits.
pub open spec fn digits_value(s: Seq<char>) -> nat
    decreases s.len(),
{
    if s.len() == 0 {
        0
    } else {
        digits_value(s.drop_last()) * 10 + ((s.last() as int - '0' as int) as nat)
    }
}

/// The part of `s` after an optional leading `+`.
pub open spec fn unsigned_digits(s: Seq<char>) -> Seq<char> {
    if s.len() > 0 && s[0] == '+' {
        s.drop_first()
    } else {
        s
    }
}

/// What reading `s` as a `u8` gives: an optional `+`, then one or more decimal
/// digits whose value is at most 255.
pub open spec fn parsed_u8(s: Seq<char>) -> Option<u8> {
    let d = unsigned_digits(s);
    if d.len() > 0 && (forall|i: int| 0 <= i < d.len() ==> is_decimal_digit(#[trigger] d[i]))
        && digits_value(d) <= 255 {
        Some(digits_value(d) as u8)
    } else {
        None
    }
}

/// The numeric value of an attribute: 0 where it is missing or is no `u8`.
pub open spec fn attribute_u8(value: Option<Seq<char>>) -> u8 {
    match value {
        Some(s) => match parsed_u8(s) {
            Some(v) => v,
            None => 0,
        },
        None => 0,
    }
}

/// Reads `s` as a decimal `u8`, with an optional leading `+`.
pub fn parse_u8(s: &str) -> (r: Option<u8>)
    ensures
        r == parsed_u8(s@),
{
    let n = s.unicode_len();
    let mut start: usize = 0;
    if n > 0 && s.get_char(0) == '+' {
        start = 1;
    }
    let ghost d = unsigned_digits(s@);
    assert(d == s@.subrange(start as int, n as int));
    if start >= n {
        return None;
    }
    // `value` is the value read so far, held at 256 once it passes 255.
    let mut value: u32 = 0;
    let mut i: usize = start;
    while i < n
        invariant
            start <= i <= n,
            n == s@.len(),
            d == s@.subrange(start as int, n as int),
            d == unsigned_digits(s@),
            forall|j: int| start <= j < i ==> is_decimal_digit(#[trigger] s@[j]),
            value == if digits_value(s@.subrange(start as int, i as int)) > 255 {
                256
            } else {
                digits_value(s@.subrange(start as int, i as int))
            },
        decreases n - i,
    {
        let c = s.get_char(i);
        let code = c as u32;
        if code < '0' as u32 || code > '9' as u32 {
            assert(d[(i - start) as int] == s@[i as int]);
            assert(!is_decimal_digit(d[(i - start) as int]));
            return None;
        }
        let digit = code - ('0' as u32);
        let ghost pre = s@.subrange(start as int, i as int);
        let ghost next = s@.subrange(start as int, i + 1);
        assert(next.drop_last() == pre);
        assert(digits_value(next) == digits_value(pre) * 10 + digit);
        if value > 255 || value * 10 + digit > 255 {
            value = 256;
        } else {
            value = value * 10 + digit;
        }
        i = i + 1;
    }
    assert(s@.subrange(start as int, n as int) == d);
    if value > 255 {
        None
    } else {
        Some(value as u8)
    }
}

/// Reads an attribute value as a `u8`, 0 where it is missing or malformed.
pub fn attribute_value(value: &Option<String>) -> (r: u8)
    ensures
        r == attribute_u8(string_view(*value)),
{
    match value {
        Some(s) => match parse_u8(s.as_str()) {
            Some(v) => v,
            None => 0,
        },
        None => 0,
    }
}

/// The glyph metrics that a `char` element describes.
pub open spec fn character_of(t: XmlTree) -> BitmapCharacter {
    BitmapCharacter {
        x: attribute_u8(attribute_of(t, "x"@)),
        y: attribute_u8(attribute_of(t, "y"@)),
        width: attribute_u8(attribute_of(t, "width"@)),
        height: attribute_u8(attribute_of(t, "height"@)),
        xoffset: attribute_u8(attribute_of(t, "xoffset"@)),
        yoffset: attribute_u8(attribute_of(t, "yoffset"@)),
        xadvance: attribute_u8(attribute_of(t, "xadvance"@)),
    }
}

/// The glyph table that a list of `char` elements describes: each element in
/// turn maps its `id` to its metrics, a later element replacing an earlier one
/// with the same `id`.
pub open spec fn character_table(chars: Seq<XmlTree>) -> Map<u32, BitmapCharacter>
    decreases chars.len(),
{
    if chars.len() == 0 {
        Map::empty()
    } else {
        character_table(chars.drop_last()).insert(
            attribute_u8(attribute_of(chars.last(), "id"@)) as u32,
            character_of(chars.last()),
        )
    }
}

/// The `<chars>` element of a font description's root, if any.
pub open spec fn chars_element(root: XmlTree) -> Option<XmlTree> {
    first_element_named(root.children, "chars"@)
}

/// The `<common>` element of a font description's root, if any.
pub open spec fn common_element(root: XmlTree) -> Option<XmlTree> {
    first_element_named(root.children, "common"@)
}

/// What loading a font from the document whose root is `root` gives: an error
/// where `<chars>` is missing, else where `<common>` is missing, else the font
/// that `<common>` and the `<char>` children of `<chars>` describe.
pub open spec fn loads_font(root: XmlTree, r: Result<BitmapFont, &'static str>) -> bool {
    if chars_element(root) is None {
        r == Err::<BitmapFont, &'static str>("Missing <chars> element")
    } else if common_element(root) is None {
        r == Err::<BitmapFont, &'static str>("Missing <common> element")
    } else {
        r is Ok && r->Ok_0.describes(
            common_element(root).unwrap(),
            elements_named(chars_element(root).unwrap().children, "char"@),
        )
    }
}

impl BitmapFont {
    /// The font that a `<common>` element and a list of `<char>` elements
    /// describe.
    pub open spec fn describes(&self, common: XmlTree, chars: Seq<XmlTree>) -> bool {
        &&& self.scale_w == attribute_u8(attribute_of(common, "scaleW"@))
        &&& self.scale_h == attribute_u8(attribute_of(common, "scaleH"@))
        &&& self.characters@ == character_table(chars)
    }

    /// The glyph drawn for the character with code `code`: its metrics where
    /// the font has them, all zero otherwise.
    pub open spec fn glyph(&self, code: u32) -> BitmapCharacter {
        if self.characters@.contains_key(code) {
            self.characters@[code]
        } else {
            zero_character()
        }
    }

    /// Builds a font from a font description in XML: a `<common>` element
    /// with the atlas size in `scaleW` and `scaleH`, and a `<chars>` element
    /// whose `<char>` children give each glyph's `id`, `x`, `y`, `width`,
    /// `height`, `xoffset`, `yoffset` and `xadvance`. A document that the
    /// parser may not be given (see `xml_parse_safe`) counts as unparsable.
    pub fn from_string(xml_string: &str) -> (r: Result<BitmapFont, &'static str>)
        ensures
            !xml_parse_safe(xml_string@) || parsed_xml(xml_string@) is None ==> r == Err::<
                BitmapFont,
                &'static str,
            >("Error while parsing font document."),
            xml_parse_safe(xml_string@) && parsed_xml(xml_string@) is Some ==> loads_font(
                parsed_xml(xml_string@).unwrap(),
                r,
            ),
    {
        if !xml_parse_is_safe(xml_string) {
            return Err("Error while parsing font document.");
        }
        match parse_xml(xml_string) {
            Some(root) => BitmapFont::from_xml_document(&root),
            None => Err("Error while parsing font document."),
        }
    }

    /// Builds a font from the root element of a font description.
    pub fn from_xml_document(root: &XmlElement) -> (r: Result<BitmapFont, &'static str>)
        ensures
            loads_font(root.tree(), r),
    {
        let chars_element = match root.child("chars") {
            Some(e) => e,
            None => return Err("Missing <chars> element"),
        };
        let common_element = match root.child("common") {
            Some(e) => e,
            None => return Err("Missing <common> element"),
        };
        let elements = chars_element.children_named("char");
        let ghost chars = elements_named(chars_element.tree().children, "char"@);
        let mut characters: HashMap<u32, BitmapCharacter> = HashMap::new();
        let mut i: usize = 0;
        while i < elements.len()
            invariant
                i <= elements@.len(),
                elements@.len() == chars.len(),
                forall|k: int| 0 <= k < elements@.len() ==> #[trigger] elements@[k].tree() == chars[k],
                characters@ == character_table(chars.subrange(0, i as int)),
            decreases elements@.len() - i,
        {
            let e = elements[i];
            let character = BitmapCharacter {
                x: attribute_value(&e.attribute("x")),
                y: attribute_value(&e.attribute("y")),
                width: attribute_value(&e.attribute("width")),
                height: attribute_value(&e.attribute("height")),
                xoffset: attribute_value(&e.attribute("xoffset")),
                yoffset: attribute_value(&e.attribute("yoffset")),
                xadvance: attribute_value(&e.attribute("xadvance")),
            };
            let id = attribute_value(&e.attribute("id"));
            characters.insert(id as u32, character);
            assert(chars.subrange(0, i + 1).drop_last() == chars.subrange(0, i as int));
            assert(elements@[i as int].tree() == chars[i as int]);
            i = i + 1;
        }
        assert(chars.subrange(0, chars.len() as int) == chars);
        Ok(
            BitmapFont {
                scale_w: attribute_value(&common_element.attribute("scaleW")),
                scale_h: attribute_value(&common_element.attribute("scaleH")),
                characters,
            },
        )
    }

    /// The metrics drawn for `c`: the font's glyph for its code, or the
    /// all-zero placeholder where the font has none.
    pub fn character(&self, c: char) -> (r: BitmapCharacter)
        ensures
            r == self.glyph(c as u32),
    {
        match self.characters.get(&(c as u32)) {
            Some(bc) => *bc,
            None => BitmapCharacter::default(),
        }
    }
}

} // verus!
