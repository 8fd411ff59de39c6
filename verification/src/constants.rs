//! Appearance of the elements: colour and sphere size by label.

use vstd::prelude::*;

verus! {

/// The elements that have an appearance of their own; every other label is
/// shown as `Other`.
#[derive(Clone, Copy, Debug, PartialEq, Eq, Structural)]
pub enum Element {
    Hydrogen,
    Carbon,
    Nitrogen,
    Oxygen,
    Sulfur,
    Phosphorus,
    Chlorine,
    Bromine,
    Iodine,
    Iron,
    Zinc,
    Other,
}

/// A colour, each channel in hundredths of full intensity (0 to 100).
#[derive(Clone, Copy, Debug, PartialEq, Eq, Structural)]
pub struct Rgb {
    pub red: u8,
    pub green: u8,
    pub blue: u8,
}

/// The upper-case form of a label, as `str::to_uppercase` gives it.
pub uninterp spec fn uppercase_of(label: Seq<char>) -> Seq<char>;

/// Calls `str::to_uppercase`, which maps each character by the Unicode
/// upper-case rules and depends on nothing but the text. The contract says no
/// more than that: the result is the upper-case form of the argument.
#[verifier::external_body]
fn to_uppercase(label: &str) -> (upper: String)
    ensures
        upper@ == uppercase_of(label@),
{
    label.to_uppercase()
}

/// The element that an upper-case label names.
pub open spec fn element_of_uppercased(upper: Seq<char>) -> Element {
    if upper =~= seq!['H'] {
        Element::Hydrogen
    } else if upper =~= seq!['C'] {
        Element::Carbon
    } else if upper =~= seq!['N'] {
        Element::Nitrogen
    } else if upper =~= seq!['O'] {
        Element::Oxygen
    } else if upper =~= seq!['S'] {
        Element::Sulfur
    } else if upper =~= seq!['P'] {
        Element::Phosphorus
    } else if upper =~= seq!['C', 'L'] {
        Element::Chlorine
    } else if upper =~= seq!['B', 'R'] {
        Element::Bromine
    } else if upper =~= seq!['I'] {
        Element::Iodine
    } else if upper =~= seq!['F', 'E'] {
        Element::Iron
    } else if upper =~= seq!['Z', 'N'] {
        Element::Zinc
    } else {
        Element::Other
    }
}

/// The element that a label names, whatever its case.
pub open spec fn element_of(label: Seq<char>) -> Element {
    element_of_uppercased(uppercase_of(label))
}

/// The colour of an element.
pub open spec fn color_of(element: Element) -> Rgb {
    match element {
        Element::Hydrogen => Rgb { red: 100, green: 100, blue: 100 },
        Element::Carbon => Rgb { red: 0, green: 0, blue: 0 },
        Element::Nitrogen => Rgb { red: 0, green: 0, blue: 100 },
        Element::Oxygen => Rgb { red: 100, green: 0, blue: 0 },
        Element::Sulfur => Rgb { red: 100, green: 100, blue: 0 },
        Element::Phosphorus => Rgb { red: 100, green: 65, blue: 0 },
        Element::Chlorine => Rgb { red: 0, green: 100, blue: 0 },
        Element::Bromine => Rgb { red: 65, green: 16, blue: 16 },
        Element::Iodine => Rgb { red: 58, green: 0, blue: 58 },
        Element::Iron => Rgb { red: 100, green: 65, blue: 0 },
        Element::Zinc => Rgb { red: 49, green: 50, blue: 69 },
        Element::Other => Rgb { red: 50, green: 50, blue: 50 },
    }
}

/// The sphere radius of an element, in hundredths of a length unit.
pub open spec fn size_of(element: Element) -> u32 {
    match element {
        Element::Hydrogen => 30,
        Element::Carbon => 40,
        Element::Nitrogen => 35,
        Element::Oxygen => 32,
        Element::Sulfur => 45,
        Element::Phosphorus => 42,
        Element::Chlorine => 40,
        Element::Bromine => 45,
        Element::Iodine => 50,
        Element::Iron => 40,
        Element::Zinc => 35,
        Element::Other => 35,
    }
}

/// Tells which element an upper-case label names.
pub fn classify_uppercased(upper: &Vec<char>) -> (element: Element)
    ensures
        element == element_of_uppercased(upper@),
{
    if upper.len() == 1 {
        let c = upper[0];
        if c == 'H' {
            Element::Hydrogen
        } else if c == 'C' {
            Element::Carbon
        } else if c == 'N' {
            Element::Nitrogen
        } else if c == 'O' {
            Element::Oxygen
        } else if c == 'S' {
            Element::Sulfur
        } else if c == 'P' {
            Element::Phosphorus
        } else if c == 'I' {
            Element::Iodine
        } else {
            Element::Other
        }
    } else if upper.len() == 2 {
        let c = upper[0];
        let d = upper[1];
        if c == 'C' && d == 'L' {
            Element::Chlorine
        } else if c == 'B' && d == 'R' {
            Element::Bromine
        } else if c == 'F' && d == 'E' {
            Element::Iron
        } else if c == 'Z' && d == 'N' {
            Element::Zinc
        } else {
            Element::Other
        }
    } else {
        Element::Other
    }
}

/// Tells which element a label names, whatever its case.
pub fn classify(label: &str) -> (element: Element)
    ensures
        element == element_of(label@),
{
    let upper = to_uppercase(label);
    let chars = crate::text::chars_of(upper.as_str());
    classify_uppercased(&chars)
}

/// The colour in which an element is drawn.
pub fn color(element: Element) -> (rgb: Rgb)
    ensures
        rgb == color_of(element),
{
    match element {
        Element::Hydrogen => Rgb { red: 100, green: 100, blue: 100 },
        Element::Carbon => Rgb { red: 0, green: 0, blue: 0 },
        Element::Nitrogen => Rgb { red: 0, green: 0, blue: 100 },
        Element::Oxygen => Rgb { red: 100, green: 0, blue: 0 },
        Element::Sulfur => Rgb { red: 100, green: 100, blue: 0 },
        Element::Phosphorus => Rgb { red: 100, green: 65, blue: 0 },
        Element::Chlorine => Rgb { red: 0, green: 100, blue: 0 },
        Element::Bromine => Rgb { red: 65, green: 16, blue: 16 },
        Element::Iodine => Rgb { red: 58, green: 0, blue: 58 },
        Element::Iron => Rgb { red: 100, green: 65, blue: 0 },
        Element::Zinc => Rgb { red: 49, green: 50, blue: 69 },
        Element::Other => Rgb { red: 50, green: 50, blue: 50 },
    }
}

/// The sphere radius with which an element is drawn.
pub fn size(element: Element) -> (radius: u32)
    ensures
        radius == size_of(element),
{
    match element {
        Element::Hydrogen => 30,
        Element::Carbon => 40,
        Element::Nitrogen => 35,
        Element::Oxygen => 32,
        Element::Sulfur => 45,
        Element::Phosphorus => 42,
        Element::Chlorine => 40,
        Element::Bromine => 45,
        Element::Iodine => 50,
        Element::Iron => 40,
        Element::Zinc => 35,
        Element::Other => 35,
    }
}

/// The colour for a label; one that names no known element is grey.
pub fn get_element_color(element: &str) -> (rgb: Rgb)
    ensures
        rgb == color_of(element_of(element@)),
{
    color(classify(element))
}

/// The sphere radius for a label; one that names no known element gets the
/// default radius.
pub fn get_element_size(element: &str) -> (radius: u32)
    ensures
        radius == size_of(element_of(element@)),
{
    size(classify(element))
}

} // verus!
