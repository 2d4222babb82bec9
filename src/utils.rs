use vstd::prelude::*;
use vstd::string::*;

use crate::text::{append_hex_byte, hex_byte};

verus! {

/// The (r, g, b) value that the html color table gives for a name, if it has it.
pub uninterp spec fn html_color(name: Seq<char>) -> Option<(u8, u8, u8)>;

/// Relies on color_maps::html::HTML_MAP: a fixed table from html color names to
/// their (r, g, b) values, so a lookup depends on the name alone.
#[verifier::external_body]
fn html_lookup(name: &str) -> (r: Option<(u8, u8, u8)>)
    ensures
        r == html_color(name@),
{
    color_maps::html::HTML_MAP.get(name).copied()
}

/// The color text for `name`, where `found` is what the html table holds for it:
/// a name that starts with `#` is kept, a name with an entry becomes `#rrggbb` in
/// lower-case hex, and any other name is kept.
pub open spec fn adapted(name: Seq<char>, found: Option<(u8, u8, u8)>) -> Seq<char> {
    if name.len() > 0 && name[0] == '#' {
        name
    } else {
        match found {
            Some((r, g, b)) => seq!['#'] + hex_byte(r) + hex_byte(g) + hex_byte(b),
            None => name,
        }
    }
}

/// The name starts with `#`.
fn is_hex_form(name: &str) -> (r: bool)
    ensures
        r == (name@.len() > 0 && name@[0] == '#'),
{
    name.unicode_len() > 0 && name.get_char(0) == '#'
}

/// The color text for `html_name`, given what the html table holds for it.
pub fn adapt_color(html_name: &str, found: Option<(u8, u8, u8)>) -> (r: String)
    ensures
        r@ == adapted(html_name@, found),
{
    if is_hex_form(html_name) {
        return html_name.to_owned();
    }
    match found {
        Some((red, green, blue)) => {
            proof {
                reveal_strlit("#");
            }
            let mut s = String::from_str("#");
            append_hex_byte(&mut s, red);
            append_hex_byte(&mut s, green);
            append_hex_byte(&mut s, blue);
            s
        },
        None => html_name.to_owned(),
    }
}

/// Turns an html color name into `#rrggbb` form; names already in that form, and
/// names the html table lacks, are kept.
pub fn color_map_adaptor(html_name: &str) -> (r: String)
    ensures
        r@ == adapted(html_name@, html_color(html_name@)),
{
    if is_hex_form(html_name) {
        return html_name.to_owned();
    }
    let found = html_lookup(html_name);
    adapt_color(html_name, found)
}

} // verus!
