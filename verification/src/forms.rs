//! The two fixed form formats the bot accepts: a registration form
//! (`Name: <text>, Age: <text>`, exactly one comma) and a manual-review
//! form (`Manual: <text>`, non-empty remainder).

use crate::text::{
    count_char, first_index_of, has_prefix, split_at_single_comma, starts_with_str, strip_prefix,
    strip_prefix_spec, trim, trim_spec,
};
use vstd::prelude::*;

verus! {

/// The registration form's first field label.
pub open spec fn name_label() -> Seq<char> {
    seq!['N', 'a', 'm', 'e', ':']
}

/// The registration form's second field label.
pub open spec fn age_label() -> Seq<char> {
    seq!['A', 'g', 'e', ':']
}

/// The manual-review form's label.
pub open spec fn manual_label() -> Seq<char> {
    seq!['M', 'a', 'n', 'u', 'a', 'l', ':']
}

/// A field's value: the segment trimmed, its label (when present at the
/// front) removed once, and the remainder trimmed again. The label is not
/// required, so a segment with the wrong label keeps that label as text.
pub open spec fn field_value(seg: Seq<char>, label: Seq<char>) -> Seq<char> {
    trim_spec(strip_prefix_spec(trim_spec(seg), label))
}

/// The registration form's fields, when the text splits on exactly one
/// comma: the part before the comma yields the name, the part after it the
/// age. Any other number of commas refuses the form.
pub open spec fn parse_registration_spec(s: Seq<char>) -> Option<(Seq<char>, Seq<char>)> {
    if count_char(s, ',') == 1 {
        let cut = first_index_of(s, ',');
        Some(
            (
                field_value(s.subrange(0, cut), name_label()),
                field_value(s.subrange(cut + 1, s.len() as int), age_label()),
            ),
        )
    } else {
        None
    }
}

/// The manual-review form's content: the text must start with the literal
/// label, and the trimmed remainder must be non-empty.
pub open spec fn parse_manual_spec(s: Seq<char>) -> Option<Seq<char>> {
    if has_prefix(s, manual_label()) {
        let rest = trim_spec(s.skip(manual_label().len() as int));
        if rest.len() > 0 {
            Some(rest)
        } else {
            None
        }
    } else {
        None
    }
}

/// Extracts one field from a form segment; see [`field_value`].
fn extract_field(seg: &str, label: &str) -> (r: String)
    ensures
        r@ == field_value(seg@, label@),
{
    let trimmed = trim(seg);
    let stripped = strip_prefix(trimmed.as_str(), label);
    trim(stripped)
}

/// Parses a registration form (`Name: <text>, Age: <text>`).
pub fn parse_registration(content: &str) -> (r: Option<(String, String)>)
    ensures
        match r {
            Some(p) => parse_registration_spec(content@) == Some((p.0@, p.1@)),
            None => parse_registration_spec(content@) is None,
        },
{
    match split_at_single_comma(content) {
        None => None,
        Some((seg_name, seg_age)) => {
            proof {
                reveal_strlit("Name:");
                reveal_strlit("Age:");
                assert("Name:"@ =~= name_label());
                assert("Age:"@ =~= age_label());
            }
            let name = extract_field(seg_name.as_str(), "Name:");
            let age = extract_field(seg_age.as_str(), "Age:");
            Some((name, age))
        },
    }
}

/// Parses a manual-review form (`Manual: <text>`).
pub fn parse_manual_review(content: &str) -> (r: Option<String>)
    ensures
        match r {
            Some(data) => parse_manual_spec(content@) == Some(data@),
            None => parse_manual_spec(content@) is None,
        },
{
    proof {
        reveal_strlit("Manual:");
        assert("Manual:"@ =~= manual_label());
    }
    if !starts_with_str(content, "Manual:") {
        return None;
    }
    let rest = strip_prefix(content, "Manual:");
    let data = trim(rest);
    if data.as_str().unicode_len() == 0 {
        proof {
            assert(data@ =~= Seq::<char>::empty());
        }
        None
    } else {
        Some(data)
    }
}

} // verus!
