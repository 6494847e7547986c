//! Message-body composition: the four call shapes that build the `<message>`
//! part of a line, with an optional tag substituted into the label and an
//! optional structured payload appended. No escaping is applied to the label,
//! the tag or the payload; malformed text yields a malformed line by design.

use vstd::prelude::*;

verus! {

/// The label with the tag substituted for its first `{}` placeholder; a
/// label without a placeholder is kept unchanged.
pub open spec fn spec_subst(label: Seq<char>, tag: Seq<char>) -> Seq<char>
    decreases label.len(),
{
    if label.len() < 2 {
        label
    } else if label[0] == '{' && label[1] == '}' {
        tag + label.subrange(2, label.len() as int)
    } else {
        seq![label[0]] + spec_subst(label.subrange(1, label.len() as int), tag)
    }
}

/// The label-only message fragment: `"msg": "<label>"`.
pub open spec fn spec_msg_label(label: Seq<char>) -> Seq<char> {
    "\"msg\": \""@ + label + "\""@
}

/// The label-plus-payload message fragment:
/// `"msg": "<label>", "data": <data>`.
pub open spec fn spec_msg_label_data(label: Seq<char>, data: Seq<char>) -> Seq<char> {
    spec_msg_label(label) + ", \"data\": "@ + data
}

/// Substitutes `tag` for the first `{}` placeholder of `label`; a label
/// without a placeholder comes back unchanged.
pub fn substitute_tag(label: &str, tag: &str) -> (r: String)
    ensures
        r@ == spec_subst(label@, tag@),
    decreases label@.len(),
{
    let n = label.unicode_len();
    if n < 2 {
        return label.to_owned();
    }
    if label.get_char(0) == '{' && label.get_char(1) == '}' {
        let mut r = tag.to_owned();
        r.append(label.substring_char(2, n));
        return r;
    }
    let head = label.substring_char(0, 1);
    let rest = label.substring_char(1, n);
    let tail = substitute_tag(rest, tag);
    let mut r = head.to_owned();
    r.append(tail.as_str());
    proof {
        assert(head@ =~= seq![label@[0]]);
    }
    r
}

/// Builds the label-only shape: `"msg": "<label>"`.
pub fn msg_label(label: &str) -> (r: String)
    ensures
        r@ == spec_msg_label(label@),
{
    let mut r = String::from_str("\"msg\": \"");
    r.append(label);
    r.append("\"");
    r
}

/// Builds the label-plus-tag shape: the tag is substituted into the label's
/// first `{}` placeholder, then wrapped as `"msg": "<text>"`.
pub fn msg_label_tag(label: &str, tag: &str) -> (r: String)
    ensures
        r@ == spec_msg_label(spec_subst(label@, tag@)),
{
    let text = substitute_tag(label, tag);
    msg_label(text.as_str())
}

/// Builds the label-plus-payload shape: `"msg": "<label>", "data": <data>`,
/// where `data` is an already-serialized JSON fragment, spliced in verbatim.
pub fn msg_label_data(label: &str, data: &str) -> (r: String)
    ensures
        r@ == spec_msg_label_data(label@, data@),
{
    let mut r = msg_label(label);
    r.append(", \"data\": ");
    r.append(data);
    r
}

/// Builds the full shape: tag substituted into the label, payload appended:
/// `"msg": "<text>", "data": <data>`.
pub fn msg_label_tag_data(label: &str, tag: &str, data: &str) -> (r: String)
    ensures
        r@ == spec_msg_label_data(spec_subst(label@, tag@), data@),
{
    let text = substitute_tag(label, tag);
    msg_label_data(text.as_str(), data)
}

} // verus!
