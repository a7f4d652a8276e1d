//! The PROPPATCH document that sets a list of custom properties.
use crate::status::DavError;
use vstd::prelude::*;
use vstd::string::StrSliceExecFns;
use vstd::string::StringExecFns;

verus! {

/// What a character becomes in XML text.
pub open spec fn escape_char(c: char) -> Seq<char> {
    if c == '<' {
        "&lt;"@
    } else if c == '>' {
        "&gt;"@
    } else if c == '&' {
        "&amp;"@
    } else if c == '\'' {
        "&apos;"@
    } else if c == '"' {
        "&quot;"@
    } else {
        seq![c]
    }
}

/// A text with each special character of XML replaced by its entity.
pub open spec fn xml_escaped(s: Seq<char>) -> Seq<char>
    decreases s.len(),
{
    if s.len() == 0 {
        Seq::empty()
    } else {
        xml_escaped(s.drop_last()) + escape_char(s.last())
    }
}

/// Relies on quick_xml's `escape::escape`, which replaces each of `<`, `>`,
/// `&`, `'` and `"` by its entity and keeps every other character.
#[verifier::external_body]
fn escape_text(s: &str) -> (r: String)
    ensures
        r@ == xml_escaped(s@),
{
    quick_xml::escape::escape(s).into_owned()
}

/// A character that may start a property name.
pub open spec fn is_name_start(c: char) -> bool {
    ('a' <= c <= 'z') || ('A' <= c <= 'Z') || c == '_'
}

/// A character that may stand in a property name after the first.
pub open spec fn is_name_char(c: char) -> bool {
    is_name_start(c) || ('0' <= c <= '9') || c == '-' || c == '.'
}

/// A name that can be written as an element name without escaping.
pub open spec fn is_prop_name(s: Seq<char>) -> bool {
    &&& s.len() > 0
    &&& is_name_start(s[0])
    &&& forall|i: int| 0 <= i < s.len() ==> is_name_char(#[trigger] s[i])
}

/// Whether `s` can be written as a property's element name.
pub fn valid_prop_name(s: &str) -> (r: bool)
    ensures
        r == is_prop_name(s@),
{
    let n = s.unicode_len();
    if n == 0 {
        return false;
    }
    if !is_name_start_exec(s.get_char(0)) {
        return false;
    }
    let mut i: usize = 0;
    while i < n
        invariant
            0 <= i <= n,
            n == s@.len(),
            forall|j: int| 0 <= j < i ==> is_name_char(#[trigger] s@[j]),
        decreases n - i,
    {
        if !is_name_char_exec(s.get_char(i)) {
            return false;
        }
        i = i + 1;
    }
    true
}

fn is_name_start_exec(c: char) -> (r: bool)
    ensures
        r == is_name_start(c),
{
    ('a' <= c && c <= 'z') || ('A' <= c && c <= 'Z') || c == '_'
}

fn is_name_char_exec(c: char) -> (r: bool)
    ensures
        r == is_name_char(c),
{
    is_name_start_exec(c) || ('0' <= c && c <= '9') || c == '-' || c == '.'
}

/// The element that sets property `name` to `value`.
pub open spec fn prop_element(name: Seq<char>, value: Seq<char>) -> Seq<char> {
    "<o:"@ + name + ">"@ + xml_escaped(value) + "</o:"@ + name + ">"@
}

/// The elements of all `updates`, in order.
pub open spec fn prop_elements(updates: Seq<(String, String)>) -> Seq<char>
    decreases updates.len(),
{
    if updates.len() == 0 {
        Seq::empty()
    } else {
        prop_elements(updates.drop_last()) + prop_element(
            updates.last().0@,
            updates.last().1@,
        )
    }
}

/// The text before the properties.
pub open spec fn update_head() -> Seq<char> {
    "<?xml version=\"1.0\"?><d:propertyupdate xmlns:d=\"DAV:\" xmlns:o=\"urn:schemas-microsoft-com:office:office\"><d:set><d:prop>"@
}

/// The text after the properties.
pub open spec fn update_tail() -> Seq<char> {
    "</d:prop></d:set></d:propertyupdate>"@
}

/// The whole document that sets `updates`.
pub open spec fn update_doc(updates: Seq<(String, String)>) -> Seq<char> {
    update_head() + prop_elements(updates) + update_tail()
}

/// Every property name of `updates` can be written.
pub open spec fn all_names_valid(updates: Seq<(String, String)>) -> bool {
    forall|i: int| 0 <= i < updates.len() ==> is_prop_name(#[trigger] updates[i].0@)
}

/// The document that sets each property of `updates` to its value, in order.
/// Fails with `Encode` naming a property whose name cannot be an element name.
pub fn property_update(updates: &Vec<(String, String)>) -> (r: Result<String, DavError>)
    ensures
        r is Ok <==> all_names_valid(updates@),
        r matches Ok(doc) ==> doc@ == update_doc(updates@),
        r is Err ==> r->Err_0 is Encode && exists|i: int|
            0 <= i < updates@.len() && !is_prop_name(updates@[i].0@) && r->Err_0->Encode_0@
                == (#[trigger] updates@[i]).0@,
{
    let n = updates.len();
    let mut i: usize = 0;
    while i < n
        invariant
            0 <= i <= n,
            n == updates@.len(),
            forall|j: int| 0 <= j < i ==> is_prop_name(#[trigger] updates@[j].0@),
        decreases n - i,
    {
        if !valid_prop_name(updates[i].0.as_str()) {
            let bad = updates[i].0.clone();
            assert(!is_prop_name(updates@[i as int].0@));
            return Err(DavError::Encode(bad));
        }
        i = i + 1;
    }
    let mut doc = String::from_str(
        "<?xml version=\"1.0\"?><d:propertyupdate xmlns:d=\"DAV:\" xmlns:o=\"urn:schemas-microsoft-com:office:office\"><d:set><d:prop>",
    );
    let mut i: usize = 0;
    while i < n
        invariant
            0 <= i <= n,
            n == updates@.len(),
            doc@ == update_head() + prop_elements(updates@.take(i as int)),
        decreases n - i,
    {
        let name = updates[i].0.as_str();
        doc.append("<o:");
        doc.append(name);
        doc.append(">");
        let value = escape_text(updates[i].1.as_str());
        doc.append(value.as_str());
        doc.append("</o:");
        doc.append(name);
        doc.append(">");
        assert(updates@.take(i + 1).drop_last() =~= updates@.take(i as int));
        assert(doc@ =~= update_head() + prop_elements(updates@.take(i + 1)));
        i = i + 1;
    }
    doc.append("</d:prop></d:set></d:propertyupdate>");
    assert(updates@.take(n as int) =~= updates@);
    Ok(doc)
}

} // verus!
