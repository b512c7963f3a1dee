//! Reading a token out of a page: the first element whose attribute matches a
//! selector, and the value of another attribute of that element.
use crate::error::RouterError;
use soup::{NodeExt, QueryBuilderExt, Soup};
use vstd::prelude::*;

verus! {

/// What soup finds in `html` for the selector `selector_attr = selector_value`:
/// `None` when no element matches, `Some(None)` when the first match lacks
/// `target_attr`, else that attribute's value.
pub uninterp spec fn soup_lookup(
    html: Seq<char>,
    selector_attr: Seq<char>,
    selector_value: Seq<char>,
    target_attr: Seq<char>,
) -> Option<Option<Seq<char>>>;

/// Relies on soup 0.5: `Soup::new` parses the page, `attr(..).find()` returns the
/// first element whose attribute matches, `attrs()` lists that element's attributes.
/// The answer depends on the four strings alone.
#[verifier::external_body]
fn query_attribute(
    html: &str,
    selector_attr: &str,
    selector_value: &str,
    target_attr: &str,
) -> (r: Option<Option<String>>)
    ensures
        lookup_view(r) == soup_lookup(html@, selector_attr@, selector_value@, target_attr@),
{
    let page = Soup::new(html);
    match page.attr(selector_attr, selector_value).find() {
        Some(node) => Some(node.attrs().get(target_attr).cloned()),
        None => None,
    }
}

/// The lookup's answer over views.
pub open spec fn lookup_view(found: Option<Option<String>>) -> Option<Option<Seq<char>>> {
    match found {
        None => None,
        Some(None) => Some(None),
        Some(Some(v)) => Some(Some(v@)),
    }
}

/// A result over views.
pub open spec fn text_result_view(r: Result<String, RouterError>) -> Result<Seq<char>, RouterError> {
    match r {
        Ok(v) => Ok(v@),
        Err(e) => Err(e),
    }
}

/// The token that a lookup's answer gives, or why there is none.
pub open spec fn token_of(found: Option<Option<Seq<char>>>) -> Result<Seq<char>, RouterError> {
    match found {
        None => Err(RouterError::MissingElement),
        Some(None) => Err(RouterError::MissingAttribute),
        Some(Some(v)) => Ok(v),
    }
}

/// The value of `target_attr` on the first element of `html` whose
/// `selector_attr` is `selector_value`, or why there is none.
pub open spec fn attribute_value(
    html: Seq<char>,
    selector_attr: Seq<char>,
    selector_value: Seq<char>,
    target_attr: Seq<char>,
) -> Result<Seq<char>, RouterError> {
    token_of(soup_lookup(html, selector_attr, selector_value, target_attr))
}

/// Turns a lookup's answer into the token, `MissingElement` when no element
/// matched, or `MissingAttribute` when the element lacks the attribute.
pub fn token_from_lookup(found: Option<Option<String>>) -> (r: Result<String, RouterError>)
    ensures
        text_result_view(r) == token_of(lookup_view(found)),
{
    match found {
        None => Err(RouterError::MissingElement),
        Some(None) => Err(RouterError::MissingAttribute),
        Some(Some(v)) => Ok(v),
    }
}

/// Finds the first element of `html` whose `selector_attr` equals
/// `selector_value` and returns its `target_attr`.
pub fn find_attribute_value(
    html: &str,
    selector_attr: &str,
    selector_value: &str,
    target_attr: &str,
) -> (r: Result<String, RouterError>)
    ensures
        text_result_view(r) == attribute_value(
            html@,
            selector_attr@,
            selector_value@,
            target_attr@,
        ),
{
    let found = query_attribute(html, selector_attr, selector_value, target_attr);
    token_from_lookup(found)
}

} // verus!
