//! Joining a path to the router's origin.
use crate::error::RouterError;
use vstd::prelude::*;

verus! {

/// The absolute URL that the url crate makes of `path` against `origin`, or
/// `None` where either cannot be parsed.
pub uninterp spec fn joined_url(origin: Seq<char>, path: Seq<char>) -> Option<Seq<char>>;

#[verifier::external_type_specification]
#[verifier::external_body]
pub struct ExParseError(url::ParseError);

/// Relies on url 2: `Url::parse` reads the origin and `Url::join` resolves `path`
/// against it; the result depends on the two strings alone.
#[verifier::external_body]
fn join_url(origin: &str, path: &str) -> (r: Result<String, url::ParseError>)
    ensures
        match r {
            Ok(u) => joined_url(origin@, path@) == Some(u@),
            Err(_) => joined_url(origin@, path@) is None,
        },
{
    let base = url::Url::parse(origin)?;
    Ok(String::from(base.join(path)?))
}

/// A joined URL over views.
pub open spec fn resolved_view(r: Result<String, RouterError>) -> Result<Seq<char>, RouterError> {
    match r {
        Ok(u) => Ok(u@),
        Err(e) => Err(e),
    }
}

/// What resolving `path` against `origin` gives: the joined URL, or `InvalidUrl`.
pub open spec fn resolution(origin: Seq<char>, path: Seq<char>) -> Result<Seq<char>, RouterError> {
    match joined_url(origin, path) {
        Some(u) => Ok(u),
        None => Err(RouterError::InvalidUrl),
    }
}

/// Joins `path` to `origin`; `InvalidUrl` where the url crate refuses either.
pub fn resolve(origin: &str, path: &str) -> (r: Result<String, RouterError>)
    ensures
        resolved_view(r) == resolution(origin@, path@),
{
    match join_url(origin, path) {
        Ok(u) => Ok(u),
        Err(_) => Err(RouterError::InvalidUrl),
    }
}

} // verus!
