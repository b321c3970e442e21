use vstd::prelude::*;

verus! {

/// The serialization of the URL that `text` parses to, or none.
pub uninterp spec fn parsed_url(text: Seq<char>) -> Option<Seq<char>>;

/// The URL `u` with user name `name`, or none when it cannot have one.
pub uninterp spec fn url_with_username(u: Seq<char>, name: Seq<char>) -> Option<Seq<char>>;

/// The URL `u` with password `password` (none removes it), or none when it
/// cannot have one.
pub uninterp spec fn url_with_password(u: Seq<char>, password: Option<Seq<char>>) -> Option<Seq<char>>;

/// The URL `u` with port `port` (none removes it), or none when it cannot
/// have one.
pub uninterp spec fn url_with_port(u: Seq<char>, port: Option<u16>) -> Option<Seq<char>>;

/// The URL `u` with path `path`.
pub uninterp spec fn url_with_path(u: Seq<char>, path: Seq<char>) -> Option<Seq<char>>;

/// The URL `u` with query `query` (none removes it).
pub uninterp spec fn url_with_query(u: Seq<char>, query: Option<Seq<char>>) -> Option<Seq<char>>;

/// The text of an optional string.
pub open spec fn opt_text(o: Option<&str>) -> Option<Seq<char>> {
    match o {
        Some(s) => Some(s@),
        None => None,
    }
}

/// Relies on `url::Url::parse`: the serialization of the parsed URL, which
/// depends on the text alone, or none when it does not parse.
#[verifier::external_body]
pub(crate) fn parse_url(text: &str) -> (r: Option<String>)
    ensures
        r is Some <==> parsed_url(text@) is Some,
        r is Some ==> r->Some_0@ == parsed_url(text@)->Some_0,
{
    ::url::Url::parse(text).ok().map(String::from)
}

/// Relies on `url::Url::set_username`, on the URL that `u` serializes.
#[verifier::external_body]
pub(crate) fn set_url_username(u: &str, name: &str) -> (r: Option<String>)
    ensures
        r is Some <==> url_with_username(u@, name@) is Some,
        r is Some ==> r->Some_0@ == url_with_username(u@, name@)->Some_0,
{
    let mut x = ::url::Url::parse(u).ok()?;
    x.set_username(name).ok()?;
    Some(String::from(x))
}

/// Relies on `url::Url::set_password`, on the URL that `u` serializes.
#[verifier::external_body]
pub(crate) fn set_url_password(u: &str, password: Option<&str>) -> (r: Option<String>)
    ensures
        r is Some <==> url_with_password(u@, opt_text(password)) is Some,
        r is Some ==> r->Some_0@ == url_with_password(u@, opt_text(password))->Some_0,
{
    let mut x = ::url::Url::parse(u).ok()?;
    x.set_password(password).ok()?;
    Some(String::from(x))
}

/// Relies on `url::Url::set_port`, on the URL that `u` serializes.
#[verifier::external_body]
pub(crate) fn set_url_port(u: &str, port: Option<u16>) -> (r: Option<String>)
    ensures
        r is Some <==> url_with_port(u@, port) is Some,
        r is Some ==> r->Some_0@ == url_with_port(u@, port)->Some_0,
{
    let mut x = ::url::Url::parse(u).ok()?;
    x.set_port(port).ok()?;
    Some(String::from(x))
}

/// Relies on `url::Url::set_path`, on the URL that `u` serializes.
#[verifier::external_body]
pub(crate) fn set_url_path(u: &str, path: &str) -> (r: Option<String>)
    ensures
        r is Some <==> url_with_path(u@, path@) is Some,
        r is Some ==> r->Some_0@ == url_with_path(u@, path@)->Some_0,
{
    let mut x = ::url::Url::parse(u).ok()?;
    x.set_path(path);
    Some(String::from(x))
}

/// Relies on `url::Url::set_query`, on the URL that `u` serializes.
#[verifier::external_body]
pub(crate) fn set_url_query(u: &str, query: Option<&str>) -> (r: Option<String>)
    ensures
        r is Some <==> url_with_query(u@, opt_text(query)) is Some,
        r is Some ==> r->Some_0@ == url_with_query(u@, opt_text(query))->Some_0,
{
    let mut x = ::url::Url::parse(u).ok()?;
    x.set_query(query);
    Some(String::from(x))
}

} // verus!
