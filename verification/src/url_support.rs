use vstd::prelude::*;

verus! {

/// What form-urlencoding a pair list yields: each key and value
/// percent-encoded, joined as `key=value` pairs separated by `&`. A
/// function of the pairs alone.
pub uninterp spec fn form_urlencoded_of(pairs: Seq<(Seq<char>, Seq<char>)>) -> Seq<char>;

/// Relies on url::form_urlencoded::Serializer (Serializer::new,
/// extend_pairs, finish): the serializer percent-encodes each key and
/// value and joins the pairs with `&`; the output depends on the pairs
/// alone.
#[verifier::external_body]
pub fn form_urlencode_pairs(pairs: &Vec<(String, String)>) -> (r: String)
    ensures
        r@ == form_urlencoded_of(pairs@.map_values(|p: (String, String)| (p.0@, p.1@))),
{
    let mut ser = url::form_urlencoded::Serializer::new(String::new());
    ser.extend_pairs(pairs.iter().map(|p| (p.0.as_str(), p.1.as_str())));
    ser.finish()
}

/// What URL parsing yields for a string: the host text and the explicit
/// port of the parsed URL, `None` where the string does not parse as an
/// absolute URL or parses without a host. A function of the string alone.
pub uninterp spec fn host_port_of(s: Seq<char>) -> Option<(Seq<char>, Option<u16>)>;

/// Relies on url::Url::parse, Url::host_str and Url::port: parsing is a
/// pure function of the input; `host_str` is the host as text, absent for
/// URLs without one; `port` is the explicit port, absent when the URL
/// names none or names the scheme's default.
#[verifier::external_body]
pub fn url_host_port(s: &str) -> (r: Option<(String, Option<u16>)>)
    ensures
        match r {
            Some(hp) => host_port_of(s@) == Some((hp.0@, hp.1)),
            None => host_port_of(s@) is None,
        },
{
    match url::Url::parse(s) {
        Ok(u) => match u.host_str() {
            Some(h) => Some((h.to_owned(), u.port())),
            None => None,
        },
        Err(_) => None,
    }
}

} // verus!
