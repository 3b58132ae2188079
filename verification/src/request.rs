//! Request URLs: the path and the query that a call adds to the base URL.

use vstd::prelude::*;
use vstd::string::StringExecFns;
use vstd::utf8::encode_utf8;
use url::Url;

verus! {

/// The serialization that a `Url` holds: what `Url::as_str` gives.
pub uninterp spec fn url_text(u: Url) -> Seq<char>;

/// The path component that a `Url` holds, as `Url::path` gives it.
pub uninterp spec fn url_path_text(u: Url) -> Seq<char>;

/// What `Url::parse` makes of an input: the parsed URL, or `None` where the
/// input is no absolute URL.
pub uninterp spec fn parsed_url(input: Seq<char>) -> Option<Url>;

/// The URL after `Url::set_path`.
pub uninterp spec fn with_path(u: Url, path: Seq<char>) -> Url;

/// The URL after one more name/value pair was appended to its query in
/// `application/x-www-form-urlencoded` syntax.
pub uninterp spec fn with_pair(u: Url, name: Seq<char>, value: Seq<char>) -> Url;

// These names speak of the URL itself and not of its serialization, because
// the serialization does not fix what the `url` crate does next: a path set
// on `mailto:x` may hold a raw `?`, and the URL then reads like one with a
// query while it has none.

/// The number of bytes of the serialization of a URL.
pub open spec fn url_len(u: Url) -> nat {
    encode_utf8(url_text(u)).len()
}

/// The longest serialization that the `url` crate can hold.
pub const URL_LIMIT: u64 = 0xffff_ffff;

/// `Url::parse`: parses an absolute URL. Succeeds exactly where
/// [`parsed_url`] gives a URL, and gives that one.
#[verifier::external_body]
pub(crate) fn parse_url(input: &str) -> (r: Result<Url, url::ParseError>)
    ensures
        r is Ok <==> parsed_url(input@) is Some,
        r matches Ok(u) ==> parsed_url(input@) == Some(u),
{
    Url::parse(input)
}

/// `Clone` of `Url`: the same URL.
pub assume_specification[ <url::Url as Clone>::clone ](u: &url::Url) -> (copy: url::Url)
    ensures
        copy == *u,
;

/// `Url::as_str`: the serialization.
#[verifier::external_body]
pub(crate) fn url_as_str(u: &Url) -> (s: &str)
    ensures
        s@ == url_text(*u),
{
    u.as_str()
}

/// `Url::path`: the path component, a slice of the serialization.
#[verifier::external_body]
pub(crate) fn url_path(u: &Url) -> (s: &str)
    ensures
        s@ == url_path_text(*u),
        encode_utf8(s@).len() <= url_len(*u),
{
    u.path()
}

/// `Url::set_path`: replaces the path component. The new path is
/// percent-encoded, which at most triples it; a slash may be put before it.
/// The `url` crate counts positions in 32 bits and panics beyond, hence the
/// bound.
#[verifier::external_body]
pub(crate) fn url_set_path(u: &mut Url, path: &str)
    requires
        url_len(*old(u)) + 3 * encode_utf8(path@).len() + 16 <= URL_LIMIT,
    ensures
        *final(u) == with_path(*old(u), path@),
        url_len(*final(u)) <= url_len(*old(u)) + 3 * encode_utf8(path@).len() + 16,
{
    u.set_path(path)
}

/// `Url::query_pairs_mut` and `Serializer::append_pair`: appends one pair to
/// the query. Each byte of name and value becomes at most three; a separator
/// and an equals sign come with them.
#[verifier::external_body]
pub(crate) fn url_append_pair(u: &mut Url, name: &str, value: &str)
    requires
        url_len(*old(u)) + 3 * (encode_utf8(name@).len() + encode_utf8(value@).len()) + 4
            <= URL_LIMIT,
    ensures
        *final(u) == with_pair(*old(u), name@, value@),
        url_len(*final(u)) <= url_len(*old(u)) + 3 * (encode_utf8(name@).len() + encode_utf8(
            value@,
        ).len()) + 4,
{
    u.query_pairs_mut().append_pair(name, value);
}

/// The path of a request: the base path, a slash unless the base path ends
/// with one, then `rest/` and the endpoint's name.
pub open spec fn request_path_text(base_path: Seq<char>, endpoint: Seq<char>) -> Seq<char> {
    if base_path.len() > 0 && base_path.last() == '/' {
        base_path + "rest/"@ + endpoint
    } else {
        base_path + "/"@ + "rest/"@ + endpoint
    }
}

/// The URL after the pairs of `pairs` were appended in order.
pub open spec fn with_pairs(u: Url, pairs: Seq<(Seq<char>, Seq<char>)>) -> Url
    decreases pairs.len(),
{
    if pairs.len() == 0 {
        u
    } else {
        with_pair(with_pairs(u, pairs.drop_last()), pairs.last().0, pairs.last().1)
    }
}

/// The URL of a request: the base URL with the request's path in place of
/// its own, and the pairs appended to its query.
pub open spec fn request_url(
    base: Url,
    endpoint: Seq<char>,
    pairs: Seq<(Seq<char>, Seq<char>)>,
) -> Url {
    with_pairs(with_path(base, request_path_text(url_path_text(base), endpoint)), pairs)
}

/// The room that a pair may take in a query.
pub open spec fn pair_room(pair: (Seq<char>, Seq<char>)) -> nat {
    3 * (encode_utf8(pair.0).len() + encode_utf8(pair.1).len()) + 4
}

/// The room that the pairs of `pairs` may take in a query.
pub open spec fn pairs_room(pairs: Seq<(Seq<char>, Seq<char>)>) -> nat
    decreases pairs.len(),
{
    if pairs.len() == 0 {
        0
    } else {
        pairs_room(pairs.drop_last()) + pair_room(pairs.last())
    }
}

/// The names and values of a list of owned pairs.
pub open spec fn owned_pairs(v: Seq<(String, String)>) -> Seq<(Seq<char>, Seq<char>)> {
    Seq::new(v.len(), |i: int| (v[i].0@, v[i].1@))
}

/// The names and values of a list of borrowed pairs.
pub open spec fn borrowed_pairs(v: Seq<(&str, &str)>) -> Seq<(Seq<char>, Seq<char>)> {
    Seq::new(v.len(), |i: int| (v[i].0@, v[i].1@))
}

/// The room that a request may take: the base URL, the path at three bytes
/// for one, and the pairs.
pub open spec fn request_room(
    base: Url,
    endpoint: Seq<char>,
    pairs: Seq<(Seq<char>, Seq<char>)>,
) -> nat {
    url_len(base) + 3 * encode_utf8(request_path_text(url_path_text(base), endpoint)).len() + 16
        + pairs_room(pairs)
}

/// The room of a list of pairs grows with the list.
pub proof fn lemma_pairs_room_grows(pairs: Seq<(Seq<char>, Seq<char>)>, n: int)
    requires
        0 <= n <= pairs.len(),
    ensures
        pairs_room(pairs.take(n)) <= pairs_room(pairs),
    decreases pairs.len(),
{
    if n == pairs.len() {
        assert(pairs.take(n) =~= pairs);
    } else {
        lemma_pairs_room_grows(pairs.drop_last(), n);
        assert(pairs.drop_last().take(n) =~= pairs.take(n));
    }
}

/// Composes the path of a request. The base path is kept whole: the endpoint
/// is appended to it, never put in place of its last segment.
pub fn request_path(base_path: &str, endpoint: &str) -> (path: String)
    ensures
        path@ == request_path_text(base_path@, endpoint@),
{
    let n = base_path.unicode_len();
    let mut path = String::from_str(base_path);
    if n == 0 || base_path.get_char(n - 1) != '/' {
        path.append("/");
    }
    path.append("rest/");
    path.append(endpoint);
    assert(path@ =~= request_path_text(base_path@, endpoint@));
    path
}

/// Appends one pair to a list of pairs.
pub fn push_pair(pairs: &mut Vec<(String, String)>, name: &str, value: String)
    ensures
        owned_pairs(final(pairs)@) == owned_pairs(old(pairs)@).push((name@, value@)),
{
    pairs.push((String::from_str(name), value));
    assert(owned_pairs(pairs@) =~= owned_pairs(old(pairs)@).push((name@, value@)));
}

/// Adds up the room of `pairs`, giving up once it passes the limit.
fn room_of_pairs(pairs: &Vec<(String, String)>) -> (room: Option<u64>)
    ensures
        match room {
            Some(r) => r == pairs_room(owned_pairs(pairs@)) && r <= URL_LIMIT,
            None => pairs_room(owned_pairs(pairs@)) > URL_LIMIT,
        },
{
    let ghost all = owned_pairs(pairs@);
    let mut room: u64 = 0;
    let mut i: usize = 0;
    while i < pairs.len()
        invariant
            i <= pairs.len(),
            all == owned_pairs(pairs@),
            room == pairs_room(all.take(i as int)),
            room <= URL_LIMIT,
        decreases pairs.len() - i,
    {
        let name_len = pairs[i].0.as_str().as_bytes().len();
        let value_len = pairs[i].1.as_str().as_bytes().len();
        proof {
            assert(all.take(i + 1).drop_last() =~= all.take(i as int));
            assert(all.take(i + 1).last() == all[i as int]);
            lemma_pairs_room_grows(all, i + 1);
        }
        if name_len > 0xffff_ffff || value_len > 0xffff_ffff {
            return None;
        }
        let step: u64 = 3 * (name_len as u64 + value_len as u64) + 4;
        if room + step > URL_LIMIT {
            return None;
        }
        room = room + step;
        i += 1;
    }
    assert(all.take(i as int) =~= all);
    Some(room)
}

/// Builds the URL of a request from the base URL, the endpoint's name and
/// the pairs of the query, in their order. `None` where the request may not
/// fit in the 4 GiB that a URL can hold.
pub fn assemble_url(base: &Url, endpoint: &str, pairs: &Vec<(String, String)>) -> (r: Option<Url>)
    ensures
        r is Some <==> request_room(*base, endpoint@, owned_pairs(pairs@)) <= URL_LIMIT,
        r matches Some(u) ==> u == request_url(*base, endpoint@, owned_pairs(pairs@)),
{
    let ghost all = owned_pairs(pairs@);
    let path = request_path(url_path(base), endpoint);
    let base_len = url_as_str(base).as_bytes().len();
    let path_len = path.as_str().as_bytes().len();
    if base_len > 0xffff_ffff || path_len > 0xffff_ffff {
        return None;
    }
    let fixed: u64 = base_len as u64 + 3 * (path_len as u64) + 16;
    let room = match room_of_pairs(pairs) {
        Some(room) => room,
        None => {
            return None;
        },
    };
    if fixed + room > URL_LIMIT {
        return None;
    }
    let mut url = base.clone();
    url_set_path(&mut url, path.as_str());
    let ghost start = url;
    let mut i: usize = 0;
    while i < pairs.len()
        invariant
            i <= pairs.len(),
            all == owned_pairs(pairs@),
            url == with_pairs(start, all.take(i as int)),
            url_len(url) <= fixed + pairs_room(all.take(i as int)),
            fixed + pairs_room(all) <= URL_LIMIT,
        decreases pairs.len() - i,
    {
        proof {
            assert(all.take(i + 1).drop_last() =~= all.take(i as int));
            assert(all.take(i + 1).last() == all[i as int]);
            lemma_pairs_room_grows(all, i + 1);
        }
        url_append_pair(&mut url, pairs[i].0.as_str(), pairs[i].1.as_str());
        i += 1;
    }
    assert(all.take(i as int) =~= all);
    Some(url)
}

} // verus!
