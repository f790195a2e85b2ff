use vstd::prelude::*;

verus! {

/// What `Regex::new(pattern)` then `replace(haystack, rep)` gives: `None` when the pattern does
/// not compile, else the haystack with the first match replaced.
pub uninterp spec fn regex_replaced(pattern: Seq<char>, haystack: Seq<char>, rep: Seq<char>) -> Option<Seq<char>>;

/// What `Regex::new(pattern)` then `is_match(haystack)` gives: `None` when the pattern does not
/// compile.
pub uninterp spec fn regex_matches(pattern: Seq<char>, haystack: Seq<char>) -> Option<bool>;

/// What `Regex::new(pattern)` then `captures(haystack)` gives: `None` when the pattern does not
/// compile, `Some(None)` when nothing matches, else the text of each group by number (group 0
/// being the whole match), `None` for a group that took no part in the match.
pub uninterp spec fn regex_captured(pattern: Seq<char>, haystack: Seq<char>) -> Option<Option<Seq<Option<Seq<char>>>>>;

/// The character sequences of a list of optional strings.
pub open spec fn opt_views(v: Seq<Option<String>>) -> Seq<Option<Seq<char>>> {
    Seq::new(
        v.len(),
        |i: int|
            match v[i] {
                Some(s) => Some(s@),
                None => None,
            },
    )
}

/// `regex::Regex::replace`: the contract claims only that the result is the named function
/// `regex_replaced` of the pattern, the haystack and the replacement.
#[verifier::external_body]
pub(crate) fn regex_replace(pattern: &str, haystack: &str, rep: &str) -> (r: Option<String>)
    ensures
        match r {
            Some(s) => regex_replaced(pattern@, haystack@, rep@) == Some(s@),
            None => regex_replaced(pattern@, haystack@, rep@) is None,
        },
{
    match regex::Regex::new(pattern) {
        Ok(re) => Some(re.replace(haystack, rep).into_owned()),
        Err(_) => None,
    }
}

/// `regex::Regex::is_match`: the contract claims only that the result is the named function
/// `regex_matches` of the pattern and the haystack.
#[verifier::external_body]
pub(crate) fn regex_is_match(pattern: &str, haystack: &str) -> (r: Option<bool>)
    ensures
        r == regex_matches(pattern@, haystack@),
{
    match regex::Regex::new(pattern) {
        Ok(re) => Some(re.is_match(haystack)),
        Err(_) => None,
    }
}

/// `regex::Regex::captures`: the contract claims only that the result is the named function
/// `regex_captured` of the pattern and the haystack.
#[verifier::external_body]
pub(crate) fn regex_captures(pattern: &str, haystack: &str) -> (r: Option<Option<Vec<Option<String>>>>)
    ensures
        match r {
            None => regex_captured(pattern@, haystack@) is None,
            Some(None) => regex_captured(pattern@, haystack@) == Some(None::<Seq<Option<Seq<char>>>>),
            Some(Some(g)) => regex_captured(pattern@, haystack@) == Some(Some(opt_views(g@))),
        },
{
    match regex::Regex::new(pattern) {
        Ok(re) => Some(re.captures(haystack).map(|c| c.iter().map(|m| m.map(|m| m.as_str().to_string())).collect())),
        Err(_) => None,
    }
}

/// What `Url::parse(base)`, then extending its path by `segments`, then replacing its query by
/// `pairs` gives, serialized; `None` when the base does not parse or cannot be a base.
pub uninterp spec fn url_built(base: Seq<char>, segments: Seq<Seq<char>>, pairs: Seq<(Seq<char>, Seq<char>)>) -> Option<Seq<char>>;

/// What `Url::parse(base)` then `join(rel)` gives, serialized; `None` on a parse failure.
pub uninterp spec fn url_joined(base: Seq<char>, rel: Seq<char>) -> Option<Seq<char>>;

/// The first query pair of a serialized URL, decoded, as `Url::query_pairs` gives it.
pub uninterp spec fn url_first_query_value(url: Seq<char>) -> Option<Seq<char>>;

/// The character sequences of a list of string pairs.
pub open spec fn pair_views(v: Seq<(String, String)>) -> Seq<(Seq<char>, Seq<char>)> {
    Seq::new(v.len(), |i: int| (v[i].0@, v[i].1@))
}

/// `url::Url` building (`parse`, `path_segments_mut().extend`, `query_pairs_mut().clear()
/// .extend_pairs`): the contract claims only that the result is the named function `url_built`
/// of the base, the segments and the pairs.
#[verifier::external_body]
pub(crate) fn build_url(base: &str, segments: &Vec<String>, pairs: &Vec<(String, String)>) -> (r: Option<String>)
    ensures
        match r {
            Some(u) => url_built(base@, crate::text::str_views(segments@), pair_views(pairs@)) == Some(u@),
            None => url_built(base@, crate::text::str_views(segments@), pair_views(pairs@)) is None,
        },
{
    let mut u = url::Url::parse(base).ok()?;
    u.path_segments_mut().ok()?.extend(segments.iter());
    u.query_pairs_mut().clear().extend_pairs(pairs.iter().map(|(k, v)| (k.as_str(), v.as_str())));
    Some(u.to_string())
}

/// `url::Url::parse` then `join`: the contract claims only that the result is the named
/// function `url_joined` of the base and the relative reference; the error, described, is
/// left unsaid.
#[verifier::external_body]
pub(crate) fn join_url(base: &str, rel: &str) -> (r: Result<String, String>)
    ensures
        match r {
            Ok(u) => url_joined(base@, rel@) == Some(u@),
            Err(_) => url_joined(base@, rel@) is None,
        },
{
    url::Url::parse(base).and_then(|b| b.join(rel)).map(|u| u.to_string()).map_err(|e| e.to_string())
}

/// `url::Url::query_pairs().next()`: the contract claims only that the result is the named
/// function `url_first_query_value` of the URL; `None` also when the URL does not parse.
#[verifier::external_body]
pub(crate) fn first_query_value(url: &str) -> (r: Option<String>)
    ensures
        match r {
            Some(v) => url_first_query_value(url@) == Some(v@),
            None => url_first_query_value(url@) is None,
        },
{
    url::Url::parse(url).ok().and_then(|u| u.query_pairs().next().map(|(_, v)| v.into_owned()))
}

/// The host of a URL, as `url::Url::parse(u)` then `host_str()` gives it; `None` also when
/// the URL does not parse.
pub uninterp spec fn url_host_of(u: Seq<char>) -> Option<Seq<char>>;

/// `url::Url::parse` then `host_str`: the contract claims only that the result is the named
/// function `url_host_of` of the URL.
#[verifier::external_body]
pub(crate) fn url_host(u: &str) -> (r: Option<String>)
    ensures
        match r {
            Some(h) => url_host_of(u@) == Some(h@),
            None => url_host_of(u@) is None,
        },
{
    url::Url::parse(u).ok().and_then(|x| x.host_str().map(String::from))
}

/// What `url::Url::parse(base)` then `set_fragment(Some(fragment))` and
/// `set_query(Some(query))` gives, as a string; `None` when the base does not parse.
pub uninterp spec fn url_with_fragment_query(base: Seq<char>, fragment: Seq<char>, query: Seq<char>) -> Option<Seq<char>>;

/// `url::Url::parse`, `set_fragment`, `set_query`: the contract claims only that the result is
/// the named function `url_with_fragment_query` of the three arguments.
#[verifier::external_body]
pub(crate) fn with_fragment_query(base: &str, fragment: &str, query: &str) -> (r: Option<String>)
    ensures
        match r {
            Some(u) => url_with_fragment_query(base@, fragment@, query@) == Some(u@),
            None => url_with_fragment_query(base@, fragment@, query@) is None,
        },
{
    let mut u = url::Url::parse(base).ok()?;
    u.set_fragment(Some(fragment));
    u.set_query(Some(query));
    Some(u.to_string())
}

} // verus!
