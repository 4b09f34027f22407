//! The request URI that gRPC requests are sent with: whatever URI a request
//! carries, it is sent to `http://localhost` with its own path and query, as
//! the connector alone decides where the connection goes.
use vstd::prelude::*;

verus! {

/// The path and query of `text` parsed as an `http::Uri` (`http`'s
/// `Uri::from_str`, then `Uri::path_and_query`): `None` where `text` does not
/// parse, `Some(None)` where the URI has no path and query.
pub uninterp spec fn uri_path_and_query(text: Seq<char>) -> Option<Option<Seq<char>>>;

/// The text of the `http::Uri` that `http`'s `Uri::builder()` builds from a
/// scheme, an authority and a path and query, or `None` where the builder
/// refuses them.
pub uninterp spec fn built_uri(scheme: Seq<char>, authority: Seq<char>, path_and_query: Seq<char>) -> Option<Seq<char>>;

/// The text of an optional string.
pub open spec fn optional_text(s: Option<String>) -> Option<Seq<char>> {
    match s {
        Some(s) => Some(s@),
        None => None,
    }
}

/// A path and query as the path of a URI with an authority prints it: a
/// query alone gets the root path `/` before it.
pub open spec fn origin_form(path_and_query: Seq<char>) -> Seq<char> {
    if path_and_query.len() > 0 && path_and_query[0] == '?' {
        seq!['/'] + path_and_query
    } else {
        path_and_query
    }
}

/// Whether a URI text is within `http`'s length limit of 65534 bytes however
/// wide its characters are in UTF-8 (at most four bytes each).
pub open spec fn within_uri_length(text: Seq<char>) -> bool {
    text.len() <= 16383
}

/// Parses `text` as an `http::Uri` and returns its path and query as text.
///
/// What the parser returns as a path and query (`uri/mod.rs` `parse_full`,
/// `uri/path.rs` `from_shared`, `as_str`) is `*`, or starts with `/` or `?`
/// and passed the scan of `PathAndQuery::from_shared`; so that parser takes
/// it again, and the builder, given the valid scheme `http` and authority
/// `localhost`, makes a URI that prints as `http://localhost` and its origin
/// form (`Uri::from_parts`, `Display for Uri`, `PathAndQuery::path`). Such a
/// printed URI, short enough and with a path that starts with `/`, parses
/// back to `http`, `localhost` and that origin form.
#[verifier::external_body]
fn parse_path_and_query(text: &str) -> (pq: Option<Option<String>>)
    ensures
        match pq {
            Some(p) => uri_path_and_query(text@) == Some(optional_text(p)),
            None => uri_path_and_query(text@) is None,
        },
        match pq {
            Some(Some(p)) => {
                &&& p@.len() > 0
                &&& p@[0] == '/' || p@[0] == '?' || p@ == "*"@
                &&& built_uri("http"@, "localhost"@, p@) == Some("http://localhost"@ + origin_form(p@))
                &&& origin_form(p@)[0] == '/' && within_uri_length("http://localhost"@ + origin_form(p@))
                    ==> uri_path_and_query("http://localhost"@ + origin_form(p@)) == Some(Some(origin_form(p@)))
            },
            _ => true,
        },
{
    match text.parse::<http::Uri>() {
        Ok(uri) => Some(match uri.path_and_query() {
            Some(pq) => Some(pq.as_str().to_string()),
            None => None,
        }),
        Err(_) => None,
    }
}

/// Builds an `http::Uri` with `Uri::builder()` from the three parts and
/// returns its text.
#[verifier::external_body]
fn build_uri(scheme: &str, authority: &str, path_and_query: &str) -> (uri: Option<String>)
    ensures
        optional_text(uri) == built_uri(scheme@, authority@, path_and_query@),
{
    match http::Uri::builder().scheme(scheme).authority(authority).path_and_query(path_and_query).build() {
        Ok(uri) => Some(uri.to_string()),
        Err(_) => None,
    }
}

/// Why a request URI could not be rewritten.
#[derive(Debug, Clone, Copy, PartialEq, Eq, Structural)]
pub enum UriRewriteError {
    /// The text is not a URI.
    Unparsable,
    /// The URI has no path and query, which every gRPC request has.
    MissingPathAndQuery,
    /// The URI builder refused the parts; the contract of
    /// [set_request_uri_scheme_and_authority] rules this out, as the builder
    /// takes every path and query that the parser gives.
    BuildFailed,
}

/// The URI that a request with URI `uri` is sent with: `http://localhost`
/// with the request's own path and query, in origin form. Only text that is
/// no URI, and a URI without a path and query, fail.
pub open spec fn localhost_rewrite(uri: Seq<char>) -> Result<Seq<char>, UriRewriteError> {
    match uri_path_and_query(uri) {
        None => Err(UriRewriteError::Unparsable),
        Some(None) => Err(UriRewriteError::MissingPathAndQuery),
        Some(Some(pq)) => Ok("http://localhost"@ + origin_form(pq)),
    }
}

/// Rewrites a request URI, given by its text, to scheme `http` and
/// authority `localhost`, keeping its path and query. Rewriting the result
/// again changes nothing, but for the asterisk-form `*`, whose rewrite
/// `http://localhost*` is no URI, and for texts beyond `http`'s length
/// limit.
pub fn set_request_uri_scheme_and_authority(uri: &str) -> (rewritten: Result<String, UriRewriteError>)
    ensures
        match rewritten {
            Ok(text) => localhost_rewrite(uri@) == Ok::<Seq<char>, UriRewriteError>(text@),
            Err(error) => localhost_rewrite(uri@) == Err::<Seq<char>, UriRewriteError>(error),
        },
        match uri_path_and_query(uri@) {
            Some(Some(pq)) => rewritten matches Ok(text) && text@ == "http://localhost"@ + (if pq.len() > 0
                && pq[0] == '?' {
                seq!['/']
            } else {
                Seq::<char>::empty()
            }) + pq,
            Some(None) => rewritten == Err::<String, UriRewriteError>(UriRewriteError::MissingPathAndQuery),
            None => rewritten == Err::<String, UriRewriteError>(UriRewriteError::Unparsable),
        },
        !(rewritten matches Err(UriRewriteError::BuildFailed)),
        match rewritten {
            Ok(text) => uri_path_and_query(uri@) != Some(Some("*"@)) && within_uri_length(text@)
                ==> localhost_rewrite(text@) == Ok::<Seq<char>, UriRewriteError>(text@),
            Err(_) => true,
        },
{
    match parse_path_and_query(uri) {
        None => Err(UriRewriteError::Unparsable),
        Some(None) => Err(UriRewriteError::MissingPathAndQuery),
        Some(Some(path_and_query)) => match build_uri("http", "localhost", path_and_query.as_str()) {
            Some(rewritten) => Ok(rewritten),
            None => Err(UriRewriteError::BuildFailed),
        },
    }
}

/// The rewrite depends on the path and query alone: two request URIs with
/// the same path and query are sent with the same URI, whatever their scheme
/// and authority.
pub proof fn lemma_rewrite_depends_on_path_and_query_only(a: Seq<char>, b: Seq<char>)
    requires
        uri_path_and_query(a) == uri_path_and_query(b),
    ensures
        localhost_rewrite(a) == localhost_rewrite(b),
{
}

/// Every request URI with a path and query is sent to `http://localhost`
/// followed by that path and query, with `/` put before a query that has no
/// path; a URI without a path and query, and text that is no URI, are
/// refused for that reason and no other.
pub proof fn lemma_rewrite_sends_path_and_query_to_localhost(uri: Seq<char>)
    ensures
        match uri_path_and_query(uri) {
            Some(Some(pq)) => localhost_rewrite(uri) == Ok::<Seq<char>, UriRewriteError>(
                "http://localhost"@ + (if pq.len() > 0 && pq[0] == '?' {
                    seq!['/']
                } else {
                    Seq::<char>::empty()
                }) + pq,
            ),
            Some(None) => localhost_rewrite(uri) == Err::<Seq<char>, UriRewriteError>(
                UriRewriteError::MissingPathAndQuery,
            ),
            None => localhost_rewrite(uri) == Err::<Seq<char>, UriRewriteError>(UriRewriteError::Unparsable),
        },
{
    match uri_path_and_query(uri) {
        Some(Some(pq)) => {
            let host = "http://localhost"@;
            if pq.len() > 0 && pq[0] == '?' {
                assert(host + seq!['/'] + pq =~= host + (seq!['/'] + pq));
            } else {
                assert(host + Seq::<char>::empty() + pq =~= host + pq);
            }
        },
        _ => {},
    }
}

} // verus!
