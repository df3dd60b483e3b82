//! URLs of the web server, held as the `url` crate parsed them.

use url::Url;
use vstd::prelude::*;
use vstd::string::*;
use vstd::utf8::encode_utf8;

verus! {

/// A parsed URL.
#[verifier::external_type_specification]
#[verifier::external_body]
pub struct ExUrl(Url);

/// The error of [`Url::parse`].
#[verifier::external_type_specification]
#[verifier::external_body]
pub struct ExUrlParseError(url::ParseError);

/// The error of parsing an [`http::Uri`].
#[verifier::external_type_specification]
#[verifier::external_body]
pub struct ExInvalidUri(http::uri::InvalidUri);

/// The text of a URL, as [`Url::as_str`] gives it.
pub uninterp spec fn url_text(url: Url) -> Seq<char>;

/// The text of the URL that [`Url::parse`] makes of a text, if it makes one.
pub uninterp spec fn url_parse(text: Seq<char>) -> Option<Seq<char>>;

/// The text that [`Url::set_path`] leaves of an `http` URL with the given text, were there no limit
/// to its length.
pub uninterp spec fn url_with_path(url: Seq<char>, path: Seq<char>) -> Seq<char>;

/// The text that [`Url::set_query`] leaves of an `http` URL with the given text, were there no limit
/// to its length.
pub uninterp spec fn url_with_query(url: Seq<char>, query: Option<Seq<char>>) -> Seq<char>;

/// The host of an `http` URL with the given text, as [`Url::host`] writes it.
pub uninterp spec fn url_host(url: Seq<char>) -> Seq<char>;

/// The port of an `http` URL with the given text, as [`Url::port`] gives it.
pub uninterp spec fn url_port(url: Seq<char>) -> Option<u16>;

/// Whether [`http::Uri`] can be made of a text.
pub uninterp spec fn uri_accepts(text: Seq<char>) -> bool;

/// Whether the text of a URL says that it is an `http` URL.
pub open spec fn is_http_url(text: Seq<char>) -> bool {
    "http://"@.is_prefix_of(text)
}

/// The number of bytes of a text.
pub open spec fn byte_length(text: Seq<char>) -> nat {
    encode_utf8(text).len()
}

/// The characters of a query that may be absent.
pub open spec fn query_text(query: Option<&str>) -> Option<Seq<char>> {
    match query {
        Some(query) => Some(query@),
        None => None,
    }
}

/// The number of bytes of a query that may be absent.
pub open spec fn query_byte_length(query: Option<Seq<char>>) -> nat {
    match query {
        Some(query) => byte_length(query),
        None => 0,
    }
}

/// What stands before the first `mark` in a text; all of it where there is none.
pub open spec fn before(text: Seq<char>, mark: char) -> Seq<char> {
    match text.index_of_first(mark) {
        Some(i) => text.take(i),
        None => text,
    }
}

/// What stands before the path of an `http` URL: the scheme, the host and the port. The path begins
/// with the first slash behind `http://`.
pub open spec fn url_before_path(url: Seq<char>) -> Seq<char> {
    url.take(7) + before(url.skip(7), '/')
}

/// The path of an `http` URL: it ends where the query or the fragment begins.
pub open spec fn url_path(url: Seq<char>) -> Seq<char> {
    before(before(url, '#'), '?').skip(url_before_path(url).len() as int)
}

/// The query of an `http` URL, if it has one: what stands behind the first question mark, up to the
/// fragment.
pub open spec fn url_query(url: Seq<char>) -> Option<Seq<char>> {
    let main = before(url, '#');
    if main.contains('?') {
        Some(main.skip(before(main, '?').len() as int + 1))
    } else {
        None
    }
}

/// The fragment of an `http` URL, if it has one.
pub open spec fn url_fragment(url: Seq<char>) -> Option<Seq<char>> {
    if url.contains('#') {
        Some(url.skip(before(url, '#').len() as int + 1))
    } else {
        None
    }
}

/// How a path is written in a URL, which is the same in every `http` URL.
pub open spec fn written_path(path: Seq<char>) -> Seq<char> {
    url_path(url_with_path("http://a/"@, path))
}

/// How a query, or none, is written in a URL, which is the same in every `http` URL.
pub open spec fn written_query(query: Option<Seq<char>>) -> Option<Seq<char>> {
    url_query(url_with_query("http://a/"@, query))
}

/// Whether a path is written as it is, but for a slash in front where it has none: all of it is
/// visible ASCII that needs no encoding, and no segment begins with a dot.
pub open spec fn is_plain_path(path: Seq<char>) -> bool {
    &&& forall|i: int|
        0 <= i < path.len() ==> {
            &&& '!' <= #[trigger] path[i] && path[i] <= '~'
            &&& path[i] != '"' && path[i] != '<' && path[i] != '>' && path[i] != '`'
            &&& path[i] != '#' && path[i] != '?' && path[i] != '{' && path[i] != '}'
            &&& path[i] != '\\' && path[i] != '%'
        }
    &&& path.len() > 0 ==> path[0] != '.'
    &&& forall|i: int|
        0 <= i < path.len() - 1 && #[trigger] path[i] == '/' ==> path[i + 1] != '.'
}

/// A path with a slash in front.
pub open spec fn rooted(path: Seq<char>) -> Seq<char> {
    if path.len() > 0 && path[0] == '/' {
        path
    } else {
        seq!['/'] + path
    }
}

/// Whether a query is written as it is: all of it is visible ASCII that needs no encoding.
pub open spec fn is_plain_query(query: Seq<char>) -> bool {
    forall|i: int|
        0 <= i < query.len() ==> {
            &&& '!' <= #[trigger] query[i] && query[i] <= '~'
            &&& query[i] != '"' && query[i] != '#' && query[i] != '<' && query[i] != '>'
            &&& query[i] != '\''
        }
}

/// Whether the places at which a URL keeps its parts fit 32 bits: the end of its path and, if it has
/// a fragment, the place of that. How far the query or the fragment goes does not matter.
pub open spec fn positions_fit(url: Seq<char>) -> bool {
    &&& byte_length(before(before(url, '#'), '?')) <= u32::MAX
    &&& url.contains('#') ==> byte_length(before(url, '#')) <= u32::MAX
}

/// Whether an `http` URL can be given a path: the places of its parts fit before and after.
pub open spec fn path_can_be_set(url: Seq<char>, path: Seq<char>) -> bool {
    &&& positions_fit(url)
    &&& positions_fit(url_with_path(url, path))
}

/// Whether an `http` URL can be given a query: the places of its parts fit before and after, and a
/// fragment does not stand at the very last place of 32 bits, behind which nothing can be found.
pub open spec fn query_can_be_set(url: Seq<char>, query: Option<Seq<char>>) -> bool {
    &&& positions_fit(url)
    &&& url.contains('#') ==> byte_length(before(url, '#')) < u32::MAX
    &&& positions_fit(url_with_query(url, query))
}

/// [`Url::as_str`]: the text that [`url_text`] names.
pub assume_specification[ Url::as_str ](this: &Url) -> (text: &str)
    ensures
        text@ == url_text(*this),
;

/// The clone of a URL has its text.
pub assume_specification[ <Url as Clone>::clone ](this: &Url) -> (copy: Url)
    ensures
        url_text(copy) == url_text(*this),
;

/// [`Url::parse`]: a URL or an error, as [`url_parse`] names. The scheme of a text that begins with
/// `http://` is kept, so the text of its URL begins with it too.
pub assume_specification[ Url::parse ](input: &str) -> (parsed: Result<Url, url::ParseError>)
    ensures
        match parsed {
            Ok(parsed) => url_parse(input@) == Some(url_text(parsed)),
            Err(_) => url_parse(input@) is None,
        },
        parsed matches Ok(parsed) ==> is_http_url(input@) ==> is_http_url(url_text(parsed)),
;

/// [`Url::set_path`] on an `http` URL. Where the path stands in such a URL can be told from its
/// text, so the new text is a function of the old one and the path. What stands around the path
/// stays: the scheme, the host and the port before it, and the query and the fragment, or none,
/// behind it. How the path is written does not depend on the URL; one that needs no encoding is
/// written as it is. A `#` in the path is encoded. A byte of the path becomes at most three, and
/// one slash may be added. The method panics where the places of the parts, before or after, do not
/// fit 32 bits; they are sure to fit where three times the path does.
pub assume_specification[ Url::set_path ](this: &mut Url, path: &str)
    requires
        is_http_url(url_text(*old(this))),
        byte_length(url_text(*old(this))) + 3 * byte_length(path@) < u32::MAX || path_can_be_set(
            url_text(*old(this)),
            path@,
        ),
    ensures
        url_text(*final(this)) == url_with_path(url_text(*old(this)), path@),
        is_http_url(url_text(*final(this))),
        url_host(url_text(*final(this))) == url_host(url_text(*old(this))),
        url_port(url_text(*final(this))) == url_port(url_text(*old(this))),
        url_text(*final(this)).contains('#') == url_text(*old(this)).contains('#'),
        url_before_path(url_text(*final(this))) == url_before_path(url_text(*old(this))),
        url_path(url_text(*final(this))) == written_path(path@),
        is_plain_path(path@) ==> url_path(url_text(*final(this))) == rooted(path@),
        url_query(url_text(*final(this))) == url_query(url_text(*old(this))),
        url_fragment(url_text(*final(this))) == url_fragment(url_text(*old(this))),
        positions_fit(url_text(*final(this))),
        byte_length(url_text(*final(this))) <= byte_length(url_text(*old(this))) + 3 * byte_length(
            path@,
        ) + 1,
;

/// [`Url::set_query`] on an `http` URL. Where the query stands in such a URL can be told from its
/// text, so the new text is a function of the old one and the query. What stands before the query
/// stays: the scheme, the host, the port and the path; so does the fragment. How the query is
/// written does not depend on the URL; one that needs no encoding is written as it is, and no query
/// leaves none. The method panics where the end of the path does not fit 32 bits, where the
/// fragment stands at the last place that does, or where it comes to stand at one that does not. A
/// byte of the query becomes at most three, and a question mark is added, so a fragment is sure to
/// fit where three times the query does.
pub assume_specification[ Url::set_query ](this: &mut Url, query: Option<&str>)
    requires
        is_http_url(url_text(*old(this))),
        positions_fit(url_text(*old(this))),
        !url_text(*old(this)).contains('#') || byte_length(url_text(*old(this))) + 3
            * query_byte_length(query_text(query)) < u32::MAX || query_can_be_set(
            url_text(*old(this)),
            query_text(query),
        ),
    ensures
        url_text(*final(this)) == url_with_query(url_text(*old(this)), query_text(query)),
        url_before_path(url_text(*final(this))) == url_before_path(url_text(*old(this))),
        url_path(url_text(*final(this))) == url_path(url_text(*old(this))),
        url_query(url_text(*final(this))) == written_query(query_text(query)),
        url_query(url_text(*final(this))) is Some <==> query is Some,
        query matches Some(query) ==> is_plain_query(query@) ==> url_query(url_text(*final(this)))
            == Some(query@),
        url_fragment(url_text(*final(this))) == url_fragment(url_text(*old(this))),
        is_http_url(url_text(*final(this))),
        url_host(url_text(*final(this))) == url_host(url_text(*old(this))),
        url_port(url_text(*final(this))) == url_port(url_text(*old(this))),
;

/// [`Url::fragment`]: what stands behind the first `#` of an `http` URL, if there is one. The place
/// behind the `#` has to fit 32 bits.
pub assume_specification[ Url::fragment ](this: &Url) -> (fragment: Option<&str>)
    requires
        byte_length(url_text(*this)) < u32::MAX,
    ensures
        is_http_url(url_text(*this)) ==> (fragment is Some <==> url_text(*this).contains('#')),
        is_http_url(url_text(*this)) ==> (fragment matches Some(fragment) ==> url_text(*this)
            == before(url_text(*this), '#') + seq!['#'] + fragment@),
;

/// [`Url::port`]: the port, unless it is absent or the default one of the scheme.
pub assume_specification[ Url::port ](this: &Url) -> (port: Option<u16>)
    ensures
        is_http_url(url_text(*this)) ==> port == url_port(url_text(*this)),
;

/// [`Url::host`], written out; an `http` URL always has a host.
#[verifier::external_body]
pub(crate) fn host_of(url: &Url) -> (host: String)
    requires
        is_http_url(url_text(*url)),
    ensures
        host@ == url_host(url_text(*url)),
{
    url.host().unwrap().to_string()
}

/// [`http::Uri`] of a text, of which only the success is kept.
#[verifier::external_body]
pub(crate) fn check_uri(text: &str) -> (checked: Result<(), http::uri::InvalidUri>)
    ensures
        checked is Ok <==> uri_accepts(text@),
{
    http::Uri::try_from(text).map(|_uri| ())
}

/// A query that is there is never taken for an absent one, though it be empty.
pub proof fn law_present_queries_count(query: &str)
    ensures
        query_text(Some(query)) == Some(query@),
        query_text(None) is None,
{
}

} // verus!
