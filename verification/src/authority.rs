use vstd::prelude::*;

verus! {

// The authority rewriter redirects a request's authority (scheme, host and
// port) to an alternate target while preserving the path and query. It works
// on parsed `url::Url` values; what a given url holds is described by the
// uninterpreted component functions below, and each `url` crate call the
// rewriter makes carries a contract over them.
#[verifier::external_type_specification]
#[verifier::external_body]
pub struct ExUrl(url::Url);

#[verifier::external_type_specification]
#[verifier::external_body]
pub struct ExParseError(url::ParseError);

/// What `url::Url::scheme` returns for this url: the scheme, lower-cased,
/// without the `:` delimiter.
pub uninterp spec fn spec_scheme(u: url::Url) -> Seq<char>;

/// What `url::Url::host_str` returns for this url: the serialization of its
/// host, if it has one.
pub uninterp spec fn spec_host(u: url::Url) -> Option<Seq<char>>;

/// What `url::Url::port` returns for this url: its explicit port, if any.
pub uninterp spec fn spec_port(u: url::Url) -> Option<u16>;

/// What `url::Url::path` returns for this url: its percent-encoded path.
pub uninterp spec fn spec_path(u: url::Url) -> Seq<char>;

/// What `url::Url::query` returns for this url: its percent-encoded query
/// string, if any.
pub uninterp spec fn spec_query(u: url::Url) -> Option<Seq<char>>;

/// What `url::Url::fragment` returns for this url: its fragment, if any.
pub uninterp spec fn spec_fragment(u: url::Url) -> Option<Seq<char>>;

/// What `url::Url::username` returns for this url: its user name, empty
/// where there is none.
pub uninterp spec fn spec_username(u: url::Url) -> Seq<char>;

/// What `url::Url::password` returns for this url: its password, if any.
pub uninterp spec fn spec_password(u: url::Url) -> Option<Seq<char>>;

/// What `url::Url::cannot_be_a_base` returns for this url.
pub uninterp spec fn spec_cannot_be_a_base(u: url::Url) -> bool;

/// What `url::Url::has_authority` returns for this url: whether its
/// serialization carries a `//` authority part after the scheme.
pub uninterp spec fn spec_has_authority(u: url::Url) -> bool;

/// What `url::Url::set_host` makes of a host string offered for a url whose
/// scheme is `scheme`: the serialization of the freshly parsed host when the
/// string is accepted, nothing when it is rejected.
pub uninterp spec fn spec_host_parse(scheme: Seq<char>, host: Seq<char>) -> Option<Seq<char>>;

/// Whether `url::Url::parse` accepts this string as an absolute url.
pub uninterp spec fn spec_url_parses(s: Seq<char>) -> bool;

/// The scheme of the url that `url::Url::parse` yields for this string,
/// where it accepts it.
pub uninterp spec fn parsed_scheme(s: Seq<char>) -> Seq<char>;

/// The host of the url that `url::Url::parse` yields for this string, where
/// it accepts it.
pub uninterp spec fn parsed_host(s: Seq<char>) -> Option<Seq<char>>;

/// The explicit port of the url that `url::Url::parse` yields for this
/// string, where it accepts it.
pub uninterp spec fn parsed_port(s: Seq<char>) -> Option<u16>;

/// The path of the url that `url::Url::parse` yields for this string, where
/// it accepts it.
pub uninterp spec fn parsed_path(s: Seq<char>) -> Seq<char>;

/// The query of the url that `url::Url::parse` yields for this string,
/// where it accepts it.
pub uninterp spec fn parsed_query(s: Seq<char>) -> Option<Seq<char>>;

/// A character that may occur in a scheme after its first letter.
pub open spec fn scheme_char(c: char) -> bool {
    ('a' <= c && c <= 'z') || ('0' <= c && c <= '9') || c == '+' || c == '-' || c == '.'
}

/// A well-formed scheme as the `url` crate stores it: non-empty, a lower-case
/// ASCII letter first, then letters, digits, `+`, `-` and `.`.
pub open spec fn scheme_ok(s: Seq<char>) -> bool {
    &&& s.len() > 0
    &&& 'a' <= s[0] && s[0] <= 'z'
    &&& forall|i: int| 0 <= i < s.len() ==> scheme_char(#[trigger] s[i])
}

/// The special schemes of the whatwg url standard.
pub open spec fn is_special_scheme(s: Seq<char>) -> bool {
    ||| s == "http"@
    ||| s == "https"@
    ||| s == "ws"@
    ||| s == "wss"@
    ||| s == "ftp"@
    ||| s == "file"@
}

/// The well-known default port of a scheme, which a url never keeps
/// explicitly.
pub open spec fn spec_default_port(s: Seq<char>) -> Option<u16> {
    if s == "http"@ || s == "ws"@ {
        Some(80u16)
    } else if s == "https"@ || s == "wss"@ {
        Some(443u16)
    } else if s == "ftp"@ {
        Some(21u16)
    } else {
        None
    }
}

/// Relies on url::Url::scheme: the scheme, lower-cased ASCII without the
/// `:` delimiter, which always has the well-formed scheme shape. A url with
/// a special scheme other than `file` always carries a host: the parser
/// refuses an empty or missing one, `set_host` refuses to take it away, and
/// `set_scheme` refuses to put such a scheme on a url without one.
#[verifier::external_body]
fn url_scheme(u: &url::Url) -> (r: String)
    ensures
        r@ == spec_scheme(*u),
        scheme_ok(r@),
        (is_special_scheme(r@) && r@ != "file"@) ==> (spec_host(*u) matches Some(h) && h.len()
            > 0),
{
    u.scheme().to_string()
}

/// Relies on url::Url::host_str: the serialization of the url's host, if it
/// has one. The serialization is never empty (an empty host is stored as no
/// host at all), and it re-parses to itself under any scheme of the same
/// specialness: an IDNA-normalized domain, a normalized IP address and a
/// percent-encoded opaque host are each fixed points of their parser, and
/// brackets mark an IPv6 address on both sides.
#[verifier::external_body]
fn url_host_str(u: &url::Url) -> (r: Option<String>)
    ensures
        match r {
            Some(h) => spec_host(*u) == Some(h@) && h@.len() > 0 && (forall|s: Seq<char>|
                is_special_scheme(s) == is_special_scheme(spec_scheme(*u))
                    ==> #[trigger] spec_host_parse(s, h@) == Some(h@)),
            None => spec_host(*u) is None,
        },
{
    match u.host_str() {
        Some(h) => Some(h.to_string()),
        None => None,
    }
}

/// Relies on url::Url::path: the url's percent-encoded path.
#[verifier::external_body]
pub fn url_path(u: &url::Url) -> (r: String)
    ensures
        r@ == spec_path(*u),
{
    u.path().to_string()
}

/// Relies on url::Url::query: the url's percent-encoded query string, if
/// any, without the `?` delimiter.
#[verifier::external_body]
pub fn url_query(u: &url::Url) -> (r: Option<String>)
    ensures
        match r {
            Some(q) => spec_query(*u) == Some(q@),
            None => spec_query(*u) is None,
        },
{
    match u.query() {
        Some(q) => Some(q.to_string()),
        None => None,
    }
}

/// Relies on url::Url::port: the explicit port; a port equal to the scheme's
/// well-known default is never kept, so none is returned for it.
#[verifier::external_body]
fn url_port(u: &url::Url) -> (r: Option<u16>)
    ensures
        r == spec_port(*u),
        match r {
            Some(p) => Some(p) != spec_default_port(spec_scheme(*u)),
            None => true,
        },
{
    u.port()
}

/// Relies on url::Url::has_authority: whether the serialization carries a
/// `//` authority part after the scheme.
#[verifier::external_body]
fn url_has_authority(u: &url::Url) -> (r: bool)
    ensures
        r == spec_has_authority(*u),
{
    u.has_authority()
}

/// Relies on url::Url::set_host with a non-empty host string: it refuses a
/// cannot-be-a-base url, then parses the string under the url's current
/// scheme; when the host is accepted its serialization, never empty for a
/// non-empty string (an empty domain is refused outright and a non-empty
/// opaque host percent-encodes to a non-empty one), replaces the old host,
/// the url then carries an authority, and every other component stays. When
/// the call is refused the url is left as it was.
#[verifier::external_body]
fn url_set_host(u: &mut url::Url, host: &str) -> (r: Result<(), url::ParseError>)
    requires
        host@.len() > 0,
    ensures
        r is Ok <==> (!spec_cannot_be_a_base(*old(u)) && spec_host_parse(
            spec_scheme(*old(u)),
            host@,
        ) is Some),
        r is Ok ==> spec_host(*final(u)) == spec_host_parse(spec_scheme(*old(u)), host@),
        r is Ok ==> (spec_host(*final(u)) matches Some(h) && h.len() > 0),
        r is Ok ==> spec_scheme(*final(u)) == spec_scheme(*old(u)),
        r is Ok ==> spec_port(*final(u)) == spec_port(*old(u)),
        r is Ok ==> spec_path(*final(u)) == spec_path(*old(u)),
        r is Ok ==> spec_query(*final(u)) == spec_query(*old(u)),
        r is Ok ==> spec_fragment(*final(u)) == spec_fragment(*old(u)),
        r is Ok ==> spec_username(*final(u)) == spec_username(*old(u)),
        r is Ok ==> spec_password(*final(u)) == spec_password(*old(u)),
        r is Ok ==> !spec_cannot_be_a_base(*final(u)),
        r is Ok ==> spec_has_authority(*final(u)),
        r is Err ==> *final(u) == *old(u),
{
    u.set_host(Some(host))
}

/// The port a url is left with when its scheme is swapped: the `url` crate
/// re-checks the port against the new scheme, dropping it when it is the new
/// scheme's default, but leaves it alone on a url whose port it could not
/// touch (no host, an empty host, or the `file` scheme).
pub open spec fn port_after_scheme_swap(
    host: Option<Seq<char>>,
    port: Option<u16>,
    scheme: Seq<char>,
) -> Option<u16> {
    if host is None || host == Some(Seq::<char>::empty()) || scheme == "file"@ {
        port
    } else if port is Some && port == spec_default_port(scheme) {
        None
    } else {
        port
    }
}

/// Relies on url::Url::set_scheme: offered a well-formed lower-case scheme,
/// it succeeds exactly when the swap keeps special and non-special urls
/// apart, does not move a url that has an authority to `file`, and does not
/// put a special scheme on a url without a host. On success only the scheme
/// changes, except that a port equal to the new scheme's default is dropped;
/// on failure the url is left as it was.
#[verifier::external_body]
fn url_set_scheme(u: &mut url::Url, scheme: &str) -> (r: Result<(), ()>)
    requires
        scheme_ok(scheme@),
    ensures
        r is Ok <==> (is_special_scheme(scheme@) == is_special_scheme(spec_scheme(*old(u)))
            && !(scheme@ == "file"@ && spec_has_authority(*old(u))) && (spec_host(
            *old(u),
        ) is Some || !is_special_scheme(scheme@))),
        r is Ok ==> spec_scheme(*final(u)) == scheme@,
        r is Ok ==> spec_host(*final(u)) == spec_host(*old(u)),
        r is Ok ==> spec_port(*final(u)) == port_after_scheme_swap(
            spec_host(*old(u)),
            spec_port(*old(u)),
            scheme@,
        ),
        r is Ok ==> spec_path(*final(u)) == spec_path(*old(u)),
        r is Ok ==> spec_query(*final(u)) == spec_query(*old(u)),
        r is Ok ==> spec_fragment(*final(u)) == spec_fragment(*old(u)),
        r is Ok ==> spec_username(*final(u)) == spec_username(*old(u)),
        r is Ok ==> spec_password(*final(u)) == spec_password(*old(u)),
        r is Ok ==> spec_cannot_be_a_base(*final(u)) == spec_cannot_be_a_base(*old(u)),
        r is Ok ==> spec_has_authority(*final(u)) == spec_has_authority(*old(u)),
        r is Err ==> *final(u) == *old(u),
{
    u.set_scheme(scheme)
}

/// Relies on url::Url::set_port with a port: it refuses a url without a
/// host, with an empty host, or with the `file` scheme, and otherwise
/// installs the port, dropping it instead when it is the scheme's well-known
/// default; on failure the url is left as it was.
#[verifier::external_body]
fn url_set_port(u: &mut url::Url, port: u16) -> (r: Result<(), ()>)
    ensures
        r is Ok <==> !(spec_host(*old(u)) is None || spec_host(*old(u)) == Some(
            Seq::<char>::empty(),
        ) || spec_scheme(*old(u)) == "file"@),
        r is Ok ==> spec_port(*final(u)) == (if Some(port) == spec_default_port(
            spec_scheme(*old(u)),
        ) {
            None::<u16>
        } else {
            Some(port)
        }),
        r is Ok ==> spec_scheme(*final(u)) == spec_scheme(*old(u)),
        r is Ok ==> spec_host(*final(u)) == spec_host(*old(u)),
        r is Ok ==> spec_path(*final(u)) == spec_path(*old(u)),
        r is Ok ==> spec_query(*final(u)) == spec_query(*old(u)),
        r is Ok ==> spec_fragment(*final(u)) == spec_fragment(*old(u)),
        r is Ok ==> spec_username(*final(u)) == spec_username(*old(u)),
        r is Ok ==> spec_password(*final(u)) == spec_password(*old(u)),
        r is Ok ==> spec_cannot_be_a_base(*final(u)) == spec_cannot_be_a_base(*old(u)),
        r is Ok ==> spec_has_authority(*final(u)) == spec_has_authority(*old(u)),
        r is Err ==> *final(u) == *old(u),
{
    u.set_port(Some(port))
}

/// Relies on url::Url::parse: what an absolute url string parses to, and
/// whether it parses at all, are functions of the string alone; the
/// components of the parsed url carry the names above.
#[verifier::external_body]
fn url_parse(s: &str) -> (r: Result<url::Url, url::ParseError>)
    ensures
        r is Ok <==> spec_url_parses(s@),
        r matches Ok(u) ==> spec_scheme(u) == parsed_scheme(s@),
        r matches Ok(u) ==> spec_host(u) == parsed_host(s@),
        r matches Ok(u) ==> spec_port(u) == parsed_port(s@),
        r matches Ok(u) ==> spec_path(u) == parsed_path(s@),
        r matches Ok(u) ==> spec_query(u) == parsed_query(s@),
{
    url::Url::parse(s)
}

/// The inputs on which swapping the authority of `src` for that of `dest`
/// cannot trip over the scheme assignment, and on which `dest`'s explicit
/// port comes with a host to follow: the two schemes are special together
/// or not at all, `dest` does not drag `src` onto the `file` scheme or onto
/// a special scheme without a host, and `dest` does not carry a port
/// without a host. Outside the first three the scheme assignment is refused
/// by the `url` crate; outside the last a port could come from nowhere a
/// parsed url can put it.
pub open spec fn swap_allowed(src: url::Url, dest: url::Url) -> bool {
    &&& is_special_scheme(spec_scheme(dest)) == is_special_scheme(spec_scheme(src))
    &&& match spec_host(dest) {
        Some(_) => spec_scheme(dest) != "file"@,
        None => !(spec_scheme(dest) == "file"@ && spec_has_authority(src)) && (spec_host(
            src,
        ) is Some || !is_special_scheme(spec_scheme(dest))),
    }
    &&& spec_port(dest) is Some ==> spec_host(dest) is Some
}

/// The port the rewritten url ends up with: `dest`'s explicit port where
/// `dest` gives one, and otherwise `src`'s port, except that a port equal
/// to `dest`'s scheme's default is dropped once `dest`'s host is installed.
pub open spec fn replaced_port(src: url::Url, dest: url::Url) -> Option<u16> {
    match spec_port(dest) {
        Some(p) => Some(p),
        None => if spec_host(dest) is Some && spec_port(src) is Some && spec_port(src)
            == spec_default_port(spec_scheme(dest)) {
            None
        } else {
            spec_port(src)
        },
    }
}

/// Swaps host, scheme and port of the dest into the target while preserving
/// the remaining path and query semantics. The host is swapped first, then
/// the scheme, then the port; it fails only when the new host is rejected
/// for the source url, that is exactly when `src` is cannot-be-a-base.
pub fn replace_host(src: url::Url, dest: url::Url) -> (r: Result<url::Url, url::ParseError>)
    requires
        swap_allowed(src, dest),
    ensures
        r is Err <==> (spec_host(dest) is Some && spec_cannot_be_a_base(src)),
        r matches Ok(out) ==> spec_scheme(out) == spec_scheme(dest),
        r matches Ok(out) ==> spec_host(out) == (match spec_host(dest) {
            Some(h) => Some(h),
            None => spec_host(src),
        }),
        r matches Ok(out) ==> spec_port(out) == replaced_port(src, dest),
        r matches Ok(out) ==> spec_path(out) == spec_path(src),
        r matches Ok(out) ==> spec_query(out) == spec_query(src),
        r matches Ok(out) ==> spec_fragment(out) == spec_fragment(src),
        r matches Ok(out) ==> spec_username(out) == spec_username(src),
        r matches Ok(out) ==> spec_password(out) == spec_password(src),
        r matches Ok(out) ==> (spec_host(dest) is Some ==> !spec_cannot_be_a_base(out)
            && spec_has_authority(out)),
        r matches Ok(out) ==> (spec_host(dest) is None ==> spec_cannot_be_a_base(out)
            == spec_cannot_be_a_base(src) && spec_has_authority(out) == spec_has_authority(src)),
{
    let mut out = src;
    match url_host_str(&dest) {
        None => {},
        Some(host) => {
            match url_set_host(&mut out, host.as_str()) {
                Ok(()) => {},
                Err(err) => {
                    return Err(err);
                },
            }
        },
    }
    let scheme = url_scheme(&dest);
    match url_set_scheme(&mut out, scheme.as_str()) {
        Ok(()) => {},
        Err(()) => {
            // ruled out by `swap_allowed`
            proof {
                assert(false);
            }
            return Ok(out);
        },
    }
    match url_port(&dest) {
        None => {},
        Some(port) => {
            match url_set_port(&mut out, port) {
                Ok(()) => {},
                Err(()) => {},
            }
        },
    }
    Ok(out)
}

/// Decides at run time whether `replace_host` accepts this pair of urls:
/// true exactly on the inputs that `swap_allowed` describes.
pub fn can_replace_host(src: &url::Url, dest: &url::Url) -> (b: bool)
    ensures
        b == swap_allowed(*src, *dest),
{
    let src_scheme = url_scheme(src);
    let dest_scheme = url_scheme(dest);
    let file_scheme = String::from_str("file");
    let dest_is_file = dest_scheme == file_scheme;
    if scheme_is_special(&dest_scheme) != scheme_is_special(&src_scheme) {
        return false;
    }
    let scheme_part = match url_host_str(dest) {
        Some(_) => !dest_is_file,
        None => !(dest_is_file && url_has_authority(src)) && (url_host_str(src).is_some()
            || !scheme_is_special(&dest_scheme)),
    };
    let port_part = match url_port(dest) {
        Some(_) => url_host_str(dest).is_some(),
        None => true,
    };
    scheme_part && port_part
}

/// Whether this scheme is one of the special schemes of the whatwg url
/// standard.
fn scheme_is_special(s: &String) -> (b: bool)
    ensures
        b == is_special_scheme(s@),
{
    *s == String::from_str("http") || *s == String::from_str("https") || *s == String::from_str(
        "ws",
    ) || *s == String::from_str("wss") || *s == String::from_str("ftp") || *s == String::from_str(
        "file",
    )
}

#[derive(Debug)]
/// The set of error types which all service types should be able to represent
pub enum Error {
    /// Base URL failed to parse
    UrlParseFailed(url::ParseError),
    /// Tried to replace a Url host with the test double's base but failed
    UrlBaseReplacementError(url::ParseError),
}

/// Wraps a call to Url::parse, reporting a failed parse as the library's own
/// error.
pub fn parse_url(url_str: &str) -> (r: Result<url::Url, Error>)
    ensures
        r is Ok <==> spec_url_parses(url_str@),
        r matches Ok(u) ==> spec_scheme(u) == parsed_scheme(url_str@),
        r matches Ok(u) ==> spec_host(u) == parsed_host(url_str@),
        r matches Ok(u) ==> spec_port(u) == parsed_port(url_str@),
        r matches Ok(u) ==> spec_path(u) == parsed_path(url_str@),
        r matches Ok(u) ==> spec_query(u) == parsed_query(url_str@),
        r matches Err(e) ==> e is UrlParseFailed,
{
    match url_parse(url_str) {
        Ok(u) => Ok(u),
        Err(err) => Err(Error::UrlParseFailed(err)),
    }
}

/// Rewrites an already parsed url so that it points at the base url's
/// authority while keeping its own path and query: the test-double mode
/// layers this step in front of url parsing, with the base supplied at run
/// time. A rejected rewrite is reported as a base replacement error.
pub fn rewrite_to_base(src: url::Url, base: url::Url) -> (r: Result<url::Url, Error>)
    requires
        swap_allowed(src, base),
    ensures
        r is Err <==> (spec_host(base) is Some && spec_cannot_be_a_base(src)),
        r matches Err(e) ==> e is UrlBaseReplacementError,
        r matches Ok(out) ==> spec_scheme(out) == spec_scheme(base),
        r matches Ok(out) ==> spec_host(out) == (match spec_host(base) {
            Some(h) => Some(h),
            None => spec_host(src),
        }),
        r matches Ok(out) ==> spec_port(out) == replaced_port(src, base),
        r matches Ok(out) ==> spec_path(out) == spec_path(src),
        r matches Ok(out) ==> spec_query(out) == spec_query(src),
        r matches Ok(out) ==> spec_fragment(out) == spec_fragment(src),
        r matches Ok(out) ==> spec_username(out) == spec_username(src),
        r matches Ok(out) ==> spec_password(out) == spec_password(src),
{
    match replace_host(src, base) {
        Ok(out) => Ok(out),
        Err(err) => Err(Error::UrlBaseReplacementError(err)),
    }
}

} // verus!


