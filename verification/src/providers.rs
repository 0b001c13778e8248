//! The closed set of supported shortening services: per-provider request
//! building, response decoding, the provider names, and the default
//! priority order.

use vstd::prelude::*;

use crate::encode::{form_urlencoded_of, serialized_char, urlencode};
use crate::request::{ContentType, Method, Request, RequestModel, UserAgent};
use crate::strutil::{
    find, match_at, strip_backslashes, find_sub, rfind, rfind_sub, strip_backslashes_exec,
    lemma_find_from_characterization,
};

verus! {

/// A failure reported back to the caller of the library.
///
/// Exactly two kinds are distinguished: the transport never produced a
/// readable body ([`ProviderError::Connection`]), or the body was obtained
/// but lacked the structural marker the selected provider was expected to
/// emit ([`ProviderError::Deserialize`]).
#[derive(Debug, Copy, Clone, Eq, PartialEq, Ord, PartialOrd, Hash, Structural)]
pub enum ProviderError {
    /// A connection problem: the request could not be executed, timed out,
    /// or its response body could not be read as text.
    Connection,
    /// The response body did not contain the expected structural marker.
    Deserialize,
}

impl ProviderError {
    /// A human-readable description of the error.
    pub fn message(&self) -> (m: &'static str)
        ensures
            m@ == spec_error_message(*self),
            m@.len() > 0,
    {
        proof {
            reveal_strlit("A connection problem occured when connecting to a provided.");
            reveal_strlit("Couldn't deserialize the shortened URL from the response.");
        }
        match *self {
            ProviderError::Connection => {
                "A connection problem occured when connecting to a provided."
            },
            ProviderError::Deserialize => {
                "Couldn't deserialize the shortened URL from the response."
            },
        }
    }
}

/// What [`ProviderError::message`] returns for each error kind.
pub open spec fn spec_error_message(e: ProviderError) -> Seq<char> {
    match e {
        ProviderError::Connection => {
            "A connection problem occured when connecting to a provided."@
        },
        ProviderError::Deserialize => {
            "Couldn't deserialize the shortened URL from the response."@
        },
    }
}

/// Selects which shortening service a request is built for and how its
/// answer is decoded.
///
/// The set is closed: every dispatch over it is an exhaustive `match`, so a
/// new variant cannot be added without extending each of them.  Three
/// variants carry the caller's authentication material; `Kutt` may also name
/// a self-hosted instance.
#[derive(Clone, Debug)]
pub enum Provider {
    /// <http://abv8.me> provider.
    Abv8,
    /// <https://bam.bz> provider.
    BamBz,
    /// <https://bit.ly> provider.
    BitLy {
        /// A token string which you may obtain on the provider web service page.
        token: String,
    },
    /// <https://biturl.top> provider.
    BitUrl,
    /// <http://bmeo.org> provider.
    Bmeo,
    /// <http://fifo.cc> provider.
    FifoCc,
    /// <https://goo.gl> provider of Google.
    GooGl {
        /// An api key string which you may obtain on the provider web service page.
        api_key: String,
    },
    /// <https://kutt.it> provider, can be self hosted.
    Kutt {
        /// An api key string which you may obtain on the provider web service page.
        api_key: String,
        /// The api host, defaults to <https://kutt.it>.
        host: Option<String>,
    },
    /// <https://hec.su> provider.
    HecSu,
    /// <http://hmm.rs> provider.
    HmmRs,
    /// <https://is.gd> provider.
    IsGd,
    /// <http://nowlinks.net> provider.
    NowLinks,
    /// <http://phx.co.in> provider.
    PhxCoIn,
    /// <http://psbe.co> provider.
    PsbeCo,
    /// <http://s.coop> provider.
    SCoop,
    /// <http://rlu.ru> provider.
    Rlu,
    /// <http://sirbz.com> provider.
    SirBz,
    /// <http://tinyurl.com> provider.
    TinyUrl,
    /// <http://tiny.ph> provider.
    TinyPh,
    /// <http://tny.im> provider.
    TnyIm,
    /// <http://url-shortener.io> provider.
    UrlShortenerIo,
    /// <https://v.gd> provider.
    VGd,
}

/// Whether a provider carries caller-supplied authentication material.
/// Such providers never stand in the default priority list.
pub open spec fn requires_auth(p: Provider) -> bool {
    match p {
        Provider::BitLy { .. } => true,
        Provider::GooGl { .. } => true,
        Provider::Kutt { .. } => true,
        _ => false,
    }
}

/// The reported name of a `Kutt` provider with a configured host: the
/// text after the last `//` of the host, or the whole host when it has
/// none.
pub open spec fn kutt_name(host: Seq<char>) -> Seq<char> {
    match rfind(host, "//"@) {
        Some(i) => host.subrange(i + "//"@.len(), host.len() as int),
        None => host,
    }
}

/// The domain name each provider variant reports.
pub open spec fn spec_to_name(p: Provider) -> Seq<char> {
    match p {
        Provider::Abv8 => "abv8.me"@,
        Provider::BamBz => "bam.bz"@,
        Provider::BitLy { .. } => "bitly.com"@,
        Provider::BitUrl => "biturl.top"@,
        Provider::Bmeo => "bmeo.org"@,
        Provider::FifoCc => "fifo.cc"@,
        Provider::GooGl { .. } => "goo.gl"@,
        Provider::HmmRs => "hmm.rs"@,
        Provider::HecSu => "hec.su"@,
        Provider::IsGd => "is.gd"@,
        Provider::Kutt { host, .. } => match host {
            Some(h) => kutt_name(h@),
            None => "kutt.it"@,
        },
        Provider::NowLinks => "nowlinks.net"@,
        Provider::PhxCoIn => "phx.co.in"@,
        Provider::PsbeCo => "psbe.co"@,
        Provider::SCoop => "s.coop"@,
        Provider::SirBz => "sirbz.com"@,
        Provider::Rlu => "rlu.ru"@,
        Provider::TinyUrl => "tinyurl.com"@,
        Provider::TinyPh => "tiny.ph"@,
        Provider::TnyIm => "tny.im"@,
        Provider::UrlShortenerIo => "url-shortener.io"@,
        Provider::VGd => "v.gd"@,
    }
}

impl Provider {
    /// Converts the Provider variant into its domain name equivalent.
    pub fn to_name(&self) -> (r: &str)
        ensures
            r@ == spec_to_name(*self),
    {
        match self {
            Provider::Abv8 => "abv8.me",
            Provider::BamBz => "bam.bz",
            Provider::BitLy { .. } => "bitly.com",
            Provider::BitUrl => "biturl.top",
            Provider::Bmeo => "bmeo.org",
            Provider::FifoCc => "fifo.cc",
            Provider::GooGl { .. } => "goo.gl",
            Provider::HmmRs => "hmm.rs",
            Provider::HecSu => "hec.su",
            Provider::IsGd => "is.gd",
            Provider::Kutt { host, .. } => match host {
                Some(h) => {
                    let hs: &str = h.as_str();
                    proof {
                        reveal_strlit("//");
                    }
                    match rfind_sub(hs, "//") {
                        Some(i) => {
                            let hlen = hs.unicode_len();
                            proof {
                                reveal_strlit("//");
                                assert(i + "//"@.len() <= hs@.len());
                            }
                            hs.substring_char(i + 2, hlen)
                        },
                        None => hs,
                    }
                },
                None => "kutt.it",
            },
            Provider::NowLinks => "nowlinks.net",
            Provider::PhxCoIn => "phx.co.in",
            Provider::PsbeCo => "psbe.co",
            Provider::SCoop => "s.coop",
            Provider::SirBz => "sirbz.com",
            Provider::Rlu => "rlu.ru",
            Provider::TinyUrl => "tinyurl.com",
            Provider::TinyPh => "tiny.ph",
            Provider::TnyIm => "tny.im",
            Provider::UrlShortenerIo => "url-shortener.io",
            Provider::VGd => "v.gd",
        }
    }
}

/// The default priority order: every auth-free provider, best first.
///
/// Providers that are rate limited, show previews, or lack a stable API
/// stand at the tail.  The three variants that carry authentication
/// material are never in this list; they must be chosen explicitly.
pub open spec fn spec_default_providers() -> Seq<Provider> {
    seq![
        Provider::IsGd,
        Provider::VGd,
        Provider::BamBz,
        Provider::TinyPh,
        Provider::FifoCc,
        Provider::SCoop,
        Provider::Bmeo,
        Provider::UrlShortenerIo,
        Provider::HmmRs,
        Provider::BitUrl,
        Provider::TnyIm,
        Provider::SirBz,
        Provider::Rlu,
        Provider::HecSu,
        Provider::Abv8,
        Provider::TinyUrl,
        Provider::PsbeCo,
        Provider::NowLinks,
    ]
}

/// All `Provider` variants which do not require authentication, in order
/// of provider quality: the default order [`crate::client::try_generate_with`]
/// walks.
pub fn default_providers() -> (r: Vec<Provider>)
    ensures
        r@ == spec_default_providers(),
{
    let mut v: Vec<Provider> = Vec::new();
    v.push(Provider::IsGd);
    v.push(Provider::VGd);
    v.push(Provider::BamBz);
    v.push(Provider::TinyPh);
    v.push(Provider::FifoCc);
    v.push(Provider::SCoop);
    v.push(Provider::Bmeo);
    v.push(Provider::UrlShortenerIo);
    v.push(Provider::HmmRs);
    v.push(Provider::BitUrl);
    v.push(Provider::TnyIm);
    v.push(Provider::SirBz);
    v.push(Provider::Rlu);
    v.push(Provider::HecSu);
    v.push(Provider::Abv8);
    v.push(Provider::TinyUrl);
    v.push(Provider::PsbeCo);
    v.push(Provider::NowLinks);
    proof {
        assert(v@ =~= spec_default_providers());
    }
    v
}

/// How the answer of one provider is decoded into a short URL.
pub enum ParserKind {
    /// The body is the short URL, verbatim.
    Identity,
    /// The text between the first `<tag>` and the next `</tag>`.
    XmlTag(Seq<char>),
    /// The first quoted string of the comma-delimited segment after the
    /// first `"key"`, backslashes removed, behind a fixed prefix: the key
    /// and the prefix.
    JsonTag(Seq<char>, Seq<char>),
    /// The text between `data-clipboard-text="` and the next `">`.
    HtmlAttr,
}

/// Which decoder each provider's answer goes through.
pub open spec fn parser_of(p: Provider) -> ParserKind {
    match p {
        Provider::Abv8 => ParserKind::Identity,
        Provider::BamBz => ParserKind::JsonTag("url"@, ""@),
        Provider::BitLy { .. } => ParserKind::Identity,
        Provider::BitUrl => ParserKind::JsonTag("short"@, ""@),
        Provider::Bmeo => ParserKind::JsonTag("short"@, ""@),
        Provider::FifoCc => ParserKind::JsonTag("shortner"@, "http://fifo.cc/"@),
        Provider::GooGl { .. } => ParserKind::JsonTag("id"@, ""@),
        Provider::Kutt { .. } => ParserKind::JsonTag("shortUrl"@, ""@),
        Provider::HecSu => ParserKind::XmlTag("short"@),
        Provider::HmmRs => ParserKind::JsonTag("shortUrl"@, ""@),
        Provider::IsGd => ParserKind::Identity,
        Provider::NowLinks => ParserKind::Identity,
        Provider::PhxCoIn => ParserKind::Identity,
        Provider::PsbeCo => ParserKind::XmlTag("ShortUrl"@),
        Provider::SCoop => ParserKind::Identity,
        Provider::Rlu => ParserKind::Identity,
        Provider::SirBz => ParserKind::JsonTag("short_link"@, ""@),
        Provider::TinyUrl => ParserKind::HtmlAttr,
        Provider::TinyPh => ParserKind::JsonTag("hash"@, "http://tiny.ph/"@),
        Provider::TnyIm => ParserKind::XmlTag("shorturl"@),
        Provider::UrlShortenerIo => ParserKind::Identity,
        Provider::VGd => ParserKind::Identity,
    }
}

/// The opening marker of an XML-tag extraction.
pub open spec fn xml_open(tag: Seq<char>) -> Seq<char> {
    "<"@ + tag + ">"@
}

/// The closing marker of an XML-tag extraction.
pub open spec fn xml_close(tag: Seq<char>) -> Seq<char> {
    "</"@ + tag + ">"@
}

/// The opening marker of the HTML-attribute extraction.
pub open spec fn html_open() -> Seq<char> {
    "data-clipboard-text=\""@
}

/// The closing marker of the HTML-attribute extraction.
pub open spec fn html_close() -> Seq<char> {
    "\">"@
}

/// The text after the first occurrence of `open` and before the next
/// occurrence of `close`; `None` when either marker is absent.
pub open spec fn between_extract(body: Seq<char>, open: Seq<char>, close: Seq<char>) -> Option<
    Seq<char>,
> {
    match find(body, open) {
        None => None,
        Some(i) => {
            let rest = body.subrange(i + open.len(), body.len() as int);
            match find(rest, close) {
                None => None,
                Some(j) => Some(rest.subrange(0, j)),
            }
        },
    }
}

/// The value extracted for a JSON-tag decoder with the given key and
/// prefix: locate the first `"key"`, keep the segment before the next
/// comma, take the text after the first quote of the segment up to its
/// next quote (or the segment's end), strip backslashes, and put the
/// prefix in front.  `None` when `"key"` is absent or the segment holds
/// no quote.
pub open spec fn json_extract(body: Seq<char>, key: Seq<char>, prefix: Seq<char>) -> Option<
    Seq<char>,
> {
    let pat = "\""@ + key + "\""@;
    match find(body, pat) {
        None => None,
        Some(i) => {
            let rest = body.subrange(i + pat.len(), body.len() as int);
            let seg = match find(rest, ","@) {
                Some(c) => rest.subrange(0, c),
                None => rest,
            };
            match find(seg, "\""@) {
                None => None,
                Some(q1) => {
                    let after = seg.subrange(q1 + 1, seg.len() as int);
                    let v = match find(after, "\""@) {
                        Some(q2) => after.subrange(0, q2),
                        None => after,
                    };
                    Some(prefix + strip_backslashes(v))
                },
            }
        },
    }
}

/// What the decoder of provider `p` extracts from `body`, if anything.
pub open spec fn spec_extract(body: Seq<char>, p: Provider) -> Option<Seq<char>> {
    match parser_of(p) {
        ParserKind::Identity => Some(body),
        ParserKind::XmlTag(tag) => between_extract(body, xml_open(tag), xml_close(tag)),
        ParserKind::JsonTag(key, prefix) => json_extract(body, key, prefix),
        ParserKind::HtmlAttr => between_extract(body, html_open(), html_close()),
    }
}

/// What [`parse`] returns: the extracted short URL, or `Deserialize` when
/// the expected structural marker is missing from the body.
pub open spec fn spec_parse(body: Seq<char>, p: Provider) -> Result<Seq<char>, ProviderError> {
    match spec_extract(body, p) {
        Some(s) => Ok(s),
        None => Err(ProviderError::Deserialize),
    }
}

/// The executable result `r` carries exactly the modeled result `m`.
pub open spec fn res_models(r: Result<String, ProviderError>, m: Result<Seq<char>, ProviderError>) -> bool {
    match r {
        Ok(s) => m == Ok::<Seq<char>, ProviderError>(s@),
        Err(e) => m == Err::<Seq<char>, ProviderError>(e),
    }
}

/// The text after the first occurrence of `open` and before the next
/// occurrence of `close`.
fn between_parse(res: &str, open: &str, close: &str) -> (r: Option<String>)
    ensures
        match r {
            Some(s) => between_extract(res@, open@, close@) == Some(s@),
            None => between_extract(res@, open@, close@) is None,
        },
{
    match find_sub(res, open) {
        None => None,
        Some(i) => {
            proof {
                lemma_find_from_characterization(res@, open@, 0);
            }
            let olen = open.unicode_len();
            let rlen = res.unicode_len();
            let rest = res.substring_char(i + olen, rlen);
            match find_sub(rest, close) {
                None => None,
                Some(j) => {
                    proof {
                        lemma_find_from_characterization(rest@, close@, 0);
                    }
                    Some(rest.substring_char(0, j).to_owned())
                },
            }
        },
    }
}

/// Decodes an XML-tag answer: the text between `<tag>` and `</tag>`.
fn parse_xml_tag(res: &str, tag: &str) -> (r: Option<String>)
    ensures
        match r {
            Some(s) => between_extract(res@, xml_open(tag@), xml_close(tag@)) == Some(s@),
            None => between_extract(res@, xml_open(tag@), xml_close(tag@)) is None,
        },
{
    let mut open = String::from_str("<");
    open.append(tag);
    open.append(">");
    let mut close = String::from_str("</");
    close.append(tag);
    close.append(">");
    proof {
        assert(open@ =~= xml_open(tag@));
        assert(close@ =~= xml_close(tag@));
    }
    between_parse(res, open.as_str(), close.as_str())
}

/// Decodes the TinyUrl result page: the text of the copy-to-clipboard
/// attribute.
fn tinyurl_parse(res: &str) -> (r: Option<String>)
    ensures
        match r {
            Some(s) => between_extract(res@, html_open(), html_close()) == Some(s@),
            None => between_extract(res@, html_open(), html_close()) is None,
        },
{
    between_parse(res, "data-clipboard-text=\"", "\">")
}

/// Decodes a JSON-tag answer for the given key, prepending `prefix`.
fn parse_json_tag(res: &str, tag: &str, prefix: &str) -> (r: Option<String>)
    ensures
        match r {
            Some(s) => json_extract(res@, tag@, prefix@) == Some(s@),
            None => json_extract(res@, tag@, prefix@) is None,
        },
{
    let mut pat = String::from_str("\"");
    pat.append(tag);
    pat.append("\"");
    proof {
        assert(pat@ =~= "\""@ + tag@ + "\""@);
    }
    match find_sub(res, pat.as_str()) {
        None => None,
        Some(i) => {
            proof {
                lemma_find_from_characterization(res@, pat@, 0);
            }
            let plen = pat.as_str().unicode_len();
            let rlen = res.unicode_len();
            let rest = res.substring_char(i + plen, rlen);
            let seg = match find_sub(rest, ",") {
                Some(c) => {
                    proof {
                        lemma_find_from_characterization(rest@, ","@, 0);
                    }
                    rest.substring_char(0, c)
                },
                None => rest,
            };
            match find_sub(seg, "\"") {
                None => None,
                Some(q1) => {
                    proof {
                        lemma_find_from_characterization(seg@, "\""@, 0);
                        reveal_strlit("\"");
                    }
                    let slen = seg.unicode_len();
                    let after = seg.substring_char(q1 + 1, slen);
                    let v = match find_sub(after, "\"") {
                        Some(q2) => {
                            proof {
                                lemma_find_from_characterization(after@, "\""@, 0);
                            }
                            after.substring_char(0, q2)
                        },
                        None => after,
                    };
                    let stripped = strip_backslashes_exec(v);
                    let mut out = String::from_str(prefix);
                    out.append(stripped.as_str());
                    Some(out)
                },
            }
        },
    }
}

/// A character that may stand in a request URL: a visible ASCII
/// character.  Spaces, control characters and anything beyond ASCII must
/// have been percent-encoded away.
pub open spec fn url_char(c: char) -> bool {
    '!' <= c <= '~'
}

/// Every character of `s` may stand in a request URL.
pub open spec fn url_chars(s: Seq<char>) -> bool {
    forall|i: int| 0 <= i < s.len() ==> url_char(s[i])
}

/// A syntactically valid absolute URL, as far as this library promises
/// one: an `http://` or `https://` scheme, a non-empty remainder, and
/// visible ASCII characters throughout.
pub open spec fn valid_absolute_url(s: Seq<char>) -> bool {
    &&& url_chars(s)
    &&& {
        ||| (match_at(s, "http://"@, 0) && s.len() > "http://"@.len())
        ||| (match_at(s, "https://"@, 0) && s.len() > "https://"@.len())
    }
}

/// The caller-supplied configuration of `p` can stand in a request URL:
/// authentication material is made of visible ASCII characters, and a
/// configured `Kutt` host is itself a valid absolute URL.
pub open spec fn spec_auth_ok(p: Provider) -> bool {
    match p {
        Provider::BitLy { token } => url_chars(token@),
        Provider::GooGl { api_key } => url_chars(api_key@),
        Provider::Kutt { host, .. } => match host {
            Some(h) => valid_absolute_url(h@),
            None => true,
        },
        _ => true,
    }
}

/// A form-urlencoded serialization is made of visible ASCII characters.
proof fn lemma_serialized_url_chars(s: Seq<char>)
    requires
        forall|i: int| 0 <= i < s.len() ==> serialized_char(s[i]),
    ensures
        url_chars(s),
{
    assert forall|i: int| 0 <= i < s.len() implies url_char(s[i]) by {
        assert(serialized_char(s[i]));
    }
}

/// Putting URL characters behind a valid absolute URL keeps it one.
proof fn lemma_valid_url_extend(a: Seq<char>, b: Seq<char>)
    requires
        valid_absolute_url(a),
        url_chars(b),
    ensures
        valid_absolute_url(a + b),
{
    assert forall|i: int| 0 <= i < (a + b).len() implies url_char((a + b)[i]) by {
        if i < a.len() {
            assert((a + b)[i] == a[i]);
        } else {
            assert((a + b)[i] == b[i - a.len()]);
        }
    }
    if match_at(a, "http://"@, 0) && a.len() > "http://"@.len() {
        assert forall|j: int| 0 <= j < "http://"@.len() implies (a + b)[j] == "http://"@[j] by {
            assert((a + b)[j] == a[j]);
        }
    } else {
        assert forall|j: int| 0 <= j < "https://"@.len() implies (a + b)[j] == "https://"@[j] by {
            assert((a + b)[j] == a[j]);
        }
    }
}

/// The model of a `GET` request without body or extra headers.
pub open spec fn req_get(u: Seq<char>) -> RequestModel {
    RequestModel {
        url: u,
        body: None,
        content_type: None,
        user_agent: None,
        headers: None,
        method: Method::Get,
    }
}

/// The model of a form-urlencoded `POST` request.
pub open spec fn req_form_post(u: Seq<char>, b: Seq<char>) -> RequestModel {
    RequestModel {
        url: u,
        body: Some(b),
        content_type: Some(ContentType::FormUrlEncoded),
        user_agent: None,
        headers: None,
        method: Method::Post,
    }
}

/// The model of a JSON `POST` request without extra headers.
pub open spec fn req_json_post(u: Seq<char>, b: Seq<char>) -> RequestModel {
    RequestModel {
        url: u,
        body: Some(b),
        content_type: Some(ContentType::Json),
        user_agent: None,
        headers: None,
        method: Method::Post,
    }
}

/// The request each provider sends for the given long URL: its method,
/// URL (with the long URL percent-encoded where it is interpolated into a
/// query string), body, content type, user agent and extra headers.
pub open spec fn spec_request(url: Seq<char>, p: Provider) -> RequestModel {
    match p {
        Provider::Abv8 => req_get("http://abv8.me/?url="@ + form_urlencoded_of(url)),
        Provider::BamBz => req_form_post("https://bam.bz/api/short"@, "target="@ + url),
        Provider::BitLy { token } => req_get(
            "https://api-ssl.bitly.com/v3/shorten?access_token="@ + token@ + "&longUrl="@
                + form_urlencoded_of(url) + "&format=txt"@,
        ),
        Provider::BitUrl => req_form_post("https://api.biturl.top/short"@, "url="@ + url),
        Provider::Bmeo => req_get("http://bmeo.org/api.php?url="@ + form_urlencoded_of(url)),
        Provider::FifoCc => req_get("https://fifo.cc/api/v2?url="@ + form_urlencoded_of(url)),
        Provider::GooGl { api_key } => req_json_post(
            "https://www.googleapis.com/urlshortener/v1/url?key="@ + api_key@,
            "{\"longUrl\": \""@ + url + "\"}"@,
        ),
        Provider::Kutt { api_key, host } => RequestModel {
            url: (match host {
                Some(h) => h@,
                None => "https://kutt.it"@,
            }) + "/api/url/submit"@,
            body: Some("{\"target\": \""@ + url + "\"}"@),
            content_type: Some(ContentType::Json),
            user_agent: None,
            headers: Some(seq![("X-API-Key"@, api_key@)]),
            method: Method::Post,
        },
        Provider::HecSu => req_get(
            "https://hec.su/api?url="@ + form_urlencoded_of(url) + "&method=xml"@,
        ),
        Provider::HmmRs => RequestModel {
            url: "http://hmm.rs/x/shorten"@,
            body: Some("{\"url\": \""@ + url + "\"}"@),
            content_type: Some(ContentType::Json),
            user_agent: Some(
                "Mozilla/5.0 (X11; Ubuntu; Linux x86_64; rv:58.0) Gecko/20100101 Firefox/58.0"@,
            ),
            headers: None,
            method: Method::Post,
        },
        Provider::IsGd => req_get(
            "https://is.gd/create.php?format=simple&url="@ + form_urlencoded_of(url),
        ),
        Provider::NowLinks => req_get("http://nowlinks.net/api?url="@ + form_urlencoded_of(url)),
        Provider::PhxCoIn => req_get(
            "http://phx.co.in/shrink.asp?url="@ + form_urlencoded_of(url),
        ),
        Provider::PsbeCo => req_get(
            "http://psbe.co/API.asmx/CreateUrl?real_url="@ + form_urlencoded_of(url),
        ),
        Provider::SCoop => req_get(
            "http://s.coop/devapi.php?action=shorturl&url="@ + form_urlencoded_of(url)
                + "&format=RETURN"@,
        ),
        Provider::Rlu => req_get("http://rlu.ru/index.sema?a=api&link="@ + form_urlencoded_of(url)),
        Provider::SirBz => req_form_post("http://sirbz.com/api/shorten_url"@, "url="@ + url),
        Provider::TinyUrl => req_get("http://tinyurl.com/create.php?url="@ + form_urlencoded_of(url)),
        Provider::TinyPh => req_form_post("http://tiny.ph/api/url/create"@, "url="@ + url),
        Provider::TnyIm => req_get(
            "http://tny.im/yourls-api.php?action=shorturl&url="@ + form_urlencoded_of(url),
        ),
        Provider::UrlShortenerIo => req_form_post(
            "http://url-shortener.io/shorten"@,
            "url_param="@ + url,
        ),
        Provider::VGd => req_get("http://v.gd/create.php?format=simple&url="@ + form_urlencoded_of(url)),
    }
}

/// Builds a `GET` request whose URL is `prefix` followed by the
/// percent-encoded long URL.
fn encoded_get(prefix: &str, long_url: &str) -> (r: Request)
    requires
        valid_absolute_url(prefix@),
    ensures
        r@ == req_get(prefix@ + form_urlencoded_of(long_url@)),
        valid_absolute_url(r@.url),
{
    let enc = urlencode(long_url);
    let mut u = String::from_str(prefix);
    u.append(enc.as_str());
    let r = Request {
        url: u,
        body: None,
        content_type: None,
        user_agent: None,
        headers: None,
        method: Method::Get,
    };
    proof {
        lemma_serialized_url_chars(enc@);
        lemma_valid_url_extend(prefix@, enc@);
        assert(r@ =~~= req_get(prefix@ + form_urlencoded_of(long_url@)));
    }
    r
}

/// Builds a `GET` request whose URL is `prefix`, then the percent-encoded
/// long URL, then `suffix`.
fn encoded_get_suffix(prefix: &str, long_url: &str, suffix: &str) -> (r: Request)
    requires
        valid_absolute_url(prefix@),
        url_chars(suffix@),
    ensures
        r@ == req_get(prefix@ + form_urlencoded_of(long_url@) + suffix@),
        valid_absolute_url(r@.url),
{
    let enc = urlencode(long_url);
    let mut u = String::from_str(prefix);
    u.append(enc.as_str());
    u.append(suffix);
    let r = Request {
        url: u,
        body: None,
        content_type: None,
        user_agent: None,
        headers: None,
        method: Method::Get,
    };
    proof {
        lemma_serialized_url_chars(enc@);
        lemma_valid_url_extend(prefix@, enc@);
        lemma_valid_url_extend(prefix@ + enc@, suffix@);
        assert(r@ =~~= req_get(prefix@ + form_urlencoded_of(long_url@) + suffix@));
    }
    r
}

/// Builds a form-urlencoded `POST` request to `url_lit` whose body is
/// `body_prefix` followed by the long URL, verbatim.
fn form_post(url_lit: &str, body_prefix: &str, long_url: &str) -> (r: Request)
    requires
        valid_absolute_url(url_lit@),
    ensures
        r@ == req_form_post(url_lit@, body_prefix@ + long_url@),
        valid_absolute_url(r@.url),
{
    let mut b = String::from_str(body_prefix);
    b.append(long_url);
    let r = Request {
        url: String::from_str(url_lit),
        body: Some(b),
        content_type: Some(ContentType::FormUrlEncoded),
        user_agent: None,
        headers: None,
        method: Method::Post,
    };
    proof {
        assert(r@ =~~= req_form_post(url_lit@, body_prefix@ + long_url@));
    }
    r
}

/// Builds the bit.ly request: the access token and the percent-encoded
/// long URL interpolated into one `GET` URL.
fn bitly_req(url: &str, key: &str) -> (r: Request)
    ensures
        r@ == req_get(
            "https://api-ssl.bitly.com/v3/shorten?access_token="@ + key@ + "&longUrl="@
                + form_urlencoded_of(url@) + "&format=txt"@,
        ),
        url_chars(key@) ==> valid_absolute_url(r@.url),
{
    let enc = urlencode(url);
    let mut u = String::from_str("https://api-ssl.bitly.com/v3/shorten?access_token=");
    u.append(key);
    u.append("&longUrl=");
    u.append(enc.as_str());
    u.append("&format=txt");
    let r = Request {
        url: u,
        body: None,
        content_type: None,
        user_agent: None,
        headers: None,
        method: Method::Get,
    };
    proof {
        reveal_strlit("https://api-ssl.bitly.com/v3/shorten?access_token=");
        reveal_strlit("&longUrl=");
        reveal_strlit("&format=txt");
        reveal_strlit("https://");
        reveal_strlit("http://");
        if url_chars(key@) {
            let p1 = "https://api-ssl.bitly.com/v3/shorten?access_token="@;
            assert(valid_absolute_url(p1));
            lemma_valid_url_extend(p1, key@);
            assert(url_chars("&longUrl="@));
            lemma_valid_url_extend(p1 + key@, "&longUrl="@);
            lemma_serialized_url_chars(enc@);
            lemma_valid_url_extend(p1 + key@ + "&longUrl="@, enc@);
            assert(url_chars("&format=txt"@));
            lemma_valid_url_extend(p1 + key@ + "&longUrl="@ + enc@, "&format=txt"@);
        }
        assert(r@ =~~= req_get(
            "https://api-ssl.bitly.com/v3/shorten?access_token="@ + key@ + "&longUrl="@
                + form_urlencoded_of(url@) + "&format=txt"@,
        ));
    }
    r
}

/// Builds the goo.gl request: an authenticated JSON `POST`.
fn googl_req(url: &str, key: &str) -> (r: Request)
    ensures
        r@ == req_json_post(
            "https://www.googleapis.com/urlshortener/v1/url?key="@ + key@,
            "{\"longUrl\": \""@ + url@ + "\"}"@,
        ),
        url_chars(key@) ==> valid_absolute_url(r@.url),
{
    let mut u = String::from_str("https://www.googleapis.com/urlshortener/v1/url?key=");
    u.append(key);
    let mut b = String::from_str("{\"longUrl\": \"");
    b.append(url);
    b.append("\"}");
    let r = Request {
        url: u,
        body: Some(b),
        content_type: Some(ContentType::Json),
        user_agent: None,
        headers: None,
        method: Method::Post,
    };
    proof {
        reveal_strlit("https://www.googleapis.com/urlshortener/v1/url?key=");
        reveal_strlit("https://");
        reveal_strlit("http://");
        if url_chars(key@) {
            let p1 = "https://www.googleapis.com/urlshortener/v1/url?key="@;
            assert(valid_absolute_url(p1));
            lemma_valid_url_extend(p1, key@);
        }
        assert(r@ =~~= req_json_post(
            "https://www.googleapis.com/urlshortener/v1/url?key="@ + key@,
            "{\"longUrl\": \""@ + url@ + "\"}"@,
        ));
    }
    r
}

/// Builds the hmm.rs request: a JSON `POST` behind a fixed
/// desktop-browser user agent.
fn hmmrs_req(url: &str) -> (r: Request)
    ensures
        r@ == (RequestModel {
            url: "http://hmm.rs/x/shorten"@,
            body: Some("{\"url\": \""@ + url@ + "\"}"@),
            content_type: Some(ContentType::Json),
            user_agent: Some(
                "Mozilla/5.0 (X11; Ubuntu; Linux x86_64; rv:58.0) Gecko/20100101 Firefox/58.0"@,
            ),
            headers: None,
            method: Method::Post,
        }),
        valid_absolute_url(r@.url),
{
    let mut b = String::from_str("{\"url\": \"");
    b.append(url);
    b.append("\"}");
    let r = Request {
        url: String::from_str("http://hmm.rs/x/shorten"),
        body: Some(b),
        content_type: Some(ContentType::Json),
        user_agent: Some(
            UserAgent(
                String::from_str(
                    "Mozilla/5.0 (X11; Ubuntu; Linux x86_64; rv:58.0) Gecko/20100101 Firefox/58.0",
                ),
            ),
        ),
        headers: None,
        method: Method::Post,
    };
    proof {
        reveal_strlit("http://hmm.rs/x/shorten");
        reveal_strlit("https://");
        reveal_strlit("http://");
        assert(valid_absolute_url("http://hmm.rs/x/shorten"@));
        assert(r@ =~~= RequestModel {
            url: "http://hmm.rs/x/shorten"@,
            body: Some("{\"url\": \""@ + url@ + "\"}"@),
            content_type: Some(ContentType::Json),
            user_agent: Some(
                "Mozilla/5.0 (X11; Ubuntu; Linux x86_64; rv:58.0) Gecko/20100101 Firefox/58.0"@,
            ),
            headers: None,
            method: Method::Post,
        });
    }
    r
}

/// Builds the kutt request: a JSON `POST` to the configured host (or
/// kutt.it), authenticated through an `X-API-Key` header.
fn kutt_req(url: &str, api_key: &str, host: Option<&str>) -> (r: Request)
    ensures
        r@ == (RequestModel {
            url: (match host {
                Some(h) => h@,
                None => "https://kutt.it"@,
            }) + "/api/url/submit"@,
            body: Some("{\"target\": \""@ + url@ + "\"}"@),
            content_type: Some(ContentType::Json),
            user_agent: None,
            headers: Some(seq![("X-API-Key"@, api_key@)]),
            method: Method::Post,
        }),
        (match host {
            Some(h) => valid_absolute_url(h@),
            None => true,
        }) ==> valid_absolute_url(r@.url),
{
    let base = match host {
        Some(h) => h,
        None => "https://kutt.it",
    };
    let mut u = String::from_str(base);
    u.append("/api/url/submit");
    let mut b = String::from_str("{\"target\": \"");
    b.append(url);
    b.append("\"}");
    let mut hs: Vec<(String, String)> = Vec::new();
    hs.push((String::from_str("X-API-Key"), String::from_str(api_key)));
    let r = Request {
        url: u,
        body: Some(b),
        content_type: Some(ContentType::Json),
        user_agent: None,
        headers: Some(hs),
        method: Method::Post,
    };
    proof {
        reveal_strlit("https://kutt.it");
        reveal_strlit("/api/url/submit");
        reveal_strlit("https://");
        reveal_strlit("http://");
        assert(url_chars("/api/url/submit"@));
        match host {
            Some(h) => {
                if valid_absolute_url(h@) {
                    lemma_valid_url_extend(h@, "/api/url/submit"@);
                }
            },
            None => {
                assert(valid_absolute_url("https://kutt.it"@));
                lemma_valid_url_extend("https://kutt.it"@, "/api/url/submit"@);
            },
        }
        assert(r@ =~~= RequestModel {
            url: (match host {
                Some(h) => h@,
                None => "https://kutt.it"@,
            }) + "/api/url/submit"@,
            body: Some("{\"target\": \""@ + url@ + "\"}"@),
            content_type: Some(ContentType::Json),
            user_agent: None,
            headers: Some(seq![("X-API-Key"@, api_key@)]),
            method: Method::Post,
        });
    }
    r
}

/// Builds the request for the short link provider.
/// Returns the request object which can be used for performing requests.
///
/// The long URL is percent-encoded wherever it is interpolated into a
/// query string; bodies carry it verbatim.  When the provider's
/// authentication material (and, for `Kutt`, its host) is made of visible
/// ASCII, the request URL is a valid absolute URL.
pub fn request(url: &str, provider: &Provider) -> (r: Request)
    ensures
        r@ == spec_request(url@, *provider),
        spec_auth_ok(*provider) ==> valid_absolute_url(r@.url),
{
    match provider {
        Provider::Abv8 => {
            proof {
                reveal_strlit("http://abv8.me/?url=");
                reveal_strlit("https://");
                reveal_strlit("http://");
                assert(valid_absolute_url("http://abv8.me/?url="@));
            }
            encoded_get("http://abv8.me/?url=", url)
        },
        Provider::BamBz => {
            proof {
                reveal_strlit("https://bam.bz/api/short");
                reveal_strlit("https://");
                reveal_strlit("http://");
                assert(valid_absolute_url("https://bam.bz/api/short"@));
            }
            form_post("https://bam.bz/api/short", "target=", url)
        },
        Provider::BitLy { token } => bitly_req(url, token.as_str()),
        Provider::BitUrl => {
            proof {
                reveal_strlit("https://api.biturl.top/short");
                reveal_strlit("https://");
                reveal_strlit("http://");
                assert(valid_absolute_url("https://api.biturl.top/short"@));
            }
            form_post("https://api.biturl.top/short", "url=", url)
        },
        Provider::Bmeo => {
            proof {
                reveal_strlit("http://bmeo.org/api.php?url=");
                reveal_strlit("https://");
                reveal_strlit("http://");
                assert(valid_absolute_url("http://bmeo.org/api.php?url="@));
            }
            encoded_get("http://bmeo.org/api.php?url=", url)
        },
        Provider::FifoCc => {
            proof {
                reveal_strlit("https://fifo.cc/api/v2?url=");
                reveal_strlit("https://");
                reveal_strlit("http://");
                assert(valid_absolute_url("https://fifo.cc/api/v2?url="@));
            }
            encoded_get("https://fifo.cc/api/v2?url=", url)
        },
        Provider::GooGl { api_key } => googl_req(url, api_key.as_str()),
        Provider::Kutt { api_key, host } => kutt_req(
            url,
            api_key.as_str(),
            match host {
                Some(h) => Some(h.as_str()),
                None => None,
            },
        ),
        Provider::HecSu => {
            proof {
                reveal_strlit("https://hec.su/api?url=");
                reveal_strlit("&method=xml");
                reveal_strlit("https://");
                reveal_strlit("http://");
                assert(valid_absolute_url("https://hec.su/api?url="@));
                assert(url_chars("&method=xml"@));
            }
            encoded_get_suffix("https://hec.su/api?url=", url, "&method=xml")
        },
        Provider::HmmRs => hmmrs_req(url),
        Provider::IsGd => {
            proof {
                reveal_strlit("https://is.gd/create.php?format=simple&url=");
                reveal_strlit("https://");
                reveal_strlit("http://");
                assert(valid_absolute_url("https://is.gd/create.php?format=simple&url="@));
            }
            encoded_get("https://is.gd/create.php?format=simple&url=", url)
        },
        Provider::NowLinks => {
            proof {
                reveal_strlit("http://nowlinks.net/api?url=");
                reveal_strlit("https://");
                reveal_strlit("http://");
                assert(valid_absolute_url("http://nowlinks.net/api?url="@));
            }
            encoded_get("http://nowlinks.net/api?url=", url)
        },
        Provider::PhxCoIn => {
            proof {
                reveal_strlit("http://phx.co.in/shrink.asp?url=");
                reveal_strlit("https://");
                reveal_strlit("http://");
                assert(valid_absolute_url("http://phx.co.in/shrink.asp?url="@));
            }
            encoded_get("http://phx.co.in/shrink.asp?url=", url)
        },
        Provider::PsbeCo => {
            proof {
                reveal_strlit("http://psbe.co/API.asmx/CreateUrl?real_url=");
                reveal_strlit("https://");
                reveal_strlit("http://");
                assert(valid_absolute_url("http://psbe.co/API.asmx/CreateUrl?real_url="@));
            }
            encoded_get("http://psbe.co/API.asmx/CreateUrl?real_url=", url)
        },
        Provider::SCoop => {
            proof {
                reveal_strlit("http://s.coop/devapi.php?action=shorturl&url=");
                reveal_strlit("&format=RETURN");
                reveal_strlit("https://");
                reveal_strlit("http://");
                assert(valid_absolute_url("http://s.coop/devapi.php?action=shorturl&url="@));
                assert(url_chars("&format=RETURN"@));
            }
            encoded_get_suffix("http://s.coop/devapi.php?action=shorturl&url=", url, "&format=RETURN")
        },
        Provider::Rlu => {
            proof {
                reveal_strlit("http://rlu.ru/index.sema?a=api&link=");
                reveal_strlit("https://");
                reveal_strlit("http://");
                assert(valid_absolute_url("http://rlu.ru/index.sema?a=api&link="@));
            }
            encoded_get("http://rlu.ru/index.sema?a=api&link=", url)
        },
        Provider::SirBz => {
            proof {
                reveal_strlit("http://sirbz.com/api/shorten_url");
                reveal_strlit("https://");
                reveal_strlit("http://");
                assert(valid_absolute_url("http://sirbz.com/api/shorten_url"@));
            }
            form_post("http://sirbz.com/api/shorten_url", "url=", url)
        },
        Provider::TinyUrl => {
            proof {
                reveal_strlit("http://tinyurl.com/create.php?url=");
                reveal_strlit("https://");
                reveal_strlit("http://");
                assert(valid_absolute_url("http://tinyurl.com/create.php?url="@));
            }
            encoded_get("http://tinyurl.com/create.php?url=", url)
        },
        Provider::TinyPh => {
            proof {
                reveal_strlit("http://tiny.ph/api/url/create");
                reveal_strlit("https://");
                reveal_strlit("http://");
                assert(valid_absolute_url("http://tiny.ph/api/url/create"@));
            }
            form_post("http://tiny.ph/api/url/create", "url=", url)
        },
        Provider::TnyIm => {
            proof {
                reveal_strlit("http://tny.im/yourls-api.php?action=shorturl&url=");
                reveal_strlit("https://");
                reveal_strlit("http://");
                assert(valid_absolute_url("http://tny.im/yourls-api.php?action=shorturl&url="@));
            }
            encoded_get("http://tny.im/yourls-api.php?action=shorturl&url=", url)
        },
        Provider::UrlShortenerIo => {
            proof {
                reveal_strlit("http://url-shortener.io/shorten");
                reveal_strlit("https://");
                reveal_strlit("http://");
                assert(valid_absolute_url("http://url-shortener.io/shorten"@));
            }
            form_post("http://url-shortener.io/shorten", "url_param=", url)
        },
        Provider::VGd => {
            proof {
                reveal_strlit("http://v.gd/create.php?format=simple&url=");
                reveal_strlit("https://");
                reveal_strlit("http://");
                assert(valid_absolute_url("http://v.gd/create.php?format=simple&url="@));
            }
            encoded_get("http://v.gd/create.php?format=simple&url=", url)
        },
    }
}

/// Parses the response from a successful request to a provider into the
/// URL-shortened string.
///
/// The decoding is a pure function of the body and the provider: no I/O is
/// performed, and a body without the provider's expected structural marker
/// is answered with `Deserialize`, never a panic.
pub fn parse(res: &str, provider: &Provider) -> (r: Result<String, ProviderError>)
    ensures
        res_models(r, spec_parse(res@, *provider)),
{
    let extracted: Option<String> = match provider {
        Provider::Abv8 => Some(res.to_owned()),
        Provider::BamBz => parse_json_tag(res, "url", ""),
        Provider::BitLy { .. } => Some(res.to_owned()),
        Provider::BitUrl => parse_json_tag(res, "short", ""),
        Provider::Bmeo => parse_json_tag(res, "short", ""),
        Provider::FifoCc => parse_json_tag(res, "shortner", "http://fifo.cc/"),
        Provider::GooGl { .. } => parse_json_tag(res, "id", ""),
        Provider::Kutt { .. } => parse_json_tag(res, "shortUrl", ""),
        Provider::HecSu => parse_xml_tag(res, "short"),
        Provider::HmmRs => parse_json_tag(res, "shortUrl", ""),
        Provider::IsGd => Some(res.to_owned()),
        Provider::NowLinks => Some(res.to_owned()),
        Provider::PhxCoIn => Some(res.to_owned()),
        Provider::PsbeCo => parse_xml_tag(res, "ShortUrl"),
        Provider::SCoop => Some(res.to_owned()),
        Provider::Rlu => Some(res.to_owned()),
        Provider::SirBz => parse_json_tag(res, "short_link", ""),
        Provider::TinyUrl => tinyurl_parse(res),
        Provider::TinyPh => parse_json_tag(res, "hash", "http://tiny.ph/"),
        Provider::TnyIm => parse_xml_tag(res, "shorturl"),
        Provider::UrlShortenerIo => Some(res.to_owned()),
        Provider::VGd => Some(res.to_owned()),
    };
    match extracted {
        Some(s) => Ok(s),
        None => Err(ProviderError::Deserialize),
    }
}

} // verus!
