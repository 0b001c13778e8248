//! The library-wide laws, each stated and proved over the same spec
//! functions that the executable functions' contracts use.

use vstd::prelude::*;

use crate::providers::{
    json_extract, kutt_name, parser_of, requires_auth, spec_default_providers, spec_parse,
    spec_request, spec_to_name, xml_close, xml_open, ParserKind, Provider, ProviderError,
};
use crate::strutil::{
    find, lemma_find_from_exact, lemma_find_from_none, lemma_rfind_from_characterization,
    match_at, rfind, strip_backslashes,
};

verus! {

/// Every provider reports a non-empty name.  The one configuration this
/// cannot hold for is a `Kutt` host that is empty or ends in `//`, whose
/// reported name is the (empty) text after its last `//`; such hosts are
/// left out.
pub proof fn lemma_to_name_nonempty(p: Provider)
    requires
        match p {
            Provider::Kutt { host: Some(h), .. } => h@.len() > 0 && !match_at(
                h@,
                "//"@,
                h@.len() - 2,
            ),
            _ => true,
        },
    ensures
        spec_to_name(p).len() > 0,
{
    reveal_strlit("abv8.me");
    reveal_strlit("bam.bz");
    reveal_strlit("bitly.com");
    reveal_strlit("biturl.top");
    reveal_strlit("bmeo.org");
    reveal_strlit("fifo.cc");
    reveal_strlit("goo.gl");
    reveal_strlit("hmm.rs");
    reveal_strlit("hec.su");
    reveal_strlit("is.gd");
    reveal_strlit("kutt.it");
    reveal_strlit("nowlinks.net");
    reveal_strlit("phx.co.in");
    reveal_strlit("psbe.co");
    reveal_strlit("s.coop");
    reveal_strlit("sirbz.com");
    reveal_strlit("rlu.ru");
    reveal_strlit("tinyurl.com");
    reveal_strlit("tiny.ph");
    reveal_strlit("tny.im");
    reveal_strlit("url-shortener.io");
    reveal_strlit("v.gd");
    reveal_strlit("//");
    match p {
        Provider::Kutt { host: Some(h), .. } => {
            lemma_rfind_from_characterization(h@, "//"@, h@.len() - "//"@.len());
            match rfind(h@, "//"@) {
                Some(i) => {
                    assert(i != h@.len() - 2);
                    assert(kutt_name(h@).len() == h@.len() - i - 2);
                },
                None => {
                    assert(kutt_name(h@) == h@);
                },
            }
        },
        _ => {},
    }
}

/// A request carries a content type exactly when it carries a body: the
/// `GET` recipes have neither, and every `POST` recipe has both.
pub proof fn lemma_request_content_type_iff_body(url: Seq<char>, p: Provider)
    ensures
        spec_request(url, p).body is Some <==> spec_request(url, p).content_type is Some,
{
}

/// Identity decoding: a provider whose answer is taken verbatim turns any
/// non-empty body into exactly that body.
pub proof fn lemma_identity_parse(s: Seq<char>, p: Provider)
    requires
        parser_of(p) is Identity,
        s.len() > 0,
    ensures
        spec_parse(s, p) == Ok::<Seq<char>, ProviderError>(s),
{
}

/// XML-tag decoding of a well-formed answer: wrapping a text without `<`
/// in the provider's tag and decoding gives the text back.
pub proof fn lemma_xml_parse_extracts(tag: Seq<char>, x: Seq<char>, p: Provider)
    requires
        parser_of(p) == ParserKind::XmlTag(tag),
        forall|i: int| 0 <= i < x.len() ==> x[i] != '<',
    ensures
        spec_parse(xml_open(tag) + x + xml_close(tag), p) == Ok::<Seq<char>, ProviderError>(x),
{
    reveal_strlit("<");
    reveal_strlit(">");
    reveal_strlit("</");
    let open = xml_open(tag);
    let close = xml_close(tag);
    let body = open + x + close;
    assert forall|j: int| 0 <= j < open.len() implies body[j] == open[j] by {}
    assert(match_at(body, open, 0));
    lemma_find_from_exact(body, open, 0, 0);
    let rest = body.subrange(open.len() as int, body.len() as int);
    assert(rest =~= x + close);
    assert(close[0] == '<');
    assert forall|j: int| 0 <= j < close.len() implies rest[x.len() + j] == close[j] by {}
    assert(match_at(rest, close, x.len() as int));
    assert forall|m: int| 0 <= m < x.len() implies !match_at(rest, close, m) by {
        if match_at(rest, close, m) {
            assert(rest[m + 0] == close[0]);
            assert(rest[m] == x[m]);
        }
    }
    lemma_find_from_exact(rest, close, 0, x.len() as int);
    assert(rest.subrange(0, x.len() as int) =~= x);
}

/// XML-tag decoding of an empty body fails with `Deserialize`: the
/// opening marker cannot be present.
pub proof fn lemma_xml_parse_empty(tag: Seq<char>, p: Provider)
    requires
        parser_of(p) == ParserKind::XmlTag(tag),
    ensures
        spec_parse(Seq::<char>::empty(), p) == Err::<Seq<char>, ProviderError>(
            ProviderError::Deserialize,
        ),
{
    reveal_strlit("<");
    reveal_strlit(">");
    let open = xml_open(tag);
    assert(open.len() > 0);
    assert forall|m: int| 0 <= m implies !match_at(Seq::<char>::empty(), open, m) by {}
    lemma_find_from_none(Seq::<char>::empty(), open, 0);
}

/// XML-tag decoding of a body without the opening marker fails with
/// `Deserialize`.
pub proof fn lemma_xml_parse_missing_tag(body: Seq<char>, tag: Seq<char>, p: Provider)
    requires
        parser_of(p) == ParserKind::XmlTag(tag),
        find(body, xml_open(tag)) is None,
    ensures
        spec_parse(body, p) == Err::<Seq<char>, ProviderError>(ProviderError::Deserialize),
{
}

/// JSON-tag decoding of a well-formed answer `{"key":"y"}`: a value
/// without commas or quotes comes back behind the provider's prefix,
/// with its backslashes stripped.
pub proof fn lemma_json_parse_extracts(key: Seq<char>, y: Seq<char>, prefix: Seq<char>, p: Provider)
    requires
        parser_of(p) == ParserKind::JsonTag(key, prefix),
        forall|i: int| 0 <= i < y.len() ==> y[i] != ',' && y[i] != '"',
    ensures
        spec_parse("{\""@ + key + "\":\""@ + y + "\"}"@, p) == Ok::<Seq<char>, ProviderError>(
            prefix + strip_backslashes(y),
        ),
{
    reveal_strlit("{\"");
    reveal_strlit("\":\"");
    reveal_strlit(":\"");
    reveal_strlit("\"}");
    reveal_strlit("\"");
    reveal_strlit(",");
    let body = "{\""@ + key + "\":\""@ + y + "\"}"@;
    let pat = "\""@ + key + "\""@;
    // the pattern `"key"` stands at position 1 and nowhere earlier
    assert forall|j: int| 0 <= j < pat.len() implies body[1 + j] == pat[j] by {
        if j == 0 {
            assert(body[1] == '"');
            assert(pat[0] == '"');
        } else if j <= key.len() {
            assert(body[1 + j] == key[j - 1]);
            assert(pat[j] == key[j - 1]);
        } else {
            assert(body[1 + j] == '"');
            assert(pat[j] == '"');
        }
    }
    assert(match_at(body, pat, 1));
    assert(body[0] == '{');
    assert(pat[0] == '"');
    assert forall|m: int| 0 <= m < 1 implies !match_at(body, pat, m) by {
        if match_at(body, pat, 0) {
            assert(body[0] == pat[0]);
        }
    }
    lemma_find_from_exact(body, pat, 0, 1);
    // the rest after the pattern is `:"y"}`
    let rest = body.subrange(1 + pat.len() as int, body.len() as int);
    assert(rest =~= ":\""@ + y + "\"}"@);
    // it holds no comma, so the segment is the whole rest
    assert(rest[0] == ':');
    assert(rest[1] == '"');
    assert(rest[rest.len() - 2] == '"');
    assert(rest[rest.len() - 1] == '}');
    assert forall|m: int| 0 <= m implies !match_at(rest, ","@, m) by {
        if match_at(rest, ","@, m) {
            assert(rest[m + 0] == ","@[0]);
            if m == 0 {
            } else if m <= y.len() + 1 {
                assert(rest[m] == (":\""@ + y)[m]);
                if m == 1 {
                } else {
                    assert(rest[m] == y[m - 2]);
                }
            } else {
                assert(rest[m] == "\"}"@[m - y.len() - 2]);
            }
        }
    }
    lemma_find_from_none(rest, ","@, 0);
    // the first quote of the segment is right after the colon
    assert(match_at(rest, "\""@, 1));
    assert forall|m: int| 0 <= m < 1 implies !match_at(rest, "\""@, m) by {
        if match_at(rest, "\""@, 0) {
            assert(rest[0] == "\""@[0]);
        }
    }
    lemma_find_from_exact(rest, "\""@, 0, 1);
    // what follows that quote is `y"}`; its first quote closes the value
    let after = rest.subrange(2, rest.len() as int);
    assert(after =~= y + "\"}"@);
    assert forall|j: int| 0 <= j < "\""@.len() implies after[y.len() + j] == "\""@[j] by {}
    assert(match_at(after, "\""@, y.len() as int));
    assert forall|m: int| 0 <= m < y.len() implies !match_at(after, "\""@, m) by {
        if match_at(after, "\""@, m) {
            assert(after[m + 0] == "\""@[0]);
            assert(after[m] == y[m]);
        }
    }
    lemma_find_from_exact(after, "\""@, 0, y.len() as int);
    assert(after.subrange(0, y.len() as int) =~= y);
    assert(json_extract(body, key, prefix) == Some(prefix + strip_backslashes(y)));
}

/// JSON-tag decoding of a body in which `"key"` never occurs fails with
/// `Deserialize`.
pub proof fn lemma_json_parse_missing_key(
    body: Seq<char>,
    key: Seq<char>,
    prefix: Seq<char>,
    p: Provider,
)
    requires
        parser_of(p) == ParserKind::JsonTag(key, prefix),
        find(body, "\""@ + key + "\""@) is None,
    ensures
        spec_parse(body, p) == Err::<Seq<char>, ProviderError>(ProviderError::Deserialize),
{
}

/// A distinct number for each provider variant, blind to any carried
/// configuration: two providers with different numbers are different
/// values.
pub open spec fn provider_tag(p: Provider) -> int {
    match p {
        Provider::Abv8 => 0,
        Provider::BamBz => 1,
        Provider::BitLy { .. } => 2,
        Provider::BitUrl => 3,
        Provider::Bmeo => 4,
        Provider::FifoCc => 5,
        Provider::GooGl { .. } => 6,
        Provider::Kutt { .. } => 7,
        Provider::HecSu => 8,
        Provider::HmmRs => 9,
        Provider::IsGd => 10,
        Provider::NowLinks => 11,
        Provider::PhxCoIn => 12,
        Provider::PsbeCo => 13,
        Provider::SCoop => 14,
        Provider::Rlu => 15,
        Provider::SirBz => 16,
        Provider::TinyUrl => 17,
        Provider::TinyPh => 18,
        Provider::TnyIm => 19,
        Provider::UrlShortenerIo => 20,
        Provider::VGd => 21,
    }
}

/// The variant number standing at each position of the default list.
pub open spec fn default_tag_at(i: int) -> int {
    if i == 0 {
        10
    } else if i == 1 {
        21
    } else if i == 2 {
        1
    } else if i == 3 {
        18
    } else if i == 4 {
        5
    } else if i == 5 {
        14
    } else if i == 6 {
        4
    } else if i == 7 {
        20
    } else if i == 8 {
        9
    } else if i == 9 {
        3
    } else if i == 10 {
        19
    } else if i == 11 {
        16
    } else if i == 12 {
        15
    } else if i == 13 {
        8
    } else if i == 14 {
        0
    } else if i == 15 {
        17
    } else if i == 16 {
        13
    } else if i == 17 {
        11
    } else {
        22
    }
}

/// Each position of the default list holds the variant its number says.
proof fn lemma_default_tag(i: int)
    requires
        0 <= i < 18,
    ensures
        provider_tag(spec_default_providers()[i]) == default_tag_at(i),
{
    let l = spec_default_providers();
    if i == 0 {
        assert(l[0] == Provider::IsGd);
    } else if i == 1 {
        assert(l[1] == Provider::VGd);
    } else if i == 2 {
        assert(l[2] == Provider::BamBz);
    } else if i == 3 {
        assert(l[3] == Provider::TinyPh);
    } else if i == 4 {
        assert(l[4] == Provider::FifoCc);
    } else if i == 5 {
        assert(l[5] == Provider::SCoop);
    } else if i == 6 {
        assert(l[6] == Provider::Bmeo);
    } else if i == 7 {
        assert(l[7] == Provider::UrlShortenerIo);
    } else if i == 8 {
        assert(l[8] == Provider::HmmRs);
    } else if i == 9 {
        assert(l[9] == Provider::BitUrl);
    } else if i == 10 {
        assert(l[10] == Provider::TnyIm);
    } else if i == 11 {
        assert(l[11] == Provider::SirBz);
    } else if i == 12 {
        assert(l[12] == Provider::Rlu);
    } else if i == 13 {
        assert(l[13] == Provider::HecSu);
    } else if i == 14 {
        assert(l[14] == Provider::Abv8);
    } else if i == 15 {
        assert(l[15] == Provider::TinyUrl);
    } else if i == 16 {
        assert(l[16] == Provider::PsbeCo);
    } else {
        assert(l[17] == Provider::NowLinks);
    }
}

/// The default priority list holds exactly the listed providers: none of
/// them carries authentication material, and none stands in it twice.
pub proof fn lemma_default_providers_ok()
    ensures
        spec_default_providers().len() == 18,
        forall|i: int|
            0 <= i < spec_default_providers().len() ==> !requires_auth(
                #[trigger] spec_default_providers()[i],
            ),
        forall|i: int, j: int|
            0 <= i < j < spec_default_providers().len() ==> spec_default_providers()[i]
                != spec_default_providers()[j],
{
    let l = spec_default_providers();
    assert forall|i: int| 0 <= i < l.len() implies !requires_auth(#[trigger] l[i]) by {
        lemma_default_tag(i);
        assert(default_tag_at(i) != 2 && default_tag_at(i) != 6 && default_tag_at(i) != 7);
        if requires_auth(l[i]) {
            assert(provider_tag(l[i]) == 2 || provider_tag(l[i]) == 6 || provider_tag(l[i]) == 7);
        }
    }
    assert forall|i: int, j: int| 0 <= i < j < l.len() implies l[i] != l[j] by {
        lemma_default_tag(i);
        lemma_default_tag(j);
        assert(default_tag_at(i) != default_tag_at(j));
    }
}

} // verus!
