//! Behaviour of the request builders and the provider names.

use urlshortener::providers::{default_providers, request, Provider};
use urlshortener::request::{ContentType, Method};

#[test]
fn isgd_request_percent_encodes_the_url() {
    let r = request("https://doc.rust-lang.org/std/", &Provider::IsGd);
    assert!(matches!(r.method, Method::Get));
    assert_eq!(
        r.url,
        "https://is.gd/create.php?format=simple&url=https%3A%2F%2Fdoc.rust-lang.org%2Fstd%2F"
    );
    assert!(r.body.is_none());
    assert!(r.content_type.is_none());
    assert!(r.user_agent.is_none());
    assert!(r.headers.is_none());
}

#[test]
fn encoding_turns_spaces_into_plus() {
    let r = request("a b c", &Provider::VGd);
    assert_eq!(r.url, "http://v.gd/create.php?format=simple&url=a+b+c");
}

#[test]
fn googl_request_is_authenticated_json_post() {
    let googl = Provider::GooGl {
        api_key: String::from("K"),
    };
    let r = request("https://x", &googl);
    assert!(matches!(r.method, Method::Post));
    assert!(r.url.contains("key=K"));
    assert_eq!(r.url, "https://www.googleapis.com/urlshortener/v1/url?key=K");
    assert_eq!(r.body.as_deref(), Some("{\"longUrl\": \"https://x\"}"));
    assert!(matches!(r.content_type, Some(ContentType::Json)));
}

#[test]
fn kutt_request_uses_custom_host_and_api_key_header() {
    let kutt = Provider::Kutt {
        api_key: String::from("K"),
        host: Some(String::from("https://example.com")),
    };
    let r = request("https://x", &kutt);
    assert!(matches!(r.method, Method::Post));
    assert_eq!(r.url, "https://example.com/api/url/submit");
    assert_eq!(r.body.as_deref(), Some("{\"target\": \"https://x\"}"));
    assert!(matches!(r.content_type, Some(ContentType::Json)));
    let headers = r.headers.expect("kutt request carries headers");
    assert_eq!(headers, vec![(String::from("X-API-Key"), String::from("K"))]);
    assert_eq!(kutt.to_name(), "example.com");
}

#[test]
fn kutt_request_defaults_to_kutt_it() {
    let kutt = Provider::Kutt {
        api_key: String::from("K"),
        host: None,
    };
    let r = request("https://x", &kutt);
    assert_eq!(r.url, "https://kutt.it/api/url/submit");
    assert_eq!(kutt.to_name(), "kutt.it");
}

#[test]
fn bitly_request_interpolates_token_and_url() {
    let bitly = Provider::BitLy {
        token: String::from("TOK"),
    };
    let r = request("https://x", &bitly);
    assert!(matches!(r.method, Method::Get));
    assert_eq!(
        r.url,
        "https://api-ssl.bitly.com/v3/shorten?access_token=TOK&longUrl=https%3A%2F%2Fx&format=txt"
    );
    assert!(r.body.is_none());
}

#[test]
fn hmmrs_request_carries_fixed_user_agent() {
    let r = request("https://x", &Provider::HmmRs);
    assert!(matches!(r.method, Method::Post));
    assert_eq!(r.url, "http://hmm.rs/x/shorten");
    assert_eq!(r.body.as_deref(), Some("{\"url\": \"https://x\"}"));
    assert!(matches!(r.content_type, Some(ContentType::Json)));
    let agent = r.user_agent.expect("hmm.rs request carries a user agent");
    assert_eq!(
        agent.0,
        "Mozilla/5.0 (X11; Ubuntu; Linux x86_64; rv:58.0) Gecko/20100101 Firefox/58.0"
    );
}

#[test]
fn form_posts_carry_raw_url_in_body() {
    let r = request("https://x", &Provider::BamBz);
    assert_eq!(r.url, "https://bam.bz/api/short");
    assert_eq!(r.body.as_deref(), Some("target=https://x"));
    assert!(matches!(r.content_type, Some(ContentType::FormUrlEncoded)));

    let r = request("https://x", &Provider::TinyPh);
    assert_eq!(r.url, "http://tiny.ph/api/url/create");
    assert_eq!(r.body.as_deref(), Some("url=https://x"));

    let r = request("https://x", &Provider::UrlShortenerIo);
    assert_eq!(r.url, "http://url-shortener.io/shorten");
    assert_eq!(r.body.as_deref(), Some("url_param=https://x"));
}

#[test]
fn every_request_pairs_content_type_with_body() {
    let mut all = default_providers();
    all.push(Provider::BitLy {
        token: String::from("T"),
    });
    all.push(Provider::GooGl {
        api_key: String::from("K"),
    });
    all.push(Provider::Kutt {
        api_key: String::from("K"),
        host: None,
    });
    all.push(Provider::PhxCoIn);
    for p in &all {
        let r = request("https://x", p);
        assert_eq!(r.body.is_some(), r.content_type.is_some(), "provider {:?}", p);
        assert!(
            r.url.starts_with("http://") || r.url.starts_with("https://"),
            "provider {:?}",
            p
        );
        assert!(r.url.len() > 8, "provider {:?}", p);
        assert!(!r.url.contains(' '), "provider {:?}", p);
    }
}

#[test]
fn provider_names_are_the_domain_names() {
    assert_eq!(Provider::Abv8.to_name(), "abv8.me");
    assert_eq!(Provider::BamBz.to_name(), "bam.bz");
    assert_eq!(
        Provider::BitLy {
            token: String::from("T")
        }
        .to_name(),
        "bitly.com"
    );
    assert_eq!(Provider::BitUrl.to_name(), "biturl.top");
    assert_eq!(Provider::Bmeo.to_name(), "bmeo.org");
    assert_eq!(Provider::FifoCc.to_name(), "fifo.cc");
    assert_eq!(
        Provider::GooGl {
            api_key: String::from("K")
        }
        .to_name(),
        "goo.gl"
    );
    assert_eq!(Provider::HmmRs.to_name(), "hmm.rs");
    assert_eq!(Provider::HecSu.to_name(), "hec.su");
    assert_eq!(Provider::IsGd.to_name(), "is.gd");
    assert_eq!(Provider::NowLinks.to_name(), "nowlinks.net");
    assert_eq!(Provider::PhxCoIn.to_name(), "phx.co.in");
    assert_eq!(Provider::PsbeCo.to_name(), "psbe.co");
    assert_eq!(Provider::SCoop.to_name(), "s.coop");
    assert_eq!(Provider::SirBz.to_name(), "sirbz.com");
    assert_eq!(Provider::Rlu.to_name(), "rlu.ru");
    assert_eq!(Provider::TinyUrl.to_name(), "tinyurl.com");
    assert_eq!(Provider::TinyPh.to_name(), "tiny.ph");
    assert_eq!(Provider::TnyIm.to_name(), "tny.im");
    assert_eq!(Provider::UrlShortenerIo.to_name(), "url-shortener.io");
    assert_eq!(Provider::VGd.to_name(), "v.gd");
    for p in &default_providers() {
        assert!(!p.to_name().is_empty());
    }
}

#[test]
fn default_list_is_auth_free_and_duplicate_free() {
    let list = default_providers();
    assert_eq!(list.len(), 18);
    for p in &list {
        assert!(
            !matches!(
                p,
                Provider::BitLy { .. } | Provider::GooGl { .. } | Provider::Kutt { .. }
            ),
            "auth-bearing provider {:?} in the default list",
            p
        );
    }
    for i in 0..list.len() {
        for j in 0..list.len() {
            if i != j {
                assert_ne!(list[i].to_name(), list[j].to_name());
            }
        }
    }
    assert_eq!(list[0].to_name(), "is.gd");
    assert_eq!(list[1].to_name(), "v.gd");
    assert_eq!(list[17].to_name(), "nowlinks.net");
}
