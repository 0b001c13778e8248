//! Behaviour of the response decoders, provider by provider.

use urlshortener::providers::{parse, Provider, ProviderError};

#[test]
fn identity_parse_returns_body_verbatim() {
    let body = "https://is.gd/abc";
    assert_eq!(parse(body, &Provider::IsGd), Ok(String::from(body)));
    assert_eq!(parse(body, &Provider::VGd), Ok(String::from(body)));
    assert_eq!(parse(body, &Provider::Abv8), Ok(String::from(body)));
    assert_eq!(parse(body, &Provider::NowLinks), Ok(String::from(body)));
    assert_eq!(parse(body, &Provider::PhxCoIn), Ok(String::from(body)));
    assert_eq!(parse(body, &Provider::SCoop), Ok(String::from(body)));
    assert_eq!(parse(body, &Provider::Rlu), Ok(String::from(body)));
    assert_eq!(parse(body, &Provider::UrlShortenerIo), Ok(String::from(body)));
    let bitly = Provider::BitLy {
        token: String::from("T"),
    };
    assert_eq!(parse(body, &bitly), Ok(String::from(body)));
}

#[test]
fn xml_parse_extracts_tag_content() {
    assert_eq!(
        parse("<Response><ShortUrl>https://psbe.co/Q</ShortUrl></Response>", &Provider::PsbeCo),
        Ok(String::from("https://psbe.co/Q"))
    );
    assert_eq!(
        parse("<short>https://hec.su/x</short>", &Provider::HecSu),
        Ok(String::from("https://hec.su/x"))
    );
    assert_eq!(
        parse("<shorturl>http://tny.im/y</shorturl>", &Provider::TnyIm),
        Ok(String::from("http://tny.im/y"))
    );
}

#[test]
fn xml_parse_rejects_empty_body() {
    assert_eq!(parse("", &Provider::HecSu), Err(ProviderError::Deserialize));
    assert_eq!(parse("", &Provider::PsbeCo), Err(ProviderError::Deserialize));
    assert_eq!(parse("", &Provider::TnyIm), Err(ProviderError::Deserialize));
}

#[test]
fn xml_parse_rejects_body_without_tag() {
    assert_eq!(parse("no tag here", &Provider::HecSu), Err(ProviderError::Deserialize));
    assert_eq!(parse("no tag here", &Provider::PsbeCo), Err(ProviderError::Deserialize));
}

#[test]
fn xml_parse_rejects_unclosed_tag() {
    assert_eq!(parse("<short>half open", &Provider::HecSu), Err(ProviderError::Deserialize));
}

#[test]
fn json_parse_extracts_value() {
    assert_eq!(
        parse("{\"url\":\"https://bam.bz/z\"}", &Provider::BamBz),
        Ok(String::from("https://bam.bz/z"))
    );
    assert_eq!(
        parse("{\"short\":\"https://biturl.top/w\"}", &Provider::BitUrl),
        Ok(String::from("https://biturl.top/w"))
    );
    assert_eq!(
        parse("{\"shortUrl\":\"http://hmm.rs/u\"}", &Provider::HmmRs),
        Ok(String::from("http://hmm.rs/u"))
    );
    assert_eq!(
        parse("{\"short_link\":\"http://sirbz.com/s\"}", &Provider::SirBz),
        Ok(String::from("http://sirbz.com/s"))
    );
    assert_eq!(parse("{\"id\":\"https://goo.gl/g\"}", &Provider::GooGl {
        api_key: String::from("K"),
    }), Ok(String::from("https://goo.gl/g")));
}

#[test]
fn json_parse_prepends_provider_prefix() {
    assert_eq!(parse("{\"hash\":\"xy9\"}", &Provider::TinyPh), Ok(String::from("http://tiny.ph/xy9")));
    assert_eq!(
        parse("{\"shortner\":\"q8\"}", &Provider::FifoCc),
        Ok(String::from("http://fifo.cc/q8"))
    );
}

#[test]
fn json_parse_strips_backslashes() {
    assert_eq!(
        parse("{\"url\":\"https:\\/\\/bam.bz\\/z\"}", &Provider::BamBz),
        Ok(String::from("https://bam.bz/z"))
    );
}

#[test]
fn json_parse_stops_at_comma_segment() {
    assert_eq!(
        parse("{\"ok\":true,\"short\":\"http://bmeo.org/b\",\"x\":1}", &Provider::Bmeo),
        Ok(String::from("http://bmeo.org/b"))
    );
}

#[test]
fn json_parse_rejects_missing_key() {
    assert_eq!(parse("{\"other\":\"v\"}", &Provider::BamBz), Err(ProviderError::Deserialize));
    assert_eq!(parse("", &Provider::TinyPh), Err(ProviderError::Deserialize));
    assert_eq!(parse("plain text", &Provider::HmmRs), Err(ProviderError::Deserialize));
}

#[test]
fn kutt_parse_reads_short_url_key() {
    let kutt = Provider::Kutt {
        api_key: String::from("K"),
        host: None,
    };
    assert_eq!(
        parse("{\"shortUrl\":\"https://kutt.it/k\"}", &kutt),
        Ok(String::from("https://kutt.it/k"))
    );
    assert_eq!(parse("{}", &kutt), Err(ProviderError::Deserialize));
}

#[test]
fn tinyurl_parse_reads_clipboard_attribute() {
    let page = "<html><button data-clipboard-text=\"https://tinyurl.com/t\">copy</button></html>";
    assert_eq!(parse(page, &Provider::TinyUrl), Ok(String::from("https://tinyurl.com/t")));
    assert_eq!(parse("", &Provider::TinyUrl), Err(ProviderError::Deserialize));
    assert_eq!(parse("<html></html>", &Provider::TinyUrl), Err(ProviderError::Deserialize));
}

#[test]
fn parse_is_pure_on_repeat_calls() {
    let body = "{\"hash\":\"xy9\"}";
    let first = parse(body, &Provider::TinyPh);
    let second = parse(body, &Provider::TinyPh);
    assert_eq!(first, second);
}

#[test]
fn error_messages_are_distinct_and_nonempty() {
    let c = ProviderError::Connection.message();
    let d = ProviderError::Deserialize.message();
    assert!(!c.is_empty());
    assert!(!d.is_empty());
    assert_ne!(c, d);
}
