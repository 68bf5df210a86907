use rustpub::cmd::ReadabiliPyCmd;
use rustpub::epub::{epub_file_name, Document};
use rustpub::img::{AbsoluteUrlError, ImgMeta, ImgProc};
use rustpub::parse::{MetaScraper, Parser, ParserKind};
use rustpub::parser::{HeadingFailure, KuchikiParser};
use rustpub::weburl::{file_name_from_url, UrlError};

const PAGE: &str = r#"<html><head>
<meta property="og:title" content="Open Graph title">
<meta name="twitter:title" content="Twitter title">
<meta property="og:author" content="Ada">
<meta property="og:updated_time" content="2021-02-03">
<meta itemprop="datePublished" content="2020-01-01">
</head><body><p>x</p></body></html>"#;

#[test]
fn title_prefers_open_graph() {
    let s = MetaScraper::new(PAGE);
    assert_eq!(s.extract_title(), Some("Open Graph title".to_string()));
}

#[test]
fn title_falls_back_to_twitter() {
    let s = MetaScraper::new(r#"<meta name="twitter:title" content="Tw">"#);
    assert_eq!(s.extract_title(), Some("Tw".to_string()));
}

#[test]
fn author_and_date() {
    let s = MetaScraper::new(PAGE);
    assert_eq!(s.extract_author(), Some("Ada".to_string()));
    assert_eq!(s.extract_date(), Some("2021-02-03".to_string()));
}

#[test]
fn date_prefers_published_time() {
    let page = format!(r#"<meta name="article:published_time" content="1999">{}"#, PAGE);
    assert_eq!(MetaScraper::new(&page).extract_date(), Some("1999".to_string()));
}

#[test]
fn date_falls_back_to_itemprop() {
    let s = MetaScraper::new(r#"<meta itemprop="datePublished" content="2020-01-01">"#);
    assert_eq!(s.extract_date(), Some("2020-01-01".to_string()));
}

#[test]
fn last_matching_meta_wins() {
    let s = MetaScraper::new(
        r#"<meta property="og:title" content="first"><meta property="og:title" content="second">"#,
    );
    assert_eq!(s.extract_title(), Some("second".to_string()));
    let s = MetaScraper::new(r#"<meta property="og:author" content="first"><meta property="og:author">"#);
    assert_eq!(s.extract_author(), None);
}

#[test]
fn missing_metadata_is_none() {
    let s = MetaScraper::new("<p>nothing</p>");
    assert_eq!(s.extract_title(), None);
    assert_eq!(s.extract_author(), None);
    assert_eq!(s.extract_date(), None);
}

#[test]
fn parser_names() {
    assert_eq!(ParserKind::from_name("py"), ParserKind::ReadabiliPy);
    assert_eq!(ParserKind::from_name("js"), ParserKind::ReadabilityJs);
    assert_eq!(ParserKind::from_name("rs"), ParserKind::ReadabilityRs);
    assert_eq!(ParserKind::from_name(""), ParserKind::ReadabilityRs);
    assert_eq!(ParserKind::from_name("python"), ParserKind::ReadabilityRs);
    assert!(ParserKind::ReadabiliPy.runs_external_command());
    assert!(ParserKind::ReadabilityJs.runs_external_command());
    assert!(!ParserKind::ReadabilityRs.runs_external_command());
}

#[test]
fn native_document_has_unknown_author_and_date() {
    let d = Parser::document_of("T".to_string(), "<p>c</p>".to_string(), "c".to_string());
    assert_eq!(d.title.as_deref(), Some("T"));
    assert_eq!(d.byline.as_deref(), Some("Unknown"));
    assert_eq!(d.date.as_deref(), Some("Unknown"));
    assert_eq!(d.content.as_deref(), Some("<p>c</p>"));
    assert_eq!(d.plain_text.as_deref(), Some("c"));
}

#[test]
fn native_extraction() {
    let page = "<html><head><title>Hello</title></head><body><div><p>A paragraph of text, long enough to count as the article body, with commas, and more words.</p></div></body></html>";
    let d = Parser::default("https://example.com/post", page).unwrap();
    assert_eq!(d.title.as_deref(), Some("Hello"));
    assert!(d.content.is_some());
    assert!(d.plain_text.unwrap().contains("A paragraph of text"));
    assert_eq!(d.byline.as_deref(), Some("Unknown"));
    assert_eq!(d.date.as_deref(), Some("Unknown"));
}

#[test]
fn native_extraction_needs_a_url() {
    assert!(matches!(
        Parser::default("no url", "<p>x</p>"),
        Err(rustpub::parse::ExtractError::UrlParseError(UrlError::RelativeUrlWithoutBase))
    ));
}

#[test]
fn readabilipy_file_locations() {
    let p = Parser::readabilipy_paths("/tmp/rp", "https://example.com/blog/post.html?x=1");
    assert_eq!(p.html_path, "/tmp/rp/post.html");
    assert_eq!(p.json_path, "/tmp/rp/document.json");
    let p = Parser::readabilipy_paths("/tmp/rp/", "https://example.com/");
    assert_eq!(p.html_path, "/tmp/rp/tmp.bin");
}

#[test]
fn command_lines() {
    assert_eq!(
        ReadabiliPyCmd::command_line(ParserKind::ReadabiliPy, "/t/in.html", "/t/out.json"),
        "readabilipy -p -i /t/in.html -o /t/out.json"
    );
    assert_eq!(
        ReadabiliPyCmd::command_line(ParserKind::ReadabilityJs, "a", "b"),
        "readabilipy  -i a -o b"
    );
    assert_eq!(ReadabiliPyCmd::parser_arg(ParserKind::ReadabilityRs), "");
}

#[test]
fn epub_text_defaults() {
    let d = Document { title: None, byline: None, date: None, content: None, plain_text: None };
    let t = d.epub_text();
    assert_eq!(t.title, "Title unknown");
    assert_eq!(t.author, "Author unknown");
    assert_eq!(t.date, "Date unknown");
    assert_eq!(t.content, "Content unknown");
    let d = Document {
        title: Some("A".into()),
        byline: Some("B".into()),
        date: Some("C".into()),
        content: Some("D".into()),
        plain_text: None,
    };
    let t = d.epub_text();
    assert_eq!((t.title.as_str(), t.author.as_str(), t.date.as_str(), t.content.as_str()), ("A", "B", "C", "D"));
}

#[test]
fn epub_name() {
    assert_eq!(epub_file_name("ebook"), "ebook.epub");
    assert_eq!(epub_file_name(""), ".epub");
}

#[test]
fn target_check() {
    assert_eq!(Document::check_target("https://example.com").unwrap(), "https://example.com/");
    assert!(matches!(Document::check_target("not a url"), Err(UrlError::RelativeUrlWithoutBase)));
    match Document::check_target("http://[::1") {
        Err(UrlError::Other(m)) => assert_eq!(m, "invalid IPv6 address"),
        other => panic!("{:?}", other),
    }
}

#[test]
fn file_names_from_urls() {
    assert_eq!(file_name_from_url("https://e.com/a/b/pic.png", "f"), "pic.png");
    assert_eq!(file_name_from_url("https://e.com/a/b/", "f"), "f");
    assert_eq!(file_name_from_url("https://e.com", "f"), "f");
    assert_eq!(file_name_from_url("mailto:x@y.z", "f"), "f");
    assert_eq!(file_name_from_url("nonsense", "f"), "f");
    assert_eq!(file_name_from_url("https://e.com/a%20b.jpg#frag", "f"), "a%20b.jpg");
}

#[test]
fn absolute_urls() {
    let p = ImgProc::new("https://example.com/articles/one.html".into(), "/tmp/x".into());
    assert_eq!(p.absolute_checker("https://cdn.com/i.png").unwrap(), "https://cdn.com/i.png");
    assert_eq!(p.absolute_checker("img/a.png").unwrap(), "https://example.com/articles/img/a.png");
    assert_eq!(p.absolute_checker("/b.png").unwrap(), "https://example.com/b.png");
    assert!(matches!(p.absolute_checker("http://[::1"), Err(AbsoluteUrlError::Unparsable(_))));
    let bad = ImgProc::new("not a url".into(), "/tmp/x".into());
    assert!(matches!(bad.absolute_checker("a.png"), Err(AbsoluteUrlError::InvalidTarget(_))));
}

#[test]
fn image_sources_in_order() {
    let srcs = ImgProc::image_sources(r#"<p><img src="a.png"><img alt="x"><img src="/b.jpg"></p>"#);
    assert_eq!(srcs, vec![Some("a.png".to_string()), None, Some("/b.jpg".to_string())]);
    assert!(ImgProc::image_sources("<p>no images</p>").is_empty());
}

#[test]
fn image_metadata() {
    let p = ImgProc::new("https://example.com/".into(), "/tmp/x".into());
    let m = p.image_meta("https://e.com/p/photo.jpg".into(), "https://e.com/p/photo.jpg");
    assert_eq!(m.url.as_deref(), Some("https://e.com/p/photo.jpg"));
    assert_eq!(m.filename.as_deref(), Some("photo"));
    assert_eq!(m.extension.as_deref(), Some("jpg"));
    assert_eq!(m.local_path.as_deref(), Some("/tmp/x/photo.jpg"));
    assert_eq!(m.media_type(), "image/jpg");
    let m = p.image_meta("https://e.com/".into(), "https://e.com/");
    assert_eq!(m.filename.as_deref(), Some("tmp_img"));
    assert_eq!(m.extension.as_deref(), Some("jpg"));
    assert_eq!(m.local_path.as_deref(), Some("/tmp/x/tmp_img.jpg"));
    let m = p.image_meta("https://e.com/raw".into(), "https://e.com/raw");
    assert_eq!(m.filename.as_deref(), Some("raw"));
    assert_eq!(m.extension, None);
    assert_eq!(m.media_type(), "image/png");
}

#[test]
fn media_type_without_extension() {
    let m = ImgMeta { url: None, filename: None, extension: None, local_path: None };
    assert_eq!(m.media_type(), "image/png");
}

#[test]
fn headings_are_read() {
    let h = KuchikiParser::parse("<h1>One</h1><p>x</p><h1>Two</h1>");
    assert_eq!(h.titles, vec!["One".to_string(), "Two".to_string()]);
    assert_eq!(h.failure, None);
}

#[test]
fn headings_stop_at_a_non_text_child() {
    let h = KuchikiParser::parse("<h1>One</h1><h1><b>bold</b></h1><h1>Three</h1>");
    assert_eq!(h.titles, vec!["One".to_string()]);
    assert_eq!(h.failure, Some(HeadingFailure::NotText));
    let h = KuchikiParser::parse("<h1></h1>");
    assert!(h.titles.is_empty());
    assert_eq!(h.failure, Some(HeadingFailure::NoChild));
}

#[test]
fn url_error_messages_match_the_url_crate() {
    let e = Document::check_target("not a url").unwrap_err();
    assert_eq!(e.message(), url::ParseError::RelativeUrlWithoutBase.to_string());
    let e = Document::check_target("http://[::1").unwrap_err();
    assert_eq!(e.message(), url::ParseError::InvalidIpv6Address.to_string());
}

#[test]
fn page_metadata_replaces_the_extractors() {
    let d = Parser::document_of("T".into(), "<p>c</p>".into(), "c".into());
    let d = MetaScraper::new(PAGE).fill_metadata(d);
    assert_eq!(d.title.as_deref(), Some("Open Graph title"));
    assert_eq!(d.byline.as_deref(), Some("Ada"));
    assert_eq!(d.date.as_deref(), Some("2021-02-03"));
    assert_eq!(d.content.as_deref(), Some("<p>c</p>"));
    let d = MetaScraper::new("<p>bare</p>").fill_metadata(d);
    assert_eq!(d.title, None);
    assert_eq!(d.byline, None);
    assert_eq!(d.date, None);
}
