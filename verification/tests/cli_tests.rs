use rustpub::cli::{Arguments, RawArguments};

fn raw() -> RawArguments {
    RawArguments {
        url: None,
        output: None,
        test_url: None,
        env_test_url: None,
        image_max_size: None,
        env_image_max_size: None,
        parser: None,
        bw_images: false,
        verbose: false,
    }
}

#[test]
fn defaults() {
    let a = Arguments::from_raw(raw());
    assert_eq!(a.url, None);
    assert_eq!(a.output, "ebook");
    assert_eq!(a.test_url, "");
    assert_eq!(a.image_max_size, None);
    assert_eq!(a.parser, None);
    assert!(!a.bw_images && !a.verbose);
}

#[test]
fn given_values_are_kept() {
    let mut r = raw();
    r.url = Some("https://e.com".into());
    r.output = Some("book".into());
    r.parser = Some("py".into());
    r.bw_images = true;
    r.verbose = true;
    let a = Arguments::from_raw(r);
    assert_eq!(a.url.as_deref(), Some("https://e.com"));
    assert_eq!(a.output, "book");
    assert_eq!(a.parser.as_deref(), Some("py"));
    assert!(a.bw_images && a.verbose);
    assert_eq!(a.target_url(), "https://e.com");
}

#[test]
fn test_url_from_environment() {
    let mut r = raw();
    r.env_test_url = Some("https://env.example".into());
    let a = Arguments::from_raw(r);
    assert_eq!(a.test_url, "https://env.example");
    assert_eq!(a.target_url(), "https://env.example");
}

#[test]
fn max_size_prefers_the_command_line() {
    let mut r = raw();
    r.image_max_size = Some("640".into());
    r.env_image_max_size = Some("800".into());
    assert_eq!(Arguments::from_raw(r.clone()).image_max_size, Some(640));
    r.image_max_size = None;
    assert_eq!(Arguments::from_raw(r.clone()).image_max_size, Some(800));
    assert_eq!(Arguments::max_size_source(&r).map(|s| s.as_str()), Some("800"));
}
