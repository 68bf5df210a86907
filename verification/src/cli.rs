//! The program's settings, made of what its command line and environment
//! give.

use vstd::prelude::*;
use crate::text::{parse_decimal_u32, parse_u32};

verus! {

/// The program's settings.
#[derive(Clone, Debug)]
pub struct Arguments {
    /// The page to turn into an epub.
    pub url: Option<String>,
    /// The name of the epub, without `.epub`.
    pub output: String,
    /// The page used when none is given.
    pub test_url: String,
    pub verbose: bool,
    /// The short name of the extractor (`py`, `js`, `rs`).
    pub parser: Option<String>,
    pub bw_images: bool,
    pub image_max_size: Option<u32>,
}

/// The values the command line and the environment hand over.
#[derive(Clone, Debug)]
pub struct RawArguments {
    /// `--url`.
    pub url: Option<String>,
    /// `--output`.
    pub output: Option<String>,
    /// The value of `-t`.
    pub test_url: Option<String>,
    /// The environment variable `RUSTPUB_TEST_URL`, where it is set.
    pub env_test_url: Option<String>,
    /// `--max`.
    pub image_max_size: Option<String>,
    /// The environment variable `RUSTPUB_MAX_IMG`, where it is set.
    pub env_image_max_size: Option<String>,
    /// `--parser`.
    pub parser: Option<String>,
    /// `--bw` was given.
    pub bw_images: bool,
    /// `--verbose` was given.
    pub verbose: bool,
}

/// The text the maximum image size is read from: the command line's, else
/// the environment's.
pub open spec fn max_size_text(raw: RawArguments) -> Option<Seq<char>> {
    match raw.image_max_size {
        Some(d) => Some(d@),
        None => match raw.env_image_max_size {
            Some(e) => Some(e@),
            None => None,
        },
    }
}

/// The maximum image size given on the command line is the one read,
/// whatever the environment holds; the environment's is read only where the
/// command line gives none.
pub proof fn lemma_max_size_command_line_first(raw: RawArguments)
    ensures
        raw.image_max_size matches Some(d) ==> max_size_text(raw) == Some(d@),
        raw.image_max_size is None && raw.env_image_max_size is Some ==> max_size_text(raw)
            == Some(raw.env_image_max_size->0@),
        raw.image_max_size is None && raw.env_image_max_size is None ==> max_size_text(raw) is None,
{
}

/// The settings are made of `raw`: its maximum image size, where there is
/// one, is a number.
pub open spec fn arguments_valid(raw: RawArguments) -> bool {
    max_size_text(raw) matches Some(t) ==> parse_u32(t) is Some
}

impl Arguments {
    /// The text the maximum image size is read from (see [`max_size_text`]).
    pub fn max_size_source(raw: &RawArguments) -> (r: Option<&String>)
        ensures
            raw.image_max_size matches Some(d) ==> r == Some(&d),
            raw.image_max_size is None ==> r == match raw.env_image_max_size {
                Some(e) => Some(&e),
                None => None,
            },
            match r {
                Some(t) => max_size_text(*raw) == Some(t@),
                None => max_size_text(*raw) is None,
            },
    {
        match &raw.image_max_size {
            Some(d) => Some(d),
            None => match &raw.env_image_max_size {
                Some(e) => Some(e),
                None => None,
            },
        }
    }

    /// The settings made of `raw`: the output is `ebook` unless given; the
    /// test page is the one given, else the environment's, else empty; the
    /// maximum image size is read as a decimal number.
    pub fn from_raw(raw: RawArguments) -> (r: Arguments)
        requires
            arguments_valid(raw),
        ensures
            r.url == raw.url,
            r.output@ == match raw.output {
                Some(o) => o@,
                None => "ebook"@,
            },
            r.test_url@ == match raw.test_url {
                Some(t) => t@,
                None => match raw.env_test_url {
                    Some(e) => e@,
                    None => ""@,
                },
            },
            r.image_max_size == match max_size_text(raw) {
                Some(t) => parse_u32(t),
                None => None,
            },
            raw.image_max_size matches Some(d) ==> r.image_max_size == parse_u32(d@),
            raw.image_max_size is None ==> r.image_max_size == match raw.env_image_max_size {
                Some(e) => parse_u32(e@),
                None => None,
            },
            r.parser == raw.parser,
            r.bw_images == raw.bw_images,
            r.verbose == raw.verbose,
    {
        let image_max_size = match Self::max_size_source(&raw) {
            Some(t) => parse_decimal_u32(t.as_str()),
            None => None,
        };
        let output = match raw.output {
            Some(d) => d,
            None => "ebook".to_string(),
        };
        let test_url = match raw.test_url {
            Some(a) => a,
            None => match raw.env_test_url {
                Some(e) => e,
                None => "".to_string(),
            },
        };
        Arguments {
            url: raw.url,
            output,
            test_url,
            verbose: raw.verbose,
            parser: raw.parser,
            bw_images: raw.bw_images,
            image_max_size,
        }
    }

    /// The page to turn into an epub: the one given, else the test page.
    pub fn target_url(&self) -> (r: String)
        ensures
            r@ == match self.url {
                Some(u) => u@,
                None => self.test_url@,
            },
    {
        match &self.url {
            Some(u) => u.clone(),
            None => self.test_url.clone(),
        }
    }
}

} // verus!
