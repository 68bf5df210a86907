//! Building blocks of an epub generator for web pages: the decisions on
//! URLs, file names, page metadata and program arguments, with their
//! contracts.

pub mod cli;
pub mod text;
pub mod weburl;
pub mod html;
pub mod epub;
pub mod parse;
pub mod img;
pub mod cmd;
pub mod parser;

use vstd::prelude::*;

verus! {

/// The article extractors that can turn a web page into a document.
#[derive(Clone, Copy, Debug, PartialEq, Eq)]
pub enum RustpubParser {
    ReadabiliPy,
    ReadabilityJs,
    ReadabilityRs,
}

} // verus!
