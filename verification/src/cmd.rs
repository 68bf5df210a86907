//! The shell command that runs the ReadabiliPy extractor.

use vstd::prelude::*;
use crate::parse::ParserKind;

verus! {

/// Runs the ReadabiliPy command line tool.
pub struct ReadabiliPyCmd {}

/// The option that selects the extractor inside `readabilipy`: `-p` for
/// the Python one, none for the others.
pub open spec fn parser_flag(parser: ParserKind) -> Seq<char> {
    match parser {
        ParserKind::ReadabiliPy => "-p"@,
        _ => ""@,
    }
}

/// The command line that extracts the article of the HTML file `html_fpath`
/// into the JSON file `json_fpath`.
pub open spec fn readabilipy_command(parser: ParserKind, html_fpath: Seq<char>, json_fpath: Seq<char>) -> Seq<char> {
    "readabilipy "@ + parser_flag(parser) + " -i "@ + html_fpath + " -o "@ + json_fpath
}

/// The Python extractor is selected with `-p` between the program and its
/// `-i` option; for the others the place of the option stays empty.
pub proof fn lemma_command_lines(html_fpath: Seq<char>, json_fpath: Seq<char>)
    ensures
        readabilipy_command(ParserKind::ReadabiliPy, html_fpath, json_fpath)
            == "readabilipy -p -i "@ + html_fpath + " -o "@ + json_fpath,
        readabilipy_command(ParserKind::ReadabilityJs, html_fpath, json_fpath)
            == "readabilipy  -i "@ + html_fpath + " -o "@ + json_fpath,
        readabilipy_command(ParserKind::ReadabilityRs, html_fpath, json_fpath)
            == "readabilipy  -i "@ + html_fpath + " -o "@ + json_fpath,
{
    reveal_strlit("readabilipy -p -i ");
    reveal_strlit("readabilipy  -i ");
    reveal_strlit("readabilipy ");
    reveal_strlit("-p");
    reveal_strlit("");
    reveal_strlit(" -i ");
    reveal_strlit(" -o ");
    assert("readabilipy "@ + "-p"@ + " -i "@ =~= "readabilipy -p -i "@);
    assert("readabilipy "@ + ""@ + " -i "@ =~= "readabilipy  -i "@);
    assert("readabilipy "@ + "-p"@ + " -i "@ + html_fpath =~= "readabilipy -p -i "@ + html_fpath);
    assert("readabilipy "@ + ""@ + " -i "@ + html_fpath =~= "readabilipy  -i "@ + html_fpath);
}

impl ReadabiliPyCmd {
    /// The option that selects the extractor (see [`parser_flag`]).
    pub fn parser_arg(parser: ParserKind) -> (r: &'static str)
        ensures
            r@ == parser_flag(parser),
    {
        match parser {
            ParserKind::ReadabiliPy => "-p",
            ParserKind::ReadabilityJs => "",
            _ => "",
        }
    }

    /// The command line to run (see [`readabilipy_command`]); it is handed
    /// to the shell as one argument.
    pub fn command_line(parser: ParserKind, html_fpath: &str, json_fpath: &str) -> (r: String)
        ensures
            r@ == readabilipy_command(parser, html_fpath@, json_fpath@),
    {
        let r = "readabilipy ".to_string()
            .concat(Self::parser_arg(parser))
            .concat(" -i ")
            .concat(html_fpath)
            .concat(" -o ")
            .concat(json_fpath);
        r
    }
}

} // verus!
