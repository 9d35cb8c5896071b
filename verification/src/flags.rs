//! Process-argument parsing into a validated configuration.
//!
//! The raw flag extraction is delegated to `getopts` behind trusted items;
//! every validation and default-resolution step after it is verified.

use vstd::prelude::*;

use crate::strutil::str_eq;

verus! {

/// The inference mode the engine is asked to run in.
#[derive(Clone, Copy, Debug, PartialEq, Eq, Structural)]
pub enum Mode {
    Indent,
    Paren,
    Smart,
}

/// The surface the request is gathered from.
#[derive(Clone, Copy, Debug, PartialEq, Eq, Structural)]
pub enum InputType {
    Json,
    Kakoune,
    Text,
}

/// The surface the response is rendered for.
#[derive(Clone, Copy, Debug, PartialEq, Eq, Structural)]
pub enum OutputType {
    Json,
    Kakoune,
    Text,
}

/// Why an argument list was rejected; each variant that carries a `String`
/// carries the offending value.
#[derive(Debug)]
pub enum ParseError {
    /// The argument list itself did not parse (unknown flag, missing value).
    Args(String),
    /// The value given for `--input-format` is not `text`, `json` or `kakoune`.
    BadInputFormat(String),
    /// The value given for `-m`/`--mode` is not one of the mode words.
    BadMode(String),
    /// The value given for `--output-format` is not `text`, `json` or `kakoune`.
    BadOutputFormat(String),
    /// The value given for `--comment-char` is not exactly one character.
    BadCommentChar(String),
}

/// The raw option values that flag extraction hands back, before any
/// validation: presence of the help flag and the uninterpreted value of
/// each value-carrying option.
pub struct RawFlags {
    pub help: bool,
    pub input_format: Option<String>,
    pub mode: Option<String>,
    pub output_format: Option<String>,
    pub comment_char: Option<String>,
}

/// The contents of a `RawFlags`, character for character.
pub struct RawFlagsView {
    pub help: bool,
    pub input_format: Option<Seq<char>>,
    pub mode: Option<Seq<char>>,
    pub output_format: Option<Seq<char>>,
    pub comment_char: Option<Seq<char>>,
}

impl View for RawFlags {
    type V = RawFlagsView;

    open spec fn view(&self) -> RawFlagsView {
        RawFlagsView {
            help: self.help,
            input_format: self.input_format.deep_view(),
            mode: self.mode.deep_view(),
            output_format: self.output_format.deep_view(),
            comment_char: self.comment_char.deep_view(),
        }
    }
}

pub uninterp spec fn flags_of(args: Seq<Seq<char>>) -> Result<RawFlagsView, Seq<char>>;

pub uninterp spec fn usage_of(brief: Seq<char>) -> Seq<char>;

/// Relies on `getopts::Options::new`, `optflag`, `optopt`,
/// `Options::parse`, `Matches::opt_present` and `Matches::opt_str`: under
/// the fixed schema built here, success and every extracted value depend
/// on the argument list alone, so the outcome is named `flags_of`. The
/// queried names are all defined in the schema, which `opt_present` and
/// `opt_str` require of their callers.
#[verifier::external_body]
fn getopts_parse(args: &[String]) -> (r: Result<RawFlags, String>)
    ensures
        match flags_of(args.deep_view()) {
            Ok(v) => r matches Ok(f) && f@ == v,
            Err(m) => r matches Err(e) && e@ == m,
        },
{
    let mut schema = getopts::Options::new();
    schema.optflag("h", "help", "show this help message")
        .optopt("", "input-format", "'json', 'text' (default: 'text')", "FMT")
        .optopt("m", "mode", "parinfer mode (indent, paren, or smart) (default: smart)", "MODE")
        .optopt("", "output-format", "'json', 'kakoune', 'text' (default: 'text')", "FMT")
        .optopt("", "comment-char", "(default: ';')", "CC");
    match schema.parse(args) {
        Ok(m) => Ok(RawFlags {
            help: m.opt_present("h"), input_format: m.opt_str("input-format"),
            mode: m.opt_str("m"), output_format: m.opt_str("output-format"),
            comment_char: m.opt_str("comment-char") }),
        Err(e) => Err(e.to_string()),
    }
}

/// Relies on `getopts::Options::new`, `optflag`, `optopt` and
/// `Options::usage`: under the fixed schema built here (the same as in
/// `getopts_parse`), the rendered help text depends on the brief line
/// alone, so it is named `usage_of`.
#[verifier::external_body]
fn usage_with(brief: &str) -> (r: String)
    ensures
        r@ == usage_of(brief@),
{
    let mut schema = getopts::Options::new();
    schema.optflag("h", "help", "show this help message")
        .optopt("", "input-format", "'json', 'text' (default: 'text')", "FMT")
        .optopt("m", "mode", "parinfer mode (indent, paren, or smart) (default: smart)", "MODE")
        .optopt("", "output-format", "'json', 'kakoune', 'text' (default: 'text')", "FMT")
        .optopt("", "comment-char", "(default: ';')", "CC");
    schema.usage(brief)
}

/// Renders the help text for the program's flags.
pub fn usage() -> (r: String)
    ensures
        r@ == usage_of("Usage: parinfer-rust [options]"@),
{
    usage_with("Usage: parinfer-rust [options]")
}

/// The mode a raw `-m`/`--mode` value selects: the default when absent,
/// `None` when the value is not a mode word.
pub open spec fn spec_mode(raw: Option<Seq<char>>) -> Option<Mode> {
    match raw {
        None => Some(Mode::Smart),
        Some(s) => if s == "i"@ || s == "indent"@ {
            Some(Mode::Indent)
        } else if s == "p"@ || s == "paren"@ {
            Some(Mode::Paren)
        } else if s == "s"@ || s == "smart"@ {
            Some(Mode::Smart)
        } else {
            None
        },
    }
}

/// The input surface a raw `--input-format` value selects.
pub open spec fn spec_input_format(raw: Option<Seq<char>>) -> Option<InputType> {
    match raw {
        None => Some(InputType::Text),
        Some(s) => if s == "text"@ {
            Some(InputType::Text)
        } else if s == "json"@ {
            Some(InputType::Json)
        } else if s == "kakoune"@ {
            Some(InputType::Kakoune)
        } else {
            None
        },
    }
}

/// The output surface a raw `--output-format` value selects.
pub open spec fn spec_output_format(raw: Option<Seq<char>>) -> Option<OutputType> {
    match raw {
        None => Some(OutputType::Text),
        Some(s) => if s == "text"@ {
            Some(OutputType::Text)
        } else if s == "json"@ {
            Some(OutputType::Json)
        } else if s == "kakoune"@ {
            Some(OutputType::Kakoune)
        } else {
            None
        },
    }
}

/// The comment character a raw `--comment-char` value selects: the
/// semicolon default when absent, `None` unless exactly one character.
pub open spec fn spec_comment_char(raw: Option<Seq<char>>) -> Option<char> {
    match raw {
        None => Some(';'),
        Some(s) => if s.len() == 1 {
            Some(s[0])
        } else {
            None
        },
    }
}

/// The validated configuration, derived once from the argument list and
/// read-only thereafter.
#[derive(Clone, Copy, Debug, PartialEq, Eq, Structural)]
pub struct Options {
    pub help: bool,
    pub input_format: InputType,
    pub output_format: OutputType,
    pub mode: Mode,
    pub comment_char: char,
}

/// What `Options::parse` returns for a given argument list: the raw flag
/// extraction decides between an argument error and raw values; raw values
/// are then validated in flag order, each invalid value rejected with the
/// value it carried.
pub open spec fn parses_to(args: Seq<Seq<char>>, r: Result<Options, ParseError>) -> bool {
    match flags_of(args) {
        Err(m) => r matches Err(ParseError::Args(e)) && e@ == m,
        Ok(f) => {
            if spec_input_format(f.input_format) is None {
                r matches Err(ParseError::BadInputFormat(v)) && Some(v@) == f.input_format
            } else if spec_mode(f.mode) is None {
                r matches Err(ParseError::BadMode(v)) && Some(v@) == f.mode
            } else if spec_output_format(f.output_format) is None {
                r matches Err(ParseError::BadOutputFormat(v)) && Some(v@) == f.output_format
            } else if spec_comment_char(f.comment_char) is None {
                r matches Err(ParseError::BadCommentChar(v)) && Some(v@) == f.comment_char
            } else {
                r matches Ok(o)
                    && o.help == f.help
                    && Some(o.input_format) == spec_input_format(f.input_format)
                    && Some(o.mode) == spec_mode(f.mode)
                    && Some(o.output_format) == spec_output_format(f.output_format)
                    && Some(o.comment_char) == spec_comment_char(f.comment_char)
            }
        },
    }
}

/// Validates a raw `--input-format` value.
fn validate_input_format(raw: Option<String>) -> (r: Result<InputType, ParseError>)
    ensures
        match spec_input_format(raw.deep_view()) {
            Some(t) => r == Ok::<InputType, ParseError>(t),
            None => r matches Err(ParseError::BadInputFormat(v)) && Some(v@) == raw.deep_view(),
        },
{
    match raw {
        None => Ok(InputType::Text),
        Some(s) => {
            if str_eq(s.as_str(), "text") {
                Ok(InputType::Text)
            } else if str_eq(s.as_str(), "json") {
                Ok(InputType::Json)
            } else if str_eq(s.as_str(), "kakoune") {
                Ok(InputType::Kakoune)
            } else {
                Err(ParseError::BadInputFormat(s))
            }
        },
    }
}

/// Validates a raw `--output-format` value.
fn validate_output_format(raw: Option<String>) -> (r: Result<OutputType, ParseError>)
    ensures
        match spec_output_format(raw.deep_view()) {
            Some(t) => r == Ok::<OutputType, ParseError>(t),
            None => r matches Err(ParseError::BadOutputFormat(v)) && Some(v@) == raw.deep_view(),
        },
{
    match raw {
        None => Ok(OutputType::Text),
        Some(s) => {
            if str_eq(s.as_str(), "text") {
                Ok(OutputType::Text)
            } else if str_eq(s.as_str(), "json") {
                Ok(OutputType::Json)
            } else if str_eq(s.as_str(), "kakoune") {
                Ok(OutputType::Kakoune)
            } else {
                Err(ParseError::BadOutputFormat(s))
            }
        },
    }
}

/// Validates a raw `-m`/`--mode` value.
fn validate_mode(raw: Option<String>) -> (r: Result<Mode, ParseError>)
    ensures
        match spec_mode(raw.deep_view()) {
            Some(m) => r == Ok::<Mode, ParseError>(m),
            None => r matches Err(ParseError::BadMode(v)) && Some(v@) == raw.deep_view(),
        },
{
    match raw {
        None => Ok(Mode::Smart),
        Some(s) => {
            if str_eq(s.as_str(), "i") || str_eq(s.as_str(), "indent") {
                Ok(Mode::Indent)
            } else if str_eq(s.as_str(), "p") || str_eq(s.as_str(), "paren") {
                Ok(Mode::Paren)
            } else if str_eq(s.as_str(), "s") || str_eq(s.as_str(), "smart") {
                Ok(Mode::Smart)
            } else {
                Err(ParseError::BadMode(s))
            }
        },
    }
}

/// Validates a raw `--comment-char` value: exactly one character is
/// accepted, never truncated.
fn validate_comment_char(raw: Option<String>) -> (r: Result<char, ParseError>)
    ensures
        match spec_comment_char(raw.deep_view()) {
            Some(c) => r == Ok::<char, ParseError>(c),
            None => r matches Err(ParseError::BadCommentChar(v)) && Some(v@) == raw.deep_view(),
        },
{
    match raw {
        None => Ok(';'),
        Some(s) => {
            if s.as_str().unicode_len() == 1 {
                Ok(s.as_str().get_char(0))
            } else {
                Err(ParseError::BadCommentChar(s))
            }
        },
    }
}

impl Options {
    /// Parses and validates the process argument list (program name
    /// excluded) into a configuration; every failure is recoverable.
    pub fn parse(args: &[String]) -> (r: Result<Options, ParseError>)
        ensures
            parses_to(args.deep_view(), r),
    {
        let raw = match getopts_parse(args) {
            Ok(f) => f,
            Err(e) => {
                return Err(ParseError::Args(e));
            },
        };
        let input_format = match validate_input_format(raw.input_format) {
            Ok(t) => t,
            Err(e) => {
                return Err(e);
            },
        };
        let mode = match validate_mode(raw.mode) {
            Ok(m) => m,
            Err(e) => {
                return Err(e);
            },
        };
        let output_format = match validate_output_format(raw.output_format) {
            Ok(t) => t,
            Err(e) => {
                return Err(e);
            },
        };
        let comment_char = match validate_comment_char(raw.comment_char) {
            Ok(c) => c,
            Err(e) => {
                return Err(e);
            },
        };
        Ok(Options { help: raw.help, input_format, output_format, mode, comment_char })
    }

    /// Whether `-h`/`--help` was given.
    pub fn want_help(&self) -> (r: bool)
        ensures
            r == self.help,
    {
        self.help
    }

    /// The surface the request is gathered from.
    pub fn input_type(&self) -> (r: InputType)
        ensures
            r == self.input_format,
    {
        self.input_format
    }

    /// The surface the response is rendered for.
    pub fn output_type(&self) -> (r: OutputType)
        ensures
            r == self.output_format,
    {
        self.output_format
    }

    /// The selected inference mode.
    pub fn mode(&self) -> (r: Mode)
        ensures
            r == self.mode,
    {
        self.mode
    }

    /// The selected comment character.
    pub fn comment_char(&self) -> (r: char)
        ensures
            r == self.comment_char,
    {
        self.comment_char
    }
}

/// One argument list admits one parse outcome: the configuration fields
/// agree on success, the error variant and the value it carries agree on
/// failure.
pub proof fn lemma_parse_deterministic(
    args: Seq<Seq<char>>,
    r1: Result<Options, ParseError>,
    r2: Result<Options, ParseError>,
)
    requires
        parses_to(args, r1),
        parses_to(args, r2),
    ensures
        r1 is Ok <==> r2 is Ok,
        (r1 is Ok && r2 is Ok) ==> r1->Ok_0 == r2->Ok_0,
        (r1 is Err && r2 is Err) ==> parse_err_eq(r1->Err_0, r2->Err_0),
{
    match flags_of(args) {
        Err(m) => {
            assert(r1 matches Err(ParseError::Args(e)) && e@ == m);
            assert(r2 matches Err(ParseError::Args(e)) && e@ == m);
        },
        Ok(f) => {
            if r1 is Ok && r2 is Ok {
                let a = r1->Ok_0;
                let b = r2->Ok_0;
                assert(a.help == b.help);
                assert(a.input_format == b.input_format);
                assert(a.output_format == b.output_format);
                assert(a.mode == b.mode);
                assert(a.comment_char == b.comment_char);
            }
        },
    }
}

/// Whether two parse errors are the same variant carrying the same
/// characters.
pub open spec fn parse_err_eq(a: ParseError, b: ParseError) -> bool {
    match (a, b) {
        (ParseError::Args(x), ParseError::Args(y)) => x@ == y@,
        (ParseError::BadInputFormat(x), ParseError::BadInputFormat(y)) => x@ == y@,
        (ParseError::BadMode(x), ParseError::BadMode(y)) => x@ == y@,
        (ParseError::BadOutputFormat(x), ParseError::BadOutputFormat(y)) => x@ == y@,
        (ParseError::BadCommentChar(x), ParseError::BadCommentChar(y)) => x@ == y@,
        _ => false,
    }
}

} // verus!
