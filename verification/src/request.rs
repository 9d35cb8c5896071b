//! Construction of the canonical request across the three input surfaces.
//!
//! Whatever the surface, the caller gathers the raw input (the text
//! buffer, the editor's environment snapshot, or an already decoded
//! request document) and hands it in as plain values; every validation
//! and coercion step is verified here.

use vstd::prelude::*;

use crate::defaults::{language_defaults, spec_language_defaults, Defaults};
use crate::flags::{Mode, Options};
use crate::strutil::{is_numeric_str, parse_usize, str_to_nat};

verus! {

/// One edit to the buffer, as the request document carries it.
#[derive(Debug, Clone, PartialEq)]
pub struct Change {
    pub x: usize,
    pub line: usize,
    pub old_text: String,
    pub new_text: String,
}

/// The options record of the canonical request. Every coordinate is
/// zero-based here; the one-based editor values are converted on the way
/// in, nowhere else.
#[derive(Debug, Clone, PartialEq)]
pub struct RequestOptions {
    pub changes: Vec<Change>,
    pub cursor_x: Option<usize>,
    pub cursor_line: Option<usize>,
    pub prev_text: Option<String>,
    pub prev_cursor_x: Option<usize>,
    pub prev_cursor_line: Option<usize>,
    pub force_balance: bool,
    pub return_parens: bool,
    pub comment_char: char,
    pub partial_result: bool,
    pub selection_start_line: Option<usize>,
    pub lisp_vline_symbols: bool,
    pub lisp_block_comment: bool,
    pub scheme_sexp_comment: bool,
    pub janet_long_strings: bool,
}

/// The canonical request the inference engine consumes, whichever surface
/// it was gathered from.
#[derive(Debug, Clone, PartialEq)]
pub struct Request {
    pub mode: String,
    pub text: String,
    pub options: RequestOptions,
}

/// The editor-integration snapshot: the raw value of each environment
/// variable the Kakoune path reads, `None` where the variable is unset.
#[derive(Debug, Clone, PartialEq)]
pub struct KakouneEnv {
    pub selection: Option<String>,
    pub filetype: Option<String>,
    pub cursor_char_column: Option<String>,
    pub cursor_line: Option<String>,
    pub previous_text: Option<String>,
    pub previous_cursor_char_column: Option<String>,
    pub previous_cursor_line: Option<String>,
}

/// The gathered input, one variant per input surface.
#[derive(Debug, Clone, PartialEq)]
pub enum Input {
    /// The whole standard-input stream, read as text.
    Text(String),
    /// The editor's environment snapshot.
    Kakoune(KakouneEnv),
    /// A request document already decoded from standard input.
    Json(Request),
}

/// The coordinate variables of the editor snapshot, named for error
/// reports.
#[derive(Clone, Copy, Debug, PartialEq, Eq, Structural)]
pub enum CoordVar {
    CursorX,
    CursorLine,
    PrevCursorX,
    PrevCursorLine,
}

/// Why a gathered input was rejected.
#[derive(Clone, Copy, Debug, PartialEq, Eq, Structural)]
pub enum BuildError {
    /// The editor snapshot has no selection; the selection is mandatory.
    MissingSelection,
    /// A coordinate variable is set but does not hold a positive decimal
    /// number that fits the machine.
    InvalidCoord(CoordVar),
}

/// The request's mode word for a configured mode.
pub open spec fn spec_mode_str(m: Mode) -> Seq<char> {
    match m {
        Mode::Indent => "indent"@,
        Mode::Paren => "paren"@,
        Mode::Smart => "smart"@,
    }
}

/// What a raw one-based coordinate value coerces to: an unset variable is
/// an unset field, a positive decimal becomes zero-based, anything else
/// (including zero) is rejected.
pub open spec fn coord_of(raw: Option<Seq<char>>) -> Option<Option<usize>> {
    match raw {
        None => Some(None),
        Some(s) => if is_numeric_str(s) && 1 <= str_to_nat(s) <= usize::MAX {
            Some(Some((str_to_nat(s) - 1) as usize))
        } else {
            None
        },
    }
}

/// The request the text path produces: the mode word and comment character
/// from the configuration, the buffer as read, and everything else at its
/// resting default.
pub open spec fn text_request_matches(conf: Options, text: Seq<char>, req: Request) -> bool {
    &&& req.mode@ == spec_mode_str(conf.mode)
    &&& req.text@ == text
    &&& req.options.changes@ == Seq::<Change>::empty()
    &&& req.options.cursor_x is None
    &&& req.options.cursor_line is None
    &&& req.options.prev_text is None
    &&& req.options.prev_cursor_x is None
    &&& req.options.prev_cursor_line is None
    &&& req.options.force_balance == false
    &&& req.options.return_parens == false
    &&& req.options.comment_char == conf.comment_char
    &&& req.options.partial_result == false
    &&& req.options.selection_start_line is None
    &&& req.options.lisp_vline_symbols == false
    &&& req.options.lisp_block_comment == false
    &&& req.options.scheme_sexp_comment == false
    &&& req.options.janet_long_strings == false
}

/// The request the editor path produces once every variable passed
/// validation: the selection as the buffer, each present coordinate made
/// zero-based, the dialect defaults resolved from the filetype hint.
pub open spec fn kakoune_request_matches(conf: Options, env: KakouneEnv, req: Request) -> bool {
    let d = spec_language_defaults(env.filetype.deep_view());
    &&& req.mode@ == spec_mode_str(conf.mode)
    &&& req.text@ == env.selection->Some_0@
    &&& req.options.changes@ == Seq::<Change>::empty()
    &&& Some(req.options.cursor_x) == coord_of(env.cursor_char_column.deep_view())
    &&& Some(req.options.cursor_line) == coord_of(env.cursor_line.deep_view())
    &&& req.options.prev_text.deep_view() == env.previous_text.deep_view()
    &&& Some(req.options.prev_cursor_x) == coord_of(env.previous_cursor_char_column.deep_view())
    &&& Some(req.options.prev_cursor_line) == coord_of(env.previous_cursor_line.deep_view())
    &&& req.options.force_balance == false
    &&& req.options.return_parens == false
    &&& req.options.comment_char == conf.comment_char
    &&& req.options.partial_result == false
    &&& req.options.selection_start_line is None
    &&& req.options.lisp_vline_symbols == d.lisp_vline_symbols
    &&& req.options.lisp_block_comment == d.lisp_block_comment
    &&& req.options.scheme_sexp_comment == d.scheme_sexp_comment
    &&& req.options.janet_long_strings == d.janet_long_strings
}

/// What the editor path returns: the selection is mandatory, then each
/// coordinate variable is validated in a fixed order, and the first
/// offender decides the error.
pub open spec fn kakoune_builds_to(
    conf: Options,
    env: KakouneEnv,
    r: Result<Request, BuildError>,
) -> bool {
    if env.selection is None {
        r == Err::<Request, BuildError>(BuildError::MissingSelection)
    } else if coord_of(env.cursor_char_column.deep_view()) is None {
        r == Err::<Request, BuildError>(BuildError::InvalidCoord(CoordVar::CursorX))
    } else if coord_of(env.cursor_line.deep_view()) is None {
        r == Err::<Request, BuildError>(BuildError::InvalidCoord(CoordVar::CursorLine))
    } else if coord_of(env.previous_cursor_char_column.deep_view()) is None {
        r == Err::<Request, BuildError>(BuildError::InvalidCoord(CoordVar::PrevCursorX))
    } else if coord_of(env.previous_cursor_line.deep_view()) is None {
        r == Err::<Request, BuildError>(BuildError::InvalidCoord(CoordVar::PrevCursorLine))
    } else {
        r matches Ok(req) && kakoune_request_matches(conf, env, req)
    }
}

/// What `Options::request` returns: the text path always succeeds, the
/// decoded document passes through untouched, the editor path validates
/// and coerces.
pub open spec fn builds_to(conf: Options, input: Input, r: Result<Request, BuildError>) -> bool {
    match input {
        Input::Text(text) => r matches Ok(req) && text_request_matches(conf, text@, req),
        Input::Json(req) => r == Ok::<Request, BuildError>(req),
        Input::Kakoune(env) => kakoune_builds_to(conf, env, r),
    }
}

/// Whether a gathered input is of the surface the configuration selected.
pub open spec fn input_corresponds(fmt: crate::flags::InputType, input: Input) -> bool {
    match input {
        Input::Text(_) => fmt is Text,
        Input::Kakoune(_) => fmt is Kakoune,
        Input::Json(_) => fmt is Json,
    }
}

/// Whether two requests hold the same contents, field for field.
pub open spec fn req_eq(a: Request, b: Request) -> bool {
    &&& a.mode@ == b.mode@
    &&& a.text@ == b.text@
    &&& a.options.changes@ == b.options.changes@
    &&& a.options.cursor_x == b.options.cursor_x
    &&& a.options.cursor_line == b.options.cursor_line
    &&& a.options.prev_text.deep_view() == b.options.prev_text.deep_view()
    &&& a.options.prev_cursor_x == b.options.prev_cursor_x
    &&& a.options.prev_cursor_line == b.options.prev_cursor_line
    &&& a.options.force_balance == b.options.force_balance
    &&& a.options.return_parens == b.options.return_parens
    &&& a.options.comment_char == b.options.comment_char
    &&& a.options.partial_result == b.options.partial_result
    &&& a.options.selection_start_line == b.options.selection_start_line
    &&& a.options.lisp_vline_symbols == b.options.lisp_vline_symbols
    &&& a.options.lisp_block_comment == b.options.lisp_block_comment
    &&& a.options.scheme_sexp_comment == b.options.scheme_sexp_comment
    &&& a.options.janet_long_strings == b.options.janet_long_strings
}

/// The request's mode word for a configured mode.
fn mode_str(m: Mode) -> (r: String)
    ensures
        r@ == spec_mode_str(m),
{
    match m {
        Mode::Indent => "indent".to_owned(),
        Mode::Paren => "paren".to_owned(),
        Mode::Smart => "smart".to_owned(),
    }
}

/// Coerces one raw one-based coordinate variable to its zero-based field,
/// rejecting an unparsable or zero value with the variable's name.
fn parse_coord(raw: &Option<String>, var: CoordVar) -> (r: Result<Option<usize>, BuildError>)
    ensures
        match coord_of(raw.deep_view()) {
            Some(c) => r == Ok::<Option<usize>, BuildError>(c),
            None => r == Err::<Option<usize>, BuildError>(BuildError::InvalidCoord(var)),
        },
{
    match raw {
        None => Ok(None),
        Some(s) => match parse_usize(s.as_str()) {
            Some(v) => if v >= 1 {
                Ok(Some(v - 1))
            } else {
                Err(BuildError::InvalidCoord(var))
            },
            None => Err(BuildError::InvalidCoord(var)),
        },
    }
}

impl Options {
    /// Builds the canonical request of the text path.
    fn text_request(&self, text: String) -> (r: Request)
        ensures
            text_request_matches(*self, text@, r),
    {
        Request {
            mode: mode_str(self.mode),
            text,
            options: RequestOptions {
                changes: Vec::new(),
                cursor_x: None,
                cursor_line: None,
                prev_text: None,
                prev_cursor_x: None,
                prev_cursor_line: None,
                force_balance: false,
                return_parens: false,
                comment_char: self.comment_char,
                partial_result: false,
                selection_start_line: None,
                lisp_vline_symbols: false,
                lisp_block_comment: false,
                scheme_sexp_comment: false,
                janet_long_strings: false,
            },
        }
    }

    /// Builds the canonical request of the editor path from the
    /// environment snapshot.
    fn kakoune_request(&self, env: KakouneEnv) -> (r: Result<Request, BuildError>)
        ensures
            kakoune_builds_to(*self, env, r),
    {
        let text = match env.selection {
            None => {
                return Err(BuildError::MissingSelection);
            },
            Some(s) => s,
        };
        let cursor_x = match parse_coord(&env.cursor_char_column, CoordVar::CursorX) {
            Ok(c) => c,
            Err(e) => {
                return Err(e);
            },
        };
        let cursor_line = match parse_coord(&env.cursor_line, CoordVar::CursorLine) {
            Ok(c) => c,
            Err(e) => {
                return Err(e);
            },
        };
        let prev_cursor_x = match parse_coord(
            &env.previous_cursor_char_column,
            CoordVar::PrevCursorX,
        ) {
            Ok(c) => c,
            Err(e) => {
                return Err(e);
            },
        };
        let prev_cursor_line = match parse_coord(&env.previous_cursor_line, CoordVar::PrevCursorLine) {
            Ok(c) => c,
            Err(e) => {
                return Err(e);
            },
        };
        let d: Defaults = match &env.filetype {
            None => language_defaults(None),
            Some(s) => language_defaults(Some(s.as_str())),
        };
        Ok(Request {
            mode: mode_str(self.mode),
            text,
            options: RequestOptions {
                changes: Vec::new(),
                cursor_x,
                cursor_line,
                prev_text: env.previous_text,
                prev_cursor_x,
                prev_cursor_line,
                force_balance: false,
                return_parens: false,
                comment_char: self.comment_char,
                partial_result: false,
                selection_start_line: None,
                lisp_vline_symbols: d.lisp_vline_symbols,
                lisp_block_comment: d.lisp_block_comment,
                scheme_sexp_comment: d.scheme_sexp_comment,
                janet_long_strings: d.janet_long_strings,
            },
        })
    }

    /// Builds the canonical request from the gathered input of the surface
    /// the configuration selected.
    pub fn request(&self, input: Input) -> (r: Result<Request, BuildError>)
        requires
            input_corresponds(self.input_format, input),
        ensures
            builds_to(*self, input, r),
    {
        match input {
            Input::Text(text) => Ok(self.text_request(text)),
            Input::Kakoune(env) => self.kakoune_request(env),
            Input::Json(req) => Ok(req),
        }
    }
}

/// One configuration and one input snapshot admit a single canonical
/// request: two build outcomes for the same pair agree on success, on the
/// request's contents, and on the error.
pub proof fn lemma_request_deterministic(
    conf: Options,
    input: Input,
    r1: Result<Request, BuildError>,
    r2: Result<Request, BuildError>,
)
    requires
        builds_to(conf, input, r1),
        builds_to(conf, input, r2),
    ensures
        r1 is Ok <==> r2 is Ok,
        (r1 is Ok && r2 is Ok) ==> req_eq(r1->Ok_0, r2->Ok_0),
        (r1 is Err && r2 is Err) ==> r1->Err_0 == r2->Err_0,
{
}

} // verus!
