//! Per-dialect syntax defaults resolved from an editor's filetype hint.

use vstd::prelude::*;

use crate::strutil::str_eq;

verus! {

/// Dialect-specific switches for alternate comment, string and symbol
/// syntax used by the Lisp-family languages.
#[derive(Clone, Copy, Debug, PartialEq, Eq, Structural)]
pub struct Defaults {
    pub lisp_vline_symbols: bool,
    pub lisp_block_comment: bool,
    pub scheme_sexp_comment: bool,
    pub janet_long_strings: bool,
}

/// The defaults table: each known language name maps to its row; an absent
/// or unrecognized name degrades to the broadly compatible Clojure row.
pub open spec fn spec_language_defaults(language: Option<Seq<char>>) -> Defaults {
    if language == Some("janet"@) {
        Defaults {
            lisp_vline_symbols: false,
            lisp_block_comment: false,
            scheme_sexp_comment: false,
            janet_long_strings: true,
        }
    } else if language == Some("lisp"@) {
        Defaults {
            lisp_vline_symbols: true,
            lisp_block_comment: true,
            scheme_sexp_comment: false,
            janet_long_strings: false,
        }
    } else if language == Some("racket"@) || language == Some("scheme"@) {
        Defaults {
            lisp_vline_symbols: true,
            lisp_block_comment: true,
            scheme_sexp_comment: true,
            janet_long_strings: false,
        }
    } else {
        Defaults {
            lisp_vline_symbols: false,
            lisp_block_comment: false,
            scheme_sexp_comment: false,
            janet_long_strings: false,
        }
    }
}

/// Resolves the syntax defaults for an optional language name.
pub fn language_defaults(language: Option<&str>) -> (d: Defaults)
    ensures
        d == spec_language_defaults(language.deep_view()),
{
    match language {
        None => Defaults {
            lisp_vline_symbols: false,
            lisp_block_comment: false,
            scheme_sexp_comment: false,
            janet_long_strings: false,
        },
        Some(s) => {
            if str_eq(s, "janet") {
                Defaults {
                    lisp_vline_symbols: false,
                    lisp_block_comment: false,
                    scheme_sexp_comment: false,
                    janet_long_strings: true,
                }
            } else if str_eq(s, "lisp") {
                Defaults {
                    lisp_vline_symbols: true,
                    lisp_block_comment: true,
                    scheme_sexp_comment: false,
                    janet_long_strings: false,
                }
            } else if str_eq(s, "racket") || str_eq(s, "scheme") {
                Defaults {
                    lisp_vline_symbols: true,
                    lisp_block_comment: true,
                    scheme_sexp_comment: true,
                    janet_long_strings: false,
                }
            } else {
                Defaults {
                    lisp_vline_symbols: false,
                    lisp_block_comment: false,
                    scheme_sexp_comment: false,
                    janet_long_strings: false,
                }
            }
        },
    }
}

} // verus!
