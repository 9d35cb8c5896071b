use parinfer_cli::defaults::{language_defaults, Defaults};

fn row(vline: bool, block: bool, sexp: bool, janet: bool) -> Defaults {
    Defaults {
        lisp_vline_symbols: vline,
        lisp_block_comment: block,
        scheme_sexp_comment: sexp,
        janet_long_strings: janet,
    }
}

#[test]
fn clojure_row() {
    assert_eq!(language_defaults(Some("clojure")), row(false, false, false, false));
}

#[test]
fn janet_row() {
    assert_eq!(language_defaults(Some("janet")), row(false, false, false, true));
}

#[test]
fn lisp_row() {
    assert_eq!(language_defaults(Some("lisp")), row(true, true, false, false));
}

#[test]
fn racket_row() {
    assert_eq!(language_defaults(Some("racket")), row(true, true, true, false));
}

#[test]
fn scheme_row() {
    assert_eq!(language_defaults(Some("scheme")), row(true, true, true, false));
}

#[test]
fn absent_name_degrades_to_clojure() {
    assert_eq!(language_defaults(None), language_defaults(Some("clojure")));
}

#[test]
fn unknown_name_degrades_to_clojure() {
    assert_eq!(language_defaults(Some("fennel")), language_defaults(Some("clojure")));
    assert_eq!(language_defaults(Some("")), language_defaults(Some("clojure")));
    assert_eq!(language_defaults(Some("Racket")), language_defaults(Some("clojure")));
}
