use macro_v::definition::{has_doc_hidden, parse_item};
use macro_v::expand::{decimal_string, expand, generate, internal_name_string};
use macro_v::token::{Delimiter, Error, ErrorKind, TokenTree};
use macro_v::visibility::{parse_visibility, Visibility};

const SITE: u32 = 0;

struct Lexer {
    chars: Vec<char>,
    pos: usize,
    next_span: u32,
}

impl Lexer {
    fn span(&mut self) -> u32 {
        self.next_span += 1;
        self.next_span
    }

    fn stream(&mut self, close: Option<char>) -> (Vec<TokenTree<u32>>, u32) {
        let mut out = Vec::new();
        loop {
            while self.pos < self.chars.len() && self.chars[self.pos].is_whitespace() {
                self.pos += 1;
            }
            if self.pos >= self.chars.len() {
                assert!(close.is_none(), "unclosed group");
                return (out, SITE);
            }
            let c = self.chars[self.pos];
            if Some(c) == close {
                self.pos += 1;
                let s = self.span();
                return (out, s);
            }
            if c.is_alphanumeric() || c == '_' {
                let start = self.pos;
                while self.pos < self.chars.len()
                    && (self.chars[self.pos].is_alphanumeric() || self.chars[self.pos] == '_')
                {
                    self.pos += 1;
                }
                let mut text: String = self.chars[start..self.pos].iter().collect();
                let mut raw = false;
                if text == "r" && self.pos + 1 < self.chars.len() && self.chars[self.pos] == '#' {
                    self.pos += 1;
                    let start = self.pos;
                    while self.pos < self.chars.len()
                        && (self.chars[self.pos].is_alphanumeric() || self.chars[self.pos] == '_')
                    {
                        self.pos += 1;
                    }
                    text = self.chars[start..self.pos].iter().collect();
                    raw = true;
                }
                let span = self.span();
                if c.is_ascii_digit() {
                    out.push(TokenTree::Literal { text, span });
                } else {
                    out.push(TokenTree::Ident { text, raw, span });
                }
            } else if c == '"' {
                let start = self.pos;
                self.pos += 1;
                while self.chars[self.pos] != '"' {
                    self.pos += 1;
                }
                self.pos += 1;
                let text: String = self.chars[start..self.pos].iter().collect();
                let span = self.span();
                out.push(TokenTree::Literal { text, span });
            } else if c == '(' || c == '[' || c == '{' {
                let (delim, end) = match c {
                    '(' => (Delimiter::Parenthesis, ')'),
                    '[' => (Delimiter::Bracket, ']'),
                    _ => (Delimiter::Brace, '}'),
                };
                self.pos += 1;
                let span = self.span();
                let (stream, close) = self.stream(Some(end));
                out.push(TokenTree::Group { delim, stream, span, close });
            } else {
                self.pos += 1;
                let joint = self.pos < self.chars.len()
                    && !self.chars[self.pos].is_whitespace()
                    && !self.chars[self.pos].is_alphanumeric()
                    && !"([{}])\"_".contains(self.chars[self.pos]);
                let span = self.span();
                out.push(TokenTree::Punct { ch: c, joint, span });
            }
        }
    }
}

fn lex(s: &str) -> Vec<TokenTree<u32>> {
    let mut l = Lexer { chars: s.chars().collect(), pos: 0, next_span: 100 };
    l.stream(None).0
}

fn render(ts: &[TokenTree<u32>]) -> String {
    let mut out = String::new();
    for t in ts {
        match t {
            TokenTree::Ident { text, raw, .. } => {
                if *raw {
                    out.push_str("r#");
                }
                out.push_str(text);
                out.push(' ');
            }
            TokenTree::Literal { text, .. } => {
                out.push_str(text);
                out.push(' ');
            }
            TokenTree::Punct { ch, joint, .. } => {
                out.push(*ch);
                if !*joint {
                    out.push(' ');
                }
            }
            TokenTree::Group { delim, stream, .. } => {
                let (o, c) = match delim {
                    Delimiter::Parenthesis => ('(', ')'),
                    Delimiter::Bracket => ('[', ']'),
                    Delimiter::Brace => ('{', '}'),
                    Delimiter::Invisible => ('<', '>'),
                };
                out.push(o);
                out.push(' ');
                out.push_str(&render(stream));
                out.push(c);
                out.push(' ');
            }
        }
    }
    out
}

fn shape(s: &str) -> String {
    render(&lex(s))
}

fn run(attr: &str, item: &str, nonce: u64) -> Result<Vec<TokenTree<u32>>, Error<u32>> {
    expand(lex(attr), lex(item), nonce, SITE)
}

fn expect_error(r: Result<Vec<TokenTree<u32>>, Error<u32>>) -> Error<u32> {
    match r {
        Ok(ts) => panic!("expected an error, got {}", render(&ts)),
        Err(e) => e,
    }
}

fn span_of(t: &TokenTree<u32>) -> u32 {
    match t {
        TokenTree::Ident { span, .. }
        | TokenTree::Punct { span, .. }
        | TokenTree::Literal { span, .. }
        | TokenTree::Group { span, .. } => *span,
    }
}

#[test]
fn private_alias_for_empty_argument() {
    let out = run("", "macro_rules! foo { () => {}; }", 42).unwrap();
    assert_eq!(
        render(&out),
        shape("#[doc(hidden)] macro_rules! __foo_42 { () => {}; } #[doc(inline)] use __foo_42 as foo;")
    );
}

#[test]
fn public_alias_carries_export_marker() {
    let out = run("pub", "macro_rules! bar { () => {}; }", 7).unwrap();
    assert_eq!(
        render(&out),
        shape(
            "#[doc(hidden)] #[macro_export] macro_rules! __bar_7 { () => {}; } \
             #[doc(inline)] pub use __bar_7 as bar;"
        )
    );
}

#[test]
fn crate_alias_has_no_export_marker() {
    let out = run("pub(crate)", "macro_rules! baz { () => {}; }", 0).unwrap();
    assert_eq!(
        render(&out),
        shape(
            "#[doc(hidden)] macro_rules! __baz_0 { () => {}; } \
             #[doc(inline)] pub(crate) use __baz_0 as baz;"
        )
    );
}

#[test]
fn restricted_path_visibility() {
    let out = run("pub(in crate::inner)", "macro_rules! m { ($x:expr) => { $x }; }", 5).unwrap();
    assert_eq!(
        render(&out),
        shape(
            "#[doc(hidden)] macro_rules! __m_5 { ($x:expr) => { $x }; } \
             #[doc(inline)] pub(in crate::inner) use __m_5 as m;"
        )
    );
}

#[test]
fn wrong_introducer_is_rejected_at_that_identifier() {
    let item = lex("macro_ruled! foo { () => {}; }");
    let at = span_of(&item[0]);
    let e = expect_error(expand(Vec::new(), item, 1, SITE));
    assert_eq!(e.kind, ErrorKind::ExpectedMacroRules);
    assert_eq!(e.span, at);
    assert_eq!(e.message(), "expected `macro_rules`");
}

#[test]
fn hidden_input_moves_hidden_marker_to_alias() {
    let out = run("pub", "#[doc(hidden)] #[doc = \"text\"] macro_rules! h { () => {}; }", 3).unwrap();
    assert_eq!(
        render(&out),
        shape(
            "#[doc(hidden)] #[doc = \"text\"] #[macro_export] macro_rules! __h_3 { () => {}; } \
             #[doc(hidden)] pub use __h_3 as h;"
        )
    );
}

#[test]
fn doc_comment_alone_does_not_hide() {
    let out = run("", "#[doc = \"Hello\"] macro_rules! d { () => {}; }", 9).unwrap();
    assert_eq!(
        render(&out),
        shape(
            "#[doc(hidden)] #[doc = \"Hello\"] macro_rules! __d_9 { () => {}; } \
             #[doc(inline)] use __d_9 as d;"
        )
    );
}

#[test]
fn hidden_among_other_doc_entries() {
    let attrs = lex("#[doc(inline, hidden)]");
    assert_eq!(has_doc_hidden(&attrs).unwrap(), true);
    let attrs = lex("#[doc(::hidden)] #[doc(a::hidden)] #[cfg(hidden)]");
    assert_eq!(has_doc_hidden(&attrs).unwrap(), false);
    let attrs = lex("#[doc()] #[doc(hidden,)]");
    assert_eq!(has_doc_hidden(&attrs).unwrap(), true);
}

#[test]
fn doc_list_entries_with_values() {
    let out = run("", "#[doc(alias = \"x\", hidden)] macro_rules! q { () => {}; }", 6).unwrap();
    assert_eq!(
        render(&out),
        shape(
            "#[doc(alias = \"x\", hidden)] macro_rules! __q_6 { () => {}; } \
             #[doc(hidden)] use __q_6 as q;"
        )
    );
    let out = run("", "#[doc(alias = \"x\")] macro_rules! q { () => {}; }", 6).unwrap();
    assert_eq!(
        render(&out),
        shape(
            "#[doc(hidden)] #[doc(alias = \"x\")] macro_rules! __q_6 { () => {}; } \
             #[doc(inline)] use __q_6 as q;"
        )
    );
    assert_eq!(has_doc_hidden(&lex("#[doc(cfg(unix), hidden)]")).unwrap(), true);
    assert_eq!(has_doc_hidden(&lex("#[doc(html_root_url = a::b, test(attr(x)))]")).unwrap(), false);
}

#[test]
fn malformed_doc_lists() {
    let e = has_doc_hidden(&lex("#[doc(alias =)]")).unwrap_err();
    assert_eq!(e.kind, ErrorKind::ExpectedExpression);
    assert!(e.at_end);
    assert_eq!(e.message(), "unexpected end of input, expected an expression");
    let e = has_doc_hidden(&lex("#[doc(alias = , hidden)]")).unwrap_err();
    assert_eq!(e.kind, ErrorKind::ExpectedExpression);
    assert!(!e.at_end);
    let item = lex("#[doc(alias \"x\")] macro_rules! a { () => {}; }");
    let lit_span = match &item[1] {
        TokenTree::Group { stream, .. } => match &stream[1] {
            TokenTree::Group { stream, .. } => span_of(&stream[1]),
            _ => unreachable!(),
        },
        _ => unreachable!(),
    };
    let e = expect_error(expand(Vec::new(), item, 1, SITE));
    assert_eq!(e.kind, ErrorKind::ExpectedComma);
    assert_eq!(e.span, lit_span);
    let e = has_doc_hidden(&lex("#[doc(+)]")).unwrap_err();
    assert_eq!(e.kind, ErrorKind::TokenInNested);
    let e = has_doc_hidden(&lex("#[doc(::)]")).unwrap_err();
    assert_eq!(e.kind, ErrorKind::ExpectedNestedAttribute);
    assert_eq!(e.message(), "unexpected end of input, expected nested attribute");
}

#[test]
fn scan_stops_at_first_hiding_attribute() {
    let attrs = lex("#[doc(hidden)] #[doc(alias = \"x\")]");
    assert_eq!(has_doc_hidden(&attrs).unwrap(), true);
    let attrs = lex("#[doc(\"x\")]");
    let e = has_doc_hidden(&attrs).unwrap_err();
    assert_eq!(e.kind, ErrorKind::LiteralInNested);
    assert_eq!(e.message(), "unexpected literal in nested attribute, expected ident");
    let attrs = lex("#[doc(a::)]");
    let e = has_doc_hidden(&attrs).unwrap_err();
    assert_eq!(e.kind, ErrorKind::ExpectedIdent);
    assert!(e.at_end);
}

#[test]
fn item_shape_errors() {
    let e = expect_error(run("", "macro_rules foo { }", 1));
    assert_eq!(e.kind, ErrorKind::ExpectedBang);
    let e = expect_error(run("", "macro_rules! fn { }", 1));
    assert_eq!(e.kind, ErrorKind::FoundKeyword { keyword: "fn".to_string() });
    let e = expect_error(run("", "macro_rules! foo ( );", 1));
    assert_eq!(e.kind, ErrorKind::ExpectedBraces);
    let item = lex("macro_rules! foo { } extra");
    let at = span_of(&item[4]);
    let e = expect_error(expand(Vec::new(), item, 1, SITE));
    assert_eq!(e.kind, ErrorKind::UnexpectedToken);
    assert_eq!(e.span, at);
    let e = expect_error(run("", "#! [x] macro_rules! foo { }", 1));
    assert_eq!(e.kind, ErrorKind::ExpectedBrackets);
    let e = expect_error(run("", "", 1));
    assert_eq!(e.kind, ErrorKind::ExpectedIdent);
    assert_eq!(e.span, SITE);
    assert!(e.at_end);
    assert_eq!(e.message(), "unexpected end of input, expected identifier");
    let e = expect_error(run("", "macro_rules! foo", 1));
    assert_eq!(e.kind, ErrorKind::ExpectedBraces);
    assert!(e.at_end);
}

#[test]
fn keyword_in_place_of_introducer() {
    let item = lex("fn foo() {}");
    let at = span_of(&item[0]);
    let e = expect_error(expand(Vec::new(), item, 1, SITE));
    assert_eq!(e.kind, ErrorKind::FoundKeyword { keyword: "fn".to_string() });
    assert_eq!(e.span, at);
    assert!(!e.at_end);
    assert_eq!(e.message(), "expected identifier, found keyword `fn`");
    let e = expect_error(run("pub(in self::fn)", "macro_rules! m { }", 1));
    assert_eq!(e.kind, ErrorKind::ExpectedPathSegment);
    let e = expect_error(run("pub(in fn)", "macro_rules! m { }", 1));
    assert_eq!(e.message(), "expected identifier, found keyword `fn`");
}

fn invisible(stream: Vec<TokenTree<u32>>) -> Vec<TokenTree<u32>> {
    vec![TokenTree::Group { delim: Delimiter::Invisible, stream, span: 90, close: 91 }]
}

#[test]
fn visibility_in_invisible_group() {
    let out = expand(invisible(lex("pub(crate)")), lex("macro_rules! v { }"), 2, SITE).unwrap();
    assert_eq!(
        render(&out),
        shape("#[doc(hidden)] macro_rules! __v_2 { } #[doc(inline)] pub(crate) use __v_2 as v;")
    );
    let out = expand(invisible(lex("pub")), lex("macro_rules! v { }"), 2, SITE).unwrap();
    assert_eq!(
        render(&out),
        shape(
            "#[doc(hidden)] #[macro_export] macro_rules! __v_2 { } #[doc(inline)] pub use __v_2 as v;"
        )
    );
    let out = expand(invisible(Vec::new()), lex("macro_rules! v { }"), 2, SITE).unwrap();
    assert_eq!(
        render(&out),
        shape("#[doc(hidden)] macro_rules! __v_2 { } #[doc(inline)] use __v_2 as v;")
    );
    assert!(matches!(parse_visibility(invisible(Vec::new())), Ok(Visibility::Inherited)));
    let e = expect_error(expand(invisible(lex("crate")), lex("macro_rules! v { }"), 2, SITE));
    assert_eq!(e.kind, ErrorKind::UnexpectedToken);
}

#[test]
fn visibility_errors() {
    let attr = lex("pub(foo)");
    let at = span_of(&attr[1]);
    let e = expect_error(expand(attr, lex("macro_rules! m { }"), 1, SITE));
    assert_eq!(e.kind, ErrorKind::UnexpectedToken);
    assert_eq!(e.span, at);
    let e = expect_error(run("crate", "macro_rules! m { }", 1));
    assert_eq!(e.kind, ErrorKind::UnexpectedToken);
    let attr = lex("pub(in a::)");
    let close = match &attr[1] {
        TokenTree::Group { close, .. } => *close,
        _ => unreachable!(),
    };
    let e = expect_error(expand(attr, lex("macro_rules! m { }"), 1, SITE));
    assert_eq!(e.kind, ErrorKind::ExpectedPathSegment);
    assert_eq!(e.span, close);
    let e = expect_error(run("pub(in)", "macro_rules! m { }", 1));
    assert_eq!(e.kind, ErrorKind::ExpectedIdent);
    let e = expect_error(run("pub(crate) x", "macro_rules! m { }", 1));
    assert_eq!(e.kind, ErrorKind::UnexpectedToken);
    let e = expect_error(run("pub(in a b)", "macro_rules! m { }", 1));
    assert_eq!(e.kind, ErrorKind::UnexpectedToken);
}

#[test]
fn visibility_forms() {
    assert!(matches!(parse_visibility(lex("")), Ok(Visibility::Inherited)));
    assert!(matches!(parse_visibility(lex("pub")), Ok(Visibility::Public { .. })));
    for s in ["pub(crate)", "pub(self)", "pub(super)", "pub(in ::a::b)", "pub(in super::super)"] {
        assert!(matches!(parse_visibility(lex(s)), Ok(Visibility::Restricted { .. })), "{}", s);
    }
}

#[test]
fn renamed_definition_reads_back() {
    let item = lex("#[doc = \"x\"] #[allow(unused)] macro_rules! r { (a) => { 1 }; (b) => {}; }");
    let attrs = render(&item[..4]);
    let body = match &item[7] {
        TokenTree::Group { stream, .. } => render(stream),
        _ => unreachable!(),
    };
    let out = run("pub", &render(&item), 11).unwrap();
    // The renamed definition: doc(hidden), two attributes, macro_export, then 4 tokens.
    let renamed: Vec<TokenTree<u32>> = out.into_iter().take(2 + 4 + 2 + 4).collect();
    let def = parse_item(renamed, SITE).unwrap();
    assert_eq!(render(&def.attrs[2..6]), attrs);
    assert_eq!(render(&def.body), body);
    assert_eq!(render(&[def.name]), "__r_11 ");
}

#[test]
fn internal_name_keeps_name_span() {
    let item = lex("macro_rules! s { }");
    let name_span = span_of(&item[2]);
    let out = expand(Vec::new(), item, 4, SITE).unwrap();
    assert_eq!(span_of(&out[4]), name_span);
    assert_eq!(span_of(&out[out.len() - 4]), name_span);
    assert_eq!(span_of(&out[out.len() - 5]), SITE);
}

#[test]
fn raw_names() {
    let out = run("", "macro_rules! r#fn { }", 8).unwrap();
    assert_eq!(
        render(&out),
        shape("#[doc(hidden)] macro_rules! __fn_8 { } #[doc(inline)] use __fn_8 as r#fn;")
    );
    let e = expect_error(run("", "r#macro_rules! m { }", 1));
    assert_eq!(e.kind, ErrorKind::ExpectedMacroRules);
}

#[test]
fn different_nonces_give_different_names() {
    let a = run("", "macro_rules! same { }", 1).unwrap();
    let b = run("", "macro_rules! same { }", 2).unwrap();
    assert_ne!(render(&a[4..5]), render(&b[4..5]));
}

#[test]
fn decimal_and_internal_names() {
    assert_eq!(decimal_string(0), "0");
    assert_eq!(decimal_string(1234567), "1234567");
    assert_eq!(decimal_string(u64::MAX), "18446744073709551615");
    assert_eq!(internal_name_string(&"foo".to_string(), 42), "__foo_42");
}

#[test]
fn generate_on_parsed_parts() {
    let vis = parse_visibility(lex("pub(super)")).unwrap();
    let def = parse_item(lex("macro_rules! g { }"), SITE).unwrap();
    let out = generate(vis, def, 10, SITE).unwrap();
    assert_eq!(
        render(&out),
        shape("#[doc(hidden)] macro_rules! __g_10 { } #[doc(inline)] pub(super) use __g_10 as g;")
    );
}

#[test]
fn error_messages() {
    let e = Error { kind: ErrorKind::ExpectedBraces, span: 0u32, at_end: false };
    assert_eq!(e.message(), "expected curly braces");
    let e = Error { kind: ErrorKind::UnexpectedToken, span: 0u32, at_end: false };
    assert_eq!(e.message(), "unexpected token");
    let e = Error { kind: ErrorKind::ExpectedBang, span: 0u32, at_end: true };
    assert_eq!(e.message(), "unexpected end of input, expected `!`");
}
