//! Token trees, the error type, and the token predicates the grammars use.

use vstd::prelude::*;
use vstd::string::*;

verus! {

/// The delimiter of a group.
#[derive(Clone, Copy, Debug, PartialEq, Eq, Structural)]
pub enum Delimiter {
    Parenthesis,
    Brace,
    Bracket,
    /// An implicit delimiter, as produced by macro-variable substitution.
    Invisible,
}

/// One token tree. `S` is the span type carried through unchanged.
#[derive(Debug)]
pub enum TokenTree<S> {
    /// An identifier or keyword; `text` is written without the `r#` of a raw
    /// identifier, and `raw` tells that there was one.
    Ident { text: String, raw: bool, span: S },
    /// A single punctuation character; `joint` when the next token follows it
    /// with no space and is punctuation too.
    Punct { ch: char, joint: bool, span: S },
    /// A literal, as written in the source.
    Literal { text: String, span: S },
    /// A delimited group; `close` is the span of its closing delimiter.
    Group { delim: Delimiter, stream: Vec<TokenTree<S>>, span: S, close: S },
}

/// What went wrong while parsing.
#[derive(Debug, PartialEq, Eq)]
pub enum ErrorKind {
    ExpectedIdent,
    /// A reserved word stood where an identifier was expected.
    FoundKeyword { keyword: String },
    ExpectedMacroRules,
    ExpectedBang,
    ExpectedBraces,
    ExpectedBrackets,
    /// A `doc(..)` list ended after a leading `::`.
    ExpectedNestedAttribute,
    /// A literal stood where an entry of a `doc(..)` list should start.
    LiteralInNested,
    /// Another token stood where an entry of a `doc(..)` list should start.
    TokenInNested,
    /// Nothing followed the `=` of an entry of a `doc(..)` list.
    ExpectedExpression,
    ExpectedComma,
    ExpectedPathSegment,
    UnexpectedToken,
}

/// A parse error anchored at the span of the offending token; `at_end` when
/// the input (or the group) ended where a token was expected, and `span` is
/// then the span past it.
#[derive(Debug)]
pub struct Error<S> {
    pub kind: ErrorKind,
    pub span: S,
    pub at_end: bool,
}

pub open spec fn kind_message(k: ErrorKind) -> Seq<char> {
    match k {
        ErrorKind::ExpectedIdent => "expected identifier"@,
        ErrorKind::FoundKeyword { keyword } => "expected identifier, found keyword `"@ + keyword@
            + "`"@,
        ErrorKind::ExpectedMacroRules => "expected `macro_rules`"@,
        ErrorKind::ExpectedBang => "expected `!`"@,
        ErrorKind::ExpectedBraces => "expected curly braces"@,
        ErrorKind::ExpectedBrackets => "expected square brackets"@,
        ErrorKind::ExpectedNestedAttribute => "expected nested attribute"@,
        ErrorKind::LiteralInNested => "unexpected literal in nested attribute, expected ident"@,
        ErrorKind::TokenInNested => "unexpected token in nested attribute, expected ident"@,
        ErrorKind::ExpectedExpression => "expected an expression"@,
        ErrorKind::ExpectedComma => "expected `,`"@,
        ErrorKind::ExpectedPathSegment => "expected path segment after `::`"@,
        ErrorKind::UnexpectedToken => "unexpected token"@,
    }
}

/// The diagnostic text of `e`.
pub open spec fn error_message<S>(e: Error<S>) -> Seq<char> {
    if e.at_end {
        "unexpected end of input, "@ + kind_message(e.kind)
    } else {
        kind_message(e.kind)
    }
}

fn kind_text(k: &ErrorKind) -> (r: String)
    ensures
        r@ == kind_message(*k),
{
    let s = match k {
        ErrorKind::ExpectedIdent => "expected identifier",
        ErrorKind::FoundKeyword { keyword } => {
            let mut r = String::from_str("expected identifier, found keyword `");
            r.append(keyword.as_str());
            r.append("`");
            return r;
        },
        ErrorKind::ExpectedMacroRules => "expected `macro_rules`",
        ErrorKind::ExpectedBang => "expected `!`",
        ErrorKind::ExpectedBraces => "expected curly braces",
        ErrorKind::ExpectedBrackets => "expected square brackets",
        ErrorKind::ExpectedNestedAttribute => "expected nested attribute",
        ErrorKind::LiteralInNested => "unexpected literal in nested attribute, expected ident",
        ErrorKind::TokenInNested => "unexpected token in nested attribute, expected ident",
        ErrorKind::ExpectedExpression => "expected an expression",
        ErrorKind::ExpectedComma => "expected `,`",
        ErrorKind::ExpectedPathSegment => "expected path segment after `::`",
        ErrorKind::UnexpectedToken => "unexpected token",
    };
    String::from_str(s)
}

impl<S: Copy> Error<S> {
    /// The diagnostic text for this error.
    pub fn message(&self) -> (r: String)
        ensures
            r@ == error_message(*self),
    {
        let k = kind_text(&self.kind);
        if self.at_end {
            let mut r = String::from_str("unexpected end of input, ");
            r.append(k.as_str());
            r
        } else {
            k
        }
    }
}

pub open spec fn span_of<S>(t: TokenTree<S>) -> S {
    match t {
        TokenTree::Ident { span, .. } => span,
        TokenTree::Punct { span, .. } => span,
        TokenTree::Literal { span, .. } => span,
        TokenTree::Group { span, .. } => span,
    }
}

/// The span of `ts[i]`, or `end` past the last token.
pub open spec fn span_at<S>(ts: Seq<TokenTree<S>>, i: int, end: S) -> S {
    if 0 <= i < ts.len() {
        span_of(ts[i])
    } else {
        end
    }
}

/// The error `kind` at `ts[i]`, or past the last token.
pub open spec fn error_at<S>(kind: ErrorKind, ts: Seq<TokenTree<S>>, i: int, end: S) -> Error<S> {
    Error { kind, span: span_at(ts, i, end), at_end: !(0 <= i < ts.len()) }
}

/// The error where an identifier was expected at `ts[i]`: it names the
/// reserved word found there, if one was.
pub open spec fn ident_error<S>(ts: Seq<TokenTree<S>>, i: int, end: S) -> Error<S> {
    if 0 <= i < ts.len() {
        match ts[i] {
            TokenTree::Ident { text, raw, span } => if !raw && is_keyword(text@) {
                Error { kind: ErrorKind::FoundKeyword { keyword: text }, span, at_end: false }
            } else {
                error_at(ErrorKind::ExpectedIdent, ts, i, end)
            },
            _ => error_at(ErrorKind::ExpectedIdent, ts, i, end),
        }
    } else {
        error_at(ErrorKind::ExpectedIdent, ts, i, end)
    }
}

pub open spec fn is_punct<S>(t: TokenTree<S>, c: char) -> bool {
    t matches TokenTree::Punct { ch, .. } && ch == c
}

/// `ts[i]` and `ts[i + 1]` form the path separator `::`.
pub open spec fn colons_at<S>(ts: Seq<TokenTree<S>>, i: int) -> bool {
    &&& 0 <= i
    &&& i + 1 < ts.len()
    &&& ts[i] matches TokenTree::Punct { ch, joint, .. } && ch == ':' && joint
    &&& is_punct(ts[i + 1], ':')
}

pub open spec fn is_any_ident<S>(t: TokenTree<S>) -> bool {
    t is Ident
}

pub open spec fn is_raw_ident<S>(t: TokenTree<S>) -> bool {
    t matches TokenTree::Ident { raw, .. } && raw
}

pub open spec fn ident_text<S>(t: TokenTree<S>) -> Seq<char> {
    match t {
        TokenTree::Ident { text, .. } => text@,
        _ => Seq::empty(),
    }
}

/// `t` is the identifier `s`, not written raw.
pub open spec fn is_ident_of<S>(t: TokenTree<S>, s: Seq<char>) -> bool {
    t is Ident && !is_raw_ident(t) && ident_text(t) == s
}

/// The reserved words, which cannot serve as an identifier.
pub open spec fn is_keyword(s: Seq<char>) -> bool {
    s == "_"@ || s == "abstract"@ || s == "as"@ || s == "async"@ || s == "await"@
        || s == "become"@ || s == "box"@ || s == "break"@ || s == "const"@
        || s == "continue"@ || s == "crate"@ || s == "do"@ || s == "dyn"@ || s == "else"@
        || s == "enum"@ || s == "extern"@ || s == "false"@ || s == "final"@ || s == "fn"@
        || s == "for"@ || s == "if"@ || s == "impl"@ || s == "in"@ || s == "let"@
        || s == "loop"@ || s == "macro"@ || s == "match"@ || s == "mod"@ || s == "move"@
        || s == "mut"@ || s == "override"@ || s == "priv"@ || s == "pub"@ || s == "ref"@
        || s == "return"@ || s == "Self"@ || s == "self"@ || s == "static"@
        || s == "struct"@ || s == "super"@ || s == "trait"@ || s == "true"@ || s == "try"@
        || s == "type"@ || s == "typeof"@ || s == "unsafe"@ || s == "unsized"@
        || s == "use"@ || s == "virtual"@ || s == "where"@ || s == "while"@ || s == "yield"@
}

/// An identifier token that is not a reserved word, or is written raw.
pub open spec fn is_plain_ident<S>(t: TokenTree<S>) -> bool {
    t is Ident && (is_raw_ident(t) || !is_keyword(ident_text(t)))
}

pub open spec fn is_group_of<S>(t: TokenTree<S>, d: Delimiter) -> bool {
    t matches TokenTree::Group { delim, .. } && delim == d
}

pub open spec fn group_stream<S>(t: TokenTree<S>) -> Seq<TokenTree<S>> {
    match t {
        TokenTree::Group { stream, .. } => stream@,
        _ => Seq::empty(),
    }
}

pub open spec fn group_close<S>(t: TokenTree<S>) -> S {
    match t {
        TokenTree::Group { close, .. } => close,
        _ => span_of(t),
    }
}

fn str_eq(s: &String, lit: &str) -> (r: bool)
    ensures
        r == (s@ == lit@),
{
    *s == String::from_str(lit)
}

fn keyword(s: &String) -> (r: bool)
    ensures
        r == is_keyword(s@),
{
    str_eq(s, "_") || str_eq(s, "abstract") || str_eq(s, "as") || str_eq(s, "async")
        || str_eq(s, "await") || str_eq(s, "become") || str_eq(s, "box") || str_eq(s, "break")
        || str_eq(s, "const") || str_eq(s, "continue") || str_eq(s, "crate") || str_eq(s, "do")
        || str_eq(s, "dyn") || str_eq(s, "else") || str_eq(s, "enum") || str_eq(s, "extern")
        || str_eq(s, "false") || str_eq(s, "final") || str_eq(s, "fn") || str_eq(s, "for")
        || str_eq(s, "if") || str_eq(s, "impl") || str_eq(s, "in") || str_eq(s, "let")
        || str_eq(s, "loop") || str_eq(s, "macro") || str_eq(s, "match") || str_eq(s, "mod")
        || str_eq(s, "move") || str_eq(s, "mut") || str_eq(s, "override") || str_eq(s, "priv")
        || str_eq(s, "pub") || str_eq(s, "ref") || str_eq(s, "return") || str_eq(s, "Self")
        || str_eq(s, "self") || str_eq(s, "static") || str_eq(s, "struct") || str_eq(s, "super")
        || str_eq(s, "trait") || str_eq(s, "true") || str_eq(s, "try") || str_eq(s, "type")
        || str_eq(s, "typeof") || str_eq(s, "unsafe") || str_eq(s, "unsized") || str_eq(s, "use")
        || str_eq(s, "virtual") || str_eq(s, "where") || str_eq(s, "while") || str_eq(s, "yield")
}

impl<S: Copy> TokenTree<S> {
    pub fn span(&self) -> (r: S)
        ensures
            r == span_of(*self),
    {
        match self {
            TokenTree::Ident { span, .. } => *span,
            TokenTree::Punct { span, .. } => *span,
            TokenTree::Literal { span, .. } => *span,
            TokenTree::Group { span, .. } => *span,
        }
    }

    pub fn is_punct(&self, c: char) -> (r: bool)
        ensures
            r == is_punct(*self, c),
    {
        match self {
            TokenTree::Punct { ch, .. } => *ch == c,
            _ => false,
        }
    }

    pub fn is_joint_punct(&self, c: char) -> (r: bool)
        ensures
            r == (*self matches TokenTree::Punct { ch, joint, .. } && ch == c && joint),
    {
        match self {
            TokenTree::Punct { ch, joint, .. } => *ch == c && *joint,
            _ => false,
        }
    }

    pub fn is_ident_of(&self, s: &str) -> (r: bool)
        ensures
            r == is_ident_of(*self, s@),
    {
        match self {
            TokenTree::Ident { text, raw, .. } => !*raw && str_eq(text, s),
            _ => false,
        }
    }

    pub fn is_plain_ident(&self) -> (r: bool)
        ensures
            r == is_plain_ident(*self),
    {
        match self {
            TokenTree::Ident { text, raw, .. } => *raw || !keyword(text),
            _ => false,
        }
    }

    pub fn is_group_of(&self, d: Delimiter) -> (r: bool)
        ensures
            r == is_group_of(*self, d),
    {
        match self {
            TokenTree::Group { delim, .. } => *delim == d,
            _ => false,
        }
    }
}

/// The span of `ts[i]`, or `end` past the last token.
pub fn span_or_end<S: Copy>(ts: &Vec<TokenTree<S>>, i: usize, end: S) -> (r: S)
    ensures
        r == span_at(ts@, i as int, end),
{
    if i < ts.len() {
        ts[i].span()
    } else {
        end
    }
}

/// The error `kind` at `ts[i]`, or past the last token.
pub fn error_or_end<S: Copy>(kind: ErrorKind, ts: &Vec<TokenTree<S>>, i: usize, end: S) -> (r: Error<S>)
    ensures
        r == error_at(kind, ts@, i as int, end),
{
    Error { kind, span: span_or_end(ts, i, end), at_end: i >= ts.len() }
}

/// The error where an identifier was expected at `ts[i]`.
pub fn ident_error_or_end<S: Copy>(ts: &Vec<TokenTree<S>>, i: usize, end: S) -> (r: Error<S>)
    ensures
        r == ident_error(ts@, i as int, end),
{
    if i < ts.len() {
        if let TokenTree::Ident { text, raw, span } = &ts[i] {
            if !*raw && keyword(text) {
                return Error {
                    kind: ErrorKind::FoundKeyword { keyword: text.clone() },
                    span: *span,
                    at_end: false,
                };
            }
        }
    }
    error_or_end(ErrorKind::ExpectedIdent, ts, i, end)
}

/// Whether `ts[i]` and `ts[i + 1]` form `::`.
pub fn has_colons_at<S: Copy>(ts: &Vec<TokenTree<S>>, i: usize) -> (r: bool)
    ensures
        r == colons_at(ts@, i as int),
{
    i < ts.len() && ts.len() - i >= 2 && ts[i].is_joint_punct(':') && ts[i + 1].is_punct(':')
}

} // verus!
