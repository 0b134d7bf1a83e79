//! The visibility requested in the attribute's argument:
//! empty, `pub`, `pub(crate)`, `pub(self)`, `pub(super)` or `pub(in path)`.

use vstd::prelude::*;
use crate::token::{
    colons_at, group_close, group_stream, has_colons_at, is_group_of, is_ident_of, is_plain_ident,
    span_at, span_of, span_or_end, error_at, error_or_end, ident_error, ident_error_or_end, Delimiter, Error, ErrorKind, TokenTree,
};

verus! {

/// A visibility, holding the tokens it was written with.
#[derive(Debug)]
pub enum Visibility<S> {
    /// No visibility written: private to the enclosing module.
    Inherited,
    /// `pub`.
    Public { pub_token: TokenTree<S> },
    /// `pub` followed by a parenthesized scope.
    Restricted { pub_token: TokenTree<S>, scope: TokenTree<S> },
}

/// One segment of a module path.
pub open spec fn is_mod_segment<S>(t: TokenTree<S>) -> bool {
    is_plain_ident(t) || is_ident_of(t, "super"@) || is_ident_of(t, "self"@) || is_ident_of(
        t,
        "Self"@,
    ) || is_ident_of(t, "crate"@)
}

/// The end of a module path whose segment `g[i]` has been read.
pub open spec fn mod_path_rest<S>(g: Seq<TokenTree<S>>, i: int, close: S) -> Result<int, Error<S>>
    decreases g.len() - i,
{
    if i < 0 || i >= g.len() {
        Ok(i)
    } else if colons_at(g, i + 1) {
        if i + 3 < g.len() && is_mod_segment(g[i + 3]) {
            mod_path_rest(g, i + 3, close)
        } else {
            Err(error_at(ErrorKind::ExpectedPathSegment, g, i + 3, close))
        }
    } else {
        Ok(i + 1)
    }
}

/// The end of a module path starting at `g[i]`, with an optional leading `::`.
pub open spec fn mod_path<S>(g: Seq<TokenTree<S>>, i: int, close: S) -> Result<int, Error<S>> {
    let s = if colons_at(g, i) {
        i + 2
    } else {
        i
    };
    if 0 <= s < g.len() && is_mod_segment(g[s]) {
        mod_path_rest(g, s, close)
    } else {
        Err(ident_error(g, s, close))
    }
}

/// What the content `g` of the parentheses after `pub` makes: `None` when it
/// is no scope, so that `pub` stands alone.
pub open spec fn scope_result<S>(g: Seq<TokenTree<S>>, close: S) -> Option<Result<(), Error<S>>> {
    if g.len() >= 1 && (is_ident_of(g[0], "crate"@) || is_ident_of(g[0], "self"@) || is_ident_of(
        g[0],
        "super"@,
    )) {
        if g.len() == 1 {
            Some(Ok(()))
        } else {
            None
        }
    } else if g.len() >= 1 && is_ident_of(g[0], "in"@) {
        match mod_path(g, 1, close) {
            Err(e) => Some(Err(e)),
            Ok(j) => if j == g.len() {
                Some(Ok(()))
            } else {
                Some(Err(error_at(ErrorKind::UnexpectedToken, g, j, close)))
            },
        }
    } else {
        None
    }
}

/// How many tokens the visibility `ts` is made of (0, 1 or 2), or its error,
/// where `ts` is not wrapped in an invisible group.
pub open spec fn plain_visibility_result<S>(ts: Seq<TokenTree<S>>) -> Result<int, Error<S>> {
    if ts.len() == 0 {
        Ok(0)
    } else if !is_ident_of(ts[0], "pub"@) {
        Err(Error { kind: ErrorKind::UnexpectedToken, span: span_of(ts[0]), at_end: false })
    } else if ts.len() == 1 {
        Ok(1)
    } else if is_group_of(ts[1], Delimiter::Parenthesis) && scope_result(
        group_stream(ts[1]),
        group_close(ts[1]),
    ) is Some {
        match scope_result(group_stream(ts[1]), group_close(ts[1])).unwrap() {
            Err(e) => Err(e),
            Ok(_) => if ts.len() == 2 {
                Ok(2)
            } else {
                Err(Error { kind: ErrorKind::UnexpectedToken, span: span_of(ts[2]), at_end: false })
            },
        }
    } else {
        Err(Error { kind: ErrorKind::UnexpectedToken, span: span_of(ts[1]), at_end: false })
    }
}

/// The tokens that stand for the visibility: the content of an invisible
/// group that is all of `ts` (as a `$vis` fragment gives), else `ts`.
pub open spec fn effective_tokens<S>(ts: Seq<TokenTree<S>>) -> Seq<TokenTree<S>> {
    if ts.len() == 1 && is_group_of(ts[0], Delimiter::Invisible) {
        group_stream(ts[0])
    } else {
        ts
    }
}

/// How many tokens the visibility `ts` is made of, or its error. An invisible
/// group that is all of `ts` is read as its content; an empty one is private.
pub open spec fn visibility_result<S>(ts: Seq<TokenTree<S>>) -> Result<int, Error<S>> {
    plain_visibility_result(effective_tokens(ts))
}

/// The tokens a visibility is written with.
pub open spec fn visibility_tokens<S>(v: Visibility<S>) -> Seq<TokenTree<S>> {
    match v {
        Visibility::Inherited => Seq::empty(),
        Visibility::Public { pub_token } => seq![pub_token],
        Visibility::Restricted { pub_token, scope } => seq![pub_token, scope],
    }
}

impl<S> Visibility<S> {
    /// The visibility reads as it should.
    pub open spec fn wf(self) -> bool {
        plain_visibility_result(visibility_tokens(self)) is Ok
    }

    pub open spec fn is_public(self) -> bool {
        self is Public
    }
}

fn mod_segment<S: Copy>(t: &TokenTree<S>) -> (r: bool)
    ensures
        r == is_mod_segment(*t),
{
    t.is_plain_ident() || t.is_ident_of("super") || t.is_ident_of("self") || t.is_ident_of("Self")
        || t.is_ident_of("crate")
}

fn parse_mod_path<S: Copy>(g: &Vec<TokenTree<S>>, i: usize, close: S) -> (r: Result<usize, Error<S>>)
    requires
        i <= g.len(),
    ensures
        match r {
            Ok(j) => mod_path(g@, i as int, close) == Ok::<int, Error<S>>(j as int),
            Err(e) => mod_path(g@, i as int, close) == Err::<int, Error<S>>(e),
        },
{
    let s: usize = if has_colons_at(g, i) {
        i + 2
    } else {
        i
    };
    if !(s < g.len() && mod_segment(&g[s])) {
        return Err(ident_error_or_end(g, s, close));
    }
    let mut k: usize = s;
    loop
        invariant
            k < g.len(),
            is_mod_segment(g@[k as int]),
            mod_path(g@, i as int, close) == mod_path_rest(g@, k as int, close),
        decreases g.len() - k,
    {
        if has_colons_at(g, k + 1) {
            if g.len() - k > 3 && mod_segment(&g[k + 3]) {
                k = k + 3;
            } else {
                return Err(
                    error_or_end(ErrorKind::ExpectedPathSegment, g, k + 3, close),
                );
            }
        } else {
            return Ok(k + 1);
        }
    }
}

fn parse_scope<S: Copy>(g: &Vec<TokenTree<S>>, close: S) -> (r: Option<Result<(), Error<S>>>)
    ensures
        r == scope_result(g@, close),
{
    if g.len() >= 1 && (g[0].is_ident_of("crate") || g[0].is_ident_of("self") || g[0].is_ident_of(
        "super",
    )) {
        if g.len() == 1 {
            Some(Ok(()))
        } else {
            None
        }
    } else if g.len() >= 1 && g[0].is_ident_of("in") {
        match parse_mod_path(g, 1, close) {
            Err(e) => Some(Err(e)),
            Ok(j) => if j == g.len() {
                Some(Ok(()))
            } else {
                Some(Err(error_or_end(ErrorKind::UnexpectedToken, g, j, close)))
            },
        }
    } else {
        None
    }
}

fn check_visibility<S: Copy>(ts: &Vec<TokenTree<S>>) -> (r: Result<usize, Error<S>>)
    ensures
        match r {
            Ok(n) => plain_visibility_result(ts@) == Ok::<int, Error<S>>(n as int),
            Err(e) => plain_visibility_result(ts@) == Err::<int, Error<S>>(e),
        },
{
    if ts.len() == 0 {
        return Ok(0);
    }
    if !ts[0].is_ident_of("pub") {
        return Err(Error { kind: ErrorKind::UnexpectedToken, span: ts[0].span(), at_end: false });
    }
    if ts.len() == 1 {
        return Ok(1);
    }
    let scope = match &ts[1] {
        TokenTree::Group { delim: Delimiter::Parenthesis, stream, close, .. } => parse_scope(
            stream,
            *close,
        ),
        _ => None,
    };
    match scope {
        Some(Err(e)) => Err(e),
        Some(Ok(())) => if ts.len() == 2 {
            Ok(2)
        } else {
            Err(Error { kind: ErrorKind::UnexpectedToken, span: ts[2].span(), at_end: false })
        },
        None => Err(Error { kind: ErrorKind::UnexpectedToken, span: ts[1].span(), at_end: false }),
    }
}

/// Parses the attribute's argument as a visibility. Succeeds exactly when the
/// grammar accepts all of the effective tokens of `ts`, and then holds them
/// unchanged.
pub fn parse_visibility<S: Copy>(ts: Vec<TokenTree<S>>) -> (r: Result<Visibility<S>, Error<S>>)
    ensures
        match visibility_result(ts@) {
            Ok(_) => r is Ok && visibility_tokens(r->Ok_0) == effective_tokens(ts@) && r->Ok_0.wf(),
            Err(e) => r == Err::<Visibility<S>, Error<S>>(e),
        },
{
    let mut ts = ts;
    if ts.len() == 1 && ts[0].is_group_of(Delimiter::Invisible) {
        let g = ts.remove(0);
        match g {
            TokenTree::Group { stream, .. } => {
                return parse_plain_visibility(stream);
            },
            _ => {
                proof {
                    assert(false);
                }
            },
        }
    }
    parse_plain_visibility(ts)
}

fn parse_plain_visibility<S: Copy>(ts: Vec<TokenTree<S>>) -> (r: Result<Visibility<S>, Error<S>>)
    ensures
        match plain_visibility_result(ts@) {
            Ok(_) => r is Ok && visibility_tokens(r->Ok_0) == ts@ && r->Ok_0.wf(),
            Err(e) => r == Err::<Visibility<S>, Error<S>>(e),
        },
{
    let n = match check_visibility(&ts) {
        Ok(n) => n,
        Err(e) => return Err(e),
    };
    let ghost orig = ts@;
    let mut ts = ts;
    if n == 0 {
        assert(visibility_tokens(Visibility::<S>::Inherited) =~= orig);
        Ok(Visibility::Inherited)
    } else if n == 1 {
        let pub_token = ts.remove(0);
        assert(visibility_tokens(Visibility::Public { pub_token }) =~= orig);
        Ok(Visibility::Public { pub_token })
    } else {
        let pub_token = ts.remove(0);
        let scope = ts.remove(0);
        assert(visibility_tokens(Visibility::Restricted { pub_token, scope }) =~= orig);
        Ok(Visibility::Restricted { pub_token, scope })
    }
}

} // verus!
