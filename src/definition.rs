//! The annotated item: `#[..]* macro_rules! name { .. }`, and the scan of its
//! attributes for `#[doc(hidden)]`.

use vstd::prelude::*;
use crate::token::{
    colons_at, group_close, group_stream, has_colons_at, is_any_ident, is_group_of, is_ident_of,
    is_plain_ident, is_punct, span_at, span_of, span_or_end, error_at, error_or_end, ident_error, ident_error_or_end, Delimiter, Error, ErrorKind,
    TokenTree,
};

verus! {

/// A `macro_rules!` definition, taken apart.
#[derive(Debug)]
pub struct MacroDefinition<S> {
    /// The leading attributes: each one a `#` token followed by a bracketed group.
    pub attrs: Vec<TokenTree<S>>,
    /// The `macro_rules` identifier.
    pub macro_rules: TokenTree<S>,
    /// The `!` token.
    pub bang: TokenTree<S>,
    /// The macro's name.
    pub name: TokenTree<S>,
    /// The rules between the braces, never looked into.
    pub body: Vec<TokenTree<S>>,
}

/// `ts[i]` and `ts[i + 1]` are an outer attribute: `#` and a bracketed group.
pub open spec fn is_attribute_at<S>(ts: Seq<TokenTree<S>>, i: int) -> bool {
    &&& 0 <= i
    &&& i + 1 < ts.len()
    &&& is_punct(ts[i], '#')
    &&& is_group_of(ts[i + 1], Delimiter::Bracket)
}

/// The number of attributes that follow one another from `ts[i]` on.
pub open spec fn attribute_count<S>(ts: Seq<TokenTree<S>>, i: int) -> nat
    decreases ts.len() - i,
{
    if is_attribute_at(ts, i) {
        1 + attribute_count(ts, i + 2)
    } else {
        0
    }
}

/// `a` is a sequence of whole attributes.
pub open spec fn attributes_wf<S>(a: Seq<TokenTree<S>>) -> bool {
    &&& a.len() % 2 == 0
    &&& forall|j: int| 0 <= j < a.len() && j % 2 == 0 ==> #[trigger] is_attribute_at(a, j)
}

/// The number of leading attributes of the item `ts`, or the error at the
/// first token that breaks the item's shape. `end` is the span past the input.
pub open spec fn item_result<S>(ts: Seq<TokenTree<S>>, end: S) -> Result<nat, Error<S>> {
    let k = attribute_count(ts, 0);
    let i = 2 * (k as int);
    if i < ts.len() && is_punct(ts[i], '#') {
        Err(error_at(ErrorKind::ExpectedBrackets, ts, i + 1, end))
    } else if !(i < ts.len() && is_plain_ident(ts[i])) {
        Err(ident_error(ts, i, end))
    } else if !is_ident_of(ts[i], "macro_rules"@) {
        Err(Error { kind: ErrorKind::ExpectedMacroRules, span: span_of(ts[i]), at_end: false })
    } else if !(i + 1 < ts.len() && is_punct(ts[i + 1], '!')) {
        Err(error_at(ErrorKind::ExpectedBang, ts, i + 1, end))
    } else if !(i + 2 < ts.len() && is_plain_ident(ts[i + 2])) {
        Err(ident_error(ts, i + 2, end))
    } else if !(i + 3 < ts.len() && is_group_of(ts[i + 3], Delimiter::Brace)) {
        Err(error_at(ErrorKind::ExpectedBraces, ts, i + 3, end))
    } else if i + 4 < ts.len() {
        Err(Error { kind: ErrorKind::UnexpectedToken, span: span_of(ts[i + 4]), at_end: false })
    } else {
        Ok(k)
    }
}

impl<S> MacroDefinition<S> {
    pub open spec fn wf(self) -> bool {
        &&& attributes_wf(self.attrs@)
        &&& is_ident_of(self.macro_rules, "macro_rules"@)
        &&& is_punct(self.bang, '!')
        &&& is_plain_ident(self.name)
    }

    /// `self` is what the item `ts` holds, with `k` attributes.
    pub open spec fn taken_from(self, ts: Seq<TokenTree<S>>, k: nat) -> bool {
        let i = 2 * (k as int);
        &&& ts.len() == i + 4
        &&& self.attrs@ == ts.take(i)
        &&& self.macro_rules == ts[i]
        &&& self.bang == ts[i + 1]
        &&& self.name == ts[i + 2]
        &&& is_group_of(ts[i + 3], Delimiter::Brace)
        &&& self.body@ == group_stream(ts[i + 3])
    }
}

pub(crate) proof fn lemma_attribute_count_bound<S>(ts: Seq<TokenTree<S>>, i: int)
    requires
        0 <= i,
    ensures
        attribute_count(ts, i) > 0 ==> i + 2 * attribute_count(ts, i) <= ts.len(),
        forall|j: int|
            0 <= j < attribute_count(ts, i) ==> #[trigger] is_attribute_at(ts, i + 2 * j),
    decreases ts.len() - i,
{
    if is_attribute_at(ts, i) {
        lemma_attribute_count_bound(ts, i + 2);
        assert forall|j: int| 0 <= j < attribute_count(ts, i) implies #[trigger] is_attribute_at(
            ts,
            i + 2 * j,
        ) by {
            if j > 0 {
                assert(is_attribute_at(ts, (i + 2) + 2 * (j - 1)));
            }
        }
    }
}

fn count_attributes<S: Copy>(ts: &Vec<TokenTree<S>>) -> (r: usize)
    ensures
        r == attribute_count(ts@, 0),
        2 * r <= ts.len(),
{
    let mut i: usize = 0;
    while i < ts.len() && ts.len() - i >= 2 && ts[i].is_punct('#') && ts[i + 1].is_group_of(
        Delimiter::Bracket,
    )
        invariant
            i % 2 == 0,
            i <= ts.len(),
            attribute_count(ts@, 0) == i / 2 + attribute_count(ts@, i as int),
        decreases ts.len() - i,
    {
        i = i + 2;
    }
    i / 2
}

/// Parses the item the attribute is attached to. `end` is the span past the
/// input. Succeeds exactly when `item_result` does, and then takes the item
/// apart without changing a token.
pub fn parse_item<S: Copy>(ts: Vec<TokenTree<S>>, end: S) -> (r: Result<MacroDefinition<S>, Error<S>>)
    ensures
        match item_result(ts@, end) {
            Ok(k) => r is Ok && r->Ok_0.taken_from(ts@, k) && r->Ok_0.wf(),
            Err(e) => r == Err::<MacroDefinition<S>, Error<S>>(e),
        },
{
    let k = count_attributes(&ts);
    proof {
        lemma_attribute_count_bound(ts@, 0);
    }
    let i: usize = 2 * k;
    if i < ts.len() && ts[i].is_punct('#') {
        return Err(error_or_end(ErrorKind::ExpectedBrackets, &ts, i + 1, end));
    }
    if !(i < ts.len() && ts[i].is_plain_ident()) {
        return Err(ident_error_or_end(&ts, i, end));
    }
    if !ts[i].is_ident_of("macro_rules") {
        return Err(Error { kind: ErrorKind::ExpectedMacroRules, span: ts[i].span(), at_end: false });
    }
    if !(ts.len() - i > 1 && ts[i + 1].is_punct('!')) {
        return Err(error_or_end(ErrorKind::ExpectedBang, &ts, i + 1, end));
    }
    if !(ts.len() - i > 2 && ts[i + 2].is_plain_ident()) {
        return Err(ident_error_or_end(&ts, i + 2, end));
    }
    if !(ts.len() - i > 3 && ts[i + 3].is_group_of(Delimiter::Brace)) {
        return Err(error_or_end(ErrorKind::ExpectedBraces, &ts, i + 3, end));
    }
    if ts.len() - i > 4 {
        return Err(Error { kind: ErrorKind::UnexpectedToken, span: ts[i + 4].span(), at_end: false });
    }
    let ghost orig = ts@;
    let mut attrs = ts;
    let mut rest = attrs.split_off(i);
    let macro_rules = rest.remove(0);
    let bang = rest.remove(0);
    let name = rest.remove(0);
    let group = rest.remove(0);
    let body = match group {
        TokenTree::Group { stream, .. } => stream,
        _ => {
            proof {
                assert(false);
            }
            Vec::new()
        },
    };
    let d = MacroDefinition { attrs, macro_rules, bang, name, body };
    proof {
        assert forall|j: int| 0 <= j < d.attrs@.len() && j % 2 == 0 implies #[trigger] is_attribute_at(
            d.attrs@,
            j,
        ) by {
            assert(is_attribute_at(orig, 0 + 2 * (j / 2)));
        }
    }
    Ok(d)
}

/// How many tokens continue a path inside `#[doc(..)]` after its segment
/// `g[i]`: each further segment is `::` and an identifier.
pub open spec fn meta_path_more<S>(g: Seq<TokenTree<S>>, i: int, close: S) -> Result<nat, Error<S>>
    decreases g.len() - i,
{
    if i < 0 || i >= g.len() {
        Ok(0)
    } else if colons_at(g, i + 1) {
        if i + 3 < g.len() && is_any_ident(g[i + 3]) {
            match meta_path_more(g, i + 3, close) {
                Ok(n) => Ok(n + 3),
                Err(e) => Err(e),
            }
        } else {
            Err(error_at(ErrorKind::ExpectedIdent, g, i + 3, close))
        }
    } else {
        Ok(0)
    }
}

/// How many tokens from `g[k]` on come before the next `,` (or the end).
pub open spec fn value_len<S>(g: Seq<TokenTree<S>>, k: int) -> nat
    decreases g.len() - k,
{
    if k < 0 || k >= g.len() || is_punct(g[k], ',') {
        0
    } else {
        1 + value_len(g, k + 1)
    }
}

/// How many tokens after its path an entry's value takes, `g[j]` being the
/// first token after the path: `=` and the tokens up to the next `,` (at
/// least one), or one delimited group, or nothing.
pub open spec fn entry_value<S>(g: Seq<TokenTree<S>>, j: int, close: S) -> Result<nat, Error<S>> {
    if 0 <= j < g.len() && is_punct(g[j], '=') {
        if value_len(g, j + 1) == 0 {
            Err(error_at(ErrorKind::ExpectedExpression, g, j + 1, close))
        } else {
            Ok(1 + value_len(g, j + 1))
        }
    } else if 0 <= j < g.len() && g[j] is Group {
        Ok(1)
    } else {
        Ok(0)
    }
}

/// The error where an entry should start at `g[s]` and no identifier stands.
pub open spec fn entry_start_error<S>(g: Seq<TokenTree<S>>, s: int, close: S) -> Error<S> {
    if 0 <= s < g.len() {
        if g[s] is Literal {
            Error { kind: ErrorKind::LiteralInNested, span: span_of(g[s]), at_end: false }
        } else {
            Error { kind: ErrorKind::TokenInNested, span: span_of(g[s]), at_end: false }
        }
    } else {
        error_at(ErrorKind::ExpectedNestedAttribute, g, s, close)
    }
}

/// Scans the comma-separated entries of a `doc(..)` list from `g[i]` on,
/// each a path (with an optional leading `::`) and an optional value:
/// whether one of them has the bare path `hidden`, or the first error.
pub open spec fn nested_entries<S>(g: Seq<TokenTree<S>>, i: int, close: S) -> Result<bool, Error<S>>
    decreases g.len() - i,
{
    if i < 0 || i >= g.len() {
        Ok(false)
    } else {
        let s = if colons_at(g, i) {
            i + 2
        } else {
            i
        };
        if !(s < g.len() && is_any_ident(g[s])) {
            Err(entry_start_error(g, s, close))
        } else {
            match meta_path_more(g, s, close) {
                Err(e) => Err(e),
                Ok(p) => {
                    let j = s + 1 + p;
                    let hidden = s == i && p == 0 && is_ident_of(g[i], "hidden"@);
                    match entry_value(g, j, close) {
                        Err(e) => Err(e),
                        Ok(x) => {
                            let e = j + x;
                            if e >= g.len() {
                                Ok(hidden)
                            } else if !is_punct(g[e], ',') {
                                Err(Error { kind: ErrorKind::ExpectedComma, span: span_of(g[e]), at_end: false })
                            } else {
                                match nested_entries(g, e + 1, close) {
                                    Err(e) => Err(e),
                                    Ok(h) => Ok(hidden || h),
                                }
                            }
                        },
                    }
                },
            }
        }
    }
}

/// The content `st` of an attribute's brackets is `doc` followed by a delimited list.
pub open spec fn is_doc_list<S>(st: Seq<TokenTree<S>>) -> bool {
    &&& st.len() == 2
    &&& is_ident_of(st[0], "doc"@)
    &&& st[1] is Group
    &&& !is_group_of(st[1], Delimiter::Invisible)
}

/// Whether one of the attributes from `a[i]` on is `#[doc(..)]` with the entry
/// `hidden`, or the error in the first `doc(..)` list that cannot be read.
/// The scan stops at the first attribute that hides.
pub open spec fn doc_hidden_from<S>(a: Seq<TokenTree<S>>, i: int) -> Result<bool, Error<S>>
    decreases a.len() - i,
{
    if i < 0 || i + 1 >= a.len() {
        Ok(false)
    } else {
        let st = group_stream(a[i + 1]);
        if is_doc_list(st) {
            match nested_entries(group_stream(st[1]), 0, group_close(st[1])) {
                Err(e) => Err(e),
                Ok(true) => Ok(true),
                Ok(false) => doc_hidden_from(a, i + 2),
            }
        } else {
            doc_hidden_from(a, i + 2)
        }
    }
}

pub open spec fn shifted<S>(r: Result<nat, Error<S>>, d: int) -> Result<nat, Error<S>> {
    match r {
        Ok(n) => Ok((n + d) as nat),
        Err(e) => Err(e),
    }
}

fn parse_meta_path_more<S: Copy>(g: &Vec<TokenTree<S>>, s: usize, close: S) -> (r: Result<usize, Error<S>>)
    requires
        s < g.len(),
    ensures
        match r {
            Ok(p) => meta_path_more(g@, s as int, close) == Ok::<nat, Error<S>>(p as nat) && s + 1 + p
                <= g.len(),
            Err(e) => meta_path_more(g@, s as int, close) == Err::<nat, Error<S>>(e),
        },
{
    let mut k: usize = s;
    loop
        invariant
            s <= k < g.len(),
            meta_path_more(g@, s as int, close) == shifted(
                meta_path_more(g@, k as int, close),
                k - s,
            ),
        decreases g.len() - k,
    {
        if has_colons_at(g, k + 1) {
            if g.len() - k > 3 && matches!(g[k + 3], TokenTree::Ident { .. }) {
                k = k + 3;
            } else {
                return Err(error_or_end(ErrorKind::ExpectedIdent, g, k + 3, close));
            }
        } else {
            return Ok(k - s);
        }
    }
}

fn parse_entry_value<S: Copy>(g: &Vec<TokenTree<S>>, j: usize, close: S) -> (r: Result<usize, Error<S>>)
    requires
        j <= g.len(),
    ensures
        match r {
            Ok(x) => entry_value(g@, j as int, close) == Ok::<nat, Error<S>>(x as nat) && j + x
                <= g.len(),
            Err(e) => entry_value(g@, j as int, close) == Err::<nat, Error<S>>(e),
        },
{
    if j < g.len() && g[j].is_punct('=') {
        let mut k: usize = j + 1;
        while k < g.len() && !g[k].is_punct(',')
            invariant
                j + 1 <= k <= g.len(),
                value_len(g@, j + 1) == (k - (j + 1)) + value_len(g@, k as int),
            decreases g.len() - k,
        {
            k = k + 1;
        }
        if k == j + 1 {
            Err(error_or_end(ErrorKind::ExpectedExpression, g, j + 1, close))
        } else {
            Ok(k - j)
        }
    } else if j < g.len() && matches!(g[j], TokenTree::Group { .. }) {
        Ok(1)
    } else {
        Ok(0)
    }
}

/// Whether the entries of a `doc(..)` list hold the bare path `hidden`.
fn list_has_hidden<S: Copy>(g: &Vec<TokenTree<S>>, close: S) -> (r: Result<bool, Error<S>>)
    ensures
        r == nested_entries(g@, 0, close),
{
    let mut i: usize = 0;
    let mut acc = false;
    while i < g.len()
        invariant
            i <= g.len(),
            nested_entries(g@, 0, close) == match nested_entries(g@, i as int, close) {
                Err(e) => Err(e),
                Ok(h) => Ok(acc || h),
            },
        decreases g.len() - i,
    {
        let s: usize = if has_colons_at(g, i) {
            i + 2
        } else {
            i
        };
        if !(s < g.len() && matches!(g[s], TokenTree::Ident { .. })) {
            if s < g.len() {
                if matches!(g[s], TokenTree::Literal { .. }) {
                    return Err(Error { kind: ErrorKind::LiteralInNested, span: g[s].span(), at_end: false });
                }
                return Err(Error { kind: ErrorKind::TokenInNested, span: g[s].span(), at_end: false });
            }
            return Err(error_or_end(ErrorKind::ExpectedNestedAttribute, g, s, close));
        }
        let p = match parse_meta_path_more(g, s, close) {
            Err(e) => return Err(e),
            Ok(p) => p,
        };
        let j = s + 1 + p;
        let hidden = s == i && p == 0 && g[i].is_ident_of("hidden");
        let x = match parse_entry_value(g, j, close) {
            Err(e) => return Err(e),
            Ok(x) => x,
        };
        let e = j + x;
        acc = acc || hidden;
        if e >= g.len() {
            return Ok(acc);
        }
        if !g[e].is_punct(',') {
            return Err(Error { kind: ErrorKind::ExpectedComma, span: g[e].span(), at_end: false });
        }
        i = e + 1;
    }
    Ok(acc)
}

/// Whether the attributes `attrs` hide the item from generated documentation:
/// one of them is `#[doc(..)]` whose list holds the entry `hidden`. Fails with
/// the error of the first `doc(..)` list met before that which cannot be read.
pub fn has_doc_hidden<S: Copy>(attrs: &Vec<TokenTree<S>>) -> (r: Result<bool, Error<S>>)
    ensures
        r == doc_hidden_from(attrs@, 0),
{
    let mut i: usize = 0;
    while i < attrs.len() && attrs.len() - i >= 2
        invariant
            doc_hidden_from(attrs@, 0) == doc_hidden_from(attrs@, i as int),
        decreases attrs.len() - i,
    {
        if let TokenTree::Group { stream: st, .. } = &attrs[i + 1] {
            if st.len() == 2 && st[0].is_ident_of("doc") && !st[1].is_group_of(Delimiter::Invisible) {
                if let TokenTree::Group { stream: g, close, .. } = &st[1] {
                    match list_has_hidden(g, *close) {
                        Err(e) => return Err(e),
                        Ok(true) => return Ok(true),
                        Ok(false) => {},
                    }
                }
            }
        }
        i = i + 2;
    }
    Ok(false)
}

} // verus!
