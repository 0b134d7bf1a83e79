//! Properties that relate the parser and the rewrite.

use vstd::prelude::*;
use crate::definition::{
    attribute_count, attributes_wf, doc_hidden_from, is_attribute_at, item_result,
    lemma_attribute_count_bound,
};
use crate::expand::{
    decimal, digit_text, internal_name, is_doc_marker, is_expansion, is_export_marker, renamed_len,
};
use crate::visibility::plain_visibility_result;
use crate::token::{group_stream, is_group_of, Delimiter, is_ident_of, is_keyword, is_plain_ident, is_punct, Error, TokenTree};

verus! {

proof fn lemma_attribute_count_exact<S>(ts: Seq<TokenTree<S>>, p: int, i: int)
    requires
        0 <= i <= p < ts.len(),
        p % 2 == 0,
        i % 2 == 0,
        forall|j: int| 0 <= j < p && j % 2 == 0 ==> #[trigger] is_attribute_at(ts, j),
        !is_punct(ts[p], '#'),
    ensures
        attribute_count(ts, i) == (p - i) / 2,
    decreases p - i,
{
    if i < p {
        assert(is_attribute_at(ts, i));
        lemma_attribute_count_exact(ts, p, i + 2);
    }
}

proof fn lemma_not_keyword(x: Seq<char>)
    requires
        (x.len() >= 2 && x[0] == '_' && x[1] == '_') || x == "macro_rules"@,
    ensures
        !is_keyword(x),
{
    reveal_strlit("macro_rules");
    if x == "macro_rules"@ {
        assert(x.len() == 11);
        assert(x[0] == 'm');
    }
    reveal_strlit("_");
    reveal_strlit("abstract");
    reveal_strlit("as");
    reveal_strlit("async");
    reveal_strlit("await");
    reveal_strlit("become");
    reveal_strlit("box");
    reveal_strlit("break");
    reveal_strlit("const");
    reveal_strlit("continue");
    reveal_strlit("crate");
    reveal_strlit("do");
    reveal_strlit("dyn");
    reveal_strlit("else");
    reveal_strlit("enum");
    reveal_strlit("extern");
    reveal_strlit("false");
    reveal_strlit("final");
    reveal_strlit("fn");
    reveal_strlit("for");
    reveal_strlit("if");
    reveal_strlit("impl");
    reveal_strlit("in");
    reveal_strlit("let");
    reveal_strlit("loop");
    reveal_strlit("macro");
    reveal_strlit("match");
    reveal_strlit("mod");
    reveal_strlit("move");
    reveal_strlit("mut");
    reveal_strlit("override");
    reveal_strlit("priv");
    reveal_strlit("pub");
    reveal_strlit("ref");
    reveal_strlit("return");
    reveal_strlit("Self");
    reveal_strlit("self");
    reveal_strlit("static");
    reveal_strlit("struct");
    reveal_strlit("super");
    reveal_strlit("trait");
    reveal_strlit("true");
    reveal_strlit("try");
    reveal_strlit("type");
    reveal_strlit("typeof");
    reveal_strlit("unsafe");
    reveal_strlit("unsized");
    reveal_strlit("use");
    reveal_strlit("virtual");
    reveal_strlit("where");
    reveal_strlit("while");
    reveal_strlit("yield");
}

/// `ts` has the shape of a definition with `k` leading attributes: whole
/// attributes, `macro_rules`, `!`, an identifier that is not a reserved word
/// (or is raw), a braced group, and nothing after.
pub open spec fn is_definition_shape<S>(ts: Seq<TokenTree<S>>, k: nat) -> bool {
    let i = 2 * (k as int);
    &&& ts.len() == i + 4
    &&& attributes_wf(ts.take(i))
    &&& is_ident_of(ts[i], "macro_rules"@)
    &&& is_punct(ts[i + 1], '!')
    &&& is_plain_ident(ts[i + 2])
    &&& is_group_of(ts[i + 3], Delimiter::Brace)
}

/// Reading an item succeeds, with `k` attributes, exactly when it has the
/// shape of a definition with `k` attributes.
pub proof fn lemma_item_result_ok<S>(ts: Seq<TokenTree<S>>, end: S, k: nat)
    ensures
        item_result(ts, end) == Ok::<nat, Error<S>>(k) <==> is_definition_shape(ts, k),
{
    let i = 2 * (k as int);
    lemma_not_keyword("macro_rules"@);
    lemma_attribute_count_bound(ts, 0);
    if item_result(ts, end) == Ok::<nat, Error<S>>(k) {
        assert forall|j: int| 0 <= j < ts.take(i).len() && j % 2 == 0 implies #[trigger] is_attribute_at(
            ts.take(i),
            j,
        ) by {
            assert(is_attribute_at(ts, 0 + 2 * (j / 2)));
        }
    }
    if is_definition_shape(ts, k) {
        assert forall|j: int| 0 <= j < i && j % 2 == 0 implies #[trigger] is_attribute_at(ts, j) by {
            assert(is_attribute_at(ts.take(i), j));
        }
        lemma_attribute_count_exact(ts, i, 0);
    }
}

/// Reading the renamed definition of a rewrite back as an item succeeds, and
/// gives the original attributes (after the injected `#[doc(hidden)]`, if
/// any), the original `macro_rules` and `!` tokens, and the original body.
pub proof fn lemma_renamed_definition_reparses<S>(
    out: Seq<TokenTree<S>>,
    vis: Seq<TokenTree<S>>,
    attrs: Seq<TokenTree<S>>,
    macro_rules: TokenTree<S>,
    bang: TokenTree<S>,
    name: TokenTree<S>,
    body: Seq<TokenTree<S>>,
    nonce: u64,
    hidden: bool,
    site: S,
    end: S,
)
    requires
        is_expansion(out, vis, attrs, macro_rules, bang, name, body, nonce, hidden, site),
        attributes_wf(attrs),
        is_ident_of(macro_rules, "macro_rules"@),
        is_punct(bang, '!'),
        is_plain_ident(name),
    ensures
        ({
            let s = out.take(renamed_len(vis, attrs, hidden));
            let k = (s.len() - 4) / 2;
            let m = if hidden {
                0int
            } else {
                2int
            };
            &&& item_result(s, end) == Ok::<nat, Error<S>>(k as nat)
            &&& s.take(2 * k).subrange(m, m + attrs.len()) == attrs
            &&& s[2 * k] == macro_rules
            &&& s[2 * k + 1] == bang
            &&& group_stream(s[2 * k + 3]) == body
        }),
{
    let s = out.take(renamed_len(vis, attrs, hidden));
    let m = if hidden {
        0int
    } else {
        2int
    };
    let a = m + attrs.len();
    let p = s.len() - 4;
    assert forall|j: int| 0 <= j < p && j % 2 == 0 implies #[trigger] is_attribute_at(s, j) by {
        if j < m {
            assert(s.subrange(0, 2)[0] == s[0]);
            assert(s.subrange(0, 2)[1] == s[1]);
        } else if j < a {
            assert(is_attribute_at(attrs, j - m));
            assert(s.subrange(m, a)[j - m] == s[j]);
            assert(s.subrange(m, a)[j - m + 1] == s[j + 1]);
        } else {
            assert(s.subrange(a, a + 2)[0] == s[a]);
            assert(s.subrange(a, a + 2)[1] == s[a + 1]);
        }
    }
    lemma_attribute_count_exact(s, p, 0);
    let text = internal_name(crate::token::ident_text(name), nonce as nat);
    reveal_strlit("__");
    assert(text[0] == '_' && text[1] == '_');
    lemma_not_keyword(text);
    lemma_not_keyword("macro_rules"@);
    assert(p % 2 == 0);
    assert(s[p] == macro_rules);
    assert(is_plain_ident(s[p]));
    assert(is_plain_ident(s[p + 2]));
    assert(attribute_count(s, 0) == p / 2);
    assert(item_result(s, end) == Ok::<nat, Error<S>>((p / 2) as nat));
    assert(s.take(p).subrange(m, a) =~= s.subrange(m, a));
}

/// Documentation markers: when the attributes do not hide the macro, the
/// renamed definition starts with an added `#[doc(hidden)]` and the alias
/// with `#[doc(inline)]`; when they do, the renamed definition starts with the
/// attributes themselves and the alias with `#[doc(hidden)]`.
pub proof fn lemma_documentation_markers<S>(
    out: Seq<TokenTree<S>>,
    vis: Seq<TokenTree<S>>,
    attrs: Seq<TokenTree<S>>,
    macro_rules: TokenTree<S>,
    bang: TokenTree<S>,
    name: TokenTree<S>,
    body: Seq<TokenTree<S>>,
    nonce: u64,
    hidden: bool,
    site: S,
)
    requires
        doc_hidden_from(attrs, 0) == Ok::<bool, Error<S>>(hidden),
        is_expansion(out, vis, attrs, macro_rules, bang, name, body, nonce, hidden, site),
    ensures
        ({
            let n = renamed_len(vis, attrs, hidden);
            &&& !hidden ==> is_doc_marker(out.subrange(0, 2), "hidden"@, site)
            &&& !hidden ==> is_doc_marker(out.subrange(n, n + 2), "inline"@, site)
            &&& hidden ==> out.subrange(0, attrs.len() as int) == attrs
            &&& hidden ==> is_doc_marker(out.subrange(n, n + 2), "hidden"@, site)
        }),
{
    let n = renamed_len(vis, attrs, hidden);
    let m = if hidden {
        0int
    } else {
        2int
    };
    assert(out.take(n).subrange(0, 2) =~= out.subrange(0, 2));
    assert(out.skip(n).subrange(0, 2) =~= out.subrange(n, n + 2));
    assert(out.take(n).subrange(m, m + attrs.len()) =~= out.subrange(m, m + attrs.len()));
}

/// Export marker: the renamed definition carries `#[macro_export]` right after
/// the attributes exactly when the requested visibility is `pub`; otherwise
/// the definition follows the attributes directly.
pub proof fn lemma_export_marker<S>(
    out: Seq<TokenTree<S>>,
    vis: Seq<TokenTree<S>>,
    attrs: Seq<TokenTree<S>>,
    macro_rules: TokenTree<S>,
    bang: TokenTree<S>,
    name: TokenTree<S>,
    body: Seq<TokenTree<S>>,
    nonce: u64,
    hidden: bool,
    site: S,
)
    requires
        plain_visibility_result(vis) is Ok,
        is_expansion(out, vis, attrs, macro_rules, bang, name, body, nonce, hidden, site),
    ensures
        ({
            let a = (if hidden {
                0int
            } else {
                2int
            }) + attrs.len();
            &&& plain_visibility_result(vis) == Ok::<int, Error<S>>(1) ==> is_export_marker(
                out.subrange(a, a + 2),
                site,
            ) && out[a + 2] == macro_rules
            &&& plain_visibility_result(vis) != Ok::<int, Error<S>>(1) ==> out[a] == macro_rules
        }),
{
    let n = renamed_len(vis, attrs, hidden);
    let a = (if hidden {
        0int
    } else {
        2int
    }) + attrs.len();
    assert(out.take(n).subrange(a, a + 2) =~= out.subrange(a, a + 2));
    assert(out.take(n)[a] == out[a]);
    assert(out.take(n)[a + 2] == out[a + 2]);
}

proof fn lemma_digit_text(d: nat)
    requires
        d < 10,
    ensures
        digit_text(d).len() == 1,
        forall|e: nat| e < 10 && e != d ==> digit_text(e)[0] != #[trigger] digit_text(d)[0],
{
    reveal_strlit("0");
    reveal_strlit("1");
    reveal_strlit("2");
    reveal_strlit("3");
    reveal_strlit("4");
    reveal_strlit("5");
    reveal_strlit("6");
    reveal_strlit("7");
    reveal_strlit("8");
    reveal_strlit("9");
}

proof fn lemma_decimal_len(n: nat)
    ensures
        decimal(n).len() >= 1,
        n >= 10 ==> decimal(n).len() >= 2,
    decreases n,
{
    lemma_digit_text(n % 10);
    if n >= 10 {
        lemma_decimal_len(n / 10);
    }
}

/// Two numbers with the same decimal text are equal.
pub proof fn lemma_decimal_injective(a: nat, b: nat)
    requires
        decimal(a) == decimal(b),
    ensures
        a == b,
    decreases a,
{
    lemma_decimal_len(a);
    lemma_decimal_len(b);
    lemma_digit_text(a % 10);
    lemma_digit_text(b % 10);
    if a < 10 && b < 10 {
        assert(digit_text(a)[0] == digit_text(b)[0]);
    } else if a >= 10 && b >= 10 {
        let da = decimal(a);
        assert(da[da.len() - 1] == digit_text(a % 10)[0]);
        assert(decimal(b)[da.len() - 1] == digit_text(b % 10)[0]);
        assert(decimal(a / 10) =~= da.drop_last());
        assert(decimal(b / 10) =~= decimal(b).drop_last());
        lemma_decimal_injective(a / 10, b / 10);
    }
}

/// Two rewrites of macros of the same name with different nonces give
/// different internal names.
pub proof fn lemma_internal_names_differ(name: Seq<char>, a: u64, b: u64)
    requires
        a != b,
    ensures
        internal_name(name, a as nat) != internal_name(name, b as nat),
{
    if internal_name(name, a as nat) == internal_name(name, b as nat) {
        let p = "__"@ + name + "_"@;
        assert(internal_name(name, a as nat).skip(p.len() as int) =~= decimal(a as nat));
        assert(internal_name(name, b as nat).skip(p.len() as int) =~= decimal(b as nat));
        lemma_decimal_injective(a as nat, b as nat);
    }
}

} // verus!
