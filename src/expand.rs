//! The rewrite: a renamed definition hidden from documentation, followed by a
//! re-export of it under the original name with the requested visibility.

use vstd::prelude::*;
use vstd::string::*;
use crate::definition::{doc_hidden_from, has_doc_hidden, item_result, parse_item, MacroDefinition};
use crate::token::{group_stream, ident_text, Delimiter, Error, TokenTree};
use crate::visibility::{
    effective_tokens, parse_visibility, visibility_result, visibility_tokens, Visibility,
};

verus! {

pub open spec fn digit_text(d: nat) -> Seq<char> {
    if d == 0 {
        "0"@
    } else if d == 1 {
        "1"@
    } else if d == 2 {
        "2"@
    } else if d == 3 {
        "3"@
    } else if d == 4 {
        "4"@
    } else if d == 5 {
        "5"@
    } else if d == 6 {
        "6"@
    } else if d == 7 {
        "7"@
    } else if d == 8 {
        "8"@
    } else {
        "9"@
    }
}

/// `n` written in decimal, without leading zeros.
pub open spec fn decimal(n: nat) -> Seq<char>
    decreases n,
{
    if n < 10 {
        digit_text(n)
    } else {
        decimal(n / 10) + digit_text(n % 10)
    }
}

/// The internal name of the macro `name` for the nonce `nonce`; `name` is
/// taken without the `r#` of a raw identifier.
pub open spec fn internal_name(name: Seq<char>, nonce: nat) -> Seq<char> {
    "__"@ + name + "_"@ + decimal(nonce)
}

/// `t` is the identifier `w` with the span `site`.
pub open spec fn is_word<S>(t: TokenTree<S>, w: Seq<char>, site: S) -> bool {
    t matches TokenTree::Ident { text, raw, span } && text@ == w && !raw && span == site
}

/// `t` is the lone punctuation `c` with the span `site`.
pub open spec fn is_punct_token<S>(t: TokenTree<S>, c: char, site: S) -> bool {
    t matches TokenTree::Punct { ch, joint, span } && ch == c && !joint && span == site
}

/// `t` is a group delimited by `d` with the span `site`.
pub open spec fn is_group_token<S>(t: TokenTree<S>, d: Delimiter, site: S) -> bool {
    t matches TokenTree::Group { delim, span, close, .. } && delim == d && span == site && close
        == site
}

/// `s` is the attribute `#[doc(w)]`, written with the span `site`.
pub open spec fn is_doc_marker<S>(s: Seq<TokenTree<S>>, w: Seq<char>, site: S) -> bool {
    let st = group_stream(s[1]);
    &&& s.len() == 2
    &&& is_punct_token(s[0], '#', site)
    &&& is_group_token(s[1], Delimiter::Bracket, site)
    &&& st.len() == 2
    &&& is_word(st[0], "doc"@, site)
    &&& is_group_token(st[1], Delimiter::Parenthesis, site)
    &&& group_stream(st[1]).len() == 1
    &&& is_word(group_stream(st[1])[0], w, site)
}

/// `s` is the attribute `#[macro_export]`, written with the span `site`.
pub open spec fn is_export_marker<S>(s: Seq<TokenTree<S>>, site: S) -> bool {
    &&& s.len() == 2
    &&& is_punct_token(s[0], '#', site)
    &&& is_group_token(s[1], Delimiter::Bracket, site)
    &&& group_stream(s[1]).len() == 1
    &&& is_word(group_stream(s[1])[0], "macro_export"@, site)
}

/// `t` is the internal name for the name token `name`, with the span of `name`.
pub open spec fn is_internal_name<S>(t: TokenTree<S>, name: TokenTree<S>, nonce: u64) -> bool {
    t matches TokenTree::Ident { text, raw, span } && text@ == internal_name(
        ident_text(name),
        nonce as nat,
    ) && !raw && span == crate::token::span_of(name)
}

/// The visibility written with the tokens `vis` is `pub`.
pub open spec fn is_public_tokens<S>(vis: Seq<TokenTree<S>>) -> bool {
    vis.len() == 1
}

/// The number of tokens of the renamed definition.
pub open spec fn renamed_len<S>(vis: Seq<TokenTree<S>>, attrs: Seq<TokenTree<S>>, hidden: bool) -> int {
    (if hidden {
        0int
    } else {
        2int
    }) + attrs.len() + (if is_public_tokens(vis) {
        2int
    } else {
        0int
    }) + 4
}

/// `s` is the definition `macro_rules` `bang` `<internal name>` `{ body }`
/// with, in order: `#[doc(hidden)]` unless `hidden`; the attributes `attrs`;
/// `#[macro_export]` when `public`.
pub open spec fn is_renamed_definition<S>(
    s: Seq<TokenTree<S>>,
    public: bool,
    attrs: Seq<TokenTree<S>>,
    macro_rules: TokenTree<S>,
    bang: TokenTree<S>,
    name: TokenTree<S>,
    body: Seq<TokenTree<S>>,
    nonce: u64,
    hidden: bool,
    site: S,
) -> bool {
    let m = if hidden {
        0int
    } else {
        2int
    };
    let a = m + attrs.len();
    let k = a + if public {
        2int
    } else {
        0int
    };
    &&& s.len() == k + 4
    &&& !hidden ==> is_doc_marker(s.subrange(0, 2), "hidden"@, site)
    &&& s.subrange(m, a) == attrs
    &&& public ==> is_export_marker(s.subrange(a, a + 2), site)
    &&& s[k] == macro_rules
    &&& s[k + 1] == bang
    &&& is_internal_name(s[k + 2], name, nonce)
    &&& is_group_token(s[k + 3], Delimiter::Brace, site)
    &&& group_stream(s[k + 3]) == body
}

/// `s` is `#[doc(hidden)]` when `hidden`, else `#[doc(inline)]`, followed by
/// `vis use <internal name> as name;`.
pub open spec fn is_alias<S>(
    s: Seq<TokenTree<S>>,
    vis: Seq<TokenTree<S>>,
    name: TokenTree<S>,
    nonce: u64,
    hidden: bool,
    site: S,
) -> bool {
    let u = 2 + vis.len() as int;
    &&& s.len() == u + 5
    &&& is_doc_marker(
        s.subrange(0, 2),
        if hidden {
            "hidden"@
        } else {
            "inline"@
        },
        site,
    )
    &&& s.subrange(2, u) == vis
    &&& is_word(s[u], "use"@, site)
    &&& is_internal_name(s[u + 1], name, nonce)
    &&& is_word(s[u + 2], "as"@, site)
    &&& s[u + 3] == name
    &&& is_punct_token(s[u + 4], ';', site)
}

/// `out` is the rewrite of the definition `macro_rules` `bang` `name` `{ body }`
/// with the attributes `attrs`, to be re-exported with the visibility written
/// `vis`; `hidden` says whether `attrs` hide it from documentation: the
/// renamed definition, then the alias.
pub open spec fn is_expansion<S>(
    out: Seq<TokenTree<S>>,
    vis: Seq<TokenTree<S>>,
    attrs: Seq<TokenTree<S>>,
    macro_rules: TokenTree<S>,
    bang: TokenTree<S>,
    name: TokenTree<S>,
    body: Seq<TokenTree<S>>,
    nonce: u64,
    hidden: bool,
    site: S,
) -> bool {
    let n = renamed_len(vis, attrs, hidden);
    &&& n <= out.len()
    &&& is_renamed_definition(
        out.take(n),
        is_public_tokens(vis),
        attrs,
        macro_rules,
        bang,
        name,
        body,
        nonce,
        hidden,
        site,
    )
    &&& is_alias(out.skip(n), vis, name, nonce, hidden, site)
}

fn digit(d: u64) -> (r: &'static str)
    requires
        d < 10,
    ensures
        r@ == digit_text(d as nat),
{
    if d == 0 {
        "0"
    } else if d == 1 {
        "1"
    } else if d == 2 {
        "2"
    } else if d == 3 {
        "3"
    } else if d == 4 {
        "4"
    } else if d == 5 {
        "5"
    } else if d == 6 {
        "6"
    } else if d == 7 {
        "7"
    } else if d == 8 {
        "8"
    } else {
        "9"
    }
}

/// `n` in decimal.
pub fn decimal_string(n: u64) -> (r: String)
    ensures
        r@ == decimal(n as nat),
    decreases n,
{
    if n < 10 {
        String::from_str(digit(n))
    } else {
        let mut s = decimal_string(n / 10);
        s.append(digit(n % 10));
        s
    }
}

/// The internal name `__<name>_<nonce>`.
pub fn internal_name_string(name: &String, nonce: u64) -> (r: String)
    ensures
        r@ == internal_name(name@, nonce as nat),
{
    let mut s = String::from_str("__");
    s.append(name.as_str());
    s.append("_");
    let d = decimal_string(nonce);
    s.append(d.as_str());
    s
}

fn word<S: Copy>(w: &str, site: S) -> (t: TokenTree<S>)
    ensures
        is_word(t, w@, site),
{
    TokenTree::Ident { text: String::from_str(w), raw: false, span: site }
}

fn punct_token<S: Copy>(c: char, site: S) -> (t: TokenTree<S>)
    ensures
        is_punct_token(t, c, site),
{
    TokenTree::Punct { ch: c, joint: false, span: site }
}

fn doc_marker<S: Copy>(w: &str, site: S) -> (r: Vec<TokenTree<S>>)
    ensures
        is_doc_marker(r@, w@, site),
{
    let mut inner = Vec::new();
    inner.push(word(w, site));
    let mut st = Vec::new();
    st.push(word("doc", site));
    st.push(TokenTree::Group { delim: Delimiter::Parenthesis, stream: inner, span: site, close: site });
    let mut r = Vec::new();
    r.push(punct_token('#', site));
    r.push(TokenTree::Group { delim: Delimiter::Bracket, stream: st, span: site, close: site });
    r
}

fn export_marker<S: Copy>(site: S) -> (r: Vec<TokenTree<S>>)
    ensures
        is_export_marker(r@, site),
{
    let mut st = Vec::new();
    st.push(word("macro_export", site));
    let mut r = Vec::new();
    r.push(punct_token('#', site));
    r.push(TokenTree::Group { delim: Delimiter::Bracket, stream: st, span: site, close: site });
    r
}

fn renamed_definition<S: Copy>(
    attrs: Vec<TokenTree<S>>,
    macro_rules: TokenTree<S>,
    bang: TokenTree<S>,
    renamed: TokenTree<S>,
    body: Vec<TokenTree<S>>,
    public: bool,
    hidden: bool,
    site: S,
) -> (r: Vec<TokenTree<S>>)
    ensures
        r@.len() == (if hidden {
            0int
        } else {
            2int
        }) + attrs@.len() + (if public {
            2int
        } else {
            0int
        }) + 4,
        !hidden ==> is_doc_marker(r@.subrange(0, 2), "hidden"@, site),
        r@.subrange(if hidden { 0int } else { 2int }, if hidden { 0int } else { 2int } + attrs@.len())
            == attrs@,
        public ==> is_export_marker(
            r@.subrange(
                if hidden { 0int } else { 2int } + attrs@.len(),
                if hidden { 0int } else { 2int } + attrs@.len() + 2,
            ),
            site,
        ),
        r@[r@.len() - 4] == macro_rules,
        r@[r@.len() - 3] == bang,
        r@[r@.len() - 2] == renamed,
        is_group_token(r@[r@.len() - 1], Delimiter::Brace, site),
        group_stream(r@[r@.len() - 1]) == body@,
{
    let ghost a = attrs@;
    let mut attrs = attrs;
    let mut out: Vec<TokenTree<S>> = Vec::new();
    if !hidden {
        let mut m = doc_marker("hidden", site);
        out.append(&mut m);
    }
    let ghost a0 = out@;
    out.append(&mut attrs);
    let ghost a1 = out@;
    if public {
        let mut x = export_marker(site);
        out.append(&mut x);
    }
    let ghost a2 = out@;
    out.push(macro_rules);
    out.push(bang);
    out.push(renamed);
    out.push(TokenTree::Group { delim: Delimiter::Brace, stream: body, span: site, close: site });
    proof {
        if !hidden {
            assert(out@.subrange(0, 2) =~= a0);
        }
        assert(out@.subrange(a0.len() as int, a1.len() as int) =~= a);
        if public {
            assert(out@.subrange(a1.len() as int, a2.len() as int) =~= a2.subrange(
                a1.len() as int,
                a2.len() as int,
            ));
        }
    }
    out
}

fn alias<S: Copy>(vis: Visibility<S>, internal: TokenTree<S>, name: TokenTree<S>, hidden: bool, site: S) -> (r: Vec<TokenTree<S>>)
    ensures
        is_doc_marker(
            r@.subrange(0, 2),
            if hidden {
                "hidden"@
            } else {
                "inline"@
            },
            site,
        ),
        r@.len() == 2 + visibility_tokens(vis).len() + 5,
        r@.subrange(2, 2 + visibility_tokens(vis).len() as int) == visibility_tokens(vis),
        is_word(r@[r@.len() - 5], "use"@, site),
        r@[r@.len() - 4] == internal,
        is_word(r@[r@.len() - 3], "as"@, site),
        r@[r@.len() - 2] == name,
        is_punct_token(r@[r@.len() - 1], ';', site),
{
    let ghost vt = visibility_tokens(vis);
    let mut out = doc_marker(
        if hidden {
            "hidden"
        } else {
            "inline"
        },
        site,
    );
    let ghost a0 = out@;
    match vis {
        Visibility::Inherited => {},
        Visibility::Public { pub_token } => {
            out.push(pub_token);
        },
        Visibility::Restricted { pub_token, scope } => {
            out.push(pub_token);
            out.push(scope);
        },
    }
    out.push(word("use", site));
    out.push(internal);
    out.push(word("as", site));
    out.push(name);
    out.push(punct_token(';', site));
    proof {
        assert(out@.subrange(0, 2) =~= a0);
        assert(out@.subrange(2, 2 + vt.len() as int) =~= vt);
    }
    out
}

/// Rewrites `def` to be re-exported with the visibility `vis`. `nonce` makes
/// the internal name; `site` is the span of the tokens the rewrite adds. Fails
/// only where a `doc(..)` list of the attributes cannot be read.
pub fn generate<S: Copy>(vis: Visibility<S>, def: MacroDefinition<S>, nonce: u64, site: S) -> (r:
    Result<Vec<TokenTree<S>>, Error<S>>)
    ensures
        match doc_hidden_from(def.attrs@, 0) {
            Err(e) => r == Err::<Vec<TokenTree<S>>, Error<S>>(e),
            Ok(h) => r is Ok && is_expansion(
                r->Ok_0@,
                visibility_tokens(vis),
                def.attrs@,
                def.macro_rules,
                def.bang,
                def.name,
                def.body@,
                nonce,
                h,
                site,
            ),
        },
{
    let hidden = match has_doc_hidden(&def.attrs) {
        Err(e) => return Err(e),
        Ok(h) => h,
    };
    let ghost vt = visibility_tokens(vis);
    let ghost d0 = def;
    let public = matches!(vis, Visibility::Public { .. });
    let MacroDefinition { attrs, macro_rules, bang, name, body } = def;
    let real_text = match &name {
        TokenTree::Ident { text, .. } => internal_name_string(text, nonce),
        _ => internal_name_string(&String::new(), nonce),
    };
    let renamed = TokenTree::Ident { text: real_text.clone(), raw: false, span: name.span() };
    let internal = TokenTree::Ident { text: real_text, raw: false, span: name.span() };
    let ghost renamed_token = renamed;
    let mut out = renamed_definition(attrs, macro_rules, bang, renamed, body, public, hidden, site);
    let ghost n = out@.len();
    let ghost r1 = out@;
    let mut tail = alias(vis, internal, name, hidden, site);
    let ghost t = tail@;
    out.append(&mut tail);
    proof {
        assert(is_public_tokens(vt) == public);
        assert(renamed_len(vt, d0.attrs@, hidden) == n);
        assert(is_internal_name(renamed_token, d0.name, nonce));
        assert(is_renamed_definition(
            r1,
            public,
            d0.attrs@,
            d0.macro_rules,
            d0.bang,
            d0.name,
            d0.body@,
            nonce,
            hidden,
            site,
        ));
        assert(is_alias(t, vt, d0.name, nonce, hidden, site));
        assert(out@.take(n as int) =~= r1);
        assert(out@.skip(n as int) =~= t);
    }
    Ok(out)
}

/// The whole rewrite: `attr` is the attribute's argument, `item` the item it
/// is attached to, `site` the span of the added tokens and of the end of
/// input. Fails with the visibility's error, else the item's, else that of
/// the attribute scan; otherwise returns the rewrite of `item`.
pub fn expand<S: Copy>(attr: Vec<TokenTree<S>>, item: Vec<TokenTree<S>>, nonce: u64, site: S) -> (r:
    Result<Vec<TokenTree<S>>, Error<S>>)
    ensures
        match visibility_result(attr@) {
            Err(e) => r == Err::<Vec<TokenTree<S>>, Error<S>>(e),
            Ok(_) => match item_result(item@, site) {
                Err(e) => r == Err::<Vec<TokenTree<S>>, Error<S>>(e),
                Ok(k) => {
                    let i = 2 * (k as int);
                    match doc_hidden_from(item@.take(i), 0) {
                        Err(e) => r == Err::<Vec<TokenTree<S>>, Error<S>>(e),
                        Ok(h) => r is Ok && is_expansion(
                            r->Ok_0@,
                            effective_tokens(attr@),
                            item@.take(i),
                            item@[i],
                            item@[i + 1],
                            item@[i + 2],
                            group_stream(item@[i + 3]),
                            nonce,
                            h,
                            site,
                        ),
                    }
                },
            },
        },
{
    let vis = match parse_visibility(attr) {
        Err(e) => return Err(e),
        Ok(v) => v,
    };
    let def = match parse_item(item, site) {
        Err(e) => return Err(e),
        Ok(d) => d,
    };
    generate(vis, def, nonce, site)
}

} // verus!
