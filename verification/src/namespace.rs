use vstd::prelude::*;

verus! {

/// A token of the attribute that `#[bridge_future(...)]` is given, as the parser sees it.
pub enum AttrToken {
    /// An identifier (keywords included), spelled as in the source.
    Ident(String),
    /// A punctuation character, and whether it is joined to the next one (as the first `:` of
    /// `::` must be).
    Punct(char, bool),
    /// A literal, lifetime or delimited group.
    Other,
}

/// The words that `syn` refuses where it expects an identifier: `_` and Rust's keywords,
/// strict, reserved and weak alike.
pub open spec fn is_reserved_word(s: Seq<char>) -> bool {
    s == "_"@
        || s == "abstract"@
        || s == "as"@
        || s == "async"@
        || s == "await"@
        || s == "become"@
        || s == "box"@
        || s == "break"@
        || s == "const"@
        || s == "continue"@
        || s == "crate"@
        || s == "do"@
        || s == "dyn"@
        || s == "else"@
        || s == "enum"@
        || s == "extern"@
        || s == "false"@
        || s == "final"@
        || s == "fn"@
        || s == "for"@
        || s == "if"@
        || s == "impl"@
        || s == "in"@
        || s == "let"@
        || s == "loop"@
        || s == "macro"@
        || s == "match"@
        || s == "mod"@
        || s == "move"@
        || s == "mut"@
        || s == "override"@
        || s == "priv"@
        || s == "pub"@
        || s == "ref"@
        || s == "return"@
        || s == "Self"@
        || s == "self"@
        || s == "static"@
        || s == "struct"@
        || s == "super"@
        || s == "trait"@
        || s == "true"@
        || s == "try"@
        || s == "type"@
        || s == "typeof"@
        || s == "unsafe"@
        || s == "unsized"@
        || s == "use"@
        || s == "virtual"@
        || s == "where"@
        || s == "while"@
        || s == "yield"@
}

/// Whether `syn` takes an identifier token spelled `s` for an identifier: any but a reserved
/// word.
pub open spec fn syn_accepts_ident(s: Seq<char>) -> bool {
    !is_reserved_word(s)
}

/// Whether the identifier `s` is one of the words `syn` refuses as an identifier.
fn is_reserved(s: &String) -> (b: bool)
    ensures
        b == is_reserved_word(s@),
{
    text_is(s, "_")
        || text_is(s, "abstract")
        || text_is(s, "as")
        || text_is(s, "async")
        || text_is(s, "await")
        || text_is(s, "become")
        || text_is(s, "box")
        || text_is(s, "break")
        || text_is(s, "const")
        || text_is(s, "continue")
        || text_is(s, "crate")
        || text_is(s, "do")
        || text_is(s, "dyn")
        || text_is(s, "else")
        || text_is(s, "enum")
        || text_is(s, "extern")
        || text_is(s, "false")
        || text_is(s, "final")
        || text_is(s, "fn")
        || text_is(s, "for")
        || text_is(s, "if")
        || text_is(s, "impl")
        || text_is(s, "in")
        || text_is(s, "let")
        || text_is(s, "loop")
        || text_is(s, "macro")
        || text_is(s, "match")
        || text_is(s, "mod")
        || text_is(s, "move")
        || text_is(s, "mut")
        || text_is(s, "override")
        || text_is(s, "priv")
        || text_is(s, "pub")
        || text_is(s, "ref")
        || text_is(s, "return")
        || text_is(s, "Self")
        || text_is(s, "self")
        || text_is(s, "static")
        || text_is(s, "struct")
        || text_is(s, "super")
        || text_is(s, "trait")
        || text_is(s, "true")
        || text_is(s, "try")
        || text_is(s, "type")
        || text_is(s, "typeof")
        || text_is(s, "unsafe")
        || text_is(s, "unsized")
        || text_is(s, "use")
        || text_is(s, "virtual")
        || text_is(s, "where")
        || text_is(s, "while")
        || text_is(s, "yield")
}

/// The keywords that may still stand as a segment of a module path.
pub open spec fn is_path_keyword(s: Seq<char>) -> bool {
    s == "super"@ || s == "self"@ || s == "Self"@ || s == "crate"@
}

/// The text of an identifier token (empty for other tokens).
pub open spec fn ident_text(t: AttrToken) -> Seq<char> {
    match t {
        AttrToken::Ident(s) => s@,
        _ => Seq::empty(),
    }
}

/// Whether `syn` accepts each token as an identifier (false for tokens that are not
/// identifiers).
pub open spec fn classify(toks: Seq<AttrToken>) -> Seq<bool> {
    Seq::new(
        toks.len(),
        |i: int|
            match toks[i] {
                AttrToken::Ident(s) => syn_accepts_ident(s@),
                _ => false,
            },
    )
}

/// Whether a token can be a segment of a module path, given whether `syn` accepts it as an
/// identifier.
pub open spec fn is_segment(t: AttrToken, accepted: bool) -> bool {
    match t {
        AttrToken::Ident(s) => accepted || is_path_keyword(s@),
        _ => false,
    }
}

/// Whether a token is the punctuation character `ch`, joined to the next token or not.
pub open spec fn is_punct(t: AttrToken, ch: char) -> bool {
    match t {
        AttrToken::Punct(c, _) => c == ch,
        _ => false,
    }
}

/// Whether two tokens spell the path separator `::`.
pub open spec fn is_path_sep(a: AttrToken, b: AttrToken) -> bool {
    &&& a == AttrToken::Punct(':', true)
    &&& is_punct(b, ':')
}

/// The segments of a module path that spans all of `toks`: segments separated by `::`,
/// none left out at either end. `None` when the tokens are no such path.
pub open spec fn path_segments(toks: Seq<AttrToken>, ok: Seq<bool>) -> Option<Seq<Seq<char>>>
    decreases toks.len(),
{
    if toks.len() == 0 || !is_segment(toks[0], ok[0]) {
        None
    } else if toks.len() == 1 {
        Some(seq![ident_text(toks[0])])
    } else if toks.len() >= 3 && is_path_sep(toks[1], toks[2]) {
        match path_segments(toks.skip(3), ok.skip(3)) {
            Some(rest) => Some(seq![ident_text(toks[0])] + rest),
            None => None,
        }
    } else {
        None
    }
}

/// What the attribute means: no tokens name no namespace; `namespace = path` (the path may
/// start with `::`) names the path's segments; anything else is rejected.
pub open spec fn namespace_of(toks: Seq<AttrToken>, ok: Seq<bool>) -> Option<Seq<Seq<char>>> {
    if toks.len() == 0 {
        Some(Seq::empty())
    } else if toks.len() >= 2 && toks[0] is Ident && ident_text(toks[0]) == "namespace"@
        && is_punct(toks[1], '=') {
        let rest = toks.skip(2);
        let rest_ok = ok.skip(2);
        if rest.len() >= 2 && is_path_sep(rest[0], rest[1]) {
            path_segments(rest.skip(2), rest_ok.skip(2))
        } else {
            path_segments(rest, rest_ok)
        }
    } else {
        None
    }
}

/// The texts of a sequence of strings.
pub open spec fn texts(v: Seq<String>) -> Seq<Seq<char>> {
    v.map_values(|s: String| s@)
}

/// The C++ namespace that a bridged future is declared in, outermost first.
pub struct NamespaceAttribute {
    pub segments: Vec<String>,
}

/// Whether `s` is the text `lit`.
pub(crate) fn text_is(s: &String, lit: &str) -> (b: bool)
    ensures
        b == (s@ == lit@),
{
    let owned = lit.to_owned();
    s.eq(&owned)
}

fn is_segment_at(toks: &Vec<AttrToken>, ok: &Vec<bool>, i: usize) -> (b: bool)
    requires
        i < toks.len(),
        ok.len() == toks.len(),
    ensures
        b == is_segment(toks@[i as int], ok@[i as int]),
{
    match &toks[i] {
        AttrToken::Ident(s) => ok[i] || text_is(s, "super") || text_is(s, "self") || text_is(s, "Self")
            || text_is(s, "crate"),
        _ => false,
    }
}

fn is_path_sep_at(toks: &Vec<AttrToken>, i: usize) -> (b: bool)
    requires
        i + 1 < toks.len(),
    ensures
        b == is_path_sep(toks@[i as int], toks@[i + 1]),
{
    let first = match &toks[i] {
        AttrToken::Punct(c, joint) => *c == ':' && *joint,
        _ => false,
    };
    let second = match &toks[i + 1] {
        AttrToken::Punct(c, _) => *c == ':',
        _ => false,
    };
    first && second
}

fn ident_string(t: &AttrToken) -> (s: String)
    requires
        t is Ident,
    ensures
        s@ == ident_text(*t),
{
    match t {
        AttrToken::Ident(s) => s.clone(),
        _ => String::new(),
    }
}

/// Reads the module path that spans `toks[start..]`.
fn parse_path(toks: &Vec<AttrToken>, ok: &Vec<bool>, start: usize) -> (r: Option<Vec<String>>)
    requires
        ok.len() == toks.len(),
        start <= toks.len(),
    ensures
        match r {
            Some(v) => path_segments(toks@.skip(start as int), ok@.skip(start as int)) == Some(texts(v@)),
            None => path_segments(toks@.skip(start as int), ok@.skip(start as int)) is None,
        },
{
    let n = toks.len();
    let mut segs: Vec<String> = Vec::new();
    let mut i = start;
    loop
        invariant
            ok.len() == toks.len(),
            n == toks.len(),
            start <= i <= n,
            path_segments(toks@.skip(start as int), ok@.skip(start as int)) == match path_segments(
                toks@.skip(i as int),
                ok@.skip(i as int),
            ) {
                Some(rest) => Some(texts(segs@) + rest),
                None => None::<Seq<Seq<char>>>,
            },
        decreases n - i,
    {
        let ghost ts = toks@.skip(i as int);
        let ghost os = ok@.skip(i as int);
        if i >= n || !is_segment_at(toks, ok, i) {
            return None;
        }
        let seg = ident_string(&toks[i]);
        let ghost before = segs@;
        segs.push(seg);
        if i + 1 == n {
            proof {
                assert(texts(segs@) =~= texts(before) + seq![ident_text(ts[0])]);
            }
            return Some(segs);
        }
        if i + 2 < n && is_path_sep_at(toks, i + 1) {
            proof {
                assert(ts.skip(3) =~= toks@.skip(i + 3));
                assert(os.skip(3) =~= ok@.skip(i + 3));
                match path_segments(ts.skip(3), os.skip(3)) {
                    Some(rest) => {
                        assert(texts(before) + (seq![ident_text(ts[0])] + rest) =~= texts(segs@)
                            + rest);
                    },
                    None => {},
                }
            }
            i = i + 3;
        } else {
            return None;
        }
    }
}

impl NamespaceAttribute {
    /// Reads the attribute given that `accepted[i]` tells whether `syn` accepts token `i` as
    /// an identifier: `None` exactly when the attribute is malformed.
    pub fn parse_classified(toks: &Vec<AttrToken>, accepted: &Vec<bool>) -> (r: Option<NamespaceAttribute>)
        requires
            accepted.len() == toks.len(),
        ensures
            match r {
                Some(a) => namespace_of(toks@, accepted@) == Some(texts(a.segments@)),
                None => namespace_of(toks@, accepted@) is None,
            },
    {
        let n = toks.len();
        if n == 0 {
            let segments: Vec<String> = Vec::new();
            proof {
                assert(texts(segments@) =~= Seq::empty());
            }
            return Some(NamespaceAttribute { segments });
        }
        if n < 2 {
            return None;
        }
        let keyword = match &toks[0] {
            AttrToken::Ident(s) => text_is(s, "namespace"),
            _ => false,
        };
        let equals = match &toks[1] {
            AttrToken::Punct(c, _) => *c == '=',
            _ => false,
        };
        if !(keyword && equals) {
            return None;
        }
        let start = if n >= 4 && is_path_sep_at(toks, 2) {
            4
        } else {
            2
        };
        proof {
            if n >= 4 {
                assert(toks@.skip(2).skip(2) =~= toks@.skip(4));
                assert(accepted@.skip(2).skip(2) =~= accepted@.skip(4));
            }
        }
        match parse_path(toks, accepted, start) {
            Some(segments) => Some(NamespaceAttribute { segments }),
            None => None,
        }
    }

    /// Reads the attribute of `#[bridge_future(...)]`: no tokens, or `namespace = path`.
    /// `None` exactly when the attribute is malformed.
    pub fn parse(toks: &Vec<AttrToken>) -> (r: Option<NamespaceAttribute>)
        ensures
            match r {
                Some(a) => namespace_of(toks@, classify(toks@)) == Some(texts(a.segments@)),
                None => namespace_of(toks@, classify(toks@)) is None,
            },
    {
        let mut accepted: Vec<bool> = Vec::new();
        for i in 0..toks.len()
            invariant
                accepted@ == classify(toks@).take(i as int),
        {
            let b = match &toks[i] {
                AttrToken::Ident(s) => !is_reserved(s),
                _ => false,
            };
            accepted.push(b);
            proof {
                assert(accepted@ =~= classify(toks@).take(i + 1));
            }
        }
        proof {
            assert(accepted@ =~= classify(toks@));
        }
        Self::parse_classified(toks, &accepted)
    }
}

/// The tokens of the module path whose segments are `strs`, joined by `::`.
pub open spec fn render_path(strs: Seq<String>) -> Seq<AttrToken>
    decreases strs.len(),
{
    if strs.len() == 0 {
        Seq::empty()
    } else if strs.len() == 1 {
        seq![AttrToken::Ident(strs[0])]
    } else {
        seq![AttrToken::Ident(strs[0]), AttrToken::Punct(':', true), AttrToken::Punct(':', false)]
            + render_path(strs.drop_first())
    }
}

/// Each string can stand as a segment of a module path.
pub open spec fn all_segments(strs: Seq<String>) -> bool {
    forall|i: int| 0 <= i < strs.len() ==> syn_accepts_ident(#[trigger] strs[i]@) || is_path_keyword(strs[i]@)
}

proof fn lemma_classify_skip(toks: Seq<AttrToken>, k: int)
    requires
        0 <= k <= toks.len(),
    ensures
        classify(toks).skip(k) == classify(toks.skip(k)),
{
    assert(classify(toks).skip(k) =~= classify(toks.skip(k)));
}

/// Spelling out a module path and reading it back gives its segments.
pub proof fn lemma_path_round_trip(strs: Seq<String>)
    requires
        strs.len() >= 1,
        all_segments(strs),
    ensures
        path_segments(render_path(strs), classify(render_path(strs))) == Some(texts(strs)),
    decreases strs.len(),
{
    let toks = render_path(strs);
    assert(syn_accepts_ident(strs[0]@) || is_path_keyword(strs[0]@));
    if strs.len() == 1 {
        assert(texts(strs) =~= seq![strs[0]@]);
    } else {
        let rest = strs.drop_first();
        assert forall|i: int| 0 <= i < rest.len() implies syn_accepts_ident(#[trigger] rest[i]@)
            || is_path_keyword(rest[i]@) by {
            assert(rest[i] == strs[i + 1]);
        }
        lemma_path_round_trip(rest);
        assert(toks.skip(3) =~= render_path(rest));
        lemma_classify_skip(toks, 3);
        assert(texts(strs) =~= seq![strs[0]@] + texts(rest));
    }
}

/// An attribute written `namespace = a::b::c`, or `namespace = ::a::b::c`, names the namespace
/// `a`, `b`, `c`; an empty attribute names no namespace.
pub proof fn lemma_namespace_round_trip(
    keyword: String,
    equals_joint: bool,
    colon_joint: bool,
    strs: Seq<String>,
)
    requires
        keyword@ == "namespace"@,
        strs.len() >= 1,
        all_segments(strs),
    ensures
        ({
            let head = seq![AttrToken::Ident(keyword), AttrToken::Punct('=', equals_joint)];
            let plain = head + render_path(strs);
            let rooted = head + seq![AttrToken::Punct(':', true), AttrToken::Punct(':', colon_joint)]
                + render_path(strs);
            &&& namespace_of(plain, classify(plain)) == Some(texts(strs))
            &&& namespace_of(rooted, classify(rooted)) == Some(texts(strs))
        }),
        namespace_of(Seq::empty(), Seq::empty()) == Some(Seq::<Seq<char>>::empty()),
{
    let head = seq![AttrToken::Ident(keyword), AttrToken::Punct('=', equals_joint)];
    let path = render_path(strs);
    lemma_path_round_trip(strs);
    let plain = head + path;
    assert(plain.skip(2) =~= path);
    lemma_classify_skip(plain, 2);
    assert(path[0] is Ident);
    let rooted = head + seq![AttrToken::Punct(':', true), AttrToken::Punct(':', colon_joint)] + path;
    assert(rooted.skip(2).skip(2) =~= path);
    lemma_classify_skip(rooted, 2);
    lemma_classify_skip(rooted.skip(2), 2);
}

/// Exactly `_` and these Rust keywords are refused as identifiers; every other identifier,
/// such as `kj_rs_demo` or `union`, is accepted.
pub proof fn lemma_reserved_words(s: Seq<char>)
    ensures
        !syn_accepts_ident(s) <==> (
            s == "_"@
            || s == "abstract"@
            || s == "as"@
            || s == "async"@
            || s == "await"@
            || s == "become"@
            || s == "box"@
            || s == "break"@
            || s == "const"@
            || s == "continue"@
            || s == "crate"@
            || s == "do"@
            || s == "dyn"@
            || s == "else"@
            || s == "enum"@
            || s == "extern"@
            || s == "false"@
            || s == "final"@
            || s == "fn"@
            || s == "for"@
            || s == "if"@
            || s == "impl"@
            || s == "in"@
            || s == "let"@
            || s == "loop"@
            || s == "macro"@
            || s == "match"@
            || s == "mod"@
            || s == "move"@
            || s == "mut"@
            || s == "override"@
            || s == "priv"@
            || s == "pub"@
            || s == "ref"@
            || s == "return"@
            || s == "Self"@
            || s == "self"@
            || s == "static"@
            || s == "struct"@
            || s == "super"@
            || s == "trait"@
            || s == "true"@
            || s == "try"@
            || s == "type"@
            || s == "typeof"@
            || s == "unsafe"@
            || s == "unsized"@
            || s == "use"@
            || s == "virtual"@
            || s == "where"@
            || s == "while"@
            || s == "yield"@
        ),
{
}

/// `namespace = a::b::c`, with segments that are neither `_` nor Rust keywords, names the
/// namespace `a`, `b`, `c`; the namespace may also start with `::`.
pub proof fn lemma_plain_namespace(keyword: String, equals_joint: bool, strs: Seq<String>)
    requires
        keyword@ == "namespace"@,
        strs.len() >= 1,
        forall|i: int| 0 <= i < strs.len() ==> !(
            #[trigger] strs[i]@ == "_"@
            || strs[i]@ == "abstract"@
            || strs[i]@ == "as"@
            || strs[i]@ == "async"@
            || strs[i]@ == "await"@
            || strs[i]@ == "become"@
            || strs[i]@ == "box"@
            || strs[i]@ == "break"@
            || strs[i]@ == "const"@
            || strs[i]@ == "continue"@
            || strs[i]@ == "crate"@
            || strs[i]@ == "do"@
            || strs[i]@ == "dyn"@
            || strs[i]@ == "else"@
            || strs[i]@ == "enum"@
            || strs[i]@ == "extern"@
            || strs[i]@ == "false"@
            || strs[i]@ == "final"@
            || strs[i]@ == "fn"@
            || strs[i]@ == "for"@
            || strs[i]@ == "if"@
            || strs[i]@ == "impl"@
            || strs[i]@ == "in"@
            || strs[i]@ == "let"@
            || strs[i]@ == "loop"@
            || strs[i]@ == "macro"@
            || strs[i]@ == "match"@
            || strs[i]@ == "mod"@
            || strs[i]@ == "move"@
            || strs[i]@ == "mut"@
            || strs[i]@ == "override"@
            || strs[i]@ == "priv"@
            || strs[i]@ == "pub"@
            || strs[i]@ == "ref"@
            || strs[i]@ == "return"@
            || strs[i]@ == "Self"@
            || strs[i]@ == "self"@
            || strs[i]@ == "static"@
            || strs[i]@ == "struct"@
            || strs[i]@ == "super"@
            || strs[i]@ == "trait"@
            || strs[i]@ == "true"@
            || strs[i]@ == "try"@
            || strs[i]@ == "type"@
            || strs[i]@ == "typeof"@
            || strs[i]@ == "unsafe"@
            || strs[i]@ == "unsized"@
            || strs[i]@ == "use"@
            || strs[i]@ == "virtual"@
            || strs[i]@ == "where"@
            || strs[i]@ == "while"@
            || strs[i]@ == "yield"@
        ),
    ensures
        ({
            let toks = seq![AttrToken::Ident(keyword), AttrToken::Punct('=', equals_joint)] + render_path(strs);
            namespace_of(toks, classify(toks)) == Some(texts(strs))
        }),
{
    assert forall|i: int| 0 <= i < strs.len() implies syn_accepts_ident(#[trigger] strs[i]@)
        || is_path_keyword(strs[i]@) by {
        lemma_reserved_words(strs[i]@);
    }
    lemma_namespace_round_trip(keyword, equals_joint, true, strs);
}

/// `namespace = n`, for any identifier `n` that is neither `_` nor a Rust keyword (such as
/// `kj_rs_demo`), names the one-level namespace `n`.
pub proof fn lemma_single_segment_namespace(keyword: String, equals_joint: bool, seg: String)
    requires
        keyword@ == "namespace"@,
        !(
            seg@ == "_"@
            || seg@ == "abstract"@
            || seg@ == "as"@
            || seg@ == "async"@
            || seg@ == "await"@
            || seg@ == "become"@
            || seg@ == "box"@
            || seg@ == "break"@
            || seg@ == "const"@
            || seg@ == "continue"@
            || seg@ == "crate"@
            || seg@ == "do"@
            || seg@ == "dyn"@
            || seg@ == "else"@
            || seg@ == "enum"@
            || seg@ == "extern"@
            || seg@ == "false"@
            || seg@ == "final"@
            || seg@ == "fn"@
            || seg@ == "for"@
            || seg@ == "if"@
            || seg@ == "impl"@
            || seg@ == "in"@
            || seg@ == "let"@
            || seg@ == "loop"@
            || seg@ == "macro"@
            || seg@ == "match"@
            || seg@ == "mod"@
            || seg@ == "move"@
            || seg@ == "mut"@
            || seg@ == "override"@
            || seg@ == "priv"@
            || seg@ == "pub"@
            || seg@ == "ref"@
            || seg@ == "return"@
            || seg@ == "Self"@
            || seg@ == "self"@
            || seg@ == "static"@
            || seg@ == "struct"@
            || seg@ == "super"@
            || seg@ == "trait"@
            || seg@ == "true"@
            || seg@ == "try"@
            || seg@ == "type"@
            || seg@ == "typeof"@
            || seg@ == "unsafe"@
            || seg@ == "unsized"@
            || seg@ == "use"@
            || seg@ == "virtual"@
            || seg@ == "where"@
            || seg@ == "while"@
            || seg@ == "yield"@
        ),
    ensures
        ({
            let toks = seq![AttrToken::Ident(keyword), AttrToken::Punct('=', equals_joint), AttrToken::Ident(seg)];
            namespace_of(toks, classify(toks)) == Some(seq![seg@])
        }),
{
    lemma_reserved_words(seg@);
    let one = seq![seg];
    assert(one[0] == seg);
    lemma_namespace_round_trip(keyword, equals_joint, true, one);
    assert(render_path(one) =~= seq![AttrToken::Ident(seg)]);
    assert(seq![AttrToken::Ident(keyword), AttrToken::Punct('=', equals_joint)] + render_path(one)
        =~= seq![AttrToken::Ident(keyword), AttrToken::Punct('=', equals_joint), AttrToken::Ident(seg)]);
    assert(texts(one) =~= seq![seg@]);
}

} // verus!
