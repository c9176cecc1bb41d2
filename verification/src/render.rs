//! Variable-substitution renderer: expands the `{{…}}` tokens embedded in a
//! snippet body. Each token class is applied as one left-to-right pass over
//! the text; a substitution's own output is never re-scanned within its pass.

use vstd::prelude::*;
use vstd::string::StrSliceExecFns;
use vstd::string::StringExecFns;

use crate::host::{calc_result, clipboard_text, eval_calc, now_formatted};
use crate::text::{
    first_close, first_lit, first_tag, lemma_first_lit_props, lemma_first_tag_none,
    lemma_first_tag_props, lit_at, tagged_at, find_literal, find_tagged,
};

verus! {

pub open spec fn date_tag() -> Seq<char> {
    seq!['{', '{', 'd', 'a', 't', 'e', ':']
}

pub open spec fn time_tag() -> Seq<char> {
    seq!['{', '{', 't', 'i', 'm', 'e', ':']
}

pub open spec fn calc_tag() -> Seq<char> {
    seq!['{', '{', 'c', 'a', 'l', 'c', ':']
}

pub open spec fn env_tag() -> Seq<char> {
    seq!['{', '{', 'e', 'n', 'v', ':']
}

pub open spec fn clipboard_marker() -> Seq<char> {
    seq!['{', '{', 'c', 'l', 'i', 'p', 'b', 'o', 'a', 'r', 'd', '}', '}']
}

pub open spec fn cursor_marker() -> Seq<char> {
    seq!['{', '{', 'c', 'u', 'r', 's', 'o', 'r', '}', '}']
}

/// ASCII whitespace that may pad a calc expression after its tag.
pub open spec fn is_blank(c: char) -> bool {
    c == ' ' || c == '\t' || c == '\n' || c == '\r' || c == '\u{b}' || c == '\u{c}'
}

pub open spec fn strip_blanks(a: Seq<char>) -> Seq<char>
    decreases a.len(),
{
    if a.len() > 0 && is_blank(a[0]) {
        strip_blanks(a.drop_first())
    } else {
        a
    }
}

/// One substitution pass for `{{tag…}}` tokens, starting at `from`: each
/// complete token — leftmost first, never overlapping — is replaced by
/// `repl(argument, whole token)`, and everything else is kept.
pub open spec fn tag_pass_from(
    s: Seq<char>,
    tag: Seq<char>,
    repl: spec_fn(Seq<char>, Seq<char>) -> Seq<char>,
    from: int,
) -> Seq<char>
    decreases s.len() - from,
    via tag_pass_from_dec
{
    if !(0 <= from <= s.len()) {
        Seq::empty()
    } else {
        match first_tag(s, tag, from) {
            None => s.skip(from),
            Some(i) => match first_close(s, i + tag.len()) {
                None => s.skip(from),
                Some(k) => s.subrange(from, i) + repl(
                    s.subrange(i + tag.len(), k),
                    s.subrange(i, k + 2),
                ) + tag_pass_from(s, tag, repl, k + 2),
            },
        }
    }
}

#[via_fn]
proof fn tag_pass_from_dec(
    s: Seq<char>,
    tag: Seq<char>,
    repl: spec_fn(Seq<char>, Seq<char>) -> Seq<char>,
    from: int,
) {
    if 0 <= from <= s.len() {
        lemma_first_tag_props(s, tag, from);
    }
}

/// One substitution pass for a fixed marker, starting at `from`: each
/// occurrence — leftmost first, never overlapping — is replaced by `repl`.
pub open spec fn lit_pass_from(s: Seq<char>, pat: Seq<char>, repl: Seq<char>, from: int) -> Seq<
    char,
>
    decreases s.len() - from,
    via lit_pass_from_dec
{
    if !(0 <= from <= s.len()) || pat.len() == 0 {
        Seq::empty()
    } else {
        match first_lit(s, pat, from) {
            None => s.skip(from),
            Some(i) => s.subrange(from, i) + repl + lit_pass_from(s, pat, repl, i + pat.len()),
        }
    }
}

#[via_fn]
proof fn lit_pass_from_dec(s: Seq<char>, pat: Seq<char>, repl: Seq<char>, from: int) {
    if 0 <= from <= s.len() && pat.len() > 0 {
        lemma_first_lit_props(s, pat, from);
    }
}

/// What one calc token becomes: the evaluator's textual result, or the whole
/// token unchanged when the expression does not evaluate.
pub open spec fn calc_replacement(content: Seq<char>, whole: Seq<char>) -> Seq<char> {
    match calc_result(strip_blanks(content)) {
        Some(v) => v,
        None => whole,
    }
}

pub open spec fn calc_repl_fn() -> spec_fn(Seq<char>, Seq<char>) -> Seq<char> {
    |content: Seq<char>, whole: Seq<char>| calc_replacement(content, whole)
}

pub open spec fn calc_pass(s: Seq<char>) -> Seq<char> {
    tag_pass_from(s, calc_tag(), calc_repl_fn(), 0)
}

/// The environment pairs a renderer works from, as sequences of characters.
pub open spec fn env_pairs_view(env: Seq<(String, String)>) -> Seq<(Seq<char>, Seq<char>)> {
    env.map_values(|p: (String, String)| (p.0@, p.1@))
}

/// The value of the first pair whose name matches, or the empty string when
/// the name is unset.
pub open spec fn env_value(pairs: Seq<(Seq<char>, Seq<char>)>, name: Seq<char>) -> Seq<char>
    decreases pairs.len(),
{
    if pairs.len() == 0 {
        Seq::empty()
    } else if pairs[0].0 == name {
        pairs[0].1
    } else {
        env_value(pairs.drop_first(), name)
    }
}

pub open spec fn env_repl_fn(pairs: Seq<(Seq<char>, Seq<char>)>) -> spec_fn(
    Seq<char>,
    Seq<char>,
) -> Seq<char> {
    |content: Seq<char>, whole: Seq<char>| env_value(pairs, content)
}

pub open spec fn env_pass(s: Seq<char>, pairs: Seq<(Seq<char>, Seq<char>)>) -> Seq<char> {
    tag_pass_from(s, env_tag(), env_repl_fn(pairs), 0)
}

/// No token whose replacement depends on the moment of the call or on
/// machine state occurs in `s`: no clock token and no clipboard marker.
/// Rendering such a body is a pure function of the body and the supplied
/// environment pairs.
pub open spec fn deterministic_body(s: Seq<char>) -> bool {
    &&& first_tag(s, date_tag(), 0) is None
    &&& first_tag(s, time_tag(), 0) is None
    &&& first_lit(s, clipboard_marker(), 0) is None
}

/// No token of any recognized class occurs in `s`.
pub open spec fn token_free(s: Seq<char>) -> bool {
    &&& first_tag(s, date_tag(), 0) is None
    &&& first_tag(s, time_tag(), 0) is None
    &&& first_lit(s, clipboard_marker(), 0) is None
    &&& first_lit(s, cursor_marker(), 0) is None
    &&& first_tag(s, calc_tag(), 0) is None
    &&& first_tag(s, env_tag(), 0) is None
}

fn blank_char(c: char) -> (r: bool)
    ensures
        r == is_blank(c),
{
    c == ' ' || c == '\t' || c == '\n' || c == '\r' || c == '\u{b}' || c == '\u{c}'
}

fn date_tag_vec() -> (r: Vec<char>)
    ensures
        r@ == date_tag(),
{
    let mut v: Vec<char> = Vec::new();
    v.push('{');
    v.push('{');
    v.push('d');
    v.push('a');
    v.push('t');
    v.push('e');
    v.push(':');
    proof {
        assert(v@ =~= date_tag());
    }
    v
}

fn time_tag_vec() -> (r: Vec<char>)
    ensures
        r@ == time_tag(),
{
    let mut v: Vec<char> = Vec::new();
    v.push('{');
    v.push('{');
    v.push('t');
    v.push('i');
    v.push('m');
    v.push('e');
    v.push(':');
    proof {
        assert(v@ =~= time_tag());
    }
    v
}

fn calc_tag_vec() -> (r: Vec<char>)
    ensures
        r@ == calc_tag(),
{
    let mut v: Vec<char> = Vec::new();
    v.push('{');
    v.push('{');
    v.push('c');
    v.push('a');
    v.push('l');
    v.push('c');
    v.push(':');
    proof {
        assert(v@ =~= calc_tag());
    }
    v
}

fn env_tag_vec() -> (r: Vec<char>)
    ensures
        r@ == env_tag(),
{
    let mut v: Vec<char> = Vec::new();
    v.push('{');
    v.push('{');
    v.push('e');
    v.push('n');
    v.push('v');
    v.push(':');
    proof {
        assert(v@ =~= env_tag());
    }
    v
}

fn clipboard_marker_vec() -> (r: Vec<char>)
    ensures
        r@ == clipboard_marker(),
{
    let mut v: Vec<char> = Vec::new();
    v.push('{');
    v.push('{');
    v.push('c');
    v.push('l');
    v.push('i');
    v.push('p');
    v.push('b');
    v.push('o');
    v.push('a');
    v.push('r');
    v.push('d');
    v.push('}');
    v.push('}');
    proof {
        assert(v@ =~= clipboard_marker());
    }
    v
}

fn cursor_marker_vec() -> (r: Vec<char>)
    ensures
        r@ == cursor_marker(),
{
    let mut v: Vec<char> = Vec::new();
    v.push('{');
    v.push('{');
    v.push('c');
    v.push('u');
    v.push('r');
    v.push('s');
    v.push('o');
    v.push('r');
    v.push('}');
    v.push('}');
    proof {
        assert(v@ =~= cursor_marker());
    }
    v
}

proof fn lemma_strip_blanks_range(s: Seq<char>, c0: int, w: int, k: int)
    requires
        0 <= c0 <= w <= k <= s.len(),
        forall|j: int| c0 <= j < w ==> is_blank(s[j]),
        w < k ==> !is_blank(s[w]),
    ensures
        strip_blanks(s.subrange(c0, k)) == s.subrange(w, k),
    decreases w - c0,
{
    if c0 < w {
        assert(s.subrange(c0, k).drop_first() =~= s.subrange(c0 + 1, k));
        lemma_strip_blanks_range(s, c0 + 1, w, k);
    } else {
        if c0 == k {
            assert(s.subrange(c0, k).len() == 0);
        }
    }
}

/// Replace every complete `{{calc: …}}` token by the value of its expression;
/// a token whose expression does not evaluate is kept verbatim.
pub fn substitute_calc(s: &str) -> (r: String)
    ensures
        r@ == calc_pass(s@),
{
    let tag = calc_tag_vec();
    let n = s.unicode_len();
    let mut out = String::new();
    let mut pos: usize = 0;
    loop
        invariant
            pos <= n,
            n == s@.len(),
            tag@ == calc_tag(),
            calc_pass(s@) == out@ + tag_pass_from(s@, calc_tag(), calc_repl_fn(), pos as int),
        decreases n - pos,
    {
        let ghost out0 = out@;
        let ghost pos0 = pos as int;
        match find_tagged(s, &tag, pos) {
            None => {
                let rest = s.substring_char(pos, n);
                out.append(rest);
                proof {
                    assert(s@.skip(pos0) =~= s@.subrange(pos0, n as int));
                    assert(out@ == calc_pass(s@));
                }
                return out;
            },
            Some((i, k)) => {
                let seg = s.substring_char(pos, i);
                out.append(seg);
                let c0 = i + tag.len();
                let mut w = c0;
                while w < k && blank_char(s.get_char(w))
                    invariant
                        c0 <= w <= k,
                        k < n,
                        n == s@.len(),
                        forall|j: int| c0 <= j < w ==> is_blank(s@[j]),
                    decreases k - w,
                {
                    w += 1;
                }
                let argstr = s.substring_char(w, k);
                proof {
                    lemma_strip_blanks_range(s@, c0 as int, w as int, k as int);
                }
                let ghost replacement: Seq<char> = calc_replacement(
                    s@.subrange(c0 as int, k as int),
                    s@.subrange(i as int, k + 2),
                );
                match eval_calc(argstr) {
                    Some(v) => {
                        out.append(v.as_str());
                        proof {
                            assert(replacement == v@);
                        }
                    },
                    None => {
                        let orig = s.substring_char(i, k + 2);
                        out.append(orig);
                        proof {
                            assert(replacement == s@.subrange(i as int, k + 2));
                        }
                    },
                }
                pos = k + 2;
                proof {
                    let f = calc_repl_fn();
                    assert(f(s@.subrange(c0 as int, k as int), s@.subrange(i as int, k + 2))
                        == replacement);
                    assert(tag_pass_from(s@, calc_tag(), f, pos0) == s@.subrange(pos0, i as int)
                        + replacement + tag_pass_from(s@, calc_tag(), f, k + 2));
                    assert(out0 + tag_pass_from(s@, calc_tag(), f, pos0) =~= out@ + tag_pass_from(
                        s@,
                        calc_tag(),
                        f,
                        pos as int,
                    ));
                }
            },
        }
    }
}

/// Replace every complete `{{env:NAME}}` token by the value paired with
/// `NAME`, or the empty string when `NAME` is unset.
pub fn substitute_env(s: &str, env: &Vec<(String, String)>) -> (r: String)
    ensures
        r@ == env_pass(s@, env_pairs_view(env@)),
{
    let tag = env_tag_vec();
    let n = s.unicode_len();
    let mut out = String::new();
    let mut pos: usize = 0;
    loop
        invariant
            pos <= n,
            n == s@.len(),
            tag@ == env_tag(),
            env_pass(s@, env_pairs_view(env@)) == out@ + tag_pass_from(
                s@,
                env_tag(),
                env_repl_fn(env_pairs_view(env@)),
                pos as int,
            ),
        decreases n - pos,
    {
        let ghost out0 = out@;
        let ghost pos0 = pos as int;
        match find_tagged(s, &tag, pos) {
            None => {
                let rest = s.substring_char(pos, n);
                out.append(rest);
                proof {
                    assert(s@.skip(pos0) =~= s@.subrange(pos0, n as int));
                    assert(out@ == env_pass(s@, env_pairs_view(env@)));
                }
                return out;
            },
            Some((i, k)) => {
                let seg = s.substring_char(pos, i);
                out.append(seg);
                let name = s.substring_char(i + tag.len(), k);
                let value = env_lookup(env, name);
                out.append(value.as_str());
                pos = k + 2;
                proof {
                    let pairs = env_pairs_view(env@);
                    let f = env_repl_fn(pairs);
                    assert(f(s@.subrange(i + env_tag().len(), k as int), s@.subrange(i as int, k + 2))
                        == env_value(pairs, s@.subrange(i + env_tag().len(), k as int)));
                    assert(tag_pass_from(s@, env_tag(), f, pos0) == s@.subrange(pos0, i as int)
                        + env_value(pairs, s@.subrange(i + env_tag().len(), k as int))
                        + tag_pass_from(s@, env_tag(), f, k + 2));
                    assert(out0 + tag_pass_from(s@, env_tag(), f, pos0) =~= out@ + tag_pass_from(
                        s@,
                        env_tag(),
                        f,
                        pos as int,
                    ));
                }
            },
        }
    }
}

fn env_lookup(env: &Vec<(String, String)>, name: &str) -> (r: String)
    ensures
        r@ == env_value(env_pairs_view(env@), name@),
{
    let name_owned = String::from_str(name);
    let mut idx: usize = 0;
    proof {
        assert(env_pairs_view(env@).skip(0) =~= env_pairs_view(env@));
    }
    while idx < env.len()
        invariant
            idx <= env@.len(),
            name_owned@ == name@,
            env_value(env_pairs_view(env@), name@) == env_value(
                env_pairs_view(env@).skip(idx as int),
                name@,
            ),
        decreases env@.len() - idx,
    {
        let ghost pairs = env_pairs_view(env@);
        if env[idx].0 == name_owned {
            proof {
                assert(pairs.skip(idx as int)[0] == pairs[idx as int]);
            }
            return env[idx].1.clone();
        }
        idx += 1;
        proof {
            assert(pairs.skip(idx - 1)[0] == pairs[idx - 1]);
            assert(pairs.skip(idx - 1).drop_first() =~= pairs.skip(idx as int));
        }
    }
    proof {
        assert(env_pairs_view(env@).skip(idx as int).len() == 0);
    }
    String::new()
}

/// Replace every occurrence of the fixed marker `pat` by `replacement`.
pub fn substitute_marker(s: &str, pat: &Vec<char>, replacement: &str) -> (r: String)
    requires
        pat@.len() >= 1,
    ensures
        r@ == lit_pass_from(s@, pat@, replacement@, 0),
{
    let n = s.unicode_len();
    let mut out = String::new();
    let mut pos: usize = 0;
    loop
        invariant
            pos <= n,
            n == s@.len(),
            pat@.len() >= 1,
            lit_pass_from(s@, pat@, replacement@, 0) == out@ + lit_pass_from(
                s@,
                pat@,
                replacement@,
                pos as int,
            ),
        decreases n - pos,
    {
        let ghost out0 = out@;
        let ghost pos0 = pos as int;
        match find_literal(s, pat, pos) {
            None => {
                let rest = s.substring_char(pos, n);
                out.append(rest);
                proof {
                    assert(s@.skip(pos0) =~= s@.subrange(pos0, n as int));
                    assert(out@ == lit_pass_from(s@, pat@, replacement@, 0));
                }
                return out;
            },
            Some(i) => {
                let seg = s.substring_char(pos, i);
                out.append(seg);
                out.append(replacement);
                pos = i + pat.len();
                proof {
                    assert(lit_pass_from(s@, pat@, replacement@, pos0) == s@.subrange(
                        pos0,
                        i as int,
                    ) + replacement@ + lit_pass_from(s@, pat@, replacement@, pos as int));
                    assert(out0 + lit_pass_from(s@, pat@, replacement@, pos0) =~= out@
                        + lit_pass_from(s@, pat@, replacement@, pos as int));
                }
            },
        }
    }
}

/// Replace every complete clock token (`{{date:FMT}}` or `{{time:FMT}}`,
/// chosen by `tag`) by the current moment rendered with `FMT`; a format the
/// clock rejects leaves the token verbatim. The replacement depends on the
/// moment of the call, so only the token-free case is pinned down.
fn substitute_clock(s: &str, tag: &Vec<char>) -> (r: String)
    ensures
        first_tag(s@, tag@, 0) is None ==> r@ == s@,
{
    let n = s.unicode_len();
    let mut out = String::new();
    let mut pos: usize = 0;
    loop
        invariant
            pos <= n,
            n == s@.len(),
            first_tag(s@, tag@, 0) is None ==> (pos == 0 && out@ == Seq::<char>::empty()),
        decreases n - pos,
    {
        match find_tagged(s, &tag, pos) {
            None => {
                let rest = s.substring_char(pos, n);
                out.append(rest);
                proof {
                    if first_tag(s@, tag@, 0) is None {
                        assert(out@ =~= s@);
                    }
                }
                return out;
            },
            Some((i, k)) => {
                proof {
                    if first_tag(s@, tag@, 0) is None {
                        lemma_first_tag_props(s@, tag@, 0);
                        lemma_first_tag_none(s@, tag@, pos as int);
                    }
                }
                let seg = s.substring_char(pos, i);
                out.append(seg);
                let fmt = s.substring_char(i + tag.len(), k);
                match now_formatted(fmt) {
                    Some(v) => out.append(v.as_str()),
                    None => {
                        let orig = s.substring_char(i, k + 2);
                        out.append(orig);
                    },
                }
                pos = k + 2;
            },
        }
    }
}

/// Render a snippet body, resolving environment tokens from the given pairs.
///
/// The passes run in a fixed order — date, time, clipboard, cursor, calc,
/// env — each over the full text produced by the one before. Interactive
/// tokens (`{{input:…}}`, `{{select:…}}`) are left for a pluggable resolver
/// and pass through verbatim. A body with no token of any class comes back
/// unchanged.
///
/// For a body with no clock or clipboard token — the classes whose
/// replacements depend on the moment of the call or on machine state — the
/// result is pinned exactly: the cursor, calc and env passes applied in
/// order.
pub fn render_snippet_with_env(body: &str, env: &Vec<(String, String)>) -> (r: String)
    ensures
        token_free(body@) ==> r@ == body@,
        deterministic_body(body@) ==> r@ == env_pass(
            calc_pass(lit_pass_from(body@, cursor_marker(), Seq::empty(), 0)),
            env_pairs_view(env@),
        ),
{
    let with_date = substitute_clock(body, &date_tag_vec());
    let with_time = substitute_clock(with_date.as_str(), &time_tag_vec());
    let clip = clipboard_text();
    let with_clip = substitute_marker(
        with_time.as_str(),
        &clipboard_marker_vec(),
        clip.as_str(),
    );
    let without_cursor = substitute_marker(with_clip.as_str(), &cursor_marker_vec(), "");
    let with_calc = substitute_calc(without_cursor.as_str());
    let with_env = substitute_env(with_calc.as_str(), env);
    proof {
        reveal_strlit("");
        assert(""@ =~= Seq::<char>::empty());
        if deterministic_body(body@) {
            assert(with_date@ == body@);
            assert(with_time@ == body@);
            assert(lit_pass_from(body@, clipboard_marker(), clip@, 0) =~= body@);
            assert(with_clip@ == body@);
            assert(without_cursor@ == lit_pass_from(body@, cursor_marker(), Seq::empty(), 0));
        }
        if token_free(body@) {
            assert(lit_pass_from(body@, cursor_marker(), Seq::empty(), 0) =~= body@);
            assert(without_cursor@ == body@);
            assert(calc_pass(body@) =~= body@);
            assert(with_calc@ == body@);
            assert(env_pass(body@, env_pairs_view(env@)) =~= body@);
        }
    }
    with_env
}

/// Render a snippet body with no environment pairs supplied: `{{env:…}}`
/// tokens then resolve to the empty string, as an unset name does. A host
/// that exposes its process environment passes the pairs through
/// `render_snippet_with_env`.
pub fn render_snippet(body: &str) -> (r: String)
    ensures
        token_free(body@) ==> r@ == body@,
        deterministic_body(body@) ==> r@ == env_pass(
            calc_pass(lit_pass_from(body@, cursor_marker(), Seq::empty(), 0)),
            env_pairs_view(Seq::empty()),
        ),
{
    let env: Vec<(String, String)> = Vec::new();
    let r = render_snippet_with_env(body, &env);
    proof {
        assert(env@ =~= Seq::<(String, String)>::empty());
    }
    r
}

/// Is any `{{` pair absent from `s`? Then no token of any class can occur,
/// and rendering leaves `s` unchanged — so rendering is idempotent on such
/// text.
pub open spec fn brace_free(s: Seq<char>) -> bool {
    forall|i: int| 0 <= i < s.len() - 1 ==> !((#[trigger] s[i]) == '{' && s[i + 1] == '{')
}

/// Text without `{{` holds no token of any class; with the renderer's
/// contract this gives `render(x) == x`, hence `render(render(x)) ==
/// render(x)`, for variable-free text.
pub proof fn lemma_brace_free_token_free(s: Seq<char>)
    requires
        brace_free(s),
    ensures
        token_free(s),
{
    assert forall|tag: Seq<char>, j: int|
        tag.len() >= 2 && tag[0] == '{' && tag[1] == '{' implies !tagged_at(s, tag, j) by {
        if lit_at(s, tag, j) {
            assert(s[j] == '{' && s[j + 1] == '{');
        }
    }
    assert forall|pat: Seq<char>, j: int|
        pat.len() >= 2 && pat[0] == '{' && pat[1] == '{' implies !lit_at(s, pat, j) by {
        if lit_at(s, pat, j) {
            assert(s[j] == '{' && s[j + 1] == '{');
        }
    }
    lemma_first_tag_none(s, date_tag(), 0);
    lemma_first_tag_none(s, time_tag(), 0);
    lemma_first_tag_none(s, calc_tag(), 0);
    lemma_first_tag_none(s, env_tag(), 0);
    crate::text::lemma_first_lit_none(s, clipboard_marker(), 0);
    crate::text::lemma_first_lit_none(s, cursor_marker(), 0);
}

/// Is a `{{cursor}}` marker present in the body?
pub fn has_cursor_marker(body: &str) -> (r: bool)
    ensures
        r == (first_lit(body@, cursor_marker(), 0) is Some),
{
    let pat = cursor_marker_vec();
    match find_literal(body, &pat, 0) {
        Some(_) => true,
        None => false,
    }
}

/// Character offset of the first `{{cursor}}` marker in the original body,
/// or none when the marker is absent. The offset is relative to the body as
/// written, not to the rendered text.
pub fn get_cursor_position(body: &str) -> (r: Option<usize>)
    ensures
        match r {
            Some(i) => first_lit(body@, cursor_marker(), 0) == Some(i as int),
            None => first_lit(body@, cursor_marker(), 0) is None,
        },
{
    let pat = cursor_marker_vec();
    find_literal(body, &pat, 0)
}

} // verus!
