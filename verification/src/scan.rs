//! Scanning text into pieces: whitespace-separated tokens and
//! period-terminated clauses, with the lemmas that let an index-based
//! scanner realize the recursive definitions.

use vstd::prelude::*;

use crate::text::{is_space_char, is_word_char, trim_seq};

verus! {

/// One token when the accumulated run `cur` is non-empty, nothing otherwise.
pub open spec fn emit_tok(cur: Seq<char>) -> Seq<Seq<char>> {
    if cur.len() == 0 {
        Seq::empty()
    } else {
        seq![cur]
    }
}

/// Whitespace-separated tokens of `s`, with `cur` the run read so far.
pub open spec fn toks(s: Seq<char>, cur: Seq<char>) -> Seq<Seq<char>>
    decreases s.len(),
{
    if s.len() == 0 {
        emit_tok(cur)
    } else if is_space_char(s[0]) {
        emit_tok(cur) + toks(s.drop_first(), Seq::empty())
    } else {
        toks(s.drop_first(), cur.push(s[0]))
    }
}

/// The whitespace-separated tokens of `s`, in order; every token is
/// non-empty and free of whitespace.
pub open spec fn tokens_of(s: Seq<char>) -> Seq<Seq<char>> {
    toks(s, Seq::empty())
}

/// Reading over a run of non-whitespace characters only grows the
/// accumulated token.
pub proof fn lemma_toks_run(s: Seq<char>, ta: int, j: int, tb: int)
    requires
        0 <= ta <= j <= tb <= s.len(),
        forall|k: int| j <= k < tb ==> !is_space_char(s[k]),
    ensures
        toks(s.skip(j), s.subrange(ta, j)) == toks(s.skip(tb), s.subrange(ta, tb)),
    decreases tb - j,
{
    if j < tb {
        let sk = s.skip(j);
        assert(sk[0] == s[j]);
        assert(sk.drop_first() =~= s.skip(j + 1));
        assert(s.subrange(ta, j).push(s[j]) =~= s.subrange(ta, j + 1));
        assert(toks(s.skip(j), s.subrange(ta, j)) == toks(s.skip(j + 1), s.subrange(ta, j + 1)));
        lemma_toks_run(s, ta, j + 1, tb);
    }
}

/// Whitespace between tokens is skipped without effect.
pub proof fn lemma_toks_skip_space(s: Seq<char>, i: int)
    requires
        0 <= i < s.len(),
        is_space_char(s[i]),
    ensures
        toks(s.skip(i), Seq::empty()) == toks(s.skip(i + 1), Seq::empty()),
{
    let sk = s.skip(i);
    assert(sk[0] == s[i]);
    assert(sk.drop_first() =~= s.skip(i + 1));
    assert(Seq::<Seq<char>>::empty() + toks(s.skip(i + 1), Seq::empty()) =~= toks(
        s.skip(i + 1),
        Seq::empty(),
    ));
}

/// A maximal non-whitespace run `[ta, tb)` contributes exactly one token.
pub proof fn lemma_toks_token(s: Seq<char>, ta: int, tb: int)
    requires
        0 <= ta < tb <= s.len(),
        forall|k: int| ta <= k < tb ==> !is_space_char(s[k]),
        tb == s.len() || is_space_char(s[tb]),
    ensures
        toks(s.skip(ta), Seq::empty()) == seq![s.subrange(ta, tb)] + toks(
            s.skip(if tb + 1 <= s.len() as int { tb + 1 } else { tb }),
            Seq::empty(),
        ),
{
    assert(s.subrange(ta, ta) =~= Seq::<char>::empty());
    lemma_toks_run(s, ta, ta, tb);
    let t = s.subrange(ta, tb);
    if tb == s.len() {
        assert(s.skip(tb) =~= Seq::<char>::empty());
        assert(toks(s.skip(tb), t) == emit_tok(t));
        assert(toks(s.skip(tb), Seq::empty()) == emit_tok(Seq::<char>::empty()));
        assert(seq![t] + Seq::<Seq<char>>::empty() =~= seq![t]);
    } else {
        let sk = s.skip(tb);
        assert(sk[0] == s[tb]);
        assert(sk.drop_first() =~= s.skip(tb + 1));
        assert(toks(sk, t) == emit_tok(t) + toks(s.skip(tb + 1), Seq::empty()));
        assert(emit_tok(t) =~= seq![t]);
    }
}

/// `s` with leading non-word characters removed.
pub open spec fn strip_start(s: Seq<char>) -> Seq<char>
    decreases s.len(),
{
    if s.len() > 0 && !is_word_char(s[0]) {
        strip_start(s.drop_first())
    } else {
        s
    }
}

/// `s` with trailing non-word characters removed.
pub open spec fn strip_end(s: Seq<char>) -> Seq<char>
    decreases s.len(),
{
    if s.len() > 0 && !is_word_char(s.last()) {
        strip_end(s.drop_last())
    } else {
        s
    }
}

/// A token with its non-word boundary characters removed on both sides;
/// interior punctuation stays.
pub open spec fn strip_token(s: Seq<char>) -> Seq<char> {
    strip_end(strip_start(s))
}

/// If the first `a` characters of `s` are non-word characters and character
/// `a` is a word character (or `a` is the length), stripping the start drops
/// exactly `a` characters.
pub proof fn lemma_strip_start_index(s: Seq<char>, a: int)
    requires
        0 <= a <= s.len(),
        forall|j: int| 0 <= j < a ==> !is_word_char(s[j]),
        a == s.len() || is_word_char(s[a]),
    ensures
        strip_start(s) == s.subrange(a, s.len() as int),
    decreases a,
{
    if a == 0 {
        assert(s.subrange(0, s.len() as int) =~= s);
    } else {
        lemma_strip_start_index(s.drop_first(), a - 1);
        assert(s.drop_first().subrange(a - 1, s.drop_first().len() as int) =~= s.subrange(
            a,
            s.len() as int,
        ));
    }
}

/// If the characters of `s` from `b` on are non-word characters and
/// character `b - 1` is a word character (or `b` is zero), stripping the end
/// keeps exactly the first `b` characters.
pub proof fn lemma_strip_end_index(s: Seq<char>, b: int)
    requires
        0 <= b <= s.len(),
        forall|j: int| b <= j < s.len() ==> !is_word_char(s[j]),
        b == 0 || is_word_char(s[b - 1]),
    ensures
        strip_end(s) == s.subrange(0, b),
    decreases s.len() - b,
{
    if b == s.len() {
        assert(s.subrange(0, b) =~= s);
    } else {
        lemma_strip_end_index(s.drop_last(), b);
        assert(s.drop_last().subrange(0, b) =~= s.subrange(0, b));
    }
}

/// The stripped form of a token `[ta, tb)` of `s` whose word characters all
/// lie in `[a, b)` is exactly `s[a .. b)`.
pub proof fn lemma_strip_token_bounds(s: Seq<char>, ta: int, tb: int, a: int, b: int)
    requires
        0 <= ta <= a <= b <= tb <= s.len(),
        forall|j: int| ta <= j < a ==> !is_word_char(s[j]),
        forall|j: int| b <= j < tb ==> !is_word_char(s[j]),
        a == b || (is_word_char(s[a]) && is_word_char(s[b - 1])),
        a == b ==> a == tb,
    ensures
        strip_token(s.subrange(ta, tb)) == s.subrange(a, b),
{
    let t = s.subrange(ta, tb);
    if a == b {
        // every character of the token is a non-word character
        lemma_strip_start_index(t, tb - ta);
        assert(strip_start(t) =~= Seq::<char>::empty());
        assert(s.subrange(a, b) =~= Seq::<char>::empty());
    } else {
        lemma_strip_start_index(t, a - ta);
        let u = t.subrange(a - ta, t.len() as int);
        assert(u =~= s.subrange(a, tb));
        lemma_strip_end_index(u, b - a);
        assert(u.subrange(0, b - a) =~= s.subrange(a, b));
    }
}

/// One clause when the trimmed run `cur` is non-empty, nothing otherwise.
pub open spec fn emit_clause(cur: Seq<char>) -> Seq<Seq<char>> {
    if trim_seq(cur).len() == 0 {
        Seq::empty()
    } else {
        seq![trim_seq(cur)]
    }
}

/// Period-terminated clauses of `s`, with `cur` the piece read so far: each
/// piece is trimmed and kept only when something remains.
pub open spec fn seg_clauses(s: Seq<char>, cur: Seq<char>) -> Seq<Seq<char>>
    decreases s.len(),
{
    if s.len() == 0 {
        emit_clause(cur)
    } else if s[0] == '.' {
        emit_clause(cur) + seg_clauses(s.drop_first(), Seq::empty())
    } else {
        seg_clauses(s.drop_first(), cur.push(s[0]))
    }
}

/// The clauses of a policy text: split on `.`, trimmed of surrounding
/// whitespace, empty pieces dropped. Clause `i` is the `i`-th non-empty
/// piece in source order.
pub open spec fn clauses_of(s: Seq<char>) -> Seq<Seq<char>> {
    seg_clauses(s, Seq::empty())
}

/// Reading over a run free of periods only grows the accumulated piece.
pub proof fn lemma_seg_run(s: Seq<char>, st: int, j: int, d: int)
    requires
        0 <= st <= j <= d <= s.len(),
        forall|k: int| j <= k < d ==> s[k] != '.',
    ensures
        seg_clauses(s.skip(j), s.subrange(st, j)) == seg_clauses(s.skip(d), s.subrange(st, d)),
    decreases d - j,
{
    if j < d {
        let sk = s.skip(j);
        assert(sk[0] == s[j]);
        assert(sk.drop_first() =~= s.skip(j + 1));
        assert(s.subrange(st, j).push(s[j]) =~= s.subrange(st, j + 1));
        assert(seg_clauses(s.skip(j), s.subrange(st, j)) == seg_clauses(
            s.skip(j + 1),
            s.subrange(st, j + 1),
        ));
        lemma_seg_run(s, st, j + 1, d);
    }
}

/// A piece `[st, d)` delimited by a period at `d` (or by the end of the
/// text) contributes its trimmed form when non-empty.
pub proof fn lemma_seg_piece(s: Seq<char>, st: int, d: int)
    requires
        0 <= st <= d <= s.len(),
        forall|k: int| st <= k < d ==> s[k] != '.',
        d == s.len() || s[d] == '.',
    ensures
        seg_clauses(s.skip(st), Seq::empty()) == emit_clause(s.subrange(st, d)) + seg_clauses(
            s.skip(if d + 1 <= s.len() as int { d + 1 } else { d }),
            Seq::empty(),
        ),
{
    assert(s.subrange(st, st) =~= Seq::<char>::empty());
    lemma_seg_run(s, st, st, d);
    let p = s.subrange(st, d);
    if d == s.len() {
        assert(s.skip(d) =~= Seq::<char>::empty());
        assert(seg_clauses(s.skip(d), p) == emit_clause(p));
        assert(seg_clauses(s.skip(d), Seq::empty()) == emit_clause(Seq::<char>::empty()));
        assert(trim_seq(Seq::<char>::empty()).len() == 0);
        assert(emit_clause(p) + Seq::<Seq<char>>::empty() =~= emit_clause(p));
    } else {
        let sk = s.skip(d);
        assert(sk[0] == s[d]);
        assert(sk.drop_first() =~= s.skip(d + 1));
        assert(seg_clauses(sk, p) == emit_clause(p) + seg_clauses(s.skip(d + 1), Seq::empty()));
    }
}

} // verus!
