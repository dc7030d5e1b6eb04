//! The fixed keyword tables the compiler's rules are written against: modal
//! terms, action verbs, cost indicators and stop words, with the first-match
//! and any-match scans over them.

use vstd::prelude::*;

use crate::text::{contains_seq, find_pattern, str_chars};

verus! {

/// Modal terms that mark discretionary, non-deterministic policy language.
pub open spec fn modal_words() -> Seq<Seq<char>> {
    seq![
        "should"@,
        "may"@,
        "where reasonable"@,
        "as appropriate"@,
        "could"@,
        "might"@,
        "possibly"@,
    ]
}

/// Action verbs; every clause must contain at least one.
pub open spec fn action_verbs() -> Seq<Seq<char>> {
    seq![
        "must"@,
        "shall"@,
        "require"@,
        "log"@,
        "audit"@,
        "record"@,
        "deny"@,
        "allow"@,
        "enforce"@,
        "track"@,
        "exceed"@,
    ]
}

/// Terms whose presence makes a clause a cost clause.
pub open spec fn cost_indicators() -> Seq<Seq<char>> {
    seq![
        "cost"@,
        "spend"@,
        "usage"@,
        "quota"@,
        "resource consumption"@,
        "externality"@,
        "budget"@,
        "expense"@,
    ]
}

/// Words that cannot serve as a cost-attribution subject.
pub open spec fn stop_words() -> Seq<Seq<char>> {
    seq![
        "cost"@,
        "spend"@,
        "usage"@,
        "quota"@,
        "the"@,
        "a"@,
        "an"@,
        "of"@,
        "for"@,
        "per"@,
        "must"@,
        "shall"@,
        "cannot"@,
        "exceed"@,
        "all"@,
        "no"@,
        "be"@,
        "by"@,
        "system"@,
        "user"@,
        "service"@,
    ]
}

/// The first word of `words` contained in `low`, in list order.
pub open spec fn first_contained(words: Seq<Seq<char>>, low: Seq<char>) -> Option<Seq<char>>
    decreases words.len(),
{
    if words.len() == 0 {
        None
    } else if contains_seq(low, words[0]) {
        Some(words[0])
    } else {
        first_contained(words.drop_first(), low)
    }
}

/// Whether some word of `words` is contained in `low`.
pub open spec fn contains_any_word(words: Seq<Seq<char>>, low: Seq<char>) -> bool {
    exists|k: int| 0 <= k < words.len() && contains_seq(low, #[trigger] words[k])
}

/// The first-match scan finds a word exactly when some word matches.
pub proof fn lemma_first_contained_some(words: Seq<Seq<char>>, low: Seq<char>)
    ensures
        first_contained(words, low) is Some <==> contains_any_word(words, low),
        match first_contained(words, low) {
            Some(w) => contains_seq(low, w) && words.contains(w),
            None => true,
        },
    decreases words.len(),
{
    if words.len() > 0 {
        lemma_first_contained_some(words.drop_first(), low);
        if contains_seq(low, words[0]) {
            assert(contains_any_word(words, low));
        } else {
            if first_contained(words.drop_first(), low) is Some {
                let w = first_contained(words.drop_first(), low)->Some_0;
                assert(words.drop_first().contains(w));
                let k = choose|k: int|
                    0 <= k < words.drop_first().len() && words.drop_first()[k] == w;
                assert(words[k + 1] == w);
            }
            if contains_any_word(words, low) {
                let k = choose|k: int|
                    0 <= k < words.len() && contains_seq(low, #[trigger] words[k]);
                assert(k > 0);
                assert(words.drop_first()[k - 1] == words[k]);
                assert(contains_any_word(words.drop_first(), low));
            }
        }
    }
}

/// When the first `k` words do not match and word `k` does, the first-match
/// scan returns word `k`.
pub proof fn lemma_first_contained_at(words: Seq<Seq<char>>, low: Seq<char>, k: int)
    requires
        0 <= k < words.len(),
        contains_seq(low, words[k]),
        forall|j: int| 0 <= j < k ==> !contains_seq(low, #[trigger] words[j]),
    ensures
        first_contained(words, low) == Some(words[k]),
    decreases k,
{
    if k > 0 {
        assert(words.drop_first()[k - 1] == words[k]);
        assert(forall|j: int|
            0 <= j < k - 1 ==> #[trigger] words.drop_first()[j] == words[j + 1]);
        lemma_first_contained_at(words.drop_first(), low, k - 1);
    }
}

/// When no word matches, the first-match scan returns nothing.
pub proof fn lemma_first_contained_none(words: Seq<Seq<char>>, low: Seq<char>)
    requires
        forall|j: int| 0 <= j < words.len() ==> !contains_seq(low, #[trigger] words[j]),
    ensures
        first_contained(words, low) is None,
    decreases words.len(),
{
    if words.len() > 0 {
        assert(forall|j: int|
            0 <= j < words.drop_first().len() ==> #[trigger] words.drop_first()[j] == words[j
                + 1]);
        lemma_first_contained_none(words.drop_first(), low);
    }
}

/// The modal-word table as character vectors.
pub fn modal_patterns() -> (r: Vec<Vec<char>>)
    ensures
        r.deep_view() == modal_words(),
{
    let mut r: Vec<Vec<char>> = Vec::new();
    r.push(str_chars("should"));
    r.push(str_chars("may"));
    r.push(str_chars("where reasonable"));
    r.push(str_chars("as appropriate"));
    r.push(str_chars("could"));
    r.push(str_chars("might"));
    r.push(str_chars("possibly"));
    proof {
        assert(r.deep_view() =~~= modal_words());
    }
    r
}

/// The action-verb table as character vectors.
pub fn action_verb_patterns() -> (r: Vec<Vec<char>>)
    ensures
        r.deep_view() == action_verbs(),
{
    let mut r: Vec<Vec<char>> = Vec::new();
    r.push(str_chars("must"));
    r.push(str_chars("shall"));
    r.push(str_chars("require"));
    r.push(str_chars("log"));
    r.push(str_chars("audit"));
    r.push(str_chars("record"));
    r.push(str_chars("deny"));
    r.push(str_chars("allow"));
    r.push(str_chars("enforce"));
    r.push(str_chars("track"));
    r.push(str_chars("exceed"));
    proof {
        assert(r.deep_view() =~~= action_verbs());
    }
    r
}

/// The cost-indicator table as character vectors.
pub fn cost_indicator_patterns() -> (r: Vec<Vec<char>>)
    ensures
        r.deep_view() == cost_indicators(),
{
    let mut r: Vec<Vec<char>> = Vec::new();
    r.push(str_chars("cost"));
    r.push(str_chars("spend"));
    r.push(str_chars("usage"));
    r.push(str_chars("quota"));
    r.push(str_chars("resource consumption"));
    r.push(str_chars("externality"));
    r.push(str_chars("budget"));
    r.push(str_chars("expense"));
    proof {
        assert(r.deep_view() =~~= cost_indicators());
    }
    r
}

/// The stop-word table as character vectors.
pub fn stop_word_patterns() -> (r: Vec<Vec<char>>)
    ensures
        r.deep_view() == stop_words(),
{
    let mut r: Vec<Vec<char>> = Vec::new();
    r.push(str_chars("cost"));
    r.push(str_chars("spend"));
    r.push(str_chars("usage"));
    r.push(str_chars("quota"));
    r.push(str_chars("the"));
    r.push(str_chars("a"));
    r.push(str_chars("an"));
    r.push(str_chars("of"));
    r.push(str_chars("for"));
    r.push(str_chars("per"));
    r.push(str_chars("must"));
    r.push(str_chars("shall"));
    r.push(str_chars("cannot"));
    r.push(str_chars("exceed"));
    r.push(str_chars("all"));
    r.push(str_chars("no"));
    r.push(str_chars("be"));
    r.push(str_chars("by"));
    r.push(str_chars("system"));
    r.push(str_chars("user"));
    r.push(str_chars("service"));
    proof {
        assert(r.deep_view() =~~= stop_words());
    }
    r
}

/// Whether any of `pats` occurs in `low`.
pub fn contains_any(low: &Vec<char>, pats: &Vec<Vec<char>>) -> (b: bool)
    ensures
        b == contains_any_word(pats.deep_view(), low@),
{
    let mut k: usize = 0;
    while k < pats.len()
        invariant
            k <= pats.len(),
            pats.deep_view().len() == pats.len(),
            forall|j: int| 0 <= j < k ==> !contains_seq(low@, #[trigger] pats.deep_view()[j]),
        decreases pats.len() - k,
    {
        if find_pattern(low, &pats[k]) {
            proof {
                assert(pats.deep_view()[k as int] == pats@[k as int]@);
            }
            return true;
        }
        proof {
            assert(pats.deep_view()[k as int] == pats@[k as int]@);
        }
        k += 1;
    }
    false
}

/// The index of the first of `pats` that occurs in `low`, matching the
/// first-match scan of the same table.
pub fn first_contained_index(low: &Vec<char>, pats: &Vec<Vec<char>>) -> (r: Option<usize>)
    ensures
        match r {
            Some(k) => k < pats@.len() && first_contained(pats.deep_view(), low@) == Some(
                pats.deep_view()[k as int],
            ),
            None => first_contained(pats.deep_view(), low@) is None,
        },
{
    let mut k: usize = 0;
    while k < pats.len()
        invariant
            k <= pats.len(),
            pats.deep_view().len() == pats.len(),
            forall|j: int| 0 <= j < k ==> !contains_seq(low@, #[trigger] pats.deep_view()[j]),
        decreases pats.len() - k,
    {
        if find_pattern(low, &pats[k]) {
            proof {
                assert(pats.deep_view()[k as int] == pats@[k as int]@);
                lemma_first_contained_at(pats.deep_view(), low@, k as int);
            }
            return Some(k);
        }
        proof {
            assert(pats.deep_view()[k as int] == pats@[k as int]@);
        }
        k += 1;
    }
    proof {
        lemma_first_contained_none(pats.deep_view(), low@);
    }
    None
}

} // verus!
