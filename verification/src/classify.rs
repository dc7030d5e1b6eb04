//! Lexical classifiers: the principal resolver, the measurement-unit
//! resolver and the subject extractor. Each scans a single clause for known
//! tokens and is a pure function of the clause text.

use vstd::prelude::*;

use crate::keywords::{stop_word_patterns, stop_words};
use crate::scan::{lemma_strip_token_bounds, lemma_toks_skip_space, lemma_toks_token, strip_token,
    tokens_of, toks};
use crate::text::{chars_eq, contains_char, contains_ci, find_pattern, lower_range, lower_seq,
    lower_vec, space_char, str_chars, upper_range, upper_seq, word_char};

verus! {

/// The closed set of actors a clause can attribute responsibility to.
#[derive(Debug, Clone, Copy, PartialEq, Eq, Hash, PartialOrd, Ord, Structural)]
pub enum Principal {
    System,
    User,
    Service,
}

/// The canonical uppercase name of a principal.
pub open spec fn principal_name(p: Principal) -> Seq<char> {
    match p {
        Principal::System => "SYSTEM"@,
        Principal::User => "USER"@,
        Principal::Service => "SERVICE"@,
    }
}

/// The principal a single token resolves to: its stripped, uppercased form
/// must equal a canonical name exactly.
pub open spec fn token_principal(t: Seq<char>) -> Option<Principal> {
    let w = upper_seq(strip_token(t));
    if w == "SYSTEM"@ {
        Some(Principal::System)
    } else if w == "USER"@ {
        Some(Principal::User)
    } else if w == "SERVICE"@ {
        Some(Principal::Service)
    } else {
        None
    }
}

/// The first token of `ts` that resolves to a principal, in order.
pub open spec fn first_principal(ts: Seq<Seq<char>>) -> Option<Principal>
    decreases ts.len(),
{
    if ts.len() == 0 {
        None
    } else if token_principal(ts[0]) is Some {
        token_principal(ts[0])
    } else {
        first_principal(ts.drop_first())
    }
}

/// The principal a clause resolves to: the first whitespace-separated token
/// whose stripped, uppercased form is a canonical principal name. Word-level
/// matching: look-alike substrings of longer tokens do not resolve.
pub open spec fn spec_principal_of(clause: Seq<char>) -> Option<Principal> {
    first_principal(tokens_of(clause))
}

/// Unfolding step for [`first_principal`] on a cons-shaped token list.
proof fn lemma_first_principal_cons(t: Seq<char>, rest: Seq<Seq<char>>)
    ensures
        first_principal(seq![t] + rest) == if token_principal(t) is Some {
            token_principal(t)
        } else {
            first_principal(rest)
        },
{
    assert((seq![t] + rest)[0] == t);
    assert((seq![t] + rest).drop_first() =~= rest);
}

impl Principal {
    /// The canonical string of this principal.
    pub fn as_str(&self) -> (r: &'static str)
        ensures
            r@ == principal_name(*self),
    {
        match self {
            Principal::System => "SYSTEM",
            Principal::User => "USER",
            Principal::Service => "SERVICE",
        }
    }

    /// Resolves a principal from a clause by word-boundary token match:
    /// tokens are split on whitespace, stripped of non-alphanumeric boundary
    /// characters and uppercased; the first exact match wins.
    pub fn from_clause(clause: &str) -> (r: Option<Principal>)
        ensures
            r == spec_principal_of(clause@),
    {
        let cv = str_chars(clause);
        let sys = str_chars("SYSTEM");
        let usr = str_chars("USER");
        let svc = str_chars("SERVICE");
        let n = cv.len();
        let mut i: usize = 0;
        proof {
            assert(cv@.skip(0) =~= cv@);
        }
        while i < n
            invariant
                cv@ == clause@,
                n == cv@.len(),
                i <= n,
                sys@ == "SYSTEM"@,
                usr@ == "USER"@,
                svc@ == "SERVICE"@,
                first_principal(toks(cv@.skip(i as int), Seq::empty())) == spec_principal_of(
                    clause@,
                ),
            decreases n - i,
        {
            if space_char(cv[i]) {
                proof {
                    lemma_toks_skip_space(cv@, i as int);
                }
                i += 1;
            } else {
                let ta = i;
                let mut tb = i + 1;
                while tb < n && !space_char(cv[tb])
                    invariant
                        cv@ == clause@,
                        n == cv@.len(),
                        ta < tb <= n,
                        forall|k: int| ta <= k < tb ==> !crate::text::is_space_char(cv@[k]),
                    decreases n - tb,
                {
                    tb += 1;
                }
                let ghost t = cv@.subrange(ta as int, tb as int);
                proof {
                    lemma_toks_token(cv@, ta as int, tb as int);
                    lemma_first_principal_cons(
                        t,
                        toks(
                            cv@.skip(
                                if tb + 1 <= n as int {
                                    tb + 1
                                } else {
                                    tb as int
                                },
                            ),
                            Seq::empty(),
                        ),
                    );
                }
                // strip the token's non-word boundary characters
                let mut a = ta;
                while a < tb && !word_char(cv[a])
                    invariant
                        cv@ == clause@,
                        n == cv@.len(),
                        ta <= a <= tb <= n,
                        forall|k: int| ta <= k < a ==> !crate::text::is_word_char(cv@[k]),
                    decreases tb - a,
                {
                    a += 1;
                }
                if a == tb {
                    // the whole token is non-word characters: it strips to
                    // nothing and cannot match a principal name
                    proof {
                        lemma_strip_token_bounds(cv@, ta as int, tb as int, tb as int, tb as int);
                        assert(upper_seq(strip_token(t)) =~= upper_seq(Seq::<char>::empty()));
                        reveal_strlit("SYSTEM");
                        reveal_strlit("USER");
                        reveal_strlit("SERVICE");
                        assert(token_principal(t) is None);
                        if tb < n {
                            lemma_toks_skip_space(cv@, tb as int);
                        }
                    }
                    i = tb;
                } else {
                    let mut b = tb;
                    while b > a && !word_char(cv[b - 1])
                        invariant
                            cv@ == clause@,
                            n == cv@.len(),
                            a < tb <= n,
                            a <= b <= tb,
                            crate::text::is_word_char(cv@[a as int]),
                            forall|k: int| b <= k < tb ==> !crate::text::is_word_char(cv@[k]),
                        decreases b,
                    {
                        b -= 1;
                    }
                    proof {
                        lemma_strip_token_bounds(cv@, ta as int, tb as int, a as int, b as int);
                    }
                    let w = upper_range(&cv, a, b);
                    if chars_eq(&w, &sys) {
                        return Some(Principal::System);
                    } else if chars_eq(&w, &usr) {
                        return Some(Principal::User);
                    } else if chars_eq(&w, &svc) {
                        return Some(Principal::Service);
                    } else {
                        proof {
                            assert(token_principal(t) is None);
                            if tb < n {
                                lemma_toks_skip_space(cv@, tb as int);
                            }
                        }
                        i = tb;
                    }
                }
            }
        }
        proof {
            assert(cv@.skip(n as int) =~= Seq::<char>::empty());
        }
        None
    }
}

/// The closed set of measurement units a cost constraint can carry.
#[derive(Debug, Clone, Copy, PartialEq, Eq, Hash, PartialOrd, Ord, Structural)]
pub enum MeasurementUnit {
    Usd,
    Eur,
    Gbp,
    Tokens,
    Bytes,
    Requests,
    Hours,
}

/// The canonical display name of a unit.
pub open spec fn unit_name(u: MeasurementUnit) -> Seq<char> {
    match u {
        MeasurementUnit::Usd => "USD"@,
        MeasurementUnit::Eur => "EUR"@,
        MeasurementUnit::Gbp => "GBP"@,
        MeasurementUnit::Tokens => "tokens"@,
        MeasurementUnit::Bytes => "bytes"@,
        MeasurementUnit::Requests => "requests"@,
        MeasurementUnit::Hours => "hours"@,
    }
}

/// The lowercase keyword that resolves a unit.
pub open spec fn unit_keyword(u: MeasurementUnit) -> Seq<char> {
    match u {
        MeasurementUnit::Usd => "usd"@,
        MeasurementUnit::Eur => "eur"@,
        MeasurementUnit::Gbp => "gbp"@,
        MeasurementUnit::Tokens => "tokens"@,
        MeasurementUnit::Bytes => "bytes"@,
        MeasurementUnit::Requests => "requests"@,
        MeasurementUnit::Hours => "hours"@,
    }
}

/// Whether the clause contains a currency glyph; such a clause never
/// resolves to a unit, whatever else it contains.
pub open spec fn has_currency_glyph(s: Seq<char>) -> bool {
    s.contains('$') || s.contains('€') || s.contains('£') || s.contains('¥')
}

/// The unit a clause resolves to: no currency glyph may appear, and the
/// first unit keyword (in the fixed priority order) contained
/// case-insensitively in the clause wins.
pub open spec fn spec_unit_of(clause: Seq<char>) -> Option<MeasurementUnit> {
    if has_currency_glyph(clause) {
        None
    } else if contains_ci(clause, "usd"@) {
        Some(MeasurementUnit::Usd)
    } else if contains_ci(clause, "eur"@) {
        Some(MeasurementUnit::Eur)
    } else if contains_ci(clause, "gbp"@) {
        Some(MeasurementUnit::Gbp)
    } else if contains_ci(clause, "tokens"@) {
        Some(MeasurementUnit::Tokens)
    } else if contains_ci(clause, "bytes"@) {
        Some(MeasurementUnit::Bytes)
    } else if contains_ci(clause, "requests"@) {
        Some(MeasurementUnit::Requests)
    } else if contains_ci(clause, "hours"@) {
        Some(MeasurementUnit::Hours)
    } else {
        None
    }
}

impl MeasurementUnit {
    /// The canonical string of this unit.
    pub fn as_str(&self) -> (r: &'static str)
        ensures
            r@ == unit_name(*self),
    {
        match self {
            MeasurementUnit::Usd => "USD",
            MeasurementUnit::Eur => "EUR",
            MeasurementUnit::Gbp => "GBP",
            MeasurementUnit::Tokens => "tokens",
            MeasurementUnit::Bytes => "bytes",
            MeasurementUnit::Requests => "requests",
            MeasurementUnit::Hours => "hours",
        }
    }

    /// Resolves a measurement unit from a clause: currency glyphs block
    /// resolution outright, otherwise the first keyword found (in priority
    /// order) wins.
    pub fn from_clause(clause: &str) -> (r: Option<MeasurementUnit>)
        ensures
            r == spec_unit_of(clause@),
    {
        let cv = str_chars(clause);
        if contains_char(&cv, '$') || contains_char(&cv, '€') || contains_char(&cv, '£')
            || contains_char(&cv, '¥') {
            return None;
        }
        let low = lower_vec(&cv);
        if find_pattern(&low, &str_chars("usd")) {
            Some(MeasurementUnit::Usd)
        } else if find_pattern(&low, &str_chars("eur")) {
            Some(MeasurementUnit::Eur)
        } else if find_pattern(&low, &str_chars("gbp")) {
            Some(MeasurementUnit::Gbp)
        } else if find_pattern(&low, &str_chars("tokens")) {
            Some(MeasurementUnit::Tokens)
        } else if find_pattern(&low, &str_chars("bytes")) {
            Some(MeasurementUnit::Bytes)
        } else if find_pattern(&low, &str_chars("requests")) {
            Some(MeasurementUnit::Requests)
        } else if find_pattern(&low, &str_chars("hours")) {
            Some(MeasurementUnit::Hours)
        } else {
            None
        }
    }
}

/// What a single token contributes as a cost-attribution subject: its
/// stripped form, when longer than three characters and not a stop word.
pub open spec fn subject_token(t: Seq<char>) -> Option<Seq<char>> {
    let w = strip_token(t);
    if w.len() > 3 && !stop_words().contains(lower_seq(w)) {
        Some(w)
    } else {
        None
    }
}

/// The first token of `ts` that yields a subject, in order.
pub open spec fn first_subject(ts: Seq<Seq<char>>) -> Option<Seq<char>>
    decreases ts.len(),
{
    if ts.len() == 0 {
        None
    } else if subject_token(ts[0]) is Some {
        subject_token(ts[0])
    } else {
        first_subject(ts.drop_first())
    }
}

/// The cost-attribution subject of a clause: the first token, stripped of
/// boundary punctuation, that is longer than three characters and whose
/// lowercase form is not a stop word.
pub open spec fn spec_subject_of(clause: Seq<char>) -> Option<Seq<char>> {
    first_subject(tokens_of(clause))
}

/// Unfolding step for [`first_subject`] on a cons-shaped token list.
proof fn lemma_first_subject_cons(t: Seq<char>, rest: Seq<Seq<char>>)
    ensures
        first_subject(seq![t] + rest) == if subject_token(t) is Some {
            subject_token(t)
        } else {
            first_subject(rest)
        },
{
    assert((seq![t] + rest)[0] == t);
    assert((seq![t] + rest).drop_first() =~= rest);
}

/// Whether `w` is one of the fixed stop words.
fn is_stop_word(w: &Vec<char>) -> (b: bool)
    ensures
        b == stop_words().contains(w@),
{
    let pats = stop_word_patterns();
    let mut k: usize = 0;
    while k < pats.len()
        invariant
            pats.deep_view() == stop_words(),
            pats@.len() == stop_words().len(),
            k <= pats@.len(),
            forall|j: int| 0 <= j < k ==> #[trigger] stop_words()[j] != w@,
        decreases pats@.len() - k,
    {
        if chars_eq(&pats[k], w) {
            proof {
                assert(stop_words()[k as int] == pats@[k as int]@);
            }
            return true;
        }
        proof {
            assert(stop_words()[k as int] == pats@[k as int]@);
        }
        k += 1;
    }
    false
}

/// Extracts the cost-attribution subject of a clause: the first token
/// longer than three characters (after boundary stripping) that is not a
/// stop word, in its original casing.
pub fn extract_subject(clause: &str) -> (r: Option<String>)
    ensures
        match r {
            Some(w) => spec_subject_of(clause@) == Some(w@),
            None => spec_subject_of(clause@) is None,
        },
{
    let cv = str_chars(clause);
    let n = cv.len();
    let mut i: usize = 0;
    proof {
        assert(cv@.skip(0) =~= cv@);
    }
    while i < n
        invariant
            cv@ == clause@,
            n == cv@.len(),
            i <= n,
            first_subject(toks(cv@.skip(i as int), Seq::empty())) == spec_subject_of(clause@),
        decreases n - i,
    {
        if space_char(cv[i]) {
            proof {
                lemma_toks_skip_space(cv@, i as int);
            }
            i += 1;
        } else {
            let ta = i;
            let mut tb = i + 1;
            while tb < n && !space_char(cv[tb])
                invariant
                    cv@ == clause@,
                    n == cv@.len(),
                    ta < tb <= n,
                    forall|k: int| ta <= k < tb ==> !crate::text::is_space_char(cv@[k]),
                decreases n - tb,
            {
                tb += 1;
            }
            let ghost t = cv@.subrange(ta as int, tb as int);
            proof {
                lemma_toks_token(cv@, ta as int, tb as int);
                lemma_first_subject_cons(
                    t,
                    toks(
                        cv@.skip(
                            if tb + 1 <= n as int {
                                tb + 1
                            } else {
                                tb as int
                            },
                        ),
                        Seq::empty(),
                    ),
                );
            }
            let mut a = ta;
            while a < tb && !word_char(cv[a])
                invariant
                    cv@ == clause@,
                    n == cv@.len(),
                    ta <= a <= tb <= n,
                    forall|k: int| ta <= k < a ==> !crate::text::is_word_char(cv@[k]),
                decreases tb - a,
            {
                a += 1;
            }
            if a == tb {
                proof {
                    lemma_strip_token_bounds(cv@, ta as int, tb as int, tb as int, tb as int);
                    assert(subject_token(t) is None);
                    if tb < n {
                        lemma_toks_skip_space(cv@, tb as int);
                    }
                }
                i = tb;
            } else {
                let mut b = tb;
                while b > a && !word_char(cv[b - 1])
                    invariant
                        cv@ == clause@,
                        n == cv@.len(),
                        a < tb <= n,
                        a <= b <= tb,
                        crate::text::is_word_char(cv@[a as int]),
                        forall|k: int| b <= k < tb ==> !crate::text::is_word_char(cv@[k]),
                    decreases b,
                {
                    b -= 1;
                }
                proof {
                    lemma_strip_token_bounds(cv@, ta as int, tb as int, a as int, b as int);
                }
                if b - a > 3 {
                    let lw = lower_range(&cv, a, b);
                    if !is_stop_word(&lw) {
                        let sub = clause.substring_char(a, b);
                        return Some(String::from_str(sub));
                    } else {
                        proof {
                            assert(subject_token(t) is None);
                            if tb < n {
                                lemma_toks_skip_space(cv@, tb as int);
                            }
                        }
                        i = tb;
                    }
                } else {
                    proof {
                        assert(subject_token(t) is None);
                        if tb < n {
                            lemma_toks_skip_space(cv@, tb as int);
                        }
                    }
                    i = tb;
                }
            }
        }
    }
    proof {
        assert(cv@.skip(n as int) =~= Seq::<char>::empty());
    }
    None
}

} // verus!
