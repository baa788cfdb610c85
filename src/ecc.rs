//! Error-correction levels for QR codes and the parsing of their names.

use vstd::prelude::*;

verus! {

/// One of the four QR error-correction levels.
#[derive(Clone, Copy, Debug, PartialEq, Eq, Structural)]
pub enum EccLevel {
    Low,
    Medium,
    Quartile,
    High,
}

/// The full lowercase name of a level.
pub open spec fn word_of(level: EccLevel) -> Seq<char> {
    match level {
        EccLevel::Low => seq!['l', 'o', 'w'],
        EccLevel::Medium => seq!['m', 'e', 'd', 'i', 'u', 'm'],
        EccLevel::Quartile => seq!['q', 'u', 'a', 'r', 't', 'i', 'l', 'e'],
        EccLevel::High => seq!['h', 'i', 'g', 'h'],
    }
}

pub open spec fn is_lower_letter(c: char) -> bool {
    97 <= (c as u32) <= 122
}

pub open spec fn is_upper_letter(c: char) -> bool {
    65 <= (c as u32) <= 90
}

/// `c` is the lowercase letter `lower`, in either case.
pub open spec fn same_letter(c: char, lower: char) -> bool {
    (c as u32) == (lower as u32) || (is_upper_letter(c) && (c as u32) + 32 == (lower as u32))
}

/// `s` spells `word` (a lowercase word) ignoring ASCII case.
pub open spec fn spells(s: Seq<char>, word: Seq<char>) -> bool {
    s.len() == word.len() && forall|i: int| 0 <= i < s.len() ==> same_letter(#[trigger] s[i], word[i])
}

/// `s` is the full name of `level` or its first letter, in any case.
pub open spec fn names(s: Seq<char>, level: EccLevel) -> bool {
    spells(s, word_of(level).take(1)) || spells(s, word_of(level))
}

/// The level a token selects, if it is one of the recognised names.
pub open spec fn ecc_of(s: Seq<char>) -> Option<EccLevel> {
    if names(s, EccLevel::Low) {
        Some(EccLevel::Low)
    } else if names(s, EccLevel::Medium) {
        Some(EccLevel::Medium)
    } else if names(s, EccLevel::Quartile) {
        Some(EccLevel::Quartile)
    } else if names(s, EccLevel::High) {
        Some(EccLevel::High)
    } else {
        None
    }
}

/// Two characters that are equal up to ASCII letter case.
pub open spec fn equal_ignoring_case(a: char, b: char) -> bool {
    (a as u32) == (b as u32) || (is_upper_letter(a) && (a as u32) + 32 == (b as u32)) || (is_upper_letter(b)
        && (b as u32) + 32 == (a as u32))
}

/// Two strings that are equal up to ASCII letter case.
pub open spec fn same_ignoring_case(s: Seq<char>, t: Seq<char>) -> bool {
    s.len() == t.len() && forall|i: int| 0 <= i < s.len() ==> equal_ignoring_case(#[trigger] s[i], t[i])
}

fn word(level: EccLevel) -> (r: Vec<char>)
    ensures
        r@ == word_of(level),
{
    let mut v: Vec<char> = Vec::new();
    match level {
        EccLevel::Low => {
            v.push('l');
            v.push('o');
            v.push('w');
        },
        EccLevel::Medium => {
            v.push('m');
            v.push('e');
            v.push('d');
            v.push('i');
            v.push('u');
            v.push('m');
        },
        EccLevel::Quartile => {
            v.push('q');
            v.push('u');
            v.push('a');
            v.push('r');
            v.push('t');
            v.push('i');
            v.push('l');
            v.push('e');
        },
        EccLevel::High => {
            v.push('h');
            v.push('i');
            v.push('g');
            v.push('h');
        },
    }
    assert(v@ =~= word_of(level));
    v
}

/// Whether `s`, read from its first character, spells the first `n` letters of `w`.
fn spells_prefix(s: &str, len: usize, w: &Vec<char>, n: usize) -> (r: bool)
    requires
        len == s@.len(),
        n <= w@.len(),
    ensures
        r == spells(s@, w@.take(n as int)),
{
    if len != n {
        return false;
    }
    let mut i: usize = 0;
    while i < n
        invariant
            len == s@.len(),
            n <= w@.len(),
            len == n,
            i <= n,
            forall|k: int| 0 <= k < i ==> same_letter(#[trigger] s@[k], w@[k]),
        decreases n - i,
    {
        let c = s.get_char(i);
        let l = w[i];
        let ok = (c as u32) == (l as u32) || (65 <= (c as u32) && (c as u32) <= 90 && (c as u32) + 32 == (l as u32));
        if !ok {
            assert(!same_letter(s@[i as int], w@.take(n as int)[i as int]));
            return false;
        }
        i = i + 1;
    }
    true
}

/// Whether `s` names `level`: its full name or its initial, in any case.
pub fn names_level(s: &str, level: EccLevel) -> (r: bool)
    ensures
        r == names(s@, level),
{
    let len = s.unicode_len();
    let w = word(level);
    assert(w@.take(w@.len() as int) =~= w@);
    spells_prefix(s, len, &w, 1) || spells_prefix(s, len, &w, w.len())
}

/// Parses an error-correction level: `l`, `m`, `q`, `h` or `low`, `medium`,
/// `quartile`, `high`, in any letter case.
pub fn parse_ecc(token: &str) -> (r: Option<EccLevel>)
    ensures
        r == ecc_of(token@),
{
    if names_level(token, EccLevel::Low) {
        Some(EccLevel::Low)
    } else if names_level(token, EccLevel::Medium) {
        Some(EccLevel::Medium)
    } else if names_level(token, EccLevel::Quartile) {
        Some(EccLevel::Quartile)
    } else if names_level(token, EccLevel::High) {
        Some(EccLevel::High)
    } else {
        None
    }
}

proof fn lemma_spells_ignores_case(s: Seq<char>, t: Seq<char>, w: Seq<char>)
    requires
        same_ignoring_case(s, t),
        forall|i: int| 0 <= i < w.len() ==> is_lower_letter(#[trigger] w[i]),
    ensures
        spells(s, w) == spells(t, w),
{
    if spells(s, w) {
        assert forall|i: int| 0 <= i < t.len() implies same_letter(#[trigger] t[i], w[i]) by {
            assert(equal_ignoring_case(s[i], t[i]));
            assert(same_letter(s[i], w[i]));
            assert(is_lower_letter(w[i]));
        }
    }
    if spells(t, w) {
        assert forall|i: int| 0 <= i < s.len() implies same_letter(#[trigger] s[i], w[i]) by {
            assert(equal_ignoring_case(s[i], t[i]));
            assert(same_letter(t[i], w[i]));
            assert(is_lower_letter(w[i]));
        }
    }
}

proof fn lemma_names_ignore_case(s: Seq<char>, t: Seq<char>, level: EccLevel)
    requires
        same_ignoring_case(s, t),
    ensures
        names(s, level) == names(t, level),
{
    let w = word_of(level);
    assert forall|i: int| 0 <= i < w.len() implies is_lower_letter(#[trigger] w[i]) by {
        reveal_with_fuel(Seq::take, 1);
    }
    assert forall|i: int| 0 <= i < w.take(1).len() implies is_lower_letter(#[trigger] w.take(1)[i]) by {
        assert(w.take(1)[i] == w[i]);
    }
    lemma_spells_ignores_case(s, t, w);
    lemma_spells_ignores_case(s, t, w.take(1));
}

/// Parsing an error-correction level ignores letter case: two tokens that
/// differ only in the case of their letters select the same level, or are
/// both rejected.
pub proof fn lemma_ecc_case_insensitive(s: Seq<char>, t: Seq<char>)
    requires
        same_ignoring_case(s, t),
    ensures
        ecc_of(s) == ecc_of(t),
{
    lemma_names_ignore_case(s, t, EccLevel::Low);
    lemma_names_ignore_case(s, t, EccLevel::Medium);
    lemma_names_ignore_case(s, t, EccLevel::Quartile);
    lemma_names_ignore_case(s, t, EccLevel::High);
}

} // verus!
