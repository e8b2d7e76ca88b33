//! Case-insensitive pattern matching in the style of SQL `ILIKE`.
//!
//! A pattern is read character by character: `%` stands for any run of
//! characters (the empty run too), `_` for exactly one character, and a
//! backslash makes the character behind it stand for itself. A backslash at
//! the very end of a pattern has nothing to escape and matches no text.
//! Letters are compared after ASCII case folding; a character outside ASCII
//! matches only itself.

use vstd::prelude::*;

verus! {

/// The lower-case form of an ASCII capital letter; every other character is
/// its own fold.
pub open spec fn fold(c: char) -> char {
    if 'A' <= c && c <= 'Z' {
        ((c as u8 + 32) as u8) as char
    } else {
        c
    }
}

/// Two characters are the same letter when their folds agree.
pub open spec fn same_letter(a: char, b: char) -> bool {
    fold(a) == fold(b)
}

/// Whether `text` as a whole matches `pattern`.
pub open spec fn ilike(text: Seq<char>, pattern: Seq<char>) -> bool
    decreases text.len() + pattern.len(),
{
    if pattern.len() == 0 {
        text.len() == 0
    } else if pattern[0] == '%' {
        ilike(text, pattern.skip(1)) || (text.len() > 0 && ilike(text.skip(1), pattern))
    } else if pattern[0] == '_' {
        text.len() > 0 && ilike(text.skip(1), pattern.skip(1))
    } else if pattern[0] == '\\' {
        pattern.len() > 1 && text.len() > 0 && same_letter(text[0], pattern[1])
            && ilike(text.skip(1), pattern.skip(2))
    } else {
        text.len() > 0 && same_letter(text[0], pattern[0]) && ilike(text.skip(1), pattern.skip(1))
    }
}

/// A character that a pattern reads as itself.
pub open spec fn is_plain(c: char) -> bool {
    c != '%' && c != '_' && c != '\\'
}

/// Two texts that are equal up to ASCII case.
pub open spec fn same_text(a: Seq<char>, b: Seq<char>) -> bool {
    a.len() == b.len() && forall|k: int| 0 <= k < a.len() ==> same_letter(#[trigger] a[k], b[k])
}

/// Whether the rest of `text` from `i` on matches the rest of `pattern` from
/// `j` on.
pub open spec fn tail_match(text: Seq<char>, pattern: Seq<char>, i: int, j: int) -> bool {
    ilike(text.skip(i), pattern.skip(j))
}

/// One step of the matching relation, stated over positions.
pub proof fn lemma_tail_match_step(text: Seq<char>, pattern: Seq<char>, i: int, j: int)
    requires
        0 <= i <= text.len(),
        0 <= j <= pattern.len(),
    ensures
        j == pattern.len() ==> tail_match(text, pattern, i, j) == (i == text.len()),
        j < pattern.len() && pattern[j] == '%' ==> tail_match(text, pattern, i, j) == (
            tail_match(text, pattern, i, j + 1)
                || (i < text.len() && tail_match(text, pattern, i + 1, j))),
        j < pattern.len() && pattern[j] == '_' ==> tail_match(text, pattern, i, j) == (
            i < text.len() && tail_match(text, pattern, i + 1, j + 1)),
        j < pattern.len() && pattern[j] == '\\' ==> tail_match(text, pattern, i, j) == (
            j + 1 < pattern.len() && i < text.len()
                && same_letter(text[i], pattern[j + 1])
                && tail_match(text, pattern, i + 1, j + 2)),
        j < pattern.len() && is_plain(pattern[j]) ==> tail_match(text, pattern, i, j) == (
            i < text.len() && same_letter(text[i], pattern[j])
                && tail_match(text, pattern, i + 1, j + 1)),
{
    let t = text.skip(i);
    let p = pattern.skip(j);
    if i < text.len() {
        assert(t.skip(1) =~= text.skip(i + 1));
        assert(t[0] == text[i]);
    }
    if j < pattern.len() {
        assert(p.skip(1) =~= pattern.skip(j + 1));
        assert(p[0] == pattern[j]);
        if j + 1 < pattern.len() {
            assert(p.skip(2) =~= pattern.skip(j + 2));
            assert(p[1] == pattern[j + 1]);
        }
    }
}

/// A pattern made of plain characters only matches exactly the texts that
/// equal it up to ASCII case.
pub proof fn lemma_plain_pattern(text: Seq<char>, pattern: Seq<char>)
    requires
        forall|k: int| 0 <= k < pattern.len() ==> is_plain(#[trigger] pattern[k]),
    ensures
        ilike(text, pattern) == same_text(text, pattern),
    decreases pattern.len(),
{
    if pattern.len() == 0 {
    } else if text.len() == 0 {
    } else {
        let t = text.skip(1);
        let p = pattern.skip(1);
        assert forall|k: int| 0 <= k < p.len() implies is_plain(#[trigger] p[k]) by {
            assert(p[k] == pattern[k + 1]);
        }
        lemma_plain_pattern(t, p);
        if same_text(text, pattern) {
            assert forall|k: int| 0 <= k < t.len() implies same_letter(#[trigger] t[k], p[k]) by {
                assert(t[k] == text[k + 1]);
                assert(p[k] == pattern[k + 1]);
            }
        }
        if ilike(text, pattern) {
            assert forall|k: int| 0 <= k < text.len() implies same_letter(
                #[trigger] text[k],
                pattern[k],
            ) by {
                if k > 0 {
                    assert(t[k - 1] == text[k]);
                    assert(p[k - 1] == pattern[k]);
                }
            }
        }
    }
}

/// Characters that are the same letter are read alike by a pattern: both
/// are plain, or both are the same special character.
pub proof fn lemma_same_letter_same_kind(a: char, b: char)
    requires
        same_letter(a, b),
    ensures
        is_plain(a) == is_plain(b),
        !is_plain(a) ==> a == b,
{
}

/// Matching does not look at the case of ASCII letters, neither in the text
/// nor in the pattern.
pub proof fn lemma_ilike_ignores_case(
    text: Seq<char>,
    other_text: Seq<char>,
    pattern: Seq<char>,
    other_pattern: Seq<char>,
)
    requires
        same_text(text, other_text),
        same_text(pattern, other_pattern),
    ensures
        ilike(text, pattern) == ilike(other_text, other_pattern),
    decreases text.len() + pattern.len(),
{
    if pattern.len() > 0 {
        lemma_same_letter_same_kind(pattern[0], other_pattern[0]);
        let p = pattern.skip(1);
        let q = other_pattern.skip(1);
        assert(same_text(p, q)) by {
            assert forall|k: int| 0 <= k < p.len() implies same_letter(#[trigger] p[k], q[k]) by {
                assert(same_letter(pattern[k + 1], other_pattern[k + 1]));
            }
        }
        if text.len() > 0 {
            let t = text.skip(1);
            let u = other_text.skip(1);
            assert(same_text(t, u)) by {
                assert forall|k: int| 0 <= k < t.len() implies same_letter(
                    #[trigger] t[k],
                    u[k],
                ) by {
                    assert(same_letter(text[k + 1], other_text[k + 1]));
                }
            }
            assert(same_letter(text[0], other_text[0]));
            if pattern[0] == '%' {
                lemma_ilike_ignores_case(text, other_text, p, q);
                lemma_ilike_ignores_case(t, u, pattern, other_pattern);
            } else if pattern[0] == '\\' {
                if pattern.len() > 1 {
                    let p2 = pattern.skip(2);
                    let q2 = other_pattern.skip(2);
                    assert(same_text(p2, q2)) by {
                        assert forall|k: int| 0 <= k < p2.len() implies same_letter(
                            #[trigger] p2[k],
                            q2[k],
                        ) by {
                            assert(same_letter(pattern[k + 2], other_pattern[k + 2]));
                        }
                    }
                    assert(same_letter(pattern[1], other_pattern[1]));
                    lemma_ilike_ignores_case(t, u, p2, q2);
                }
            } else {
                lemma_ilike_ignores_case(t, u, p, q);
            }
        } else if pattern[0] == '%' {
            lemma_ilike_ignores_case(text, other_text, p, q);
        }
    }
}

/// Folds one character: ASCII capitals go to lower case, all else stays.
pub fn fold_char(c: char) -> (r: char)
    ensures
        r == fold(c),
{
    if 'A' <= c && c <= 'Z' {
        let b: u8 = c as u8;
        (b + 32) as char
    } else {
        c
    }
}

/// Copies the characters of a string into a vector.
pub fn chars_of(s: &str) -> (v: Vec<char>)
    ensures
        v@ == s@,
{
    let mut v: Vec<char> = Vec::new();
    for c in it: s.chars()
        invariant
            v@ == it.seq().take(it.index() as int),
    {
        v.push(c);
    }
    v
}

/// A row of `len` cells, all `false`.
fn blank_row(len: usize) -> (row: Vec<bool>)
    ensures
        row.len() == len,
{
    let mut row: Vec<bool> = Vec::new();
    let mut k: usize = 0;
    while k < len
        invariant
            k <= len,
            row.len() == k,
        decreases len - k,
    {
        row.push(false);
        k = k + 1;
    }
    row
}

/// The cell of a row at `j`, where the cell one past the row's end stands
/// for the empty rest of the pattern and holds `at_end`.
fn cell(row: &Vec<bool>, j: usize, at_end: bool) -> (r: bool)
    requires
        j <= row.len(),
    ensures
        r == (if j < row.len() {
            row[j as int]
        } else {
            at_end
        }),
{
    if j < row.len() {
        row[j]
    } else {
        at_end
    }
}

/// Decides whether `text` matches `pattern`, in time proportional to the
/// product of their lengths.
pub fn ilike_chars(text: &Vec<char>, pattern: &Vec<char>) -> (r: bool)
    ensures
        r == ilike(text@, pattern@),
{
    let n = text.len();
    let m = pattern.len();
    // `below` holds, for the text position one below the current one, the
    // answer for every pattern position.
    let mut below = blank_row(m);
    let mut j: usize = m;
    while j > 0
        invariant
            j <= m,
            m == pattern.len(),
            n == text.len(),
            below.len() == m,
            forall|k: int| j <= k < m ==> below[k] == tail_match(text@, pattern@, n as int, k),
        decreases j,
    {
        j = j - 1;
        let rest = cell(&below, j + 1, true);
        proof {
            lemma_tail_match_step(text@, pattern@, n as int, j as int);
            lemma_tail_match_step(text@, pattern@, n as int, j + 1);
        }
        below.set(j, pattern[j] == '%' && rest);
    }
    let mut i: usize = n;
    while i > 0
        invariant
            i <= n,
            m == pattern.len(),
            n == text.len(),
            below.len() == m,
            forall|k: int| 0 <= k < m ==> below[k] == tail_match(text@, pattern@, i as int, k),
        decreases i,
    {
        i = i - 1;
        let last = i + 1 == n;
        let mut row = blank_row(m);
        let mut j: usize = m;
        while j > 0
            invariant
                j <= m,
                i < n,
                last == (i + 1 == n),
                m == pattern.len(),
                n == text.len(),
                below.len() == m,
                row.len() == m,
                forall|k: int|
                    0 <= k < m ==> below[k] == tail_match(text@, pattern@, i + 1, k),
                forall|k: int| j <= k < m ==> row[k] == tail_match(text@, pattern@, i as int, k),
            decreases j,
        {
            j = j - 1;
            let c = pattern[j];
            proof {
                lemma_tail_match_step(text@, pattern@, i as int, j as int);
                lemma_tail_match_step(text@, pattern@, i as int, j + 1);
                lemma_tail_match_step(text@, pattern@, i + 1, j + 1);
                if j + 2 <= m {
                    lemma_tail_match_step(text@, pattern@, i + 1, j + 2);
                }
            }
            let hit = if c == '%' {
                cell(&row, j + 1, false) || below[j]
            } else if c == '_' {
                cell(&below, j + 1, last)
            } else if c == '\\' {
                j + 1 < m && fold_char(text[i]) == fold_char(pattern[j + 1]) && cell(
                    &below,
                    j + 2,
                    last,
                )
            } else {
                fold_char(text[i]) == fold_char(c) && cell(&below, j + 1, last)
            };
            row.set(j, hit);
        }
        below = row;
    }
    proof {
        lemma_tail_match_step(text@, pattern@, 0, 0);
        assert(text@.skip(0) =~= text@);
        assert(pattern@.skip(0) =~= pattern@);
    }
    cell(&below, 0, n == 0)
}

/// Decides whether the string `text` matches the string `pattern`.
pub fn ilike_str(text: &str, pattern: &str) -> (r: bool)
    ensures
        r == ilike(text@, pattern@),
{
    let t = chars_of(text);
    let p = chars_of(pattern);
    ilike_chars(&t, &p)
}

} // verus!
