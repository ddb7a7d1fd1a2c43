//! Verified character-sequence utilities: ASCII case folding, substring
//! search, and the character classes the pattern rules need.

use vstd::prelude::*;

verus! {

/// ASCII lower-casing of one character; everything else is unchanged.
pub open spec fn lower_char(c: char) -> char {
    if 'A' <= c && c <= 'Z' {
        (c as u8 + 32) as char
    } else {
        c
    }
}

/// ASCII upper-casing of one character; everything else is unchanged.
pub open spec fn upper_char(c: char) -> char {
    if 'a' <= c && c <= 'z' {
        (c as u8 - 32) as char
    } else {
        c
    }
}

/// ASCII lower-casing of a whole sequence.
pub open spec fn lower_seq(s: Seq<char>) -> Seq<char> {
    Seq::new(s.len(), |i: int| lower_char(s[i]))
}

/// ASCII upper-casing of a whole sequence.
pub open spec fn upper_seq(s: Seq<char>) -> Seq<char> {
    Seq::new(s.len(), |i: int| upper_char(s[i]))
}

/// Whitespace as the pattern rules understand it: space, tab, line feed,
/// carriage return, vertical tab and form feed.
pub open spec fn is_ws_char(c: char) -> bool {
    c == ' ' || c == '\t' || c == '\n' || c == '\r' || c == '\u{b}' || c == '\u{c}'
}

pub open spec fn is_digit_char(c: char) -> bool {
    '0' <= c && c <= '9'
}

pub open spec fn is_lower_alpha_char(c: char) -> bool {
    'a' <= c && c <= 'z'
}

pub open spec fn is_alnum_char(c: char) -> bool {
    is_digit_char(c) || is_lower_alpha_char(c) || ('A' <= c && c <= 'Z')
}

/// A word character, as the pattern rules' word boundary understands it.
pub open spec fn is_word_char(c: char) -> bool {
    is_alnum_char(c) || c == '_'
}

/// The needle `pat` occurs in `s` starting exactly at index `i`.
pub open spec fn has_at(s: Seq<char>, pat: Seq<char>, i: int) -> bool {
    0 <= i && i + pat.len() <= s.len() && s.subrange(i, i + pat.len()) == pat
}

/// The needle `pat` occurs somewhere in `s`.
pub open spec fn contains_seq(s: Seq<char>, pat: Seq<char>) -> bool {
    exists|i: int| has_at(s, pat, i)
}

/// First index `j >= i` at which `pat` occurs in `s`, or -1 if there is
/// none.
pub open spec fn find_idx(s: Seq<char>, pat: Seq<char>, i: int) -> int
    decreases s.len() - i + 1,
{
    if i < 0 || i + pat.len() > s.len() {
        -1
    } else if has_at(s, pat, i) {
        i
    } else {
        find_idx(s, pat, i + 1)
    }
}

/// What `find_idx` returns is an occurrence, and the first one at or after
/// the start index.
pub proof fn lemma_find_idx(s: Seq<char>, pat: Seq<char>, i: int)
    requires
        0 <= i,
    ensures
        find_idx(s, pat, i) == -1 ==> forall|j: int| i <= j ==> !has_at(s, pat, j),
        find_idx(s, pat, i) >= 0 ==> has_at(s, pat, find_idx(s, pat, i))
            && i <= find_idx(s, pat, i)
            && forall|j: int| i <= j < find_idx(s, pat, i) ==> !has_at(s, pat, j),
    decreases s.len() - i + 1,
{
    if i + pat.len() > s.len() {
        assert(forall|j: int| i <= j ==> !has_at(s, pat, j));
    } else if has_at(s, pat, i) {
    } else {
        lemma_find_idx(s, pat, i + 1);
    }
}

/// Case folding keeps the length and folds pointwise, so an occurrence of
/// a needle in a text is an occurrence of the folded needle in the folded
/// text.
pub proof fn lemma_lower_preserves_has_at(s: Seq<char>, pat: Seq<char>, i: int)
    requires
        has_at(s, pat, i),
    ensures
        has_at(lower_seq(s), lower_seq(pat), i),
{
    assert(lower_seq(s).subrange(i, i + pat.len()) =~= lower_seq(pat));
}

/// Lower-case a character vector.
pub fn lower_chars(s: &Vec<char>) -> (r: Vec<char>)
    ensures
        r@ == lower_seq(s@),
{
    let mut r: Vec<char> = Vec::new();
    let mut i: usize = 0;
    while i < s.len()
        invariant
            i <= s.len(),
            r@ =~= lower_seq(s@).subrange(0, i as int),
        decreases s.len() - i,
    {
        let c = s[i];
        if 'A' <= c && c <= 'Z' {
            r.push((c as u8 + 32) as char);
        } else {
            r.push(c);
        }
        i = i + 1;
    }
    assert(r@ =~= lower_seq(s@));
    r
}

/// Upper-case a character vector.
pub fn upper_chars(s: &Vec<char>) -> (r: Vec<char>)
    ensures
        r@ == upper_seq(s@),
{
    let mut r: Vec<char> = Vec::new();
    let mut i: usize = 0;
    while i < s.len()
        invariant
            i <= s.len(),
            r@ =~= upper_seq(s@).subrange(0, i as int),
        decreases s.len() - i,
    {
        let c = s[i];
        if 'a' <= c && c <= 'z' {
            r.push((c as u8 - 32) as char);
        } else {
            r.push(c);
        }
        i = i + 1;
    }
    assert(r@ =~= upper_seq(s@));
    r
}

/// Does `pat` occur in `s` starting at `i`?
pub fn has_at_exec(s: &Vec<char>, pat: &Vec<char>, i: usize) -> (r: bool)
    requires
        i <= s@.len(),
    ensures
        r == has_at(s@, pat@, i as int),
{
    if pat.len() > s.len() - i {
        return false;
    }
    let mut j: usize = 0;
    while j < pat.len()
        invariant
            s@.len() <= usize::MAX,
            i + pat@.len() <= s@.len(),
            j <= pat@.len(),
            forall|k: int| 0 <= k < j ==> s@[i + k] == pat@[k],
        decreases pat.len() - j,
    {
        assert(i + j < s@.len());
        if s[i + j] != pat[j] {
            assert(s@.subrange(i as int, i + pat@.len()) != pat@) by {
                assert(s@.subrange(i as int, i + pat@.len())[j as int] != pat@[j as int]);
            }
            return false;
        }
        j = j + 1;
    }
    assert(s@.subrange(i as int, i + pat@.len()) =~= pat@);
    true
}

/// First occurrence of `pat` in `s` at or after `from`, if any.
pub fn find_from(s: &Vec<char>, pat: &Vec<char>, from: usize) -> (r: Option<usize>)
    requires
        from <= s@.len(),
    ensures
        match r {
            Some(j) => find_idx(s@, pat@, from as int) == j && j + pat@.len() <= s@.len(),
            None => find_idx(s@, pat@, from as int) == -1,
        },
{
    if pat.len() > s.len() {
        return None;
    }
    if pat.len() == 0 {
        assert(s@.subrange(from as int, from as int) =~= pat@);
        assert(find_idx(s@, pat@, from as int) == from);
        return Some(from);
    }
    let mut i: usize = from;
    while i <= s.len() - pat.len()
        invariant
            1 <= pat@.len() <= s@.len(),
            from <= i,
            i <= s@.len(),
            find_idx(s@, pat@, from as int) == find_idx(s@, pat@, i as int),
        decreases s.len() - i,
    {
        if has_at_exec(s, pat, i) {
            assert(find_idx(s@, pat@, i as int) == i);
            return Some(i);
        }
        assert(find_idx(s@, pat@, i as int) == find_idx(s@, pat@, i + 1));
        i = i + 1;
    }
    assert(find_idx(s@, pat@, i as int) == -1);
    None
}

/// Does `pat` occur anywhere in `s`?
pub fn contains_chars(s: &Vec<char>, pat: &Vec<char>) -> (r: bool)
    ensures
        r == contains_seq(s@, pat@),
{
    proof {
        lemma_find_idx(s@, pat@, 0);
    }
    match find_from(s, pat, 0) {
        Some(j) => {
            assert(has_at(s@, pat@, j as int));
            true
        },
        None => {
            assert(forall|i: int| !has_at(s@, pat@, i));
            false
        },
    }
}

/// Does `set` contain the character `c`?
pub fn one_of(c: char, set: &Vec<char>) -> (r: bool)
    ensures
        r == set@.contains(c),
{
    let mut i: usize = 0;
    while i < set.len()
        invariant
            i <= set@.len(),
            forall|k: int| 0 <= k < i ==> set@[k] != c,
        decreases set.len() - i,
    {
        if set[i] == c {
            return true;
        }
        i = i + 1;
    }
    false
}

/// First index `j >= i` holding character `c`, or -1.
pub open spec fn char_idx(s: Seq<char>, c: char, i: int) -> int
    decreases s.len() - i + 1,
{
    if i < 0 || i >= s.len() {
        -1
    } else if s[i] == c {
        i
    } else {
        char_idx(s, c, i + 1)
    }
}

/// The pieces of `s` between occurrences of `c`, in order; always at
/// least one piece, and none holds `c`.
pub open spec fn split_seq(s: Seq<char>, c: char) -> Seq<Seq<char>>
    decreases s.len(),
{
    let j = char_idx(s, c, 0);
    if j < 0 || j >= s.len() {
        seq![s]
    } else {
        seq![s.subrange(0, j)] + split_seq(s.skip(j + 1), c)
    }
}

/// `s` without leading whitespace: the index of its first non-whitespace
/// character.
pub open spec fn trim_start_idx(s: Seq<char>, i: int) -> int
    decreases s.len() - i,
{
    if 0 <= i && i < s.len() && is_ws_char(s[i]) {
        trim_start_idx(s, i + 1)
    } else {
        i
    }
}

/// One past the index of the last non-whitespace character of `s`.
pub open spec fn trim_end_idx(s: Seq<char>, i: int) -> int
    decreases i,
{
    if 0 < i && i <= s.len() && is_ws_char(s[i - 1]) {
        trim_end_idx(s, i - 1)
    } else {
        i
    }
}

/// `s` with leading and trailing whitespace removed.
pub open spec fn trim_seq(s: Seq<char>) -> Seq<char> {
    let l = trim_start_idx(s, 0);
    let t = trim_end_idx(s, s.len() as int);
    if l <= t {
        s.subrange(l, t)
    } else {
        Seq::empty()
    }
}

/// Copy the characters of `s` between `a` and `b`.
pub fn copy_range(s: &Vec<char>, a: usize, b: usize) -> (r: Vec<char>)
    requires
        a <= b <= s@.len(),
    ensures
        r@ == s@.subrange(a as int, b as int),
{
    let mut r: Vec<char> = Vec::new();
    let mut i: usize = a;
    while i < b
        invariant
            a <= i <= b <= s@.len(),
            r@ =~= s@.subrange(a as int, i as int),
        decreases b - i,
    {
        r.push(s[i]);
        proof {
            assert(s@.subrange(a as int, i + 1) =~= s@.subrange(a as int, i as int).push(
                s@[i as int],
            ));
        }
        i = i + 1;
    }
    assert(r@ =~= s@.subrange(a as int, b as int));
    r
}

/// First index at or after `from` holding `c`, if any.
pub fn find_char(s: &Vec<char>, c: char, from: usize) -> (r: Option<usize>)
    requires
        from <= s@.len(),
    ensures
        match r {
            Some(j) => char_idx(s@, c, from as int) == j && from <= j < s@.len()
                && s@[j as int] == c,
            None => char_idx(s@, c, from as int) == -1,
        },
{
    let mut i: usize = from;
    while i < s.len()
        invariant
            from <= i <= s@.len(),
            char_idx(s@, c, from as int) == char_idx(s@, c, i as int),
        decreases s@.len() - i,
    {
        if s[i] == c {
            return Some(i);
        }
        i = i + 1;
    }
    None
}

/// Split `s` at every occurrence of `c`.
pub fn split_char(s: &Vec<char>, c: char) -> (r: Vec<Vec<char>>)
    ensures
        r@.map_values(|v: Vec<char>| v@) == split_seq(s@, c),
        r@.len() >= 1,
{
    let r = split_char_from(s, 0, c);
    proof {
        assert(s@.skip(0) =~= s@);
    }
    r
}

/// Split the suffix of `s` that starts at `start`.
fn split_char_from(s: &Vec<char>, start: usize, c: char) -> (r: Vec<Vec<char>>)
    requires
        start <= s@.len(),
    ensures
        r@.map_values(|v: Vec<char>| v@) == split_seq(s@.skip(start as int), c),
        r@.len() >= 1,
    decreases s@.len() - start,
{
    let ghost suff = s@.skip(start as int);
    proof {
        lemma_char_idx_skip(s@, c, start as int);
    }
    let n = s.len();
    match find_char(s, c, start) {
        None => {
            let piece = copy_range(s, start, s.len());
            proof {
                assert(piece@ =~= suff);
            }
            let mut r: Vec<Vec<char>> = Vec::new();
            r.push(piece);
            proof {
                assert(char_idx(suff, c, 0) == -1);
                assert(r@.map_values(|v: Vec<char>| v@) =~= split_seq(suff, c));
            }
            r
        },
        Some(j) => {
            let piece = copy_range(s, start, j);
            let mut r: Vec<Vec<char>> = Vec::new();
            r.push(piece);
            let rest = split_char_from(s, j + 1, c);
            let mut k: usize = 0;
            while k < rest.len()
                invariant
                    k <= rest@.len(),
                    r@.len() == 1 + k,
                    r@[0]@ == piece@,
                    forall|a: int| 0 <= a < k ==> r@[1 + a]@ == rest@[a]@,
                decreases rest@.len() - k,
            {
                let ghost pre_r = r@;
                r.push(copy_vec(&rest[k]));
                k = k + 1;
            }
            proof {
                let jj = char_idx(suff, c, 0);
                assert(jj == j - start);
                assert(piece@ =~= suff.subrange(0, jj));
                assert(s@.skip(j + 1) =~= suff.skip(jj + 1));
                assert(r@.map_values(|v: Vec<char>| v@) =~= seq![piece@] + rest@.map_values(
                    |v: Vec<char>| v@,
                ));
                assert(r@.map_values(|v: Vec<char>| v@) =~= split_seq(suff, c));
            }
            r
        },
    }
}

/// Copy a character vector.
pub fn copy_vec(s: &Vec<char>) -> (r: Vec<char>)
    ensures
        r@ == s@,
{
    let r = copy_range(s, 0, s.len());
    proof {
        assert(s@.subrange(0, s@.len() as int) =~= s@);
    }
    r
}

/// Searching for `c` from `i` in `s` is searching from 0 in the suffix.
pub proof fn lemma_char_idx_skip(s: Seq<char>, c: char, start: int)
    requires
        0 <= start <= s.len(),
    ensures
        char_idx(s, c, start) == -1 ==> char_idx(s.skip(start), c, 0) == -1,
        char_idx(s, c, start) >= 0 ==> char_idx(s.skip(start), c, 0) == char_idx(s, c, start)
            - start,
{
    lemma_char_idx_shift(s, c, start, start);
}

/// The general shift: searching from `i >= start` in `s` matches
/// searching from `i - start` in the suffix at `start`.
proof fn lemma_char_idx_shift(s: Seq<char>, c: char, start: int, i: int)
    requires
        0 <= start <= i,
        start <= s.len(),
    ensures
        char_idx(s, c, i) == -1 ==> char_idx(s.skip(start), c, i - start) == -1,
        char_idx(s, c, i) >= 0 ==> char_idx(s.skip(start), c, i - start) == char_idx(s, c, i)
            - start,
    decreases s.len() - i + 1,
{
    if i >= s.len() {
        assert(char_idx(s, c, i) == -1);
        assert(i - start >= s.skip(start).len());
        assert(char_idx(s.skip(start), c, i - start) == -1);
    } else {
        assert(s.skip(start)[i - start] == s[i]);
        if s[i] == c {
        } else {
            lemma_char_idx_shift(s, c, start, i + 1);
        }
    }
}

/// Trim whitespace from both ends.
pub fn trim_chars(s: &Vec<char>) -> (r: Vec<char>)
    ensures
        r@ == trim_seq(s@),
{
    let l = trim_start_exec(s, 0);
    let t = trim_end_exec(s, s.len());
    if l <= t {
        copy_range(s, l, t)
    } else {
        let r: Vec<char> = Vec::new();
        r
    }
}

fn trim_start_exec(s: &Vec<char>, i: usize) -> (r: usize)
    requires
        i <= s@.len(),
    ensures
        r == trim_start_idx(s@, i as int),
        i <= r <= s@.len(),
    decreases s@.len() - i,
{
    if i < s.len() {
        let c = s[i];
        if c == ' ' || c == '\t' || c == '\n' || c == '\r' || c == '\u{b}' || c == '\u{c}' {
            return trim_start_exec(s, i + 1);
        }
    }
    i
}

fn trim_end_exec(s: &Vec<char>, i: usize) -> (r: usize)
    requires
        i <= s@.len(),
    ensures
        r == trim_end_idx(s@, i as int),
        r <= i,
    decreases i,
{
    if i > 0 {
        let c = s[i - 1];
        if c == ' ' || c == '\t' || c == '\n' || c == '\r' || c == '\u{b}' || c == '\u{c}' {
            return trim_end_exec(s, i - 1);
        }
    }
    i
}

/// A substring occurrence carries every prefix of the needle.
pub proof fn lemma_contains_of_prefix(s: Seq<char>, a: Seq<char>, b: Seq<char>)
    requires
        contains_seq(s, a),
        b.len() <= a.len(),
        a.subrange(0, b.len() as int) == b,
    ensures
        contains_seq(s, b),
{
    let i = choose|i: int| has_at(s, a, i);
    assert(s.subrange(i, i + b.len()) =~= a.subrange(0, b.len() as int));
    assert(has_at(s, b, i));
}

/// Are two character vectors equal?
pub fn eq_chars(a: &Vec<char>, b: &Vec<char>) -> (r: bool)
    ensures
        r == (a@ == b@),
{
    if a.len() != b.len() {
        return false;
    }
    let mut i: usize = 0;
    while i < a.len()
        invariant
            a@.len() == b@.len(),
            i <= a@.len(),
            forall|j: int| 0 <= j < i ==> a@[j] == b@[j],
        decreases a@.len() - i,
    {
        if a[i] != b[i] {
            return false;
        }
        i = i + 1;
    }
    assert(a@ =~= b@);
    true
}

} // verus!
