//! Verified helpers for the character-level string processing that the
//! command parser and the composer share: case folding, trimming,
//! whitespace tokenization and joining.

use vstd::prelude::*;

verus! {

/// Whether `c` is one of the ASCII whitespace characters this crate's
/// tokenization recognizes.
pub open spec fn is_space(c: char) -> bool {
    c == ' ' || c == '\t' || c == '\n' || c == '\r'
}

/// Whether `c` is one of the ASCII whitespace characters this crate's
/// tokenization recognizes.
pub fn is_space_char(c: char) -> (r: bool)
    ensures
        r == is_space(c),
{
    c == ' ' || c == '\t' || c == '\n' || c == '\r'
}

/// `c` with an ASCII capital letter folded to its small form; any other
/// character is unchanged.
pub open spec fn lower_char(c: char) -> char {
    if 'A' <= c && c <= 'Z' {
        ((c as int) + 32) as char
    } else {
        c
    }
}

/// `s` with every ASCII capital letter folded to its small form.
pub open spec fn lower_seq(s: Seq<char>) -> Seq<char> {
    s.map_values(|c: char| lower_char(c))
}

/// The view of each string in `ts`, in order.
pub open spec fn views_of(ts: Seq<String>) -> Seq<Seq<char>> {
    ts.map_values(|w: String| w@)
}

/// `c` with an ASCII capital letter folded to its small form.
pub fn lower_char_exec(c: char) -> (r: char)
    ensures
        r == lower_char(c),
{
    if 'A' <= c && c <= 'Z' {
        ((c as u8) + 32) as char
    } else {
        c
    }
}

/// Relies on `String::push`: appends the given character to the end of the
/// string.
#[verifier::external_body]
pub(crate) fn push_char(s: &mut String, c: char)
    ensures
        final(s)@ == old(s)@.push(c),
{
    s.push(c)
}

/// `s` with every ASCII capital letter folded to its small form.
pub fn to_lower(s: &str) -> (r: String)
    ensures
        r@ == lower_seq(s@),
{
    let n = s.unicode_len();
    let mut out = String::new();
    let mut i: usize = 0;
    while i < n
        invariant
            i <= n,
            n == s@.len(),
            out@ == lower_seq(s@.take(i as int)),
        decreases n - i,
    {
        let c = lower_char_exec(s.get_char(i));
        push_char(&mut out, c);
        proof {
            assert(s@.take(i + 1 as int) =~= s@.take(i as int).push(s@[i as int]));
            assert(lower_seq(s@.take(i + 1 as int)) =~= lower_seq(s@.take(i as int)).push(
                lower_char(s@[i as int]),
            ));
        }
        i += 1;
    }
    proof {
        assert(s@.take(n as int) =~= s@);
    }
    out
}

/// Whether the two strings hold the same characters.
pub fn str_eq(a: &str, b: &str) -> (r: bool)
    ensures
        r == (a@ == b@),
{
    let na = a.unicode_len();
    let nb = b.unicode_len();
    if na != nb {
        return false;
    }
    let mut i: usize = 0;
    while i < na
        invariant
            i <= na,
            na == a@.len(),
            na == b@.len(),
            forall|j: int| 0 <= j < i ==> a@[j] == b@[j],
        decreases na - i,
    {
        if a.get_char(i) != b.get_char(i) {
            return false;
        }
        i += 1;
    }
    proof {
        assert(a@ =~= b@);
    }
    true
}

/// Whether `p` is a prefix of `s`.
pub fn is_prefix(p: &str, s: &str) -> (r: bool)
    ensures
        r == p@.is_prefix_of(s@),
{
    let np = p.unicode_len();
    let ns = s.unicode_len();
    if np > ns {
        return false;
    }
    let mut i: usize = 0;
    while i < np
        invariant
            i <= np,
            np == p@.len(),
            ns == s@.len(),
            np <= ns,
            forall|j: int| 0 <= j < i ==> p@[j] == s@[j],
        decreases np - i,
    {
        if p.get_char(i) != s.get_char(i) {
            return false;
        }
        i += 1;
    }
    proof {
        assert(p@ =~= s@.subrange(0, np as int));
    }
    true
}

/// The first position at or after `i` that does not hold a space, or the
/// end of `s`.
pub open spec fn skip_spaces(s: Seq<char>, i: int) -> int
    decreases s.len() - i when 0 <= i <= s.len()
{
    if i >= s.len() {
        i
    } else if is_space(s[i]) {
        skip_spaces(s, i + 1)
    } else {
        i
    }
}

/// The first position at or after `i` that holds a space, or the end of
/// `s`.
pub open spec fn word_end(s: Seq<char>, i: int) -> int
    decreases s.len() - i when 0 <= i <= s.len()
{
    if i >= s.len() {
        i
    } else if is_space(s[i]) {
        i
    } else {
        word_end(s, i + 1)
    }
}

/// `skip_spaces` stays between its start and the end of the sequence, skips
/// only spaces, and stops at a non-space or the end.
pub proof fn lemma_skip_spaces(s: Seq<char>, i: int)
    requires
        0 <= i <= s.len(),
    ensures
        i <= skip_spaces(s, i) <= s.len(),
        forall|j: int| i <= j < skip_spaces(s, i) ==> is_space(s[j]),
        skip_spaces(s, i) < s.len() ==> !is_space(s[skip_spaces(s, i)]),
    decreases s.len() - i,
{
    if i < s.len() && is_space(s[i]) {
        lemma_skip_spaces(s, i + 1);
    }
}

/// `word_end` stays between its start and the end of the sequence, passes
/// only non-spaces, and stops at a space or the end.
pub proof fn lemma_word_end(s: Seq<char>, i: int)
    requires
        0 <= i <= s.len(),
    ensures
        i <= word_end(s, i) <= s.len(),
        forall|j: int| i <= j < word_end(s, i) ==> !is_space(s[j]),
        word_end(s, i) < s.len() ==> is_space(s[word_end(s, i)]),
    decreases s.len() - i,
{
    if i < s.len() && !is_space(s[i]) {
        lemma_word_end(s, i + 1);
    }
}

/// The whitespace-separated words of `s`, starting the scan at `i`.
pub open spec fn words_from(s: Seq<char>, i: int) -> Seq<Seq<char>>
    decreases s.len() - i when 0 <= i <= s.len() via words_from_decreases
{
    let j = skip_spaces(s, i);
    if j >= s.len() {
        Seq::empty()
    } else {
        let k = word_end(s, j);
        seq![s.subrange(j, k)] + words_from(s, k)
    }
}

#[via_fn]
proof fn words_from_decreases(s: Seq<char>, i: int) {
    lemma_skip_spaces(s, i);
    let j = skip_spaces(s, i);
    if j < s.len() {
        lemma_word_end(s, j);
        assert(word_end(s, j) > j);
    }
}

/// The whitespace-separated words of `s`.
pub open spec fn words(s: Seq<char>) -> Seq<Seq<char>> {
    words_from(s, 0)
}

/// Scanning for words from a space position is the same as scanning from
/// just past it.
pub proof fn lemma_words_from_space(s: Seq<char>, i: int)
    requires
        0 <= i < s.len(),
        is_space(s[i]),
    ensures
        words_from(s, i) == words_from(s, i + 1),
{
    assert(skip_spaces(s, i) == skip_spaces(s, i + 1));
}

/// Scanning for words from the start of a word yields that word and then
/// the words after its end.
pub proof fn lemma_words_from_word(s: Seq<char>, i: int)
    requires
        0 <= i < s.len(),
        !is_space(s[i]),
    ensures
        words_from(s, i) == seq![s.subrange(i, word_end(s, i))] + words_from(s, word_end(s, i)),
{
    lemma_word_end(s, i);
    assert(skip_spaces(s, i) == i);
}

/// The whitespace-separated words of `s`, each as its own `String`.
pub fn split_words(s: &str) -> (r: Vec<String>)
    ensures
        views_of(r@) == words(s@),
{
    let n = s.unicode_len();
    let mut out: Vec<String> = Vec::new();
    let mut i: usize = 0;
    while i < n
        invariant
            i <= n,
            n == s@.len(),
            words(s@) == views_of(out@) + words_from(s@, i as int),
        decreases n - i,
    {
        if is_space_char(s.get_char(i)) {
            proof {
                lemma_words_from_space(s@, i as int);
            }
            i += 1;
        } else {
            let start = i;
            proof {
                lemma_word_end(s@, start as int);
            }
            while i < n && !is_space_char(s.get_char(i))
                invariant
                    start <= i <= n,
                    n == s@.len(),
                    start < n,
                    !is_space(s@[start as int]),
                    word_end(s@, start as int) == word_end(s@, i as int),
                decreases n - i,
            {
                proof {
                    assert(word_end(s@, i as int) == word_end(s@, i + 1 as int));
                }
                i += 1;
            }
            proof {
                assert(word_end(s@, i as int) == i as int);
                assert(word_end(s@, start as int) == i as int);
                lemma_words_from_word(s@, start as int);
            }
            let word = s.substring_char(start, i).to_owned();
            out.push(word);
            proof {
                let prev = out@.subrange(0, out@.len() - 1);
                assert(views_of(out@) =~= views_of(prev).push(s@.subrange(start as int, i as int)));
                assert(words(s@) =~= views_of(out@) + words_from(s@, i as int));
            }
        }
    }
    proof {
        assert(words_from(s@, i as int) == Seq::<Seq<char>>::empty());
        assert(words(s@) =~= views_of(out@));
    }
    out
}

/// The words of `ts` joined with a single space between neighbours.
pub open spec fn join_spaces(ts: Seq<Seq<char>>) -> Seq<char>
    decreases ts.len(),
{
    if ts.len() == 0 {
        Seq::empty()
    } else if ts.len() == 1 {
        ts[0]
    } else {
        ts[0] + seq![' '] + join_spaces(ts.skip(1))
    }
}

/// Joining after appending one more word appends a space and that word,
/// except on the first word.
pub proof fn lemma_join_push(ts: Seq<Seq<char>>, w: Seq<char>)
    ensures
        ts.len() == 0 ==> join_spaces(ts.push(w)) == w,
        ts.len() > 0 ==> join_spaces(ts.push(w)) == join_spaces(ts) + seq![' '] + w,
    decreases ts.len(),
{
    if ts.len() == 0 {
        assert(ts.push(w)[0] == w);
        assert(ts.push(w).len() == 1);
    } else if ts.len() == 1 {
        assert(ts.push(w).len() == 2);
        assert(ts.push(w)[0] == ts[0]);
        assert(ts.push(w).skip(1) =~= seq![w]);
        assert(join_spaces(seq![w]) == w);
    } else {
        lemma_join_push(ts.skip(1), w);
        assert(ts.push(w).skip(1) =~= ts.skip(1).push(w));
        assert(join_spaces(ts.push(w)) == ts[0] + seq![' '] + join_spaces(ts.skip(1).push(w)));
        assert(ts[0] + seq![' '] + (join_spaces(ts.skip(1)) + seq![' '] + w) =~= (ts[0] + seq![' ']
            + join_spaces(ts.skip(1))) + seq![' '] + w);
    }
}

/// The elements of `ts` from position `from` on, joined with single spaces.
pub fn join_words(ts: &Vec<String>, from: usize) -> (r: String)
    requires
        from <= ts@.len(),
    ensures
        r@ == join_spaces(views_of(ts@).skip(from as int)),
{
    let mut out = String::new();
    let mut i: usize = from;
    while i < ts.len()
        invariant
            from <= i <= ts@.len(),
            out@ == join_spaces(views_of(ts@).skip(from as int).take(i - from)),
        decreases ts@.len() - i,
    {
        if i > from {
            out.append(" ");
        }
        out.append(ts[i].as_str());
        proof {
            let tail = views_of(ts@).skip(from as int);
            lemma_join_push(tail.take(i - from), ts@[i as int]@);
            assert(tail[i - from] == views_of(ts@)[i as int]);
            assert(views_of(ts@)[i as int] == ts@[i as int]@);
            assert(tail.take(i + 1 - from) =~= tail.take(i - from).push(ts@[i as int]@));
            if i > from {
                assert(" "@ == seq![' ']) by {
                    reveal_strlit(" ");
                }
            }
        }
        i += 1;
    }
    proof {
        let tail = views_of(ts@).skip(from as int);
        assert(tail.take(ts@.len() - from) =~= tail);
    }
    out
}

/// The first position at or after `i` that does not hold the character
/// `c`, or the end of `s`.
pub open spec fn skip_run(s: Seq<char>, c: char, i: int) -> int
    decreases s.len() - i when 0 <= i <= s.len()
{
    if i >= s.len() {
        i
    } else if s[i] == c {
        skip_run(s, c, i + 1)
    } else {
        i
    }
}

/// `s` without its leading run of the character `c`.
pub fn skip_leading<'a>(s: &'a str, c: char) -> (r: &'a str)
    ensures
        r@ == s@.skip(skip_run(s@, c, 0)),
{
    let n = s.unicode_len();
    let mut b: usize = 0;
    while b < n && s.get_char(b) == c
        invariant
            b <= n,
            n == s@.len(),
            skip_run(s@, c, 0) == skip_run(s@, c, b as int),
        decreases n - b,
    {
        b += 1;
    }
    proof {
        assert(skip_run(s@, c, b as int) == b as int);
        assert(s@.subrange(b as int, n as int) =~= s@.skip(b as int));
    }
    s.substring_char(b, n)
}

/// The position just after the last character strictly before `e` that is
/// not `c`, or 0.
pub open spec fn run_end(s: Seq<char>, c: char, e: int) -> int
    decreases e when 0 <= e <= s.len()
{
    if e <= 0 {
        0
    } else if s[e - 1] == c {
        run_end(s, c, e - 1)
    } else {
        e
    }
}

/// `s` without its trailing run of the character `c`.
pub fn trim_trailing<'a>(s: &'a str, c: char) -> (r: &'a str)
    ensures
        r@ == s@.take(run_end(s@, c, s@.len() as int)),
{
    let n = s.unicode_len();
    let mut e: usize = n;
    while e > 0 && s.get_char(e - 1) == c
        invariant
            e <= n,
            n == s@.len(),
            run_end(s@, c, n as int) == run_end(s@, c, e as int),
        decreases e,
    {
        e -= 1;
    }
    proof {
        assert(run_end(s@, c, e as int) == e as int);
        assert(s@.subrange(0, e as int) =~= s@.take(e as int));
    }
    s.substring_char(0, e)
}

/// `s` without leading and trailing ASCII whitespace.
pub open spec fn trim_spec(s: Seq<char>) -> Seq<char> {
    let b = skip_spaces(s, 0);
    let e = trim_end_at(s, s.len() as int);
    if b < e {
        s.subrange(b, e)
    } else {
        Seq::empty()
    }
}

/// The position just after the last non-space strictly before `e`, or 0.
pub open spec fn trim_end_at(s: Seq<char>, e: int) -> int
    decreases e when 0 <= e <= s.len()
{
    if e <= 0 {
        0
    } else if is_space(s[e - 1]) {
        trim_end_at(s, e - 1)
    } else {
        e
    }
}

/// `trim_end_at` stays between 0 and its start, drops only spaces, and
/// stops just past a non-space or at 0.
pub proof fn lemma_trim_end_at(s: Seq<char>, e: int)
    requires
        0 <= e <= s.len(),
    ensures
        0 <= trim_end_at(s, e) <= e,
        forall|j: int| trim_end_at(s, e) <= j < e ==> is_space(s[j]),
        trim_end_at(s, e) > 0 ==> !is_space(s[trim_end_at(s, e) - 1]),
    decreases e,
{
    if e > 0 && is_space(s[e - 1]) {
        lemma_trim_end_at(s, e - 1);
    }
}

/// `s` without leading and trailing ASCII whitespace.
pub fn trim(s: &str) -> (r: &str)
    ensures
        r@ == trim_spec(s@),
{
    let n = s.unicode_len();
    let mut b: usize = 0;
    while b < n && is_space_char(s.get_char(b))
        invariant
            b <= n,
            n == s@.len(),
            skip_spaces(s@, 0) == skip_spaces(s@, b as int),
        decreases n - b,
    {
        b += 1;
    }
    proof {
        assert(skip_spaces(s@, b as int) == b as int);
        assert(skip_spaces(s@, 0) == b as int);
    }
    let mut e: usize = n;
    while e > b && is_space_char(s.get_char(e - 1))
        invariant
            b <= e <= n,
            n == s@.len(),
            b as int == skip_spaces(s@, 0),
            trim_end_at(s@, n as int) == trim_end_at(s@, e as int),
        decreases e,
    {
        e -= 1;
    }
    proof {
        lemma_skip_spaces(s@, 0);
        if e > b {
            assert(trim_end_at(s@, e as int) == e as int);
        } else {
            assert(e == b);
            lemma_trim_end_at(s@, e as int);
            assert(forall|j: int| 0 <= j < e ==> is_space(s@[j]));
            assert(trim_end_at(s@, e as int) <= e as int);
            assert(trim_spec(s@) =~= s@.subrange(b as int, e as int));
        }
    }
    s.substring_char(b, e)
}

/// Lexicographic comparison of `a` and `b`, started at position `i`: true
/// when the suffix of `a` sorts at or before the suffix of `b`.
pub open spec fn le_from(a: Seq<char>, b: Seq<char>, i: int) -> bool
    decreases a.len() - i when 0 <= i
{
    if i >= a.len() {
        true
    } else if i >= b.len() {
        false
    } else if a[i] != b[i] {
        a[i] < b[i]
    } else {
        le_from(a, b, i + 1)
    }
}

/// Whether `a` sorts at or before `b`, comparing characters left to right.
pub open spec fn seq_le(a: Seq<char>, b: Seq<char>) -> bool {
    le_from(a, b, 0)
}

/// The order is total: of any two sequences, one sorts at or before the
/// other.
pub proof fn lemma_le_total(a: Seq<char>, b: Seq<char>, i: int)
    requires
        0 <= i,
    ensures
        le_from(a, b, i) || le_from(b, a, i),
    decreases a.len() - i,
{
    if i < a.len() && i < b.len() && a[i] == b[i] {
        lemma_le_total(a, b, i + 1);
    }
}

/// The order is transitive.
pub proof fn lemma_le_trans(a: Seq<char>, b: Seq<char>, c: Seq<char>, i: int)
    requires
        0 <= i,
        le_from(a, b, i),
        le_from(b, c, i),
    ensures
        le_from(a, c, i),
    decreases a.len() - i,
{
    if i < a.len() {
        if a[i] == b[i] && b[i] == c[i] {
            lemma_le_trans(a, b, c, i + 1);
        }
    }
}

/// Whether `a` sorts at or before `b`.
pub fn str_le(a: &str, b: &str) -> (r: bool)
    ensures
        r == seq_le(a@, b@),
{
    let na = a.unicode_len();
    let nb = b.unicode_len();
    let mut i: usize = 0;
    while i < na && i < nb && a.get_char(i) == b.get_char(i)
        invariant
            i <= na,
            na == a@.len(),
            nb == b@.len(),
            seq_le(a@, b@) == le_from(a@, b@, i as int),
        decreases na - i,
    {
        proof {
            assert(le_from(a@, b@, i as int) == le_from(a@, b@, i + 1 as int));
        }
        i += 1;
    }
    if i >= na {
        proof {
            assert(le_from(a@, b@, i as int));
        }
        true
    } else if i >= nb {
        proof {
            assert(!le_from(a@, b@, i as int));
        }
        false
    } else {
        a.get_char(i) < b.get_char(i)
    }
}

} // verus!
