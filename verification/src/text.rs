use vstd::prelude::*;
use vstd::string::StrSliceExecFns;

verus! {

/// How many occurrences of `c` the text holds.
pub open spec fn count_char(s: Seq<char>, c: char) -> nat
    decreases s.len(),
{
    if s.len() == 0 {
        0
    } else {
        count_char(s.drop_last(), c) + (if s.last() == c {
            1nat
        } else {
            0nat
        })
    }
}

/// A text holds no more occurrences of a character than it has characters.
pub proof fn lemma_count_char_le(s: Seq<char>, c: char)
    ensures
        count_char(s, c) <= s.len(),
    decreases s.len(),
{
    if s.len() > 0 {
        lemma_count_char_le(s.drop_last(), c);
    }
}

/// How many logical lines the text holds, counted the way the standard
/// line iterator does: a trailing newline ends the last line instead of
/// opening an empty one, and empty text has no lines.
pub open spec fn line_count(s: Seq<char>) -> nat {
    count_char(s, '\n') + (if s.len() > 0 && s.last() != '\n' {
        1nat
    } else {
        0nat
    })
}

/// Whether the character separates words.
pub open spec fn is_blank_char(c: char) -> bool {
    c == ' ' || c == '\t' || c == '\n' || c == '\r'
}

/// Whether the character belongs to an alphanumeric word. Characters beyond
/// ASCII are treated as word characters, so that accented text moves as one
/// word.
pub open spec fn is_word_char(c: char) -> bool {
    (48 <= c as u32 && c as u32 <= 57) || (65 <= c as u32 && c as u32 <= 90) || (97 <= c as u32
        && c as u32 <= 122) || c as u32 >= 128
}

/// The ASCII uppercase counterpart of a character; anything that is not an
/// ASCII lowercase letter, accented letters included, is left alone.
/// Uppercasing beyond ASCII is locale-shaped text shaping, which this
/// library leaves to its embedder.
pub open spec fn upper_char(c: char) -> char {
    if 97 <= c as u32 && c as u32 <= 122 {
        ((c as u32 - 32) as u8) as char
    } else {
        c
    }
}

/// Executable form of `is_blank_char`.
pub fn blank_char(c: char) -> (r: bool)
    ensures
        r == is_blank_char(c),
{
    c == ' ' || c == '\t' || c == '\n' || c == '\r'
}

/// Executable form of `is_word_char`.
pub fn word_char(c: char) -> (r: bool)
    ensures
        r == is_word_char(c),
{
    let u = c as u32;
    (48 <= u && u <= 57) || (65 <= u && u <= 90) || (97 <= u && u <= 122) || u >= 128
}

/// Executable form of `upper_char`.
pub fn to_upper_char(c: char) -> (r: char)
    ensures
        r == upper_char(c),
{
    let u = c as u32;
    if 97 <= u && u <= 122 {
        ((u - 32) as u8) as char
    } else {
        c
    }
}

/// Two word characters belong to the same word; two non-blank, non-word
/// characters belong to the same punctuation cluster.
pub open spec fn same_word_class(a: char, b: char) -> bool {
    is_word_char(a) == is_word_char(b)
}

/// The position reached from `pos` by skipping blanks leftward.
pub open spec fn skip_blank_left(s: Seq<char>, pos: nat) -> nat
    decreases pos,
{
    if pos > 0 && is_blank_char(s[pos - 1]) {
        skip_blank_left(s, (pos - 1) as nat)
    } else {
        pos
    }
}

/// The position reached from `pos` by skipping leftward over characters of
/// the same class as `c`.
pub open spec fn skip_class_left(s: Seq<char>, pos: nat, c: char) -> nat
    decreases pos,
{
    if pos > 0 && !is_blank_char(s[pos - 1]) && same_word_class(s[pos - 1], c) {
        skip_class_left(s, (pos - 1) as nat, c)
    } else {
        pos
    }
}

/// The start of the word that precedes (or surrounds) `pos`: blanks are
/// skipped first, then one run of word characters or one punctuation cluster.
pub open spec fn word_left_pos(s: Seq<char>, pos: nat) -> nat {
    let p = skip_blank_left(s, pos);
    if p > 0 {
        skip_class_left(s, p, s[p - 1])
    } else {
        0
    }
}

/// The position reached from `pos` by skipping blanks rightward.
pub open spec fn skip_blank_right(s: Seq<char>, pos: nat) -> nat
    decreases s.len() - pos,
{
    if pos < s.len() && is_blank_char(s[pos as int]) {
        skip_blank_right(s, pos + 1)
    } else {
        pos
    }
}

/// The position reached from `pos` by skipping rightward over characters of
/// the same class as `c`.
pub open spec fn skip_class_right(s: Seq<char>, pos: nat, c: char) -> nat
    decreases s.len() - pos,
{
    if pos < s.len() && !is_blank_char(s[pos as int]) && same_word_class(s[pos as int], c) {
        skip_class_right(s, pos + 1, c)
    } else {
        pos
    }
}

/// The end of the word that follows (or surrounds) `pos`: blanks are skipped
/// first, then one run of word characters or one punctuation cluster.
pub open spec fn word_right_pos(s: Seq<char>, pos: nat) -> nat {
    let p = skip_blank_right(s, pos);
    if p < s.len() {
        skip_class_right(s, p, s[p as int])
    } else {
        s.len()
    }
}

proof fn lemma_skip_blank_left_le(s: Seq<char>, pos: nat)
    ensures
        skip_blank_left(s, pos) <= pos,
    decreases pos,
{
    if pos > 0 && is_blank_char(s[pos - 1]) {
        lemma_skip_blank_left_le(s, (pos - 1) as nat);
    }
}

proof fn lemma_skip_class_left_le(s: Seq<char>, pos: nat, c: char)
    ensures
        skip_class_left(s, pos, c) <= pos,
    decreases pos,
{
    if pos > 0 && !is_blank_char(s[pos - 1]) && same_word_class(s[pos - 1], c) {
        lemma_skip_class_left_le(s, (pos - 1) as nat, c);
    }
}

/// Moving to the previous word start never moves the cursor rightward.
pub proof fn lemma_word_left_le(s: Seq<char>, pos: nat)
    ensures
        word_left_pos(s, pos) <= pos,
{
    lemma_skip_blank_left_le(s, pos);
    let p = skip_blank_left(s, pos);
    if p > 0 {
        lemma_skip_class_left_le(s, p, s[p - 1]);
    }
}

proof fn lemma_skip_blank_right_bounds(s: Seq<char>, pos: nat)
    requires
        pos <= s.len(),
    ensures
        pos <= skip_blank_right(s, pos) <= s.len(),
    decreases s.len() - pos,
{
    if pos < s.len() && is_blank_char(s[pos as int]) {
        lemma_skip_blank_right_bounds(s, pos + 1);
    }
}

proof fn lemma_skip_class_right_bounds(s: Seq<char>, pos: nat, c: char)
    requires
        pos <= s.len(),
    ensures
        pos <= skip_class_right(s, pos, c) <= s.len(),
    decreases s.len() - pos,
{
    if pos < s.len() && !is_blank_char(s[pos as int]) && same_word_class(s[pos as int], c) {
        lemma_skip_class_right_bounds(s, pos + 1, c);
    }
}

/// Moving to the next word end never moves the cursor leftward, and stays
/// inside the text.
pub proof fn lemma_word_right_bounds(s: Seq<char>, pos: nat)
    requires
        pos <= s.len(),
    ensures
        pos <= word_right_pos(s, pos) <= s.len(),
{
    lemma_skip_blank_right_bounds(s, pos);
    let p = skip_blank_right(s, pos);
    if p < s.len() {
        lemma_skip_class_right_bounds(s, p, s[p as int]);
    }
}

/// Executable word-start search, proved against `word_left_pos`.
pub fn word_left_index(s: &str, pos: usize) -> (r: usize)
    requires
        pos <= s@.len(),
    ensures
        r == word_left_pos(s@, pos as nat),
        r <= pos,
{
    proof {
        lemma_word_left_le(s@, pos as nat);
    }
    let mut p: usize = pos;
    while p > 0 && blank_char(s.get_char(p - 1))
        invariant
            p <= pos <= s@.len(),
            skip_blank_left(s@, p as nat) == skip_blank_left(s@, pos as nat),
        decreases p,
    {
        p = p - 1;
    }
    proof {
        lemma_skip_blank_left_le(s@, pos as nat);
    }
    if p == 0 {
        return 0;
    }
    let class_char = s.get_char(p - 1);
    let mut q: usize = p;
    while q > 0 && !blank_char(s.get_char(q - 1)) && word_char(s.get_char(q - 1)) == word_char(
        class_char,
    )
        invariant
            q <= p <= s@.len(),
            skip_class_left(s@, q as nat, class_char) == skip_class_left(s@, p as nat, class_char),
        decreases q,
    {
        q = q - 1;
    }
    q
}

/// Executable word-end search, proved against `word_right_pos`.
pub fn word_right_index(s: &str, pos: usize) -> (r: usize)
    requires
        pos <= s@.len(),
    ensures
        r == word_right_pos(s@, pos as nat),
        pos <= r <= s@.len(),
{
    proof {
        lemma_word_right_bounds(s@, pos as nat);
    }
    let n = s.unicode_len();
    let mut p: usize = pos;
    while p < n && blank_char(s.get_char(p))
        invariant
            pos <= p <= n == s@.len(),
            skip_blank_right(s@, p as nat) == skip_blank_right(s@, pos as nat),
        decreases n - p,
    {
        p = p + 1;
    }
    proof {
        lemma_skip_blank_right_bounds(s@, pos as nat);
    }
    if p == n {
        return n;
    }
    let class_char = s.get_char(p);
    let mut q: usize = p;
    while q < n && !blank_char(s.get_char(q)) && word_char(s.get_char(q)) == word_char(class_char)
        invariant
            p <= q <= n == s@.len(),
            skip_class_right(s@, q as nat, class_char) == skip_class_right(
                s@,
                p as nat,
                class_char,
            ),
        decreases n - q,
    {
        q = q + 1;
    }
    q
}

/// The index of the first newline at or after `from`, or the length when
/// the rest holds none.
pub open spec fn first_newline_from(s: Seq<char>, from: int) -> int
    decreases s.len() - from,
{
    if !(0 <= from < s.len()) {
        s.len() as int
    } else if s[from] == '\n' {
        from
    } else {
        first_newline_from(s, from + 1)
    }
}

/// The scan for a newline neither overshoots the text nor looks backward.
pub proof fn lemma_first_newline_bounds(s: Seq<char>, from: int)
    requires
        0 <= from <= s.len(),
    ensures
        from <= first_newline_from(s, from) <= s.len(),
    decreases s.len() - from,
{
    if 0 <= from < s.len() && s[from] != '\n' {
        lemma_first_newline_bounds(s, from + 1);
    }
}

/// Find the next newline, proved against `first_newline_from`.
pub fn find_newline(s: &str, from: usize) -> (r: usize)
    requires
        from <= s@.len(),
    ensures
        r == first_newline_from(s@, from as int),
        from <= r <= s@.len(),
{
    proof {
        lemma_first_newline_bounds(s@, from as int);
    }
    let n = s.unicode_len();
    let mut cur: usize = from;
    while cur < n
        invariant
            from <= cur <= n == s@.len(),
            first_newline_from(s@, from as int) == first_newline_from(s@, cur as int),
        decreases n - cur,
    {
        if s.get_char(cur) == '\n' {
            return cur;
        }
        cur = cur + 1;
    }
    n
}

/// The position just after the last newline before `pos`: where the line
/// holding `pos` begins.
pub open spec fn line_start_pos(s: Seq<char>, pos: nat) -> nat
    decreases pos,
{
    if pos == 0 {
        0
    } else if s[pos - 1] == '\n' {
        pos
    } else {
        line_start_pos(s, (pos - 1) as nat)
    }
}

/// The start of a line never lies beyond the position inside it.
pub proof fn lemma_line_start_le(s: Seq<char>, pos: nat)
    ensures
        line_start_pos(s, pos) <= pos,
    decreases pos,
{
    if pos > 0 && s[pos - 1] != '\n' {
        lemma_line_start_le(s, (pos - 1) as nat);
    }
}

/// Find where the line holding `pos` begins, proved against
/// `line_start_pos`.
pub fn line_start_index(s: &str, pos: usize) -> (r: usize)
    requires
        pos <= s@.len(),
    ensures
        r == line_start_pos(s@, pos as nat),
        r <= pos,
{
    proof {
        lemma_line_start_le(s@, pos as nat);
    }
    let mut cur: usize = pos;
    while cur > 0 && s.get_char(cur - 1) != '\n'
        invariant
            cur <= pos <= s@.len(),
            line_start_pos(s@, pos as nat) == line_start_pos(s@, cur as nat),
        decreases cur,
    {
        cur = cur - 1;
    }
    cur
}

/// Executable line count, proved against `line_count`.
pub fn line_count_of(s: &str) -> (r: usize)
    ensures
        r == line_count(s@),
{
    let newlines = count_char_in(s, '\n');
    proof {
        lemma_count_char_le(s@, '\n');
    }
    if !s.is_empty() {
        let n = s.unicode_len();
        if s.get_char(n - 1) != '\n' {
            proof {
                lemma_count_char_le(s@.drop_last(), '\n');
            }
            return newlines + 1;
        }
    }
    newlines
}

/// Whether `prefix` is an initial segment of `s`.
pub open spec fn starts_with(s: Seq<char>, prefix: Seq<char>) -> bool {
    prefix.len() <= s.len() && s.take(prefix.len() as int) == prefix
}

/// Executable prefix test, proved against `starts_with`.
pub fn str_starts_with(s: &str, prefix: &str) -> (r: bool)
    ensures
        r == starts_with(s@, prefix@),
{
    let pn = prefix.unicode_len();
    let sn = s.unicode_len();
    if pn > sn {
        return false;
    }
    let mut i: usize = 0;
    while i < pn
        invariant
            i <= pn == prefix@.len(),
            pn <= sn == s@.len(),
            forall|j: int| 0 <= j < i ==> s@[j] == prefix@[j],
        decreases pn - i,
    {
        if s.get_char(i) != prefix.get_char(i) {
            proof {
                assert(s@.take(pn as int)[i as int] != prefix@[i as int]);
            }
            return false;
        }
        i = i + 1;
    }
    proof {
        assert(s@.take(pn as int) =~= prefix@);
    }
    true
}

/// Executable equality of two texts by characters.
pub fn str_eq(a: &str, b: &str) -> (r: bool)
    ensures
        r == (a@ == b@),
{
    let na = a.unicode_len();
    let nb = b.unicode_len();
    if na != nb {
        proof {
            assert(a@ != b@);
        }
        return false;
    }
    let same = str_starts_with(a, b);
    proof {
        assert(a@.take(nb as int) =~= a@);
    }
    same
}

/// Executable count of `c` in a text, proved against `count_char`.
pub fn count_char_in(s: &str, c: char) -> (r: usize)
    ensures
        r == count_char(s@, c),
{
    let n = s.unicode_len();
    let mut total: usize = 0;
    let mut i: usize = 0;
    while i < n
        invariant
            n == s@.len(),
            i <= n,
            total <= i,
            total as nat == count_char(s@.take(i as int), c),
        decreases n - i,
    {
        proof {
            assert(s@.take(i + 1).drop_last() =~= s@.take(i as int));
        }
        if s.get_char(i) == c {
            total = total + 1;
        }
        i = i + 1;
    }
    proof {
        assert(s@.take(n as int) =~= s@);
    }
    total
}

} // verus!
