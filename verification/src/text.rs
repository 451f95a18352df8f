//! Character-level text helpers: Unicode white space, trimming, searching and
//! line splitting, stated over `Seq<char>` and carried out on `Vec<char>`.
use vstd::prelude::*;

verus! {

/// The Unicode `White_Space` property (PropList.txt), which `char::is_whitespace` follows.
pub open spec fn is_white_space(c: char) -> bool {
    let u = c as u32;
    ||| 0x09 <= u <= 0x0D
    ||| u == 0x20
    ||| u == 0x85
    ||| u == 0xA0
    ||| u == 0x1680
    ||| 0x2000 <= u <= 0x200A
    ||| u == 0x2028
    ||| u == 0x2029
    ||| u == 0x202F
    ||| u == 0x205F
    ||| u == 0x3000
}

/// Decides the Unicode `White_Space` property of one character.
pub fn is_white_space_char(c: char) -> (r: bool)
    ensures
        r == is_white_space(c),
{
    let u = c as u32;
    (0x09 <= u && u <= 0x0D) || u == 0x20 || u == 0x85 || u == 0xA0 || u == 0x1680 || (0x2000
        <= u && u <= 0x200A) || u == 0x2028 || u == 0x2029 || u == 0x202F || u == 0x205F || u
        == 0x3000
}

/// The sets of characters that the library trims from the ends of a piece of text.
#[derive(Clone, Copy, PartialEq, Eq, Debug)]
pub enum CharClass {
    /// Unicode white space (what `str::trim` removes).
    WhiteSpace,
    /// `<` and `>`, which wrap links in some drag sources.
    AngleBracket,
    /// `"`, which wraps paths stored in the registry.
    DoubleQuote,
}

/// Membership of a character in a class.
pub open spec fn in_class(k: CharClass, c: char) -> bool {
    match k {
        CharClass::WhiteSpace => is_white_space(c),
        CharClass::AngleBracket => c == '<' || c == '>',
        CharClass::DoubleQuote => c == '"',
    }
}

/// Decides membership of a character in a class.
pub fn char_in_class(k: CharClass, c: char) -> (r: bool)
    ensures
        r == in_class(k, c),
{
    match k {
        CharClass::WhiteSpace => is_white_space_char(c),
        CharClass::AngleBracket => c == '<' || c == '>',
        CharClass::DoubleQuote => c == '"',
    }
}

/// `s` without the leading characters of class `k`.
pub open spec fn trim_start_in(s: Seq<char>, k: CharClass) -> Seq<char>
    decreases s.len(),
{
    if s.len() > 0 && in_class(k, s[0]) {
        trim_start_in(s.drop_first(), k)
    } else {
        s
    }
}

/// `s` without the trailing characters of class `k`.
pub open spec fn trim_end_in(s: Seq<char>, k: CharClass) -> Seq<char>
    decreases s.len(),
{
    if s.len() > 0 && in_class(k, s.last()) {
        trim_end_in(s.drop_last(), k)
    } else {
        s
    }
}

/// `s` without the characters of class `k` at either end (`str::trim_matches`).
pub open spec fn trim_in(s: Seq<char>, k: CharClass) -> Seq<char> {
    trim_end_in(trim_start_in(s, k), k)
}

/// `s` without white space at either end (`str::trim`).
pub open spec fn trim(s: Seq<char>) -> Seq<char> {
    trim_in(s, CharClass::WhiteSpace)
}

/// `p` is a prefix of `s`.
pub open spec fn has_prefix(s: Seq<char>, p: Seq<char>) -> bool {
    p.len() <= s.len() && s.take(p.len() as int) == p
}

/// `p` occurs in `s` starting at index `i`.
pub open spec fn occurs_at(s: Seq<char>, p: Seq<char>, i: int) -> bool {
    0 <= i && i + p.len() <= s.len() && s.subrange(i, i + p.len()) == p
}

/// The first index at or after `i` where `p` occurs in `s`.
pub open spec fn find_from(s: Seq<char>, p: Seq<char>, i: int) -> Option<int>
    decreases s.len() - i,
{
    if i < 0 || i + p.len() > s.len() {
        None
    } else if p.len() == 0 || occurs_at(s, p, i) {
        Some(i)
    } else {
        find_from(s, p, i + 1)
    }
}

/// The first index where `p` occurs in `s` (`str::find` with a string pattern).
pub open spec fn find(s: Seq<char>, p: Seq<char>) -> Option<int> {
    find_from(s, p, 0)
}

/// The pieces of `s` between its `'\n'` characters, as `str::split('\n')` yields them.
pub open spec fn split_lines(s: Seq<char>) -> Seq<Seq<char>>
    decreases s.len(),
{
    if s.len() == 0 {
        seq![Seq::<char>::empty()]
    } else {
        let prev = split_lines(s.drop_last());
        if s.last() == '\n' {
            prev.push(Seq::<char>::empty())
        } else {
            prev.update(prev.len() - 1, prev.last().push(s.last()))
        }
    }
}

/// Splitting always gives at least one piece.
pub proof fn lemma_split_lines_nonempty(s: Seq<char>)
    ensures
        split_lines(s).len() >= 1,
    decreases s.len(),
{
    if s.len() > 0 {
        lemma_split_lines_nonempty(s.drop_last());
    }
}

/// Where `find_from` finds `p`, it does occur there.
pub proof fn lemma_find_from_bounds(s: Seq<char>, p: Seq<char>, i: int)
    ensures
        find_from(s, p, i) matches Some(j) ==> i <= j && j + p.len() <= s.len() && s.subrange(j, j + p.len()) == p,
    decreases s.len() - i,
{
    if i < 0 || i + p.len() > s.len() {
    } else if p.len() == 0 || occurs_at(s, p, i) {
        if p.len() == 0 {
            assert(s.subrange(i, i) =~= p);
        }
    } else {
        lemma_find_from_bounds(s, p, i + 1);
    }
}

/// Where `find` finds `p`, it does occur there.
pub proof fn lemma_find_bounds(s: Seq<char>, p: Seq<char>)
    ensures
        find(s, p) matches Some(j) ==> 0 <= j && j + p.len() <= s.len() && s.subrange(j, j + p.len()) == p,
{
    lemma_find_from_bounds(s, p, 0);
}

/// The characters of a string slice, in order.
pub fn chars_of(s: &str) -> (v: Vec<char>)
    ensures
        v@ == s@,
{
    let mut v: Vec<char> = Vec::new();
    for c in it: s.chars()
        invariant
            it.seq() == s@,
            v@ == it.seq().take(it.index() as int),
    {
        v.push(c);
    }
    v
}

/// Builds a string from a sequence of characters (`FromIterator<&char> for String`).
#[verifier::external_body]
pub fn string_from_chars(v: &[char]) -> (s: String)
    ensures
        s@ == v@,
{
    v.iter().collect()
}

/// A copy of `s[a..b]`.
pub fn copy_range(s: &Vec<char>, a: usize, b: usize) -> (r: Vec<char>)
    requires
        a <= b <= s.len(),
    ensures
        r@ == s@.subrange(a as int, b as int),
{
    let mut r: Vec<char> = Vec::new();
    let mut i = a;
    while i < b
        invariant
            a <= i <= b <= s.len(),
            r@ == s@.subrange(a as int, i as int),
        decreases b - i,
    {
        r.push(s[i]);
        i += 1;
        assert(r@ =~= s@.subrange(a as int, i as int));
    }
    r
}

/// The index just past the leading characters of class `k`.
fn trimmed_start_index(s: &Vec<char>, k: CharClass) -> (a: usize)
    ensures
        a <= s.len(),
        trim_start_in(s@, k) == s@.subrange(a as int, s.len() as int),
        a < s.len() ==> !in_class(k, s@[a as int]),
{
    let n = s.len();
    let mut a: usize = 0;
    assert(s@.subrange(0, n as int) =~= s@);
    while a < n && char_in_class(k, s[a])
        invariant
            a <= n == s.len(),
            trim_start_in(s@, k) == trim_start_in(s@.subrange(a as int, n as int), k),
        decreases n - a,
    {
        assert(s@.subrange(a as int, n as int).drop_first() =~= s@.subrange(a + 1, n as int));
        a += 1;
    }
    a
}

/// The index just before the trailing characters of class `k` within `s[a..]`.
fn trimmed_end_index(s: &Vec<char>, a: usize, k: CharClass) -> (b: usize)
    requires
        a <= s.len(),
    ensures
        a <= b <= s.len(),
        trim_end_in(s@.subrange(a as int, s.len() as int), k) == s@.subrange(a as int, b as int),
{
    let n = s.len();
    let mut b: usize = n;
    while b > a && char_in_class(k, s[b - 1])
        invariant
            a <= b <= n == s.len(),
            trim_end_in(s@.subrange(a as int, n as int), k) == trim_end_in(
                s@.subrange(a as int, b as int),
                k,
            ),
        decreases b - a,
    {
        assert(s@.subrange(a as int, b as int).drop_last() =~= s@.subrange(a as int, b - 1));
        b -= 1;
    }
    b
}

/// `s` without the characters of class `k` at either end.
pub fn trim_chars(s: &Vec<char>, k: CharClass) -> (r: Vec<char>)
    ensures
        r@ == trim_in(s@, k),
{
    let a = trimmed_start_index(s, k);
    let b = trimmed_end_index(s, a, k);
    copy_range(s, a, b)
}

/// `s` without white space at either end.
pub fn trim_white_space(s: &Vec<char>) -> (r: Vec<char>)
    ensures
        r@ == trim(s@),
{
    trim_chars(s, CharClass::WhiteSpace)
}

/// Whether `p` occurs in `s` at index `i`.
pub fn matches_at(s: &Vec<char>, p: &Vec<char>, i: usize) -> (r: bool)
    ensures
        r == occurs_at(s@, p@, i as int),
{
    if i > s.len() || p.len() > s.len() - i {
        return false;
    }
    let mut k: usize = 0;
    while k < p.len()
        invariant
            i + p.len() <= s.len(),
            k <= p.len(),
            forall|j: int| 0 <= j < k ==> s@[i + j] == p@[j],
        decreases p.len() - k,
    {
        if s[i + k] != p[k] {
            assert(s@.subrange(i as int, i + p.len())[k as int] != p@[k as int]);
            return false;
        }
        k += 1;
    }
    assert(s@.subrange(i as int, i + p.len()) =~= p@);
    true
}

/// Whether `p` is a prefix of `s`.
pub fn starts_with(s: &Vec<char>, p: &Vec<char>) -> (r: bool)
    ensures
        r == has_prefix(s@, p@),
{
    let r = matches_at(s, p, 0);
    assert(s@.take(p@.len() as int) =~= s@.subrange(0, p@.len() as int));
    r
}

/// The first index where `p` occurs in `s`.
pub fn find_chars(s: &Vec<char>, p: &Vec<char>) -> (r: Option<usize>)
    ensures
        r matches Some(i) ==> find(s@, p@) == Some(i as int) && i + p@.len() <= s@.len(),
        r is None ==> find(s@, p@) is None,
{
    if p.len() > s.len() {
        return None;
    }
    let last = s.len() - p.len();
    let mut i: usize = 0;
    while i <= last
        invariant
            last + p.len() == s.len(),
            find(s@, p@) == find_from(s@, p@, i as int),
        decreases last + 1 - i,
    {
        if p.len() == 0 || matches_at(s, p, i) {
            return Some(i);
        }
        i += 1;
    }
    None
}

/// Whether two character sequences are equal.
pub fn eq_chars(a: &Vec<char>, b: &Vec<char>) -> (r: bool)
    ensures
        r == (a@ == b@),
{
    if a.len() != b.len() {
        return false;
    }
    let mut i: usize = 0;
    while i < a.len()
        invariant
            a.len() == b.len(),
            i <= a.len(),
            forall|j: int| 0 <= j < i ==> a@[j] == b@[j],
        decreases a.len() - i,
    {
        if a[i] != b[i] {
            return false;
        }
        i += 1;
    }
    assert(a@ =~= b@);
    true
}

/// Whether two string slices hold the same text.
pub fn same_text(a: &str, b: &str) -> (r: bool)
    ensures
        r == (a@ == b@),
{
    eq_chars(&chars_of(a), &chars_of(b))
}

/// An owned copy of a string slice.
pub fn owned(s: &str) -> (r: String)
    ensures
        r@ == s@,
{
    string_from_chars(chars_of(s).as_slice())
}

/// The views of a list of character vectors.
pub open spec fn lines_view(v: Seq<Vec<char>>) -> Seq<Seq<char>> {
    v.map_values(|l: Vec<char>| l@)
}

/// The pieces of `s` between its `'\n'` characters.
pub fn split_lines_of(s: &Vec<char>) -> (r: Vec<Vec<char>>)
    ensures
        lines_view(r@) == split_lines(s@),
{
    let mut done: Vec<Vec<char>> = Vec::new();
    let mut cur: Vec<char> = Vec::new();
    let mut i: usize = 0;
    assert(s@.take(0) =~= Seq::<char>::empty());
    assert(lines_view(done@).push(cur@) =~= split_lines(s@.take(0)));
    while i < s.len()
        invariant
            i <= s.len(),
            lines_view(done@).push(cur@) == split_lines(s@.take(i as int)),
        decreases s.len() - i,
    {
        let c = s[i];
        let ghost prev = split_lines(s@.take(i as int));
        assert(s@.take(i + 1).drop_last() =~= s@.take(i as int));
        assert(s@.take(i + 1).last() == c);
        proof {
            lemma_split_lines_nonempty(s@.take(i as int));
        }
        if c == '\n' {
            let finished = cur;
            done.push(finished);
            cur = Vec::new();
            assert(lines_view(done@).push(cur@) =~= prev.push(Seq::<char>::empty()));
        } else {
            cur.push(c);
            assert(lines_view(done@).push(cur@) =~= prev.update(prev.len() - 1, prev.last().push(c)));
        }
        i += 1;
    }
    assert(s@.take(s.len() as int) =~= s@);
    done.push(cur);
    done
}

/// Appends `src` to `dst`.
pub fn append_chars(dst: &mut Vec<char>, src: &Vec<char>)
    ensures
        final(dst)@ == old(dst)@ + src@,
{
    let ghost head = dst@;
    let mut i: usize = 0;
    while i < src.len()
        invariant
            i <= src.len(),
            dst@ == head + src@.take(i as int),
        decreases src.len() - i,
    {
        dst.push(src[i]);
        i += 1;
        assert(dst@ =~= head + src@.take(i as int));
    }
    assert(src@.take(src@.len() as int) =~= src@);
}

/// The text of `a`, then `b`, then `c`.
pub fn concat3(a: &str, b: &str, c: &str) -> (r: String)
    ensures
        r@ == a@ + b@ + c@,
{
    let mut v = chars_of(a);
    append_chars(&mut v, &chars_of(b));
    append_chars(&mut v, &chars_of(c));
    string_from_chars(v.as_slice())
}

/// `trim_end_in` keeps a prefix of its input.
pub proof fn lemma_trim_end_prefix(s: Seq<char>, k: CharClass)
    ensures
        trim_end_in(s, k).len() <= s.len(),
        forall|i: int| 0 <= i < trim_end_in(s, k).len() ==> trim_end_in(s, k)[i] == s[i],
    decreases s.len(),
{
    if s.len() > 0 && in_class(k, s.last()) {
        lemma_trim_end_prefix(s.drop_last(), k);
        assert forall|i: int| 0 <= i < trim_end_in(s, k).len() implies trim_end_in(s, k)[i]
            == s[i] by {
            assert(s.drop_last()[i] == s[i]);
        }
    }
}

/// What `trim_start_in` leaves does not start with a character of the class.
pub proof fn lemma_trim_start_first(s: Seq<char>, k: CharClass)
    ensures
        trim_start_in(s, k).len() > 0 ==> !in_class(k, trim_start_in(s, k)[0]),
    decreases s.len(),
{
    if s.len() > 0 && in_class(k, s[0]) {
        lemma_trim_start_first(s.drop_first(), k);
    }
}

/// What `trim_end_in` leaves does not end with a character of the class.
pub proof fn lemma_trim_end_last(s: Seq<char>, k: CharClass)
    ensures
        trim_end_in(s, k).len() > 0 ==> !in_class(k, trim_end_in(s, k).last()),
    decreases s.len(),
{
    if s.len() > 0 && in_class(k, s.last()) {
        lemma_trim_end_last(s.drop_last(), k);
    }
}

/// What `trim_in` leaves neither starts nor ends with a character of the class.
pub proof fn lemma_trim_ends(s: Seq<char>, k: CharClass)
    ensures
        trim_in(s, k).len() > 0 ==> !in_class(k, trim_in(s, k)[0]) && !in_class(
            k,
            trim_in(s, k).last(),
        ),
{
    lemma_trim_start_first(s, k);
    lemma_trim_end_prefix(trim_start_in(s, k), k);
    lemma_trim_end_last(trim_start_in(s, k), k);
}

/// Trimming never makes a text longer.
pub proof fn lemma_trim_shorter(s: Seq<char>, k: CharClass)
    ensures
        trim_start_in(s, k).len() <= s.len(),
        trim_in(s, k).len() <= s.len(),
    decreases s.len(),
{
    if s.len() > 0 && in_class(k, s[0]) {
        lemma_trim_shorter(s.drop_first(), k);
    }
    lemma_trim_end_prefix(trim_start_in(s, k), k);
}

/// Trimming twice is trimming once.
pub proof fn lemma_trim_idempotent(s: Seq<char>, k: CharClass)
    ensures
        trim_in(trim_in(s, k), k) == trim_in(s, k),
{
    let t = trim_in(s, k);
    lemma_trim_ends(s, k);
    if t.len() == 0 {
        assert(trim_start_in(t, k) == t);
    } else {
        assert(trim_start_in(t, k) == t);
        assert(trim_end_in(t, k) == t);
    }
}

} // verus!
