//! Text helpers with specifications: decimal rendering of integers,
//! character search and splitting, and string building.

use vstd::prelude::*;

verus! {

/// The ASCII digit for `d`, where `0 <= d < 10`.
pub open spec fn digit_char(d: int) -> char {
    if d == 0 { '0' } else if d == 1 { '1' } else if d == 2 { '2' } else if d == 3 { '3' }
    else if d == 4 { '4' } else if d == 5 { '5' } else if d == 6 { '6' } else if d == 7 { '7' }
    else if d == 8 { '8' } else { '9' }
}

/// Decimal representation of a natural number, without leading zeros.
pub open spec fn dec_nat(n: nat) -> Seq<char>
    decreases n,
{
    if n < 10 {
        seq![digit_char(n as int)]
    } else {
        dec_nat(n / 10) + seq![digit_char((n % 10) as int)]
    }
}

/// The decimal representation of a natural number is made of digits.
pub proof fn lemma_dec_nat_digits(n: nat)
    ensures
        dec_nat(n).len() > 0,
        forall|i: int| 0 <= i < dec_nat(n).len() ==> '0' <= #[trigger] dec_nat(n)[i] <= '9',
    decreases n,
{
    if n >= 10 {
        lemma_dec_nat_digits(n / 10);
    }
}

/// Decimal representation of an integer, with a leading `-` when negative.
pub open spec fn dec_int(i: int) -> Seq<char> {
    if i < 0 {
        seq!['-'] + dec_nat((-i) as nat)
    } else {
        dec_nat(i as nat)
    }
}

/// Appends `c` to `s`.
#[verifier::external_body]
pub(crate) fn string_push(s: &mut String, c: char)
    ensures
        final(s)@ == old(s)@.push(c),
{
    s.push(c);
}

fn digit(d: u64) -> (c: char)
    requires
        d < 10,
    ensures
        c == digit_char(d as int),
{
    if d == 0 { '0' } else if d == 1 { '1' } else if d == 2 { '2' } else if d == 3 { '3' }
    else if d == 4 { '4' } else if d == 5 { '5' } else if d == 6 { '6' } else if d == 7 { '7' }
    else if d == 8 { '8' } else { '9' }
}

/// Appends the decimal representation of `n` to `s`.
pub fn push_u64(s: &mut String, n: u64)
    ensures
        final(s)@ == old(s)@ + dec_nat(n as nat),
    decreases n,
{
    if n >= 10 {
        push_u64(s, n / 10);
    }
    string_push(s, digit(n % 10));
    proof {
        if n >= 10 {
            assert(final(s)@ =~= old(s)@ + dec_nat(n as nat));
        } else {
            assert(final(s)@ =~= old(s)@ + dec_nat(n as nat));
        }
    }
}

/// Appends the decimal representation of `n` to `s`.
pub fn push_i64(s: &mut String, n: i64)
    ensures
        final(s)@ == old(s)@ + dec_int(n as int),
{
    if n < 0 {
        string_push(s, '-');
        let m: u64 = (0i128 - (n as i128)) as u64;
        push_u64(s, m);
        assert(final(s)@ =~= old(s)@ + dec_int(n as int));
    } else {
        push_u64(s, n as u64);
    }
}

} // verus!

verus! {

/// Position of the first occurrence of `c` in `s`, if any.
pub open spec fn find_elem<A>(s: Seq<A>, c: A) -> Option<nat>
    decreases s.len(),
{
    if s.len() == 0 {
        None
    } else if s[0] == c {
        Some(0nat)
    } else {
        match find_elem(s.drop_first(), c) {
            Some(i) => Some(i + 1),
            None => None,
        }
    }
}

/// Position of the first occurrence of `c` in `s`, if any.
pub open spec fn find_char(s: Seq<char>, c: char) -> Option<nat> {
    find_elem(s, c)
}

/// `find_char` finds the first occurrence.
pub proof fn lemma_find_char_first<A>(s: Seq<A>, c: A, i: int)
    requires
        0 <= i < s.len(),
        s[i] == c,
        forall|j: int| 0 <= j < i ==> s[j] != c,
    ensures
        find_elem(s, c) == Some(i as nat),
    decreases i,
{
    if i > 0 {
        lemma_find_char_first(s.drop_first(), c, i - 1);
    }
}

/// `find_char` finds nothing when `c` does not occur.
pub proof fn lemma_find_char_none<A>(s: Seq<A>, c: A)
    requires
        forall|j: int| 0 <= j < s.len() ==> s[j] != c,
    ensures
        find_elem(s, c) == None::<nat>,
    decreases s.len(),
{
    if s.len() > 0 {
        lemma_find_char_none(s.drop_first(), c);
    }
}

/// What `find_char` returns is an occurrence, and nothing before it is one.
pub proof fn lemma_find_char_some<A>(s: Seq<A>, c: A)
    ensures
        find_elem(s, c) matches Some(i) ==> i < s.len() && s[i as int] == c
            && forall|j: int| 0 <= j < i ==> s[j] != c,
        find_elem(s, c) is None ==> forall|j: int| 0 <= j < s.len() ==> s[j] != c,
    decreases s.len(),
{
    if s.len() > 0 {
        lemma_find_char_some(s.drop_first(), c);
        if s[0] != c {
            assert forall|j: int| 0 < j < s.len() implies s[j] == s.drop_first()[j - 1] by {}
        }
    }
}

/// Index of the first `c` in `s`, scanning characters.
pub fn find_char_exec(s: &str, c: char) -> (r: Option<usize>)
    ensures
        r matches Some(i) ==> find_char(s@, c) == Some(i as nat),
        r is None ==> find_char(s@, c) is None,
{
    let n = s.unicode_len();
    let mut i: usize = 0;
    while i < n
        invariant
            n == s@.len(),
            i <= n,
            forall|j: int| 0 <= j < i ==> s@[j] != c,
        decreases n - i,
    {
        if s.get_char(i) == c {
            proof { lemma_find_char_first(s@, c, i as int); }
            return Some(i);
        }
        i = i + 1;
    }
    proof { lemma_find_char_none(s@, c); }
    None
}

/// The part of `s` before its first `c` (all of `s` when there is none).
pub open spec fn before_char(s: Seq<char>, c: char) -> Seq<char> {
    match find_char(s, c) {
        Some(i) => s.take(i as int),
        None => s,
    }
}

/// The part of `s` after its first `c` (empty when there is none).
pub open spec fn after_char(s: Seq<char>, c: char) -> Seq<char> {
    match find_char(s, c) {
        Some(i) => s.skip((i + 1) as int),
        None => Seq::empty(),
    }
}

/// The first two fields of `s` split at `'@'`: the local part and the
/// domain (up to a second `'@'`, if any).
pub open spec fn local_part(s: Seq<char>) -> Seq<char> {
    before_char(s, '@')
}

/// See `local_part`.
pub open spec fn domain_part(s: Seq<char>) -> Seq<char> {
    before_char(after_char(s, '@'), '@')
}

/// Builds a `String` holding `s[from..to]`.
pub fn substring(s: &str, from: usize, to: usize) -> (r: String)
    requires
        from <= to <= s@.len(),
    ensures
        r@ == s@.subrange(from as int, to as int),
{
    let sub = s.substring_char(from, to);
    String::from_str(sub)
}

/// The local part and the domain of an address, as `split('@')` gives
/// its first two fields.
pub fn split_address(s: &str) -> (r: (String, String))
    requires
        find_char(s@, '@') is Some,
    ensures
        r.0@ == local_part(s@),
        r.1@ == domain_part(s@),
{
    let n = s.unicode_len();
    let i = match find_char_exec(s, '@') {
        Some(i) => i,
        None => { return (String::new(), String::new()); }
    };
    proof { lemma_find_char_some(s@, '@'); }
    let p0 = substring(s, 0, i);
    let rest = s.substring_char(i + 1, n);
    let p1 = match find_char_exec(rest, '@') {
        Some(j) => {
            proof { lemma_find_char_some(rest@, '@'); }
            substring(rest, 0, j)
        },
        None => String::from_str(rest),
    };
    assert(p0@ =~= local_part(s@));
    assert(rest@ =~= after_char(s@, '@'));
    (p0, p1)
}

/// Whether `c` is a whitespace character (the Unicode `White_Space`
/// property, as `char::is_whitespace` uses).
pub open spec fn is_whitespace(c: char) -> bool {
    ||| ('\u{9}' <= c && c <= '\u{d}')
    ||| c == ' '
    ||| c == '\u{85}'
    ||| c == '\u{a0}'
    ||| c == '\u{1680}'
    ||| ('\u{2000}' <= c && c <= '\u{200a}')
    ||| c == '\u{2028}'
    ||| c == '\u{2029}'
    ||| c == '\u{202f}'
    ||| c == '\u{205f}'
    ||| c == '\u{3000}'
}

/// Whether `c` is whitespace.
pub fn char_is_whitespace(c: char) -> (b: bool)
    ensures
        b == is_whitespace(c),
{
    ('\u{9}' <= c && c <= '\u{d}') || c == ' ' || c == '\u{85}' || c == '\u{a0}'
        || c == '\u{1680}' || ('\u{2000}' <= c && c <= '\u{200a}') || c == '\u{2028}'
        || c == '\u{2029}' || c == '\u{202f}' || c == '\u{205f}' || c == '\u{3000}'
}

/// Whether `s` consists of whitespace only, i.e. `s.trim()` is empty.
pub open spec fn is_blank(s: Seq<char>) -> bool {
    forall|i: int| 0 <= i < s.len() ==> is_whitespace(s[i])
}

/// Whether `s.trim().is_empty()`.
pub fn str_is_blank(s: &str) -> (b: bool)
    ensures
        b == is_blank(s@),
{
    let n = s.unicode_len();
    let mut i: usize = 0;
    while i < n
        invariant
            n == s@.len(),
            i <= n,
            forall|j: int| 0 <= j < i ==> is_whitespace(s@[j]),
        decreases n - i,
    {
        if !char_is_whitespace(s.get_char(i)) {
            return false;
        }
        i = i + 1;
    }
    true
}

/// ASCII lower case of a character.
pub open spec fn ascii_lower(c: char) -> char {
    if 'A' <= c && c <= 'Z' { ((c as u32) + 32) as char } else { c }
}

/// Whether two strings are equal ignoring ASCII case (`eq_ignore_ascii_case`).
pub open spec fn eq_ignore_ascii_case(a: Seq<char>, b: Seq<char>) -> bool {
    a.len() == b.len() && forall|i: int| 0 <= i < a.len() ==> ascii_lower(a[i]) == ascii_lower(b[i])
}

fn ascii_lower_exec(c: char) -> (r: char)
    ensures
        r == ascii_lower(c),
{
    if 'A' <= c && c <= 'Z' {
        let u: u8 = (c as u32 + 32) as u8;
        u as char
    } else {
        c
    }
}

/// Whether `a` and `b` are equal ignoring ASCII case.
pub fn str_eq_ignore_ascii_case(a: &str, b: &str) -> (r: bool)
    ensures
        r == eq_ignore_ascii_case(a@, b@),
{
    let n = a.unicode_len();
    let m = b.unicode_len();
    if n != m {
        return false;
    }
    let mut i: usize = 0;
    while i < n
        invariant
            n == a@.len(),
            m == b@.len(),
            n == m,
            i <= n,
            forall|j: int| 0 <= j < i ==> ascii_lower(a@[j]) == ascii_lower(b@[j]),
        decreases n - i,
    {
        if ascii_lower_exec(a.get_char(i)) != ascii_lower_exec(b.get_char(i)) {
            return false;
        }
        i = i + 1;
    }
    true
}

/// Whether two strings hold the same characters.
pub fn str_eq(a: &str, b: &str) -> (r: bool)
    ensures
        r == (a@ == b@),
{
    let n = a.unicode_len();
    let m = b.unicode_len();
    if n != m {
        return false;
    }
    let mut i: usize = 0;
    while i < n
        invariant
            n == a@.len(),
            m == b@.len(),
            n == m,
            i <= n,
            forall|j: int| 0 <= j < i ==> a@[j] == b@[j],
        decreases n - i,
    {
        if a.get_char(i) != b.get_char(i) {
            return false;
        }
        i = i + 1;
    }
    assert(a@ =~= b@);
    true
}

} // verus!

verus! {

/// Appends `b[from..to]` to `out`.
pub fn push_range(out: &mut Vec<u8>, b: &[u8], from: usize, to: usize)
    requires
        from <= to <= b@.len(),
    ensures
        final(out)@ == old(out)@ + b@.subrange(from as int, to as int),
{
    let mut i = from;
    while i < to
        invariant
            from <= i <= to,
            to <= b@.len(),
            out@ == old(out)@ + b@.subrange(from as int, i as int),
        decreases to - i,
    {
        out.push(b[i]);
        i = i + 1;
        assert(out@ =~= old(out)@ + b@.subrange(from as int, i as int));
    }
}

/// Appends all of `b` to `out`.
pub fn push_all(out: &mut Vec<u8>, b: &[u8])
    ensures
        final(out)@ == old(out)@ + b@,
{
    push_range(out, b, 0, b.len());
    assert(b@.subrange(0, b@.len() as int) =~= b@);
}

} // verus!

verus! {

/// The UTF-8 encoding of a concatenation is the concatenation of the
/// encodings.
pub proof fn lemma_encode_utf8_concat(a: Seq<char>, b: Seq<char>)
    ensures
        vstd::utf8::encode_utf8(a + b) == vstd::utf8::encode_utf8(a) + vstd::utf8::encode_utf8(b),
    decreases a.len(),
{
    if a.len() > 0 {
        lemma_encode_utf8_concat(a.drop_first(), b);
        assert((a + b).drop_first() =~= a.drop_first() + b);
        assert((a + b)[0] == a[0]);
    } else {
        assert(a + b =~= b);
    }
}

/// The number of bytes of the UTF-8 encoding of `s`.
pub open spec fn byte_len(s: Seq<char>) -> nat {
    vstd::utf8::encode_utf8(s).len()
}

/// Byte lengths add up over concatenation.
pub proof fn lemma_byte_len_concat(a: Seq<char>, b: Seq<char>)
    ensures
        byte_len(a + b) == byte_len(a) + byte_len(b),
{
    lemma_encode_utf8_concat(a, b);
}

/// A prefix has no more bytes than the whole.
pub proof fn lemma_byte_len_take(s: Seq<char>, k: int)
    requires
        0 <= k <= s.len(),
    ensures
        byte_len(s.take(k)) <= byte_len(s),
        byte_len(s.take(k)) + byte_len(s.skip(k)) == byte_len(s),
{
    assert(s =~= s.take(k) + s.skip(k));
    lemma_byte_len_concat(s.take(k), s.skip(k));
}

/// `n` spaces.
pub open spec fn spaces(n: nat) -> Seq<char> {
    Seq::new(n, |i: int| ' ')
}

/// Appends `n` spaces to `s`.
pub fn push_spaces(s: &mut String, n: usize)
    ensures
        final(s)@ == old(s)@ + spaces(n as nat),
{
    let mut i: usize = 0;
    while i < n
        invariant
            i <= n,
            s@ == old(s)@ + spaces(i as nat),
        decreases n - i,
    {
        string_push(s, ' ');
        i = i + 1;
        assert(s@ =~= old(s)@ + spaces(i as nat));
    }
}

/// Removes the last character of `s`, if any.
#[verifier::external_body]
pub(crate) fn string_pop(s: &mut String)
    ensures
        old(s)@.len() > 0 ==> final(s)@ == old(s)@.drop_last(),
        old(s)@.len() == 0 ==> final(s)@ == old(s)@,
{
    s.pop();
}

} // verus!

verus! {

/// Whether `p` occurs in `s` at `i`.
pub open spec fn occurs_at(s: Seq<char>, p: Seq<char>, i: int) -> bool {
    0 <= i && i + p.len() <= s.len() && s.subrange(i, i + p.len()) == p
}

/// The first position at or after `i` where `p` occurs in `s`.
pub open spec fn find_sub_from(s: Seq<char>, p: Seq<char>, i: nat) -> Option<nat>
    decreases s.len() + 1 - i,
{
    if i + p.len() > s.len() {
        None
    } else if occurs_at(s, p, i as int) {
        Some(i)
    } else {
        find_sub_from(s, p, i + 1)
    }
}

/// The first position where `p` occurs in `s` (`str::find`).
pub open spec fn find_sub(s: Seq<char>, p: Seq<char>) -> Option<nat> {
    find_sub_from(s, p, 0)
}

/// What `find_sub_from` finds is an occurrence at or after `i`.
pub proof fn lemma_find_sub_from(s: Seq<char>, p: Seq<char>, i: nat)
    ensures
        find_sub_from(s, p, i) matches Some(k) ==> i <= k && occurs_at(s, p, k as int),
    decreases s.len() + 1 - i,
{
    if i + p.len() <= s.len() && !occurs_at(s, p, i as int) {
        lemma_find_sub_from(s, p, i + 1);
    }
}

/// `find_sub_from` finds the first occurrence at or after `i`: nothing
/// occurs between `i` and what it finds, and nothing at all after `i` when
/// it finds nothing.
pub proof fn lemma_find_sub_from_first(s: Seq<char>, p: Seq<char>, i: nat)
    ensures
        find_sub_from(s, p, i) matches Some(k) ==> forall|m: int|
            i <= m < k ==> !occurs_at(s, p, m),
        find_sub_from(s, p, i) is None ==> forall|m: int| i <= m ==> !occurs_at(s, p, m),
    decreases s.len() + 1 - i,
{
    if i + p.len() <= s.len() && !occurs_at(s, p, i as int) {
        lemma_find_sub_from_first(s, p, i + 1);
    }
}

/// An occurrence at `j`, with none between `i` and `j`, is what
/// `find_sub_from` finds from `i`.
pub proof fn lemma_find_sub_at(s: Seq<char>, p: Seq<char>, i: nat, j: nat)
    requires
        i <= j,
        occurs_at(s, p, j as int),
        forall|m: int| i <= m < j ==> !occurs_at(s, p, m),
    ensures
        find_sub_from(s, p, i) == Some(j),
    decreases j - i,
{
    if i < j {
        assert(!occurs_at(s, p, i as int));
        lemma_find_sub_at(s, p, i + 1, j);
    }
}

/// An occurrence at `j` means that `find_sub_from` finds one from any
/// `i <= j`, at `j` at the latest.
pub proof fn lemma_find_sub_some(s: Seq<char>, p: Seq<char>, i: nat, j: nat)
    requires
        i <= j,
        occurs_at(s, p, j as int),
    ensures
        find_sub_from(s, p, i) matches Some(k) && i <= k <= j && occurs_at(s, p, k as int),
{
    lemma_find_sub_from(s, p, i);
    lemma_find_sub_from_first(s, p, i);
}

fn occurs_at_exec(s: &str, p: &str, i: usize) -> (r: bool)
    requires
        i <= s@.len(),
    ensures
        r == occurs_at(s@, p@, i as int),
{
    let n = s.unicode_len();
    let m = p.unicode_len();
    if m > n - i {
        return false;
    }
    let mut k: usize = 0;
    while k < m
        invariant
            n == s@.len(),
            m == p@.len(),
            i + m <= n,
            k <= m,
            forall|j: int| 0 <= j < k ==> s@[i + j] == p@[j],
        decreases m - k,
    {
        if s.get_char(i + k) != p.get_char(k) {
            assert(s@.subrange(i as int, i + m)[k as int] != p@[k as int]);
            return false;
        }
        k = k + 1;
    }
    assert(s@.subrange(i as int, i + m) =~= p@);
    true
}

/// The first position of `p` in `s` at or after `from`.
pub fn find_sub_exec(s: &str, p: &str, from: usize) -> (r: Option<usize>)
    requires
        from <= s@.len(),
    ensures
        r matches Some(k) ==> find_sub_from(s@, p@, from as nat) == Some(k as nat),
        r is None ==> find_sub_from(s@, p@, from as nat) is None,
{
    let n = s.unicode_len();
    let m = p.unicode_len();
    let mut i = from;
    while i <= n
        invariant
            n == s@.len(),
            m == p@.len(),
            from <= i,
            find_sub_from(s@, p@, from as nat) == find_sub_from(s@, p@, i as nat),
        decreases n + 1 - i,
    {
        if m > n - i {
            return None;
        }
        if occurs_at_exec(s, p, i) {
            return Some(i);
        }
        if i >= n {
            assert(find_sub_from(s@, p@, (i + 1) as nat) is None);
            return None;
        }
        i = i + 1;
    }
    None
}

/// The end of the line that starts at `i`: the position of the next `\n`,
/// or the end of `s`.
pub open spec fn line_end(s: Seq<char>, i: nat) -> nat
    decreases s.len() - i,
{
    if i >= s.len() {
        s.len()
    } else if s[i as int] == '\n' {
        i
    } else {
        line_end(s, i + 1)
    }
}

/// `line_end` lies between `i` and the end of `s`, and only `\n` ends a line.
pub proof fn lemma_line_end(s: Seq<char>, i: nat)
    requires
        i <= s.len(),
    ensures
        i <= line_end(s, i) <= s.len(),
        line_end(s, i) < s.len() ==> s[line_end(s, i) as int] == '\n',
        forall|j: int| i <= j < line_end(s, i) ==> s[j] != '\n',
    decreases s.len() - i,
{
    if i < s.len() && s[i as int] != '\n' {
        lemma_line_end(s, i + 1);
    }
}

/// The line that starts at `i` ends at the first `\n` from `i`.
pub proof fn lemma_line_end_at(s: Seq<char>, i: nat, j: nat)
    requires
        i <= j < s.len(),
        s[j as int] == '\n',
        forall|k: int| i <= k < j ==> s[k] != '\n',
    ensures
        line_end(s, i) == j,
    decreases j - i,
{
    if i < j {
        lemma_line_end_at(s, i + 1, j);
    }
}

/// Within a text that ends with `\n`, lines end where they end once more
/// text follows.
pub proof fn lemma_line_end_prefix(a: Seq<char>, x: Seq<char>, i: nat)
    requires
        i < a.len(),
        a.last() == '\n',
    ensures
        line_end(a + x, i) == line_end(a, i),
        line_end(a, i) < a.len(),
    decreases a.len() - i,
{
    assert((a + x)[i as int] == a[i as int]);
    if a[i as int] != '\n' {
        if i + 1 < a.len() {
            lemma_line_end_prefix(a, x, i + 1);
        } else {
            assert(i == a.len() - 1);
        }
    }
}

/// Where no line of `a` (which is empty or ends with `\n`) starts with
/// `t`, the first such line of `a + x` is the first such line of `x`.
pub proof fn lemma_first_line_concat(a: Seq<char>, x: Seq<char>, t: Seq<char>, i: nat)
    requires
        a.len() > 0 ==> a.last() == '\n',
        i <= a.len(),
        first_line_with_prefix_from(a, t, i) is None,
    ensures
        first_line_with_prefix_from(a + x, t, i) == first_line_with_prefix_from(
            a + x,
            t,
            a.len(),
        ),
    decreases a.len() - i,
{
    if i < a.len() {
        lemma_line_end_prefix(a, x, i);
        lemma_line_end(a, i);
        let e = line_end(a, i);
        assert((a + x).subrange(i as int, e as int) =~= a.subrange(i as int, e as int));
        assert(line_at(a + x, i) == line_at(a, i));
        lemma_first_line_concat(a, x, t, e + 1);
    }
}

/// The line that starts at `i`, as `str::lines` gives it: without its
/// `\n`, and without the `\r` before that `\n`.
pub open spec fn line_at(s: Seq<char>, i: nat) -> Seq<char> {
    let e = line_end(s, i);
    let raw = s.subrange(i as int, e as int);
    if e < s.len() && raw.len() > 0 && raw.last() == '\r' {
        raw.drop_last()
    } else {
        raw
    }
}

/// The first line, starting at the line that starts at `i`, that begins
/// with `t`.
pub open spec fn first_line_with_prefix_from(s: Seq<char>, t: Seq<char>, i: nat) -> Option<
    Seq<char>,
>
    decreases s.len() + 1 - i,
{
    if i >= s.len() {
        None
    } else if t.is_prefix_of(line_at(s, i)) {
        Some(line_at(s, i))
    } else {
        proof {
            lemma_line_end(s, i);
        }
        first_line_with_prefix_from(s, t, line_end(s, i) + 1)
    }
}

/// The first line of `s` that begins with `t`.
pub open spec fn first_line_with_prefix(s: Seq<char>, t: Seq<char>) -> Option<Seq<char>> {
    first_line_with_prefix_from(s, t, 0)
}

fn starts_with(s: &str, p: &str) -> (r: bool)
    ensures
        r == p@.is_prefix_of(s@),
{
    let n = s.unicode_len();
    let m = p.unicode_len();
    if m > n {
        return false;
    }
    let mut k: usize = 0;
    while k < m
        invariant
            n == s@.len(),
            m == p@.len(),
            m <= n,
            k <= m,
            forall|j: int| 0 <= j < k ==> s@[j] == p@[j],
        decreases m - k,
    {
        if s.get_char(k) != p.get_char(k) {
            return false;
        }
        k = k + 1;
    }
    true
}

/// The first line of `s` that begins with `t`.
pub fn find_line_with_prefix(s: &str, t: &str) -> (r: Option<String>)
    ensures
        r matches Some(l) ==> first_line_with_prefix(s@, t@) == Some(l@),
        r is None ==> first_line_with_prefix(s@, t@) is None,
{
    let n = s.unicode_len();
    let mut i: usize = 0;
    while i < n
        invariant
            n == s@.len(),
            i <= n,
            first_line_with_prefix(s@, t@) == first_line_with_prefix_from(s@, t@, i as nat),
        decreases n - i,
    {
        let mut e = i;
        while e < n && s.get_char(e) != '\n'
            invariant
                n == s@.len(),
                i <= e <= n,
                line_end(s@, i as nat) == line_end(s@, e as nat),
            decreases n - e,
        {
            e = e + 1;
        }
        proof {
            lemma_line_end(s@, i as nat);
        }
        let mut last = e;
        if e < n && e > i && s.get_char(e - 1) == '\r' {
            last = e - 1;
        }
        let line = substring(s, i, last);
        assert(line@ =~= line_at(s@, i as nat));
        if starts_with(line.as_str(), t) {
            return Some(line);
        }
        if e >= n {
            assert(first_line_with_prefix_from(s@, t@, (e + 1) as nat) is None);
            return None;
        }
        i = e + 1;
    }
    None
}

} // verus!
