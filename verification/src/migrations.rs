//! The table of schema migrations that is compiled into the library,
//! generated from the SQL files of the migrations directory.
//!
//! Each migration `NNN.sql` (or `NNN.data.sql`, for one that changes data
//! rather than the schema) has an undo file `NNN.undo.sql`. The table lists,
//! in order, the number of each migration and its two scripts; the scripts
//! of data migrations are also appended to the schema.

use vstd::prelude::*;

use crate::mail::message_filters::utf8;
use crate::posts::{trim, trimmed};
use crate::text::{occurs_at, push_all};

verus! {

/// Whether `c` is an ASCII decimal digit.
pub open spec fn is_digit(c: char) -> bool {
    '0' <= c && c <= '9'
}

/// The value of a digit character.
pub open spec fn digit_value(c: char) -> nat {
    (c as int - '0' as int) as nat
}

/// The number that the decimal digits `s` write.
pub open spec fn digits_value(s: Seq<char>) -> nat
    decreases s.len(),
{
    if s.len() == 0 {
        0
    } else {
        digits_value(s.drop_last()) * 10 + digit_value(s.last())
    }
}

/// `s` without the one `+` sign that may lead it.
pub open spec fn unsigned_digits(s: Seq<char>) -> Seq<char> {
    if s.len() > 0 && s[0] == '+' {
        s.drop_first()
    } else {
        s
    }
}

/// Whether `s` is the text of a `u32`: an optional `+` and at least one
/// decimal digit, of a value that fits in 32 bits.
pub open spec fn parses_as_u32(s: Seq<char>) -> bool {
    let d = unsigned_digits(s);
    &&& d.len() > 0
    &&& forall|i: int| 0 <= i < d.len() ==> is_digit(#[trigger] d[i])
    &&& digits_value(d) <= u32::MAX
}

/// `s` without the zeros that lead it.
pub open spec fn without_leading_zeros(s: Seq<char>) -> Seq<char>
    decreases s.len(),
{
    if s.len() > 0 && s[0] == '0' {
        without_leading_zeros(s.drop_first())
    } else {
        s
    }
}

/// Whether the file stem `stem` is that of a data migration: it ends in
/// `.data`.
pub open spec fn is_data_migration(stem: Seq<char>) -> bool {
    stem.len() >= 5 && stem.subrange(stem.len() - 5, stem.len() as int) == ".data"@
}

/// The number part of the file stem `stem`: the stem without its `.data`.
pub open spec fn migration_number(stem: Seq<char>) -> Seq<char> {
    if is_data_migration(stem) {
        stem.subrange(0, stem.len() - 5)
    } else {
        stem
    }
}

proof fn lemma_digits_prefix(s: Seq<char>, k: int)
    requires
        0 <= k <= s.len(),
    ensures
        digits_value(s.take(k)) <= digits_value(s),
    decreases s.len(),
{
    if k < s.len() {
        assert(s.drop_last().take(k) =~= s.take(k));
        lemma_digits_prefix(s.drop_last(), k);
    } else {
        assert(s.take(k) =~= s);
    }
}

/// Whether `s` starts with `p`.
fn starts_with(s: &str, p: &str) -> (r: bool)
    ensures
        r == occurs_at(s@, p@, 0),
{
    let n = s.unicode_len();
    let m = p.unicode_len();
    if m > n {
        return false;
    }
    let mut i: usize = 0;
    while i < m
        invariant
            m <= n,
            n == s@.len(),
            m == p@.len(),
            i <= m,
            forall|j: int| 0 <= j < i ==> s@[j] == p@[j],
        decreases m - i,
    {
        if s.get_char(i) != p.get_char(i) {
            assert(s@.subrange(0, m as int)[i as int] != p@[i as int]);
            return false;
        }
        i = i + 1;
    }
    assert(s@.subrange(0, m as int) =~= p@);
    true
}

/// Whether the file stem `stem` is that of a data migration.
fn is_data_stem(stem: &str) -> (r: bool)
    ensures
        r == is_data_migration(stem@),
{
    proof {
        reveal_strlit(".data");
    }
    let n = stem.unicode_len();
    if n < 5 {
        return false;
    }
    let tail = crate::text::substring(stem, n - 5, n);
    crate::text::str_eq(tail.as_str(), ".data")
}

/// The number part of the file stem `stem`.
fn number_of(stem: &str) -> (r: String)
    ensures
        r@ == migration_number(stem@),
{
    if is_data_stem(stem) {
        let n = stem.unicode_len();
        crate::text::substring(stem, 0, n - 5)
    } else {
        String::from_str(stem)
    }
}

/// The value of the `u32` that `s` writes, where it writes one.
fn parse_u32(s: &str) -> (r: Option<u64>)
    ensures
        r is Some <==> parses_as_u32(s@),
        r matches Some(v) ==> v == digits_value(unsigned_digits(s@)),
{
    let n = s.unicode_len();
    let mut start: usize = 0;
    if n > 0 && s.get_char(0) == '+' {
        start = 1;
    }
    let ghost d = unsigned_digits(s@);
    assert(d =~= s@.subrange(start as int, n as int));
    if start == n {
        return None;
    }
    let mut k: usize = start;
    let mut v: u64 = 0;
    assert(d.take(0) =~= Seq::<char>::empty());
    while k < n
        invariant
            start <= k <= n,
            n == s@.len(),
            d == s@.subrange(start as int, n as int),
            d == unsigned_digits(s@),
            v == digits_value(d.take(k - start)),
            v <= u32::MAX,
            forall|i: int| 0 <= i < k - start ==> is_digit(#[trigger] d[i]),
        decreases n - k,
    {
        let c = s.get_char(k);
        if !('0' <= c && c <= '9') {
            assert(!is_digit(d[k - start]));
            return None;
        }
        let dv: u64 = (c as u32 - 48u32) as u64;
        let nv: u64 = v * 10 + dv;
        assert(d.take(k + 1 - start).drop_last() =~= d.take(k - start));
        assert(d.take(k + 1 - start).last() == c);
        assert(nv == digits_value(d.take(k + 1 - start)));
        if nv > 0xffff_ffffu64 {
            proof {
                lemma_digits_prefix(d, k + 1 - start);
            }
            return None;
        }
        v = nv;
        k = k + 1;
    }
    assert(d.take(k - start) =~= d);
    Some(v)
}

/// `s` without its leading zeros.
fn strip_leading_zeros(s: &str) -> (r: String)
    ensures
        r@ == without_leading_zeros(s@),
{
    let n = s.unicode_len();
    let mut k: usize = 0;
    assert(s@.subrange(0, n as int) =~= s@);
    while k < n && s.get_char(k) == '0'
        invariant
            k <= n,
            n == s@.len(),
            without_leading_zeros(s@) == without_leading_zeros(s@.subrange(k as int, n as int)),
        decreases n - k,
    {
        assert(s@.subrange(k as int, n as int).drop_first() =~= s@.subrange(k + 1, n as int));
        k = k + 1;
    }
    crate::text::substring(s, k, n)
}

/// Why the migration files do not make a table.
#[derive(Debug, Clone, Copy, PartialEq, Eq, Structural)]
pub enum MigrationError {
    /// The undo file at this position does not start with the number of the
    /// migration at the same position.
    UndoMismatch(usize),
    /// The file stem of the migration at this position is no number.
    NotANumber(usize),
    /// The number of the migration at this position is not that position
    /// plus one: numbers start at one and none is missing.
    OutOfSequence(usize),
}

/// How the migration at position `i` fails (see `MigrationError`), or 0:
/// 1 where its undo file does not match it, 2 where its number is no
/// number, 3 where the number is not `i + 1`.
pub open spec fn migration_check(
    redo: Seq<(String, String)>,
    undo: Seq<(String, String)>,
    i: int,
) -> u8 {
    let num = migration_number(redo[i].0@);
    if !occurs_at(undo[i].0@, num, 0) {
        1
    } else if !parses_as_u32(num) {
        2
    } else if digits_value(unsigned_digits(num)) != i + 1 {
        3
    } else {
        0
    }
}

/// The position and the kind (see `migration_check`) of an error.
pub open spec fn error_of(e: MigrationError) -> (int, u8) {
    match e {
        MigrationError::UndoMismatch(i) => (i as int, 1),
        MigrationError::NotANumber(i) => (i as int, 2),
        MigrationError::OutOfSequence(i) => (i as int, 3),
    }
}

/// The entry of the migration at position `i`: its number without leading
/// zeros, then its script and its undo script, each trimmed and written as
/// a raw string.
pub open spec fn migration_entry(
    redo: Seq<(String, String)>,
    undo: Seq<(String, String)>,
    i: int,
) -> Seq<char> {
    "("@ + without_leading_zeros(migration_number(redo[i].0@)) + ",r###\""@ + trimmed(redo[i].1@)
        + "\"###,r###\""@ + trimmed(undo[i].1@) + "\"###),"@
}

/// The entries of the first `n` migrations.
pub open spec fn migration_entries(
    redo: Seq<(String, String)>,
    undo: Seq<(String, String)>,
    n: nat,
) -> Seq<char>
    decreases n,
{
    if n == 0 {
        Seq::empty()
    } else {
        migration_entries(redo, undo, (n - 1) as nat) + migration_entry(redo, undo, n - 1)
    }
}

/// The table of the first `n` migrations, as the text of a Rust array of
/// `(user_version, redo sql, undo sql)`.
pub open spec fn migration_table(
    redo: Seq<(String, String)>,
    undo: Seq<(String, String)>,
    n: nat,
) -> Seq<char> {
    "\n//(user_version, redo sql, undo sql\n&["@ + migration_entries(redo, undo, n) + "]"@
}

/// What the first `n` migrations add to the schema: for each data
/// migration, a comment that names its file and its whole script.
pub open spec fn data_sections(redo: Seq<(String, String)>, n: nat) -> Seq<char>
    decreases n,
{
    if n == 0 {
        Seq::empty()
    } else {
        let i = n - 1;
        let section = if is_data_migration(redo[i].0@) {
            "\n\n-- "@ + migration_number(redo[i].0@) + ".data.sql\n\n"@ + redo[i].1@
        } else {
            Seq::empty()
        };
        data_sections(redo, (n - 1) as nat) + section
    }
}

/// The number of migrations that are paired with an undo file.
pub open spec fn paired(redo: Seq<(String, String)>, undo: Seq<(String, String)>) -> nat {
    if redo.len() < undo.len() {
        redo.len()
    } else {
        undo.len()
    }
}

/// Whether the migrations `redo` and their undo files `undo` make a table:
/// at each position the undo file starts with the migration's number, and
/// that number is a `u32` equal to the position plus one.
pub open spec fn migrations_ok(redo: Seq<(String, String)>, undo: Seq<(String, String)>) -> bool {
    forall|i: int| 0 <= i < paired(redo, undo) ==> migration_check(redo, undo, i) == 0
}

/// The first position at which the migrations `redo` and their undo files
/// `undo` (see `make_migrations`) do not make a table, and why; `None` when
/// they do.
pub fn check_migrations(redo: &Vec<(String, String)>, undo: &Vec<(String, String)>) -> (r: Option<
    MigrationError,
>)
    ensures
        r is None <==> migrations_ok(redo@, undo@),
        r matches Some(e) ==> ({
            let (k, kind) = error_of(e);
            &&& 0 <= k < paired(redo@, undo@)
            &&& migration_check(redo@, undo@, k) == kind
            &&& forall|j: int| 0 <= j < k ==> migration_check(redo@, undo@, j) == 0
        }),
{
    let n = if redo.len() < undo.len() {
        redo.len()
    } else {
        undo.len()
    };
    let mut i: usize = 0;
    while i < n
        invariant
            n == paired(redo@, undo@),
            i <= n,
            forall|j: int| 0 <= j < i ==> migration_check(redo@, undo@, j) == 0,
        decreases n - i,
    {
        let num = number_of(redo[i].0.as_str());
        if !starts_with(undo[i].0.as_str(), num.as_str()) {
            assert(migration_check(redo@, undo@, i as int) == 1);
            return Some(MigrationError::UndoMismatch(i));
        }
        match parse_u32(num.as_str()) {
            None => {
                assert(migration_check(redo@, undo@, i as int) == 2);
                return Some(MigrationError::NotANumber(i));
            },
            Some(v) => {
                if v != (i as u64) + 1 {
                    assert(migration_check(redo@, undo@, i as int) == 3);
                    return Some(MigrationError::OutOfSequence(i));
                }
            },
        }
        i = i + 1;
    }
    None
}

/// The table of the migrations `redo`, each a file stem (such as `001` or
/// `002.data`) with its script, and their undo files `undo`, each a file
/// name (such as `001.undo.sql`) with its script, both in the order of
/// their names; the scripts of data migrations are appended to `schema`.
/// Migrations and undo files are paired by position, as far as both go.
///
/// The files must make a table (`migrations_ok`, which `check_migrations`
/// tests): each undo file starts with the number of its migration, and the
/// numbers are one, two, and so on.
pub fn make_migrations(
    redo: &Vec<(String, String)>,
    undo: &Vec<(String, String)>,
    schema: &mut Vec<u8>,
) -> (r: String)
    requires
        migrations_ok(redo@, undo@),
    ensures
        r@ == migration_table(redo@, undo@, paired(redo@, undo@)),
        final(schema)@ == old(schema)@ + utf8(data_sections(redo@, paired(redo@, undo@))),
{
    let n = if redo.len() < undo.len() {
        redo.len()
    } else {
        undo.len()
    };
    let mut out = String::from_str("\n//(user_version, redo sql, undo sql\n&[");
    let mut data = String::new();
    let mut i: usize = 0;
    while i < n
        invariant
            n == paired(redo@, undo@),
            i <= n,
            out@ == "\n//(user_version, redo sql, undo sql\n&["@ + migration_entries(redo@, undo@, i as nat),
            data@ == data_sections(redo@, i as nat),
        decreases n - i,
    {
        let stem = redo[i].0.as_str();
        let num = number_of(stem);
        let ghost before = out@;
        out.append("(");
        let z = strip_leading_zeros(num.as_str());
        out.append(z.as_str());
        out.append(",r###\"");
        let t = trim(redo[i].1.as_str());
        out.append(t.as_str());
        out.append("\"###,r###\"");
        let u = trim(undo[i].1.as_str());
        out.append(u.as_str());
        out.append("\"###),");
        assert(out@ =~= before + migration_entry(redo@, undo@, i as int));
        if is_data_stem(stem) {
            data.append("\n\n-- ");
            data.append(num.as_str());
            data.append(".data.sql\n\n");
            data.append(redo[i].1.as_str());
        }
        assert(data@ =~= data_sections(redo@, (i + 1) as nat));
        i = i + 1;
    }
    out.append("]");
    push_all(schema, data.as_str().as_bytes());
    out
}

} // verus!
