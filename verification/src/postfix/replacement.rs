//! Saving the service entry in `master.cf` again replaces the entry that an
//! earlier save appended.

use vstd::prelude::*;

use super::{master_cf_entry, master_cf_update, transport_of, PostfixConfiguration};
use crate::text::{
    dec_nat, find_sub, find_sub_from, first_line_with_prefix, lemma_dec_nat_digits, lemma_find_sub_at,
    lemma_find_sub_from, lemma_find_sub_from_first, lemma_find_sub_some, lemma_first_line_concat,
    lemma_line_end_at, line_at, line_end, occurs_at,
};

verus! {

/// Whether `s` holds no `c`.
pub open spec fn lacks(s: Seq<char>, c: char) -> bool {
    forall|i: int| 0 <= i < s.len() ==> s[i] != c
}

/// The process limit of a configuration, `1` by default.
pub open spec fn limit_of(c: PostfixConfiguration) -> nat {
    match c.process_limit {
        Some(n) => n as nat,
        None => 1,
    }
}

/// The `:group` part of the service's user, where a group is set.
pub open spec fn group_part(c: PostfixConfiguration) -> Seq<char> {
    match c.group {
        Some(g) => seq![':'] + g@,
        None => Seq::empty(),
    }
}

/// The first line of the service entry.
pub open spec fn entry_first_line(c: PostfixConfiguration) -> Seq<char> {
    transport_of(c) + " unix - n n - "@ + dec_nat(limit_of(c)) + " pipe"@
}

/// The second line of the service entry.
pub open spec fn entry_second_line(c: PostfixConfiguration, d: Seq<char>, p: Seq<char>) -> Seq<
    char,
> {
    "flags=RX user="@ + c.user@ + group_part(c) + " directory={"@ + d + "} argv={"@
        + c.binary_path@ + "} -c {"@ + p + "} post"@
}

/// Whether a configuration, its data directory `d` and its configuration
/// file `p` write an entry of two lines whose first line holds no `=`.
pub open spec fn plain_entry(c: PostfixConfiguration, d: Seq<char>, p: Seq<char>) -> bool {
    &&& lacks(transport_of(c), '\n')
    &&& lacks(transport_of(c), '=')
    &&& lacks(c.user@, '\n')
    &&& lacks(group_part(c), '\n')
    &&& lacks(c.binary_path@, '\n')
    &&& lacks(d, '\n')
    &&& lacks(p, '\n')
}

proof fn lemma_entry_lines(c: PostfixConfiguration, d: Seq<char>, p: Seq<char>)
    ensures
        master_cf_entry(c, d, p) == entry_first_line(c) + seq!['\n'] + entry_second_line(c, d, p),
{
    reveal_strlit(" pipe\nflags=RX user=");
    reveal_strlit(" pipe");
    reveal_strlit("flags=RX user=");
    assert(" pipe\nflags=RX user="@ =~= " pipe"@ + seq!['\n'] + "flags=RX user="@);
    assert(master_cf_entry(c, d, p) =~= entry_first_line(c) + seq!['\n'] + entry_second_line(
        c,
        d,
        p,
    ));
}

proof fn lemma_first_line_plain(c: PostfixConfiguration)
    requires
        lacks(transport_of(c), '\n'),
        lacks(transport_of(c), '='),
    ensures
        lacks(entry_first_line(c), '\n'),
        lacks(entry_first_line(c), '='),
        entry_first_line(c).len() > 0,
        entry_first_line(c).last() != '\r',
        transport_of(c).is_prefix_of(entry_first_line(c)),
{
    reveal_strlit(" unix - n n - ");
    reveal_strlit(" pipe");
    lemma_dec_nat_digits(limit_of(c));
    let t = transport_of(c);
    let u = " unix - n n - "@;
    let n = dec_nat(limit_of(c));
    let e = " pipe"@;
    let l = entry_first_line(c);
    assert forall|i: int| 0 <= i < l.len() implies l[i] != '\n' && l[i] != '=' by {
        if i < t.len() {
            assert(l[i] == t[i]);
        } else if i < t.len() + u.len() {
            assert(l[i] == u[i - t.len()]);
        } else if i < t.len() + u.len() + n.len() {
            assert(l[i] == n[i - t.len() - u.len()]);
        } else {
            assert(l[i] == e[i - t.len() - u.len() - n.len()]);
        }
    }
    assert(l.last() == 'e');
    assert(l.subrange(0, t.len() as int) =~= t);
}

proof fn lemma_second_line_plain(c: PostfixConfiguration, d: Seq<char>, p: Seq<char>)
    requires
        plain_entry(c, d, p),
    ensures
        lacks(entry_second_line(c, d, p), '\n'),
        occurs_at(
            entry_second_line(c, d, p),
            " argv="@,
            ("flags=RX user="@.len() + c.user@.len() + group_part(c).len()
                + " directory={"@.len() + d.len() + 1) as int,
        ),
{
    reveal_strlit("flags=RX user=");
    reveal_strlit(" directory={");
    reveal_strlit("} argv={");
    reveal_strlit("} -c {");
    reveal_strlit("} post");
    reveal_strlit(" argv=");
    let parts = seq![
        "flags=RX user="@,
        c.user@,
        group_part(c),
        " directory={"@,
        d,
        "} argv={"@,
        c.binary_path@,
        "} -c {"@,
        p,
        "} post"@,
    ];
    let l = entry_second_line(c, d, p);
    let a = "flags=RX user="@ + c.user@ + group_part(c) + " directory={"@ + d;
    let b = "} argv={"@ + c.binary_path@ + "} -c {"@ + p + "} post"@;
    assert(l =~= a + b);
    assert forall|i: int| 0 <= i < a.len() implies a[i] != '\n' by {
        let a1 = "flags=RX user="@ + c.user@;
        let a2 = a1 + group_part(c);
        let a3 = a2 + " directory={"@;
        if i < a1.len() {
            if i < "flags=RX user="@.len() {
            } else {
                assert(a1[i] == c.user@[i - "flags=RX user="@.len()]);
            }
        } else if i < a2.len() {
            assert(a2[i] == group_part(c)[i - a1.len()]);
        } else if i < a3.len() {
        } else {
            assert(a[i] == d[i - a3.len()]);
        }
    }
    assert forall|i: int| 0 <= i < b.len() implies b[i] != '\n' by {
        let b1 = "} argv={"@ + c.binary_path@;
        let b2 = b1 + "} -c {"@;
        let b3 = b2 + p;
        if i < b1.len() {
            if i < "} argv={"@.len() {
            } else {
                assert(b1[i] == c.binary_path@[i - "} argv={"@.len()]);
            }
        } else if i < b2.len() {
        } else if i < b3.len() {
            assert(b3[i] == p[i - b2.len()]);
        } else {
        }
    }
    assert forall|i: int| 0 <= i < l.len() implies l[i] != '\n' by {
        if i < a.len() {
            assert(l[i] == a[i]);
        } else {
            assert(l[i] == b[i - a.len()]);
        }
    }
    let o = a.len() as int + 1;
    assert(l.subrange(o, o + 6) =~= " argv="@) by {
        assert forall|k: int| 0 <= k < 6 implies l[o + k] == " argv="@[k] by {
            assert(l[o + k] == b[k + 1]);
        }
    }
}

/// The text of a saved entry of two lines, each ended by a line break.
spec fn saved(l1: Seq<char>, l2: Seq<char>) -> Seq<char> {
    l1 + seq!['\n'] + l2 + seq!['\n']
}

proof fn lemma_saved_first_line(
    prev: Seq<char>,
    l1: Seq<char>,
    l2: Seq<char>,
    rest: Seq<char>,
    t: Seq<char>,
)
    requires
        prev.len() > 0 ==> prev.last() == '\n',
        first_line_with_prefix(prev, t) is None,
        find_sub(prev, l1) is None,
        lacks(l1, '\n'),
        l1.len() > 0,
        l1.last() != '\r',
        t.is_prefix_of(l1),
    ensures
        first_line_with_prefix(prev + saved(l1, l2) + rest, t) == Some(l1),
        find_sub(prev + saved(l1, l2) + rest, l1) == Some(prev.len()),
{
    let x = saved(l1, l2) + rest;
    let s = prev + x;
    assert(prev + saved(l1, l2) + rest =~= s);
    let n: int = prev.len() as int;
    let m: int = l1.len() as int;
    assert forall|k: int| 0 <= k < m implies s[n + k] == l1[k] && l1[k] != '\n' by {
        assert(s[n + k] == x[k]);
        assert(x[k] == saved(l1, l2)[k]);
    }
    assert(s[n + m] == '\n') by {
        assert(s[n + m] == x[m]);
        assert(x[m] == saved(l1, l2)[m]);
    }
    lemma_line_end_at(s, n as nat, (n + m) as nat);
    assert(s.subrange(n, n + m) =~= l1);
    assert(line_at(s, n as nat) == l1);
    lemma_first_line_concat(prev, x, t, 0);
    lemma_find_sub_from_first(prev, l1, 0);
    assert forall|k: int| 0 <= k < n implies !occurs_at(s, l1, k) by {
        if occurs_at(s, l1, k) {
            if k + m <= n {
                assert(prev.subrange(k, k + m) =~= s.subrange(k, k + m));
                assert(occurs_at(prev, l1, k));
            } else {
                assert(s[n - 1] == prev[n - 1]);
                assert(s.subrange(k, k + m)[n - 1 - k] == s[n - 1]);
            }
        }
    }
    lemma_find_sub_at(s, l1, 0, n as nat);
}

proof fn lemma_saved_argv(prev: Seq<char>, l1: Seq<char>, l2: Seq<char>, rest: Seq<char>, o: int)
    requires
        lacks(l1, '\n'),
        lacks(l1, '='),
        lacks(l2, '\n'),
        occurs_at(l2, " argv="@, o),
    ensures
        find_sub_from(prev + saved(l1, l2) + rest, " argv="@, prev.len()) matches Some(a)
            && find_sub_from(prev + saved(l1, l2) + rest, seq!['\n'], a + " argv="@.len()) == Some(
            ((prev + saved(l1, l2)).len() - 1) as nat,
        ),
{
    reveal_strlit(" argv=");
    let w = " argv="@;
    let y = saved(l1, l2);
    let x = y + rest;
    let s = prev + x;
    assert(prev + saved(l1, l2) + rest =~= s);
    let n: int = prev.len() as int;
    let m: int = l1.len() as int;
    assert(y.len() == m + l2.len() + 2);
    let j: int = n + m + 1 + o;
    assert(occurs_at(s, w, j)) by {
        assert forall|k: int| 0 <= k < 6 implies s[j + k] == w[k] by {
            assert(s[j + k] == x[m + 1 + o + k]);
            assert(x[m + 1 + o + k] == y[m + 1 + o + k]);
            assert(y[m + 1 + o + k] == l2[o + k]);
            assert(l2.subrange(o, o + 6)[k] == l2[o + k]);
        }
        assert(s.subrange(j, j + 6) =~= w);
    }
    lemma_find_sub_some(s, w, n as nat, j as nat);
    let a: int = find_sub_from(s, w, n as nat).unwrap() as int;
    assert(s.subrange(a, a + 6)[5] == '=');
    assert(s[n + m] == '\n') by {
        assert(s[n + m] == x[m]);
        assert(x[m] == y[m]);
    }
    assert(a > n + m) by {
        if a <= n + m {
            if a + 5 < n + m {
                assert(s[a + 5] == x[a + 5 - n]);
                assert(x[a + 5 - n] == y[a + 5 - n]);
                assert(y[a + 5 - n] == l1[a + 5 - n]);
            } else {
                assert(s.subrange(a, a + 6)[n + m - a] == s[n + m]);
            }
        }
    }
    let end: int = n + y.len() - 1;
    assert(s[end] == '\n') by {
        assert(s[end] == x[y.len() - 1]);
        assert(x[y.len() - 1] == y[y.len() - 1]);
    }
    assert(a + 6 <= end);
    assert(occurs_at(s, seq!['\n'], end)) by {
        assert(s.subrange(end, end + 1) =~= seq!['\n']);
    }
    assert forall|k: int| a + 6 <= k < end implies !occurs_at(s, seq!['\n'], k) by {
        assert(s[k] == x[k - n]);
        assert(x[k - n] == y[k - n]);
        assert(y[k - n] == l2[k - n - m - 1]);
        assert(s.subrange(k, k + 1)[0] == s[k]);
    }
    lemma_find_sub_at(s, seq!['\n'], (a + 6) as nat, end as nat);
}

/// Saving the service entry into a `master.cf` where an earlier save put an
/// entry of the same service replaces that entry and its line break, and
/// keeps what comes before and after it: `before + old + "\n" + after`
/// becomes `before + new + "\n" + after`, whatever else of the entry
/// changed (a shorter entry leaves nothing of the longer one). So that the
/// old entry is found, `before` must be empty or end with a line break and
/// must not hold the service's line nor the old entry's first line, and the
/// entry's values must hold no line break (nor the service name an `=`).
pub proof fn lemma_master_cf_entry_replaced(
    before: Seq<char>,
    after: Seq<char>,
    c1: PostfixConfiguration,
    c2: PostfixConfiguration,
    d: Seq<char>,
    p: Seq<char>,
)
    requires
        before.len() > 0 ==> before.last() == '\n',
        first_line_with_prefix(before, transport_of(c1)) is None,
        find_sub(before, entry_first_line(c1)) is None,
        transport_of(c2) == transport_of(c1),
        plain_entry(c1, d, p),
    ensures
        master_cf_update(
            before + master_cf_entry(c1, d, p) + seq!['\n'] + after,
            master_cf_entry(c2, d, p),
            transport_of(c2),
        ) == Some(before + master_cf_entry(c2, d, p) + seq!['\n'] + after),
{
    let t = transport_of(c1);
    let e1 = master_cf_entry(c1, d, p);
    let e2 = master_cf_entry(c2, d, p);
    let l1 = entry_first_line(c1);
    let l2 = entry_second_line(c1, d, p);
    lemma_entry_lines(c1, d, p);
    lemma_first_line_plain(c1);
    lemma_second_line_plain(c1, d, p);
    let s = before + e1 + seq!['\n'] + after;
    assert(s =~= before + saved(l1, l2) + after);
    lemma_saved_first_line(before, l1, l2, after, t);
    lemma_saved_argv(
        before,
        l1,
        l2,
        after,
        ("flags=RX user="@.len() + c1.user@.len() + group_part(c1).len() + " directory={"@.len()
            + d.len() + 1) as int,
    );
    let end: int = (before + saved(l1, l2)).len() - 1;
    assert(s.take(before.len() as int) =~= before);
    assert(s.skip(end) =~= seq!['\n'] + after);
    assert(s.take(before.len() as int) + e2 + s.skip(end) =~= before + e2 + seq!['\n'] + after);
}

/// Saving the service entry into a `master.cf` with no line for the service
/// appends the entry on lines of its own; saving an entry of the same
/// service again then replaces that entry, whatever else changed. So that
/// the saved entry is found again, the earlier content must be empty or end
/// with a line break and must not hold the entry's first line, and the
/// entry's values must hold no line break (nor the service name an `=`).
pub proof fn lemma_master_cf_saved_again(
    prev: Seq<char>,
    c1: PostfixConfiguration,
    c2: PostfixConfiguration,
    d: Seq<char>,
    p: Seq<char>,
)
    requires
        prev.len() > 0 ==> prev.last() == '\n',
        first_line_with_prefix(prev, transport_of(c1)) is None,
        find_sub(prev, entry_first_line(c1)) is None,
        transport_of(c2) == transport_of(c1),
        plain_entry(c1, d, p),
    ensures
        master_cf_update(prev, master_cf_entry(c1, d, p), transport_of(c1)) == Some(
            prev + master_cf_entry(c1, d, p) + seq!['\n'],
        ),
        master_cf_update(
            prev + master_cf_entry(c1, d, p) + seq!['\n'],
            master_cf_entry(c2, d, p),
            transport_of(c2),
        ) == Some(prev + master_cf_entry(c2, d, p) + seq!['\n']),
{
    let t = transport_of(c1);
    let e1 = master_cf_entry(c1, d, p);
    let l1 = entry_first_line(c1);
    lemma_first_line_plain(c1);
    assert(t.is_prefix_of(l1));
    lemma_master_cf_entry_replaced(prev, Seq::empty(), c1, c2, d, p);
    assert(prev + e1 + seq!['\n'] + Seq::<char>::empty() =~= prev + e1 + seq!['\n']);
    assert(prev + master_cf_entry(c2, d, p) + seq!['\n'] + Seq::<char>::empty() =~= prev
        + master_cf_entry(c2, d, p) + seq!['\n']);
}

} // verus!
