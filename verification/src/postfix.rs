//! Generate configuration for the postfix mail server.
//!
//! ## Transport maps (`transport_maps`)
//!
//! <http://www.postfix.org/postconf.5.html#transport_maps>
//!
//! ## Local recipient maps (`local_recipient_maps`)
//!
//! <http://www.postfix.org/postconf.5.html#local_recipient_maps>
//!
//! ## Relay domains (`relay_domains`)
//!
//! <http://www.postfix.org/postconf.5.html#relay_domains>

pub mod replacement;

use vstd::prelude::*;

use crate::errors::{Error, ErrorKind};
use crate::models::{has_at, sub_address, DbVal, MailingList, PostPolicy};
use crate::text::{
    after_char, byte_len, dec_nat, domain_part, find_char, find_line_with_prefix, find_sub,
    find_sub_exec, find_sub_from, first_line_with_prefix, lemma_byte_len_concat,
    lemma_byte_len_take, lemma_find_char_some, lemma_find_sub_from, local_part, occurs_at, push_spaces,
    push_u64, spaces, string_pop, string_push, substring,
};

verus! {

/// Settings for generating postfix configuration.
///
/// See the struct methods for details.
#[derive(Debug)]
pub struct PostfixConfiguration {
    /// The UNIX username under which the mailpot process who processed incoming
    /// mail is launched.
    pub user: String,
    /// The UNIX group under which the mailpot process who processed incoming
    /// mail is launched.
    pub group: Option<String>,
    /// The absolute path of the `mailpot` binary.
    pub binary_path: String,
    /// The maximum number of `mailpot` processes to launch. Default is `1`.
    pub process_limit: Option<u64>,
    /// The directory in which the map files are saved.
    /// Default is `data_path` from the configuration.
    pub map_output_path: Option<String>,
    /// The name of the Postfix service name to use.
    /// Default is `mailpot`.
    ///
    /// A Postfix service is a daemon managed by the postfix process.
    /// Each entry in the `master.cf` configuration file defines a single
    /// service.
    pub transport_name: Option<String>,
}

/// The service name: the configured one, or `mailpot`.
pub open spec fn transport_of(c: PostfixConfiguration) -> Seq<char> {
    match c.transport_name {
        Some(t) => t@,
        None => "mailpot"@,
    }
}

/// The `master.cf` service entry for a configuration, the data directory
/// and the configuration file path.
pub open spec fn master_cf_entry(
    c: PostfixConfiguration,
    data_dir: Seq<char>,
    config_path: Seq<char>,
) -> Seq<char> {
    transport_of(c) + " unix - n n - "@ + dec_nat(
        match c.process_limit {
            Some(n) => n as nat,
            None => 1,
        },
    ) + " pipe\nflags=RX user="@ + c.user@ + (match c.group {
        Some(g) => seq![':'] + g@,
        None => Seq::empty(),
    }) + " directory={"@ + data_dir + "} argv={"@ + c.binary_path@ + "} -c {"@ + config_path
        + "} post"@
}

/// One line of the maps: the address, padded with spaces to `width + 5`
/// bytes, then `transport:`.
pub open spec fn map_line(addr: Seq<char>, width: nat, transport: Seq<char>) -> Seq<char> {
    addr + spaces((width + 5 - byte_len(addr)) as nat) + transport + ":\n"@
}

/// The policy of a map entry, without its primary key.
pub open spec fn entry_policy(e: (DbVal<MailingList>, Option<DbVal<PostPolicy>>)) -> Option<
    PostPolicy,
> {
    match e.1 {
        Some(p) => Some(p.0),
        None => None,
    }
}

/// The width an entry needs: none without a post policy, otherwise the
/// bytes of its address and of `+request`.
pub open spec fn entry_width(e: (DbVal<MailingList>, Option<DbVal<PostPolicy>>)) -> nat {
    match e.1 {
        None => 0,
        Some(_) => byte_len(e.0.0.address@) + 8,
    }
}

/// The widest entry.
pub open spec fn max_width(es: Seq<(DbVal<MailingList>, Option<DbVal<PostPolicy>>)>) -> nat
    decreases es.len(),
{
    if es.len() == 0 {
        0
    } else {
        let w = max_width(es.drop_last());
        let e = entry_width(es.last());
        if e > w {
            e
        } else {
            w
        }
    }
}

/// The map lines of an entry: none without a post policy; the list address
/// when the policy is open; the list, `+request` and `+owner` addresses
/// otherwise; followed by an empty line.
pub open spec fn entry_lines(
    e: (DbVal<MailingList>, Option<DbVal<PostPolicy>>),
    width: nat,
    t: Seq<char>,
) -> Seq<char> {
    let a = e.0.0.address@;
    match entry_policy(e) {
        None => Seq::empty(),
        Some(p) => if p.open {
            map_line(a, width, t) + seq!['\n']
        } else {
            map_line(a, width, t) + map_line(sub_address(a, "request"@), width, t) + map_line(
                sub_address(a, "owner"@),
                width,
                t,
            ) + seq!['\n']
        },
    }
}

/// The map lines of all entries.
pub open spec fn all_entry_lines(
    es: Seq<(DbVal<MailingList>, Option<DbVal<PostPolicy>>)>,
    width: nat,
    t: Seq<char>,
) -> Seq<char>
    decreases es.len(),
{
    if es.len() == 0 {
        Seq::empty()
    } else {
        all_entry_lines(es.drop_last(), width, t) + entry_lines(es.last(), width, t)
    }
}

/// The comment at the top of the maps.
pub open spec fn maps_header() -> Seq<char> {
    "# Automatically generated by mailpot.\n"@
        + "# Upon its creation and every time it is modified, postmap(1) must be called for the changes to take effect:\n"@
        + "# postmap /path/to/map_file\n\n"@
}

/// The maps for the given lists: the header comment, then every list's
/// lines, without the last newline.
pub open spec fn postfix_maps(
    es: Seq<(DbVal<MailingList>, Option<DbVal<PostPolicy>>)>,
    t: Seq<char>,
) -> Seq<char> {
    if es.len() == 0 {
        maps_header()
    } else {
        (maps_header() + all_entry_lines(es, max_width(es), t)).drop_last()
    }
}

/// The map lines of two runs of entries are those of each run, in turn.
proof fn lemma_all_entry_lines_concat(
    a: Seq<(DbVal<MailingList>, Option<DbVal<PostPolicy>>)>,
    b: Seq<(DbVal<MailingList>, Option<DbVal<PostPolicy>>)>,
    w: nat,
    t: Seq<char>,
)
    ensures
        all_entry_lines(a + b, w, t) == all_entry_lines(a, w, t) + all_entry_lines(b, w, t),
    decreases b.len(),
{
    if b.len() == 0 {
        assert(a + b =~= a);
        assert(all_entry_lines(a, w, t) + all_entry_lines(b, w, t) =~= all_entry_lines(a, w, t));
    } else {
        lemma_all_entry_lines_concat(a, b.drop_last(), w, t);
        assert((a + b).drop_last() =~= a + b.drop_last());
        assert((a + b).last() == b.last());
        assert(all_entry_lines(a + b, w, t) =~= all_entry_lines(a, w, t) + all_entry_lines(b, w, t));
    }
}

/// The widest entry of two runs of entries is the wider of theirs.
proof fn lemma_max_width_concat(
    a: Seq<(DbVal<MailingList>, Option<DbVal<PostPolicy>>)>,
    b: Seq<(DbVal<MailingList>, Option<DbVal<PostPolicy>>)>,
)
    ensures
        max_width(a + b) == if max_width(a) >= max_width(b) {
            max_width(a)
        } else {
            max_width(b)
        },
    decreases b.len(),
{
    if b.len() == 0 {
        assert(a + b =~= a);
    } else {
        lemma_max_width_concat(a, b.drop_last());
        assert((a + b).drop_last() =~= a + b.drop_last());
        assert((a + b).last() == b.last());
    }
}

/// A list without a post policy does not show in the maps: adding one to
/// lists that are not all empty leaves the maps as they were.
pub proof fn lemma_maps_skip_lists_without_policy(
    a: Seq<(DbVal<MailingList>, Option<DbVal<PostPolicy>>)>,
    x: (DbVal<MailingList>, Option<DbVal<PostPolicy>>),
    b: Seq<(DbVal<MailingList>, Option<DbVal<PostPolicy>>)>,
    t: Seq<char>,
)
    requires
        x.1 is None,
        a.len() + b.len() > 0,
    ensures
        postfix_maps(a + seq![x] + b, t) == postfix_maps(a + b, t),
{
    let s = seq![x];
    lemma_max_width_concat(a, s);
    lemma_max_width_concat(a + s, b);
    lemma_max_width_concat(a, b);
    assert(s.last() == x);
    assert(s.drop_last() =~= Seq::<(DbVal<MailingList>, Option<DbVal<PostPolicy>>)>::empty());
    assert(max_width(s.drop_last()) == 0);
    assert(entry_width(x) == 0);
    assert(max_width(s) == 0);
    let w = max_width(a + b);
    lemma_all_entry_lines_concat(a, s, w, t);
    lemma_all_entry_lines_concat(a + s, b, w, t);
    lemma_all_entry_lines_concat(a, b, w, t);
    assert(entry_policy(x) is None);
    assert(entry_lines(x, w, t) =~= Seq::<char>::empty());
    assert(all_entry_lines(s.drop_last(), w, t) =~= Seq::<char>::empty());
    assert(all_entry_lines(s, w, t) =~= Seq::<char>::empty());
    assert(all_entry_lines(a + s + b, w, t) =~= all_entry_lines(a + b, w, t));
}

/// The lines of entries of which one has a post policy are not empty, and
/// end with the empty line of the last such entry.
proof fn lemma_entry_lines_nonempty(
    es: Seq<(DbVal<MailingList>, Option<DbVal<PostPolicy>>)>,
    w: nat,
    t: Seq<char>,
)
    requires
        exists|i: int| 0 <= i < es.len() && (#[trigger] es[i]).1 is Some,
    ensures
        all_entry_lines(es, w, t).len() > 0,
        all_entry_lines(es, w, t).last() == '\n',
    decreases es.len(),
{
    let last = es.last();
    if last.1 is Some {
        let x = entry_lines(last, w, t);
        assert(x.len() > 0 && x.last() == '\n');
        assert(all_entry_lines(es, w, t) == all_entry_lines(es.drop_last(), w, t) + x);
    } else {
        let i = choose|i: int| 0 <= i < es.len() && (#[trigger] es[i]).1 is Some;
        assert(i < es.len() - 1);
        assert(es.drop_last()[i] == es[i]);
        lemma_entry_lines_nonempty(es.drop_last(), w, t);
        assert(entry_lines(last, w, t) =~= Seq::<char>::empty());
        assert(all_entry_lines(es, w, t) =~= all_entry_lines(es.drop_last(), w, t));
    }
}

/// The maps of lists of which at least one has a post policy are the maps
/// of no list, then the lines of each list with a policy in turn (its
/// address, or its address and its `+request` and `+owner` addresses, each
/// padded to the widest address with a policy plus `+request` and five
/// spaces, then `transport:`, and an empty line after each list), without
/// the very last line break. Lists without a policy add nothing.
pub proof fn lemma_maps_are_header_and_rows(
    es: Seq<(DbVal<MailingList>, Option<DbVal<PostPolicy>>)>,
    t: Seq<char>,
)
    requires
        exists|i: int| 0 <= i < es.len() && (#[trigger] es[i]).1 is Some,
    ensures
        postfix_maps(es, t) == postfix_maps(Seq::empty(), t) + all_entry_lines(
            es,
            max_width(es),
            t,
        ).drop_last(),
{
    let b = all_entry_lines(es, max_width(es), t);
    lemma_entry_lines_nonempty(es, max_width(es), t);
    assert((maps_header() + b).drop_last() =~= maps_header() + b.drop_last());
}

/// The lines of the entries around one entry are the lines of those before
/// it, its own lines, and those of the entries after it.
proof fn lemma_entry_lines_around(
    es: Seq<(DbVal<MailingList>, Option<DbVal<PostPolicy>>)>,
    i: int,
    w: nat,
    t: Seq<char>,
)
    requires
        0 <= i < es.len(),
    ensures
        all_entry_lines(es, w, t) == all_entry_lines(es.take(i), w, t) + entry_lines(es[i], w, t)
            + all_entry_lines(es.skip(i + 1), w, t),
{
    let x = seq![es[i]];
    assert(es =~= es.take(i) + x + es.skip(i + 1));
    lemma_all_entry_lines_concat(es.take(i), x, w, t);
    lemma_all_entry_lines_concat(es.take(i) + x, es.skip(i + 1), w, t);
    assert(x.drop_last() =~= Seq::<(DbVal<MailingList>, Option<DbVal<PostPolicy>>)>::empty());
    assert(x.last() == es[i]);
    assert(all_entry_lines(x.drop_last(), w, t) =~= Seq::<char>::empty());
    assert(all_entry_lines(x, w, t) =~= entry_lines(es[i], w, t));
}

/// A piece that something follows is still there once the last character
/// is dropped.
proof fn lemma_occurs_in_middle(pre: Seq<char>, x: Seq<char>, post: Seq<char>)
    requires
        post.len() > 0,
    ensures
        occurs_at((pre + x + post).drop_last(), x, pre.len() as int),
{
    let s = (pre + x + post).drop_last();
    assert(s.subrange(pre.len() as int, pre.len() + x.len() as int) =~= x) by {
        assert forall|j: int| 0 <= j < x.len() implies s[pre.len() + j] == x[j] by {
            assert((pre + x + post)[pre.len() + j] == x[j]);
        }
    }
}

/// Every list with a post policy that is not open gets, besides the line of
/// its own address, a line for its `+request` address and one for its
/// `+owner` address in the maps, whatever its other flags (announce only,
/// subscription only, approval needed, custom), so that requests to it and
/// mail to its owners reach mailpot too. An open list gets the line of its
/// own address.
pub proof fn lemma_maps_lines_of_list(
    es: Seq<(DbVal<MailingList>, Option<DbVal<PostPolicy>>)>,
    t: Seq<char>,
    i: int,
)
    requires
        0 <= i < es.len(),
        es[i].1 is Some,
    ensures
        exists|k: int|
            occurs_at(postfix_maps(es, t), map_line(es[i].0.0.address@, max_width(es), t), k),
        !es[i].1.unwrap().0.open ==> exists|k: int|
            occurs_at(
                postfix_maps(es, t),
                map_line(sub_address(es[i].0.0.address@, "request"@), max_width(es), t),
                k,
            ),
        !es[i].1.unwrap().0.open ==> exists|k: int|
            occurs_at(
                postfix_maps(es, t),
                map_line(sub_address(es[i].0.0.address@, "owner"@), max_width(es), t),
                k,
            ),
{
    let w = max_width(es);
    let a = es[i].0.0.address@;
    let before = maps_header() + all_entry_lines(es.take(i), w, t);
    let after = all_entry_lines(es.skip(i + 1), w, t);
    lemma_entry_lines_around(es, i, w, t);
    let l0 = map_line(a, w, t);
    let l1 = map_line(sub_address(a, "request"@), w, t);
    let l2 = map_line(sub_address(a, "owner"@), w, t);
    let mine = entry_lines(es[i], w, t);
    assert(maps_header() + all_entry_lines(es, w, t) =~= before + mine + after);
    assert(postfix_maps(es, t) == (before + mine + after).drop_last());
    if es[i].1.unwrap().0.open {
        let e = Seq::<char>::empty();
        assert(mine =~= l0 + e + e + seq!['\n']);
        lemma_lines_occur(before, l0, e, e, after);
        assert(occurs_at(postfix_maps(es, t), l0, before.len() as int));
    } else {
        assert(mine == l0 + l1 + l2 + seq!['\n']);
        lemma_lines_occur(before, l0, l1, l2, after);
        assert(occurs_at(postfix_maps(es, t), l0, before.len() as int));
        assert(occurs_at(postfix_maps(es, t), l1, (before.len() + l0.len()) as int));
        assert(occurs_at(postfix_maps(es, t), l2, (before.len() + l0.len() + l1.len()) as int));
    }
}

/// The lines `l0`, `l1` and `l2` of one entry, between what comes before it
/// and after it, are found in the text without its last character.
proof fn lemma_lines_occur(
    before: Seq<char>,
    l0: Seq<char>,
    l1: Seq<char>,
    l2: Seq<char>,
    after: Seq<char>,
)
    ensures
        ({
            let s = (before + (l0 + l1 + l2 + seq!['\n']) + after).drop_last();
            &&& occurs_at(s, l0, before.len() as int)
            &&& occurs_at(s, l1, (before.len() + l0.len()) as int)
            &&& occurs_at(s, l2, (before.len() + l0.len() + l1.len()) as int)
        }),
{
    let full = before + (l0 + l1 + l2 + seq!['\n']) + after;
    assert(full =~= before + l0 + (l1 + l2 + seq!['\n'] + after));
    lemma_occurs_in_middle(before, l0, l1 + l2 + seq!['\n'] + after);
    assert(full =~= (before + l0) + l1 + (l2 + seq!['\n'] + after));
    lemma_occurs_in_middle(before + l0, l1, l2 + seq!['\n'] + after);
    assert(full =~= (before + l0 + l1) + l2 + (seq!['\n'] + after));
    lemma_occurs_in_middle(before + l0 + l1, l2, seq!['\n'] + after);
}

/// Whether the maps can be generated for these entries: every list with a
/// post policy that is not open has an `@` in its address (its request
/// and owner addresses are made from it), and the sizes fit in memory.
pub open spec fn maps_entries_ok(es: Seq<(DbVal<MailingList>, Option<DbVal<PostPolicy>>)>) -> bool {
    forall|i: int|
        0 <= i < es.len() ==> (#[trigger] es[i]).1 is Some ==> (byte_len(es[i].0.0.address@) + 16
            < usize::MAX && (!es[i].1.unwrap().0.open ==> has_at(es[i].0.0.address@)))
}

proof fn lemma_ascii_byte_len(s: Seq<char>)
    requires
        vstd::utf8::is_ascii_chars(s),
    ensures
        byte_len(s) == s.len(),
{
    vstd::utf8::is_ascii_chars_encode_utf8(s);
}

/// A `+tag` sub-address has at most the bytes of the address, the tag and
/// the `+`.
proof fn lemma_sub_address_len(a: Seq<char>, tag: Seq<char>)
    requires
        has_at(a),
    ensures
        byte_len(sub_address(a, tag)) <= byte_len(a) + byte_len(tag) + 1,
{
    lemma_find_char_some(a, '@');
    let i = find_char(a, '@').unwrap() as int;
    let local = local_part(a);
    let after = after_char(a, '@');
    let dom = domain_part(a);
    assert(local == a.take(i));
    assert(after == a.skip(i + 1));
    assert(a =~= local + seq!['@'] + after);
    lemma_ascii_byte_len(seq!['@']);
    lemma_ascii_byte_len(seq!['+']);
    lemma_byte_len_concat(local, seq!['@']);
    lemma_byte_len_concat(local + seq!['@'], after);
    lemma_find_char_some(after, '@');
    match find_char(after, '@') {
        Some(j) => {
            assert(dom == after.take(j as int));
            lemma_byte_len_take(after, j as int);
        },
        None => {
            assert(dom == after);
        },
    }
    lemma_byte_len_concat(local, seq!['+']);
    lemma_byte_len_concat(local + seq!['+'], tag);
    lemma_byte_len_concat(local + seq!['+'] + tag, seq!['@']);
    lemma_byte_len_concat(local + seq!['+'] + tag + seq!['@'], dom);
}

proof fn lemma_max_width(es: Seq<(DbVal<MailingList>, Option<DbVal<PostPolicy>>)>, i: int)
    requires
        0 <= i < es.len(),
    ensures
        entry_width(es[i]) <= max_width(es),
    decreases es.len(),
{
    if i < es.len() - 1 {
        lemma_max_width(es.drop_last(), i);
        assert(es.drop_last()[i] == es[i]);
    }
}

proof fn lemma_max_width_bound(es: Seq<(DbVal<MailingList>, Option<DbVal<PostPolicy>>)>)
    requires
        maps_entries_ok(es),
    ensures
        max_width(es) + 8 < usize::MAX,
    decreases es.len(),
{
    if es.len() > 0 {
        assert(maps_entries_ok(es.drop_last())) by {
            assert forall|i: int| 0 <= i < es.drop_last().len() && (#[trigger] es.drop_last()[i]).1 is Some
                implies byte_len(es.drop_last()[i].0.0.address@) + 16 < usize::MAX
                && (!es.drop_last()[i].1.unwrap().0.open ==> has_at(es.drop_last()[i].0.0.address@)) by {
                assert(es.drop_last()[i] == es[i]);
            }
        }
        lemma_max_width_bound(es.drop_last());
        assert(es.last() == es[es.len() - 1]);
    }
}

impl PostfixConfiguration {
    /// The default settings: user `user`, no group, binary
    /// `/usr/bin/mailpot`, and the defaults of the optional settings.
    pub fn default_config() -> (r: PostfixConfiguration)
        ensures
            r.user@ == "user"@,
            r.group is None,
            r.binary_path@ == "/usr/bin/mailpot"@,
            r.process_limit is None,
            r.map_output_path is None,
            r.transport_name is None,
    {
        PostfixConfiguration {
            user: String::from_str("user"),
            group: None,
            binary_path: String::from_str("/usr/bin/mailpot"),
            process_limit: None,
            map_output_path: None,
            transport_name: None,
        }
    }

    /// The service name: the configured one, or `mailpot`.
    pub fn transport(&self) -> (r: &str)
        ensures
            r@ == transport_of(*self),
    {
        match &self.transport_name {
            Some(t) => t.as_str(),
            None => "mailpot",
        }
    }

    /// Generate service line entry for Postfix's `master.cf` file, for the
    /// data directory `data_dir` and the configuration file at
    /// `config_path`.
    pub fn generate_master_cf_entry(&self, data_dir: &str, config_path: &str) -> (r: String)
        ensures
            r@ == master_cf_entry(*self, data_dir@, config_path@),
    {
        let mut s = String::from_str(self.transport());
        s.append(" unix - n n - ");
        let limit = match self.process_limit {
            Some(n) => n,
            None => 1,
        };
        push_u64(&mut s, limit);
        s.append(" pipe\nflags=RX user=");
        s.append(self.user.as_str());
        match &self.group {
            Some(g) => {
                string_push(&mut s, ':');
                s.append(g.as_str());
            },
            None => {},
        }
        s.append(" directory={");
        s.append(data_dir);
        s.append("} argv={");
        s.append(self.binary_path.as_str());
        s.append("} -c {");
        s.append(config_path);
        s.append("} post");
        assert(s@ =~= master_cf_entry(*self, data_dir@, config_path@));
        s
    }

    fn push_map_line(ret: &mut String, addr: &str, width: usize, transport: &str)
        requires
            byte_len(addr@) <= width,
            width + 5 < usize::MAX,
        ensures
            final(ret)@ == old(ret)@ + map_line(addr@, width as nat, transport@),
    {
        ret.append(addr);
        let n = width - addr.len() + 5;
        push_spaces(ret, n);
        ret.append(transport);
        ret.append(":\n");
        assert(final(ret)@ =~= old(ret)@ + map_line(addr@, width as nat, transport@));
    }

    /// Generate `transport_maps` and `local_recipient_maps` for Postfix.
    ///
    /// The output must be saved in a plain text file.
    /// To make Postfix be able to read them, the `postmap` application must be
    /// executed with the path to the map file as its sole argument.
    /// `postmap` is usually distributed along with the other Postfix binaries.
    pub fn generate_maps(&self, lists: &Vec<(DbVal<MailingList>, Option<DbVal<PostPolicy>>)>) -> (r:
        String)
        requires
            maps_entries_ok(lists@),
        ensures
            r@ == postfix_maps(lists@, transport_of(*self)),
    {
        let transport_name = self.transport();
        let mut ret = String::from_str("# Automatically generated by mailpot.\n");
        ret.append(
            "# Upon its creation and every time it is modified, postmap(1) must be called for the changes to take effect:\n",
        );
        ret.append("# postmap /path/to/map_file\n\n");
        assert(ret@ =~= maps_header());
        if lists.len() == 0 {
            return ret;
        }
        let ghost es = lists@;
        proof {
            lemma_max_width_bound(es);
        }
        let mut width: usize = 0;
        let mut i: usize = 0;
        while i < lists.len()
            invariant
                i <= es.len(),
                es == lists@,
                width == max_width(es.take(i as int)),
                max_width(es) + 8 < usize::MAX,
                maps_entries_ok(es),
            decreases es.len() - i,
        {
            assert(es.take(i + 1).drop_last() =~= es.take(i as int));
            assert(es.take(i + 1).last() == es[i as int]);
            proof {
                lemma_max_width(es, i as int);
                if lists@[i as int].1 is Some {
                    assert(byte_len(es[i as int].0.0.address@) + 16 < usize::MAX);
                }
            }
            let w = match &lists[i].1 {
                None => 0,
                Some(_) => lists[i].0.0.address.as_str().len() + 8,
            };
            if w > width {
                width = w;
            }
            i = i + 1;
        }
        assert(es.take(es.len() as int) =~= es);
        let mut j: usize = 0;
        while j < lists.len()
            invariant
                j <= es.len(),
                es == lists@,
                width == max_width(es),
                width + 8 < usize::MAX,
                transport_name@ == transport_of(*self),
                maps_entries_ok(es),
                ret@ == maps_header() + all_entry_lines(es.take(j as int), width as nat, transport_name@),
            decreases es.len() - j,
        {
            assert(es.take(j + 1).drop_last() =~= es.take(j as int));
            assert(es.take(j + 1).last() == es[j as int]);
            let ghost before = ret@;
            let list = &lists[j].0.0;
            proof {
                lemma_max_width(es, j as int);
            }
            match &lists[j].1 {
                None => {
                    assert(entry_lines(es[j as int], width as nat, transport_name@) =~= Seq::<
                        char,
                    >::empty());
                },
                Some(policy) => {
                    Self::push_map_line(&mut ret, list.address.as_str(), width, transport_name);
                    if !policy.0.open {
                        proof {
                            assert(has_at(list.address@));
                            lemma_sub_address_len(list.address@, "request"@);
                            lemma_sub_address_len(list.address@, "owner"@);
                            reveal_strlit("request");
                            reveal_strlit("owner");
                            lemma_ascii_byte_len("request"@);
                            lemma_ascii_byte_len("owner"@);
                        }
                        let req = list.subaddress("request");
                        let own = list.subaddress("owner");
                        Self::push_map_line(&mut ret, req.as_str(), width, transport_name);
                        Self::push_map_line(&mut ret, own.as_str(), width, transport_name);
                    }
                    string_push(&mut ret, '\n');
                    assert(ret@ =~= before + entry_lines(es[j as int], width as nat, transport_name@));
                },
            }
            j = j + 1;
        }
        assert(es.take(es.len() as int) =~= es);
        assert(ret@.len() > 0) by {
            reveal_strlit("# Automatically generated by mailpot.\n");
            assert(ret@[0] == maps_header()[0]);
        }
        string_pop(&mut ret);
        ret
    }
}

/// The content of `master.cf` once the service entry `entry` of the service
/// `t` is saved in it: the first line that starts with the service name is
/// found again in the content, and from there up to the end of the line that
/// holds ` argv=` is replaced by the entry; without such a line, the entry is
/// appended on a line of its own. `None` when the line or its ` argv=`
/// line end cannot be found.
pub open spec fn master_cf_update(prev: Seq<char>, entry: Seq<char>, t: Seq<char>) -> Option<
    Seq<char>,
> {
    match first_line_with_prefix(prev, t) {
        None => Some(prev + entry + seq!['\n']),
        Some(line) => match find_sub(prev, line) {
            None => None,
            Some(pos) => match find_sub_from(prev, " argv="@, pos) {
                None => None,
                Some(a) => match find_sub_from(prev, seq!['\n'], a + " argv="@.len()) {
                    None => None,
                    Some(end) => Some(prev.take(pos as int) + entry + prev.skip(end as int)),
                },
            },
        },
    }
}

fn logical_error() -> (r: Error)
    ensures
        r.source is None,
        r.kind matches ErrorKind::Bug(m) && m@ == "Unepected logical error."@,
{
    Error::from_kind(ErrorKind::Bug(String::from_str("Unepected logical error.")))
}

impl PostfixConfiguration {
    /// The content of `master.cf` with this configuration's service entry
    /// for the data directory and the configuration file saved in it (see
    /// `master_cf_update`); an error when the existing entry cannot be
    /// delimited.
    pub fn update_master_cf(&self, previous: &str, data_dir: &str, config_path: &str) -> (r:
        Result<String, Error>)
        ensures
            master_cf_update(
                previous@,
                master_cf_entry(*self, data_dir@, config_path@),
                transport_of(*self),
            ) matches Some(c) ==> (r matches Ok(s) && s@ == c),
            master_cf_update(
                previous@,
                master_cf_entry(*self, data_dir@, config_path@),
                transport_of(*self),
            ) is None ==> (r matches Err(e) && (e.kind matches ErrorKind::Bug(m) && m@
                == "Unepected logical error."@)),
    {
        let new_entry = self.generate_master_cf_entry(data_dir, config_path);
        let transport_name = self.transport();
        let n = previous.unicode_len();
        match find_line_with_prefix(previous, transport_name) {
            None => {
                let mut c = String::from_str(previous);
                c.append(new_entry.as_str());
                string_push(&mut c, '\n');
                Ok(c)
            },
            Some(line) => {
                let pos = match find_sub_exec(previous, line.as_str(), 0) {
                    Some(p) => p,
                    None => {
                        return Err(logical_error());
                    },
                };
                proof {
                    lemma_find_sub_from(previous@, line@, 0);
                }
                let a = match find_sub_exec(previous, " argv=", pos) {
                    Some(p) => p,
                    None => {
                        return Err(logical_error());
                    },
                };
                proof {
                    lemma_find_sub_from(previous@, " argv="@, pos as nat);
                    reveal_strlit(" argv=");
                    reveal_strlit("\n");
                    assert("\n"@ =~= seq!['\n']);
                }
                let end = match find_sub_exec(previous, "\n", a + 6) {
                    Some(p) => p,
                    None => {
                        return Err(logical_error());
                    },
                };
                proof {
                    lemma_find_sub_from(previous@, "\n"@, (a + 6) as nat);
                    reveal_strlit("\n");
                    assert("\n"@ =~= seq!['\n']);
                }
                let mut c = substring(previous, 0, pos);
                c.append(new_entry.as_str());
                let rest = substring(previous, end, n);
                c.append(rest.as_str());
                Ok(c)
            },
        }
    }
}

} // verus!
