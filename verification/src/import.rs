//! Import members in a local list from a remote mailman3 REST API instance:
//! the roster entries it returns, and the requests made to it.

use vstd::prelude::*;

use crate::models::{ListOwner, ListSubscription};
use crate::text::{is_blank, str_eq, str_is_blank, string_pop};

verus! {

/// A roster of a remote list.
#[derive(Debug)]
pub struct Roster {
    /// Its entries.
    pub entries: Vec<Entry>,
}

/// A member or owner of a remote list.
#[derive(Debug)]
pub struct Entry {
    display_name: String,
    email: String,
}

/// The display name of an entry, unless it is blank or `None`.
pub open spec fn entry_name(display_name: Seq<char>) -> Option<Seq<char>> {
    if !is_blank(display_name) && display_name != "None"@ {
        Some(display_name)
    } else {
        None
    }
}

impl Entry {
    /// An entry with the given display name and e-mail address.
    pub fn new(display_name: String, email: String) -> (r: Entry)
        ensures
            r.display_name_view() == display_name@,
            r.email_view() == email@,
    {
        Entry { display_name, email }
    }

    /// The display name as given.
    pub closed spec fn display_name_view(&self) -> Seq<char> {
        self.display_name@
    }

    /// The e-mail address.
    pub closed spec fn email_view(&self) -> Seq<char> {
        self.email@
    }

    fn has_name(&self) -> (r: bool)
        ensures
            r == entry_name(self.display_name_view()) is Some,
    {
        !str_is_blank(self.display_name.as_str()) && !str_eq(self.display_name.as_str(), "None")
    }

    /// The display name, unless it is blank or `None`.
    pub fn display_name(&self) -> (r: Option<&str>)
        ensures
            entry_name(self.display_name_view()) matches Some(n) ==> (r matches Some(s) && s@
                == n),
            entry_name(self.display_name_view()) is None ==> r is None,
    {
        if self.has_name() {
            Some(self.display_name.as_str())
        } else {
            None
        }
    }

    /// The e-mail address.
    pub fn email(&self) -> (r: &str)
        ensures
            r@ == self.email_view(),
    {
        self.email.as_str()
    }

    /// The subscription this entry becomes on list `list`: enabled and
    /// verified, of no account, with no digests, hidden address, duplicates,
    /// own posts or confirmations.
    pub fn into_subscription(self, list: i64) -> (r: ListSubscription)
        ensures
            r.pk == -1,
            r.list == list,
            r.address@ == self.email_view(),
            entry_name(self.display_name_view()) matches Some(n) ==> (r.name matches Some(s)
                && s@ == n),
            entry_name(self.display_name_view()) is None ==> r.name is None,
            r.account is None,
            r.enabled,
            r.verified,
            !r.digest,
            !r.hide_address,
            !r.receive_duplicates,
            !r.receive_own_posts,
            !r.receive_confirmation,
    {
        let keep = self.has_name();
        let Entry { display_name, email } = self;
        ListSubscription {
            pk: -1,
            list,
            address: email,
            account: None,
            verified: true,
            name: if keep {
                Some(display_name)
            } else {
                None
            },
            enabled: true,
            digest: false,
            hide_address: false,
            receive_duplicates: false,
            receive_own_posts: false,
            receive_confirmation: false,
        }
    }

    /// The owner this entry becomes on list `list`.
    pub fn into_owner(self, list: i64) -> (r: ListOwner)
        ensures
            r.pk == -1,
            r.list == list,
            r.address@ == self.email_view(),
            entry_name(self.display_name_view()) matches Some(n) ==> (r.name matches Some(s)
                && s@ == n),
            entry_name(self.display_name_view()) is None ==> r.name is None,
    {
        let keep = self.has_name();
        let Entry { display_name, email } = self;
        ListOwner {
            pk: -1,
            list,
            address: email,
            name: if keep {
                Some(display_name)
            } else {
                None
            },
        }
    }
}

/// The character of the standard base64 alphabet for the six bits `v`:
/// `A`-`Z`, `a`-`z`, `0`-`9`, `+` and `/`.
pub open spec fn base64_char(v: int) -> char {
    if v < 26 {
        ('A' as int + v) as char
    } else if v < 52 {
        ('a' as int + v - 26) as char
    } else if v < 62 {
        ('0' as int + v - 52) as char
    } else if v == 62 {
        '+'
    } else {
        '/'
    }
}

/// The standard base64 encoding (RFC 4648, with padding) of `bytes`: each
/// group of three bytes becomes four characters of six bits each; a last
/// group of one or two bytes is padded with `=`.
pub open spec fn base64_standard(bytes: Seq<u8>) -> Seq<char>
    decreases bytes.len(),
{
    let b = bytes;
    if b.len() == 0 {
        Seq::empty()
    } else if b.len() == 1 {
        seq![base64_char((b[0] as int) / 4), base64_char(((b[0] as int) % 4) * 16), '=', '=']
    } else if b.len() == 2 {
        seq![
            base64_char((b[0] as int) / 4),
            base64_char(((b[0] as int) % 4) * 16 + (b[1] as int) / 16),
            base64_char(((b[1] as int) % 16) * 4),
            '=',
        ]
    } else {
        seq![
            base64_char((b[0] as int) / 4),
            base64_char(((b[0] as int) % 4) * 16 + (b[1] as int) / 16),
            base64_char(((b[1] as int) % 16) * 4 + (b[2] as int) / 64),
            base64_char((b[2] as int) % 64),
        ] + base64_standard(b.subrange(3, b.len() as int))
    }
}

#[verifier::external_body]
fn base64_encode(bytes: &[u8]) -> (r: String)
    ensures
        r@ == base64_standard(bytes@),
{
    let mut buf = String::new();
    base64::Engine::encode_string(&base64::engine::general_purpose::STANDARD, bytes, &mut buf);
    buf
}

/// The value of the HTTP basic authentication header for a user name and a
/// password: `Basic ` and the base64 encoding of `username:password`.
pub fn basic_auth_header(username: &str, password: &str) -> (r: String)
    ensures
        r@ == "Basic "@ + base64_standard(
            vstd::utf8::encode_utf8(username@ + seq![':'] + password@),
        ),
{
    let mut cred = String::from_str(username);
    crate::text::string_push(&mut cred, ':');
    cred.append(password);
    let encoded = base64_encode(cred.as_str().as_bytes());
    let mut r = String::from_str("Basic ");
    r.append(encoded.as_str());
    assert(cred@ =~= username@ + seq![':'] + password@);
    r
}

/// `s` without its trailing `/` characters.
pub open spec fn trim_trailing_slashes(s: Seq<char>) -> Seq<char>
    decreases s.len(),
{
    if s.len() > 0 && s.last() == '/' {
        trim_trailing_slashes(s.drop_last())
    } else {
        s
    }
}

/// The REST endpoint without its trailing slashes, as requests are built on.
pub fn base_url(url: &str) -> (r: String)
    ensures
        r@ == trim_trailing_slashes(url@),
{
    let mut s = String::from_str(url);
    let mut n = url.unicode_len();
    while n > 0 && s.as_str().get_char(n - 1) == '/'
        invariant
            n == s@.len(),
            trim_trailing_slashes(url@) == trim_trailing_slashes(s@),
        decreases n,
    {
        string_pop(&mut s);
        n = n - 1;
    }
    s
}

/// The URL of the roster of `list_address` for `role` (`member` or
/// `owner`), asking for the e-mail and display name fields.
pub open spec fn roster_url_of(base: Seq<char>, list_address: Seq<char>, role: Seq<char>) -> Seq<
    char,
> {
    base + "/lists/"@ + list_address + "/roster/"@ + role + "?fields=email&fields=display_name"@
}

/// The URL of the roster of `list_address` for `role`.
pub fn roster_url(base: &str, list_address: &str, role: &str) -> (r: String)
    ensures
        r@ == roster_url_of(base@, list_address@, role@),
{
    let mut s = String::from_str(base);
    s.append("/lists/");
    s.append(list_address);
    s.append("/roster/");
    s.append(role);
    s.append("?fields=email&fields=display_name");
    s
}

} // verus!
