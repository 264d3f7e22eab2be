//! Named templates, for generated e-mail like confirmations, alerts etc.
//!
//! Template database model: [`Template`].

use vstd::prelude::*;

use crate::errors::{Error, ErrorKind};
use crate::models::{clone_opt_string, opt_str, ListMembership, MailingList};
use crate::text::{dec_int, occurs_at, push_i64};

verus! {

/// A named template.
#[derive(Debug)]
pub struct Template {
    /// Database primary key.
    pub pk: i64,
    /// Name.
    pub name: String,
    /// Associated list foreign key, optional.
    pub list: Option<i64>,
    /// Subject template.
    pub subject: Option<String>,
    /// Extra headers template, as JSON text.
    pub headers_json: Option<String>,
    /// Body template.
    pub body: String,
}

/// Template name for generic list help e-mail.
pub const GENERIC_HELP: &'static str = "generic-help";
/// Template name for generic failure e-mail.
pub const GENERIC_FAILURE: &'static str = "generic-failure";
/// Template name for generic success e-mail.
pub const GENERIC_SUCCESS: &'static str = "generic-success";
/// Template name for subscription confirmation e-mail.
pub const SUBSCRIPTION_CONFIRMATION: &'static str = "subscription-confirmation";
/// Template name for unsubscription confirmation e-mail.
pub const UNSUBSCRIPTION_CONFIRMATION: &'static str = "unsubscription-confirmation";
/// Template name for subscription request notice e-mail (for list owners).
pub const SUBSCRIPTION_REQUEST_NOTICE_OWNER: &'static str = "subscription-notice-owner";
/// Template name for subscription request acceptance e-mail (for the
/// candidates).
pub const SUBSCRIPTION_REQUEST_CANDIDATE_ACCEPT: &'static str = "subscription-notice-candidate-accept";
/// Template name for admin notices.
pub const ADMIN_NOTICE: &'static str = "admin-notice";

/// Whether a template is a built-in one: no primary key (`-1`), no list and
/// no extra headers.
pub open spec fn is_builtin(t: Template) -> bool {
    t.pk == -1 && t.list is None && t.headers_json is None
}

/// Whether `t` has the given name, subject and body.
pub open spec fn has_texts(t: Template, name: Seq<char>, subject: Seq<char>, body: Seq<char>) -> bool {
    &&& t.name@ == name
    &&& t.subject matches Some(s) && s@ == subject
    &&& t.body@ == body
}

/// The subject and body of the built-in template of a name, if there is
/// one.
pub open spec fn default_texts(name: Seq<char>) -> Option<(Seq<char>, Seq<char>)> {
    if name == GENERIC_FAILURE@ {
        Some(("{{ subject if subject else \"Your e-mail was not processed successfully.\" }}"@, "{{ details|safe if details else \"The list owners and administrators have been notified.\" }}"@))
    } else if name == GENERIC_SUCCESS@ {
        Some(("{{ subject if subject else \"Your e-mail was processed successfully.\" }}"@, "{{ details|safe if details else \"\" }}"@))
    } else if name == SUBSCRIPTION_CONFIRMATION@ {
        Some(("{% if list and (list.id or list.name) %}{% if list.id %}[{{ list.id }}] {% endif %}You have successfully subscribed to {{ list.name if list.name else list.id }}{% else %}You have successfully subscribed to this list{% endif %}."@, "{{ details|safe if details else \"\" }}"@))
    } else if name == UNSUBSCRIPTION_CONFIRMATION@ {
        Some(("{% if list and (list.id or list.name) %}{% if list.id %}[{{ list.id }}] {% endif %}You have successfully unsubscribed from {{ list.name if list.name else list.id }}{% else %}You have successfully unsubscribed from this list{% endif %}."@, "{{ details|safe if details else \"\" }}"@))
    } else if name == ADMIN_NOTICE@ {
        Some(("{% if list %}An error occured with list {{ list.id }}{% else %}An error occured{% endif %}"@, "{{ details|safe if details else \"\" }}"@))
    } else if name == SUBSCRIPTION_REQUEST_NOTICE_OWNER@ {
        Some(("Subscription request for {{ list.id }} by {{ candidate }}"@, "Candidate primary key: {{ candidate.pk }}\n\n{{ details|safe if details else \"\" }}"@))
    } else if name == SUBSCRIPTION_REQUEST_CANDIDATE_ACCEPT@ {
        Some(("Your subscription to {{ list.id }} is now active."@, "{{ details|safe if details else \"\" }}"@))
    } else if name == GENERIC_HELP@ {
        Some(("{{ subject if subject else \"Help for mailing list\" }}"@, "{{ details }}"@))
    } else {
        None
    }
}

/// What the subject of the built-in template of a name says, whatever
/// the context: the failure or success of processing, the subscription or
/// unsubscription that took place, the error, the subscription request, the
/// activation, or the help.
pub open spec fn subject_phrase(name: Seq<char>) -> Seq<char> {
    if name == GENERIC_FAILURE@ {
        "was not processed successfully"@
    } else if name == GENERIC_SUCCESS@ {
        "was processed successfully"@
    } else if name == SUBSCRIPTION_CONFIRMATION@ {
        "You have successfully subscribed to"@
    } else if name == UNSUBSCRIPTION_CONFIRMATION@ {
        "You have successfully unsubscribed from"@
    } else if name == ADMIN_NOTICE@ {
        "An error occured"@
    } else if name == SUBSCRIPTION_REQUEST_NOTICE_OWNER@ {
        "Subscription request for"@
    } else if name == SUBSCRIPTION_REQUEST_CANDIDATE_ACCEPT@ {
        "is now active"@
    } else if name == GENERIC_HELP@ {
        "Help for mailing list"@
    } else {
        Seq::empty()
    }
}

/// The subject of every built-in template says what its name is for: the
/// subscription confirmation that the sender subscribed, the unsubscription
/// confirmation that the sender unsubscribed, and so on (see
/// `subject_phrase`), so that no template stands in for another.
pub proof fn lemma_default_subjects(name: Seq<char>)
    ensures
        default_texts(name) matches Some(p) ==> exists|i: int| occurs_at(p.0, subject_phrase(name), i),
{
    reveal_strlit("generic-help");
    reveal_strlit("generic-failure");
    reveal_strlit("generic-success");
    reveal_strlit("subscription-confirmation");
    reveal_strlit("unsubscription-confirmation");
    reveal_strlit("subscription-notice-owner");
    reveal_strlit("subscription-notice-candidate-accept");
    reveal_strlit("admin-notice");
    if name == GENERIC_FAILURE@ {
        reveal_strlit("{{ subject if subject else \"Your e-mail was not processed successfully.\" }}");
        reveal_strlit("was not processed successfully");
        let sj = "{{ subject if subject else \"Your e-mail was not processed successfully.\" }}"@;
        assert(sj.subrange(40int, 40int + "was not processed successfully"@.len()) =~= "was not processed successfully"@);
        assert(occurs_at(sj, "was not processed successfully"@, 40));
        assert(subject_phrase(name) == "was not processed successfully"@);
        assert(default_texts(name).unwrap().0 == sj);
    } else if name == GENERIC_SUCCESS@ {
        reveal_strlit("{{ subject if subject else \"Your e-mail was processed successfully.\" }}");
        reveal_strlit("was processed successfully");
        let sj = "{{ subject if subject else \"Your e-mail was processed successfully.\" }}"@;
        assert(sj.subrange(40int, 40int + "was processed successfully"@.len()) =~= "was processed successfully"@);
        assert(occurs_at(sj, "was processed successfully"@, 40));
        assert(subject_phrase(name) == "was processed successfully"@);
        assert(default_texts(name).unwrap().0 == sj);
    } else if name == SUBSCRIPTION_CONFIRMATION@ {
        reveal_strlit("{% if list and (list.id or list.name) %}{% if list.id %}[{{ list.id }}] {% endif %}You have successfully subscribed to {{ list.name if list.name else list.id }}{% else %}You have successfully subscribed to this list{% endif %}.");
        reveal_strlit("You have successfully subscribed to");
        let sj = "{% if list and (list.id or list.name) %}{% if list.id %}[{{ list.id }}] {% endif %}You have successfully subscribed to {{ list.name if list.name else list.id }}{% else %}You have successfully subscribed to this list{% endif %}."@;
        assert(sj.subrange(83int, 83int + "You have successfully subscribed to"@.len()) =~= "You have successfully subscribed to"@);
        assert(occurs_at(sj, "You have successfully subscribed to"@, 83));
        assert(subject_phrase(name) == "You have successfully subscribed to"@);
        assert(default_texts(name).unwrap().0 == sj);
    } else if name == UNSUBSCRIPTION_CONFIRMATION@ {
        reveal_strlit("{% if list and (list.id or list.name) %}{% if list.id %}[{{ list.id }}] {% endif %}You have successfully unsubscribed from {{ list.name if list.name else list.id }}{% else %}You have successfully unsubscribed from this list{% endif %}.");
        reveal_strlit("You have successfully unsubscribed from");
        let sj = "{% if list and (list.id or list.name) %}{% if list.id %}[{{ list.id }}] {% endif %}You have successfully unsubscribed from {{ list.name if list.name else list.id }}{% else %}You have successfully unsubscribed from this list{% endif %}."@;
        assert(sj.subrange(83int, 83int + "You have successfully unsubscribed from"@.len()) =~= "You have successfully unsubscribed from"@);
        assert(occurs_at(sj, "You have successfully unsubscribed from"@, 83));
        assert(subject_phrase(name) == "You have successfully unsubscribed from"@);
        assert(default_texts(name).unwrap().0 == sj);
    } else if name == ADMIN_NOTICE@ {
        reveal_strlit("{% if list %}An error occured with list {{ list.id }}{% else %}An error occured{% endif %}");
        reveal_strlit("An error occured");
        let sj = "{% if list %}An error occured with list {{ list.id }}{% else %}An error occured{% endif %}"@;
        assert(sj.subrange(13int, 13int + "An error occured"@.len()) =~= "An error occured"@);
        assert(occurs_at(sj, "An error occured"@, 13));
        assert(subject_phrase(name) == "An error occured"@);
        assert(default_texts(name).unwrap().0 == sj);
    } else if name == SUBSCRIPTION_REQUEST_NOTICE_OWNER@ {
        reveal_strlit("Subscription request for {{ list.id }} by {{ candidate }}");
        reveal_strlit("Subscription request for");
        let sj = "Subscription request for {{ list.id }} by {{ candidate }}"@;
        assert(sj.subrange(0int, 0int + "Subscription request for"@.len()) =~= "Subscription request for"@);
        assert(occurs_at(sj, "Subscription request for"@, 0));
        assert(subject_phrase(name) == "Subscription request for"@);
        assert(default_texts(name).unwrap().0 == sj);
    } else if name == SUBSCRIPTION_REQUEST_CANDIDATE_ACCEPT@ {
        reveal_strlit("Your subscription to {{ list.id }} is now active.");
        reveal_strlit("is now active");
        let sj = "Your subscription to {{ list.id }} is now active."@;
        assert(sj.subrange(35int, 35int + "is now active"@.len()) =~= "is now active"@);
        assert(occurs_at(sj, "is now active"@, 35));
        assert(subject_phrase(name) == "is now active"@);
        assert(default_texts(name).unwrap().0 == sj);
    } else if name == GENERIC_HELP@ {
        reveal_strlit("{{ subject if subject else \"Help for mailing list\" }}");
        reveal_strlit("Help for mailing list");
        let sj = "{{ subject if subject else \"Help for mailing list\" }}"@;
        assert(sj.subrange(28int, 28int + "Help for mailing list"@.len()) =~= "Help for mailing list"@);
        assert(occurs_at(sj, "Help for mailing list"@, 28));
        assert(subject_phrase(name) == "Help for mailing list"@);
        assert(default_texts(name).unwrap().0 == sj);
    }
}

impl Template {
    /// Template for generic failure e-mail.
    pub fn default_generic_failure() -> (r: Self)
        ensures
            is_builtin(r),
            has_texts(
                r,
                GENERIC_FAILURE@,
                "{{ subject if subject else \"Your e-mail was not processed successfully.\" }}"@,
                "{{ details|safe if details else \"The list owners and administrators have been notified.\" }}"@,
            ),
    {
        Self {
            pk: -1,
            name: String::from_str(GENERIC_FAILURE),
            list: None,
            subject: Some(
                String::from_str(
                    "{{ subject if subject else \"Your e-mail was not processed successfully.\" }}",
                ),
            ),
            headers_json: None,
            body: String::from_str(
                "{{ details|safe if details else \"The list owners and administrators have been notified.\" }}",
            ),
        }
    }

    /// Create a plain template for generic success e-mails.
    pub fn default_generic_success() -> (r: Self)
        ensures
            is_builtin(r),
            has_texts(
                r,
                GENERIC_SUCCESS@,
                "{{ subject if subject else \"Your e-mail was processed successfully.\" }}"@,
                "{{ details|safe if details else \"\" }}"@,
            ),
    {
        Self {
            pk: -1,
            name: String::from_str(GENERIC_SUCCESS),
            list: None,
            subject: Some(
                String::from_str(
                    "{{ subject if subject else \"Your e-mail was processed successfully.\" }}",
                ),
            ),
            headers_json: None,
            body: String::from_str("{{ details|safe if details else \"\" }}"),
        }
    }

    /// Create a plain template for subscription confirmation.
    pub fn default_subscription_confirmation() -> (r: Self)
        ensures
            is_builtin(r),
            has_texts(
                r,
                SUBSCRIPTION_CONFIRMATION@,
                "{% if list and (list.id or list.name) %}{% if list.id %}[{{ list.id }}] {% endif %}You have successfully subscribed to {{ list.name if list.name else list.id }}{% else %}You have successfully subscribed to this list{% endif %}."@,
                "{{ details|safe if details else \"\" }}"@,
            ),
    {
        Self {
            pk: -1,
            name: String::from_str(SUBSCRIPTION_CONFIRMATION),
            list: None,
            subject: Some(
                String::from_str(
                    "{% if list and (list.id or list.name) %}{% if list.id %}[{{ list.id }}] {% endif %}You have successfully subscribed to {{ list.name if list.name else list.id }}{% else %}You have successfully subscribed to this list{% endif %}.",
                ),
            ),
            headers_json: None,
            body: String::from_str("{{ details|safe if details else \"\" }}"),
        }
    }

    /// Create a plain template for unsubscription confirmations.
    pub fn default_unsubscription_confirmation() -> (r: Self)
        ensures
            is_builtin(r),
            has_texts(
                r,
                UNSUBSCRIPTION_CONFIRMATION@,
                "{% if list and (list.id or list.name) %}{% if list.id %}[{{ list.id }}] {% endif %}You have successfully unsubscribed from {{ list.name if list.name else list.id }}{% else %}You have successfully unsubscribed from this list{% endif %}."@,
                "{{ details|safe if details else \"\" }}"@,
            ),
    {
        Self {
            pk: -1,
            name: String::from_str(UNSUBSCRIPTION_CONFIRMATION),
            list: None,
            subject: Some(
                String::from_str(
                    "{% if list and (list.id or list.name) %}{% if list.id %}[{{ list.id }}] {% endif %}You have successfully unsubscribed from {{ list.name if list.name else list.id }}{% else %}You have successfully unsubscribed from this list{% endif %}.",
                ),
            ),
            headers_json: None,
            body: String::from_str("{{ details|safe if details else \"\" }}"),
        }
    }

    /// Create a plain template for admin notices.
    pub fn default_admin_notice() -> (r: Self)
        ensures
            is_builtin(r),
            has_texts(
                r,
                ADMIN_NOTICE@,
                "{% if list %}An error occured with list {{ list.id }}{% else %}An error occured{% endif %}"@,
                "{{ details|safe if details else \"\" }}"@,
            ),
    {
        Self {
            pk: -1,
            name: String::from_str(ADMIN_NOTICE),
            list: None,
            subject: Some(
                String::from_str(
                    "{% if list %}An error occured with list {{ list.id }}{% else %}An error occured{% endif %}",
                ),
            ),
            headers_json: None,
            body: String::from_str("{{ details|safe if details else \"\" }}"),
        }
    }

    /// Create a plain template for subscription requests for list owners.
    pub fn default_subscription_request_owner() -> (r: Self)
        ensures
            is_builtin(r),
            has_texts(
                r,
                SUBSCRIPTION_REQUEST_NOTICE_OWNER@,
                "Subscription request for {{ list.id }} by {{ candidate }}"@,
                "Candidate primary key: {{ candidate.pk }}\n\n{{ details|safe if details else \"\" }}"@,
            ),
    {
        Self {
            pk: -1,
            name: String::from_str(SUBSCRIPTION_REQUEST_NOTICE_OWNER),
            list: None,
            subject: Some(
                String::from_str("Subscription request for {{ list.id }} by {{ candidate }}"),
            ),
            headers_json: None,
            body: String::from_str(
                "Candidate primary key: {{ candidate.pk }}\n\n{{ details|safe if details else \"\" }}",
            ),
        }
    }

    /// Create a plain template for subscription requests for candidates.
    pub fn default_subscription_request_candidate_accept() -> (r: Self)
        ensures
            is_builtin(r),
            has_texts(
                r,
                SUBSCRIPTION_REQUEST_CANDIDATE_ACCEPT@,
                "Your subscription to {{ list.id }} is now active."@,
                "{{ details|safe if details else \"\" }}"@,
            ),
    {
        Self {
            pk: -1,
            name: String::from_str(SUBSCRIPTION_REQUEST_CANDIDATE_ACCEPT),
            list: None,
            subject: Some(String::from_str("Your subscription to {{ list.id }} is now active.")),
            headers_json: None,
            body: String::from_str("{{ details|safe if details else \"\" }}"),
        }
    }

    /// Create a plain template for generic list help replies.
    pub fn default_generic_help() -> (r: Self)
        ensures
            is_builtin(r),
            has_texts(
                r,
                GENERIC_HELP@,
                "{{ subject if subject else \"Help for mailing list\" }}"@,
                "{{ details }}"@,
            ),
    {
        Self {
            pk: -1,
            name: String::from_str(GENERIC_HELP),
            list: None,
            subject: Some(String::from_str("{{ subject if subject else \"Help for mailing list\" }}")),
            headers_json: None,
            body: String::from_str("{{ details }}"),
        }
    }
    /// The built-in template of the name `name`, if there is one (see
    /// `default_texts`).
    pub fn default_of(name: &str) -> (r: Option<Self>)
        ensures
            r is Some <==> default_texts(name@) is Some,
            r matches Some(t) ==> (is_builtin(t) && t.name@ == name@ && (t.subject matches Some(sj)
                && default_texts(name@) == Some((sj@, t.body@)))),
    {
        proof {
            reveal_strlit("generic-help");
            reveal_strlit("generic-failure");
            reveal_strlit("generic-success");
            reveal_strlit("subscription-confirmation");
            reveal_strlit("unsubscription-confirmation");
            reveal_strlit("subscription-notice-owner");
            reveal_strlit("subscription-notice-candidate-accept");
            reveal_strlit("admin-notice");
        }
        if crate::text::str_eq(name, GENERIC_FAILURE) {
            return Some(Self::default_generic_failure());
        }
        if crate::text::str_eq(name, GENERIC_SUCCESS) {
            return Some(Self::default_generic_success());
        }
        if crate::text::str_eq(name, SUBSCRIPTION_CONFIRMATION) {
            return Some(Self::default_subscription_confirmation());
        }
        if crate::text::str_eq(name, UNSUBSCRIPTION_CONFIRMATION) {
            return Some(Self::default_unsubscription_confirmation());
        }
        if crate::text::str_eq(name, ADMIN_NOTICE) {
            return Some(Self::default_admin_notice());
        }
        if crate::text::str_eq(name, SUBSCRIPTION_REQUEST_NOTICE_OWNER) {
            return Some(Self::default_subscription_request_owner());
        }
        if crate::text::str_eq(name, SUBSCRIPTION_REQUEST_CANDIDATE_ACCEPT) {
            return Some(Self::default_subscription_request_candidate_accept());
        }
        if crate::text::str_eq(name, GENERIC_HELP) {
            return Some(Self::default_generic_help());
        }
        None
    }
}

/// One entry of the context a template is rendered with: its key, and
/// either a text or a record of named texts (or neither, for none).
pub type ContextEntry = (&'static str, Option<String>, Option<Vec<(&'static str, Option<String>)>>);

/// A record of named texts as plain values.
pub open spec fn record_view(r: Seq<(&'static str, Option<String>)>) -> Seq<(Seq<char>, Option<Seq<char>>)> {
    r.map_values(|f: (&'static str, Option<String>)| (f.0@, opt_str(f.1)))
}

/// A context entry as plain values.
pub open spec fn entry_view(e: ContextEntry) -> (Seq<char>, Option<Seq<char>>, Option<Seq<(Seq<char>, Option<Seq<char>>)>>) {
    (e.0@, opt_str(e.1), match e.2 {
        Some(r) => Some(record_view(r@)),
        None => None,
    })
}

/// A context as plain values.
pub open spec fn context_view(c: Seq<ContextEntry>) -> Seq<(Seq<char>, Option<Seq<char>>, Option<Seq<(Seq<char>, Option<Seq<char>>)>>)> {
    c.map_values(|e: ContextEntry| entry_view(e))
}

/// What `minijinja` renders from the template text `source`, named `name`,
/// with the context `ctx` (each record a map of its texts), where it
/// renders. The name matters: it chooses the automatic escaping.
pub uninterp spec fn rendered(
    name: Seq<char>,
    source: Seq<char>,
    ctx: Seq<(Seq<char>, Option<Seq<char>>, Option<Seq<(Seq<char>, Option<Seq<char>>)>>)>,
) -> Option<Seq<char>>;

/// Renders `source` with `minijinja::Environment::render_named_str` in a
/// new environment; the context becomes a map from each key to its text or
/// to the map of its record. The contract claims only that the text is the
/// one named by `rendered`; the error message is not stated.
#[verifier::external_body]
fn render_str(name: &str, source: &str, ctx: &Vec<ContextEntry>) -> (r: Result<String, String>)
    ensures
        r matches Ok(t) ==> rendered(name@, source@, context_view(ctx@)) == Some(t@),
        r is Err ==> rendered(name@, source@, context_view(ctx@)) is None,
{
    let record = |fs: &Vec<(&'static str, Option<String>)>| {
        minijinja::Value::from_iter(fs.iter().map(|(k, v)| (*k, minijinja::Value::from(v.clone()))))
    };
    let value = minijinja::Value::from_iter(ctx.iter().map(|(k, t, r)| {
        (*k, r.as_ref().map(record).unwrap_or_else(|| minijinja::Value::from(t.clone())))
    }));
    minijinja::Environment::new().render_named_str(name, source, value).map_err(|e| e.to_string())
}

/// The fields of a list, as a template sees them.
pub open spec fn list_record(l: MailingList) -> Seq<(Seq<char>, Option<Seq<char>>)> {
    seq![
        ("pk"@, Some(dec_int(l.pk as int))),
        ("name"@, Some(l.name@)),
        ("id"@, Some(l.id@)),
        ("address"@, Some(l.address@)),
        ("description"@, opt_str(l.description)),
        ("archive_url"@, opt_str(l.archive_url)),
    ]
}

/// The fields of a subscription, as a template sees them.
pub open spec fn candidate_record(c: ListMembership) -> Seq<(Seq<char>, Option<Seq<char>>)> {
    seq![
        ("pk"@, Some(dec_int(c.pk as int))),
        ("address"@, Some(c.address@)),
        ("name"@, opt_str(c.name)),
    ]
}

/// The context of a reply about `list`: the list, the subject and the
/// details, and the candidate of a subscription request where there is one.
pub open spec fn reply_context_of(
    list: MailingList,
    subject: Option<Seq<char>>,
    details: Option<Seq<char>>,
    candidate: Option<ListMembership>,
) -> Seq<(Seq<char>, Option<Seq<char>>, Option<Seq<(Seq<char>, Option<Seq<char>>)>>)> {
    seq![
        ("list"@, None, Some(list_record(list))),
        ("subject"@, subject, None),
        ("details"@, details, None),
        ("candidate"@, None, match candidate {
            Some(c) => Some(candidate_record(c)),
            None => None,
        }),
    ]
}

fn number_text(n: i64) -> (r: String)
    ensures
        r@ == dec_int(n as int),
{
    let mut s = String::new();
    push_i64(&mut s, n);
    assert(s@ =~= dec_int(n as int));
    s
}

/// The context of a reply about `list` (see `reply_context_of`).
pub fn reply_context(
    list: &MailingList,
    subject: Option<String>,
    details: Option<String>,
    candidate: Option<&ListMembership>,
) -> (r: Vec<ContextEntry>)
    ensures
        context_view(r@) == reply_context_of(*list, opt_str(subject), opt_str(details), match candidate {
            Some(c) => Some(*c),
            None => None,
        }),
{
    proof {
        reveal_strlit("pk");
        reveal_strlit("name");
        reveal_strlit("id");
        reveal_strlit("address");
        reveal_strlit("description");
        reveal_strlit("archive_url");
        reveal_strlit("list");
        reveal_strlit("subject");
        reveal_strlit("details");
        reveal_strlit("candidate");
    }
    let list_fields: Vec<(&'static str, Option<String>)> = vec![
        ("pk", Some(number_text(list.pk))),
        ("name", Some(list.name.clone())),
        ("id", Some(list.id.clone())),
        ("address", Some(list.address.clone())),
        ("description", clone_opt_string(&list.description)),
        ("archive_url", clone_opt_string(&list.archive_url)),
    ];
    assert(record_view(list_fields@) =~= list_record(*list));
    let candidate_fields: Option<Vec<(&'static str, Option<String>)>> = match candidate {
        Some(c) => {
            let v: Vec<(&'static str, Option<String>)> = vec![
                ("pk", Some(number_text(c.pk))),
                ("address", Some(c.address.clone())),
                ("name", clone_opt_string(&c.name)),
            ];
            assert(record_view(v@) =~= candidate_record(*c));
            Some(v)
        },
        None => None,
    };
    let r: Vec<ContextEntry> = vec![
        ("list", None, Some(list_fields)),
        ("subject", subject, None),
        ("details", details, None),
        ("candidate", None, candidate_fields),
    ];
    assert(context_view(r@) =~= reply_context_of(*list, opt_str(subject), opt_str(details), match candidate {
        Some(c) => Some(*c),
        None => None,
    }));
    r
}

/// A rendered template: its subject, where the template has one, and its
/// body.
#[derive(Debug)]
pub struct Rendered {
    /// The subject.
    pub subject: Option<String>,
    /// The body.
    pub body: String,
}

/// Whether an error is a template error.
pub open spec fn is_template_error(e: Error) -> bool {
    e.kind is Template && e.source is None
}

impl Template {
    /// Renders the body and then the subject of this template with the
    /// context `ctx`; an error of kind `Template` where either does not
    /// render.
    pub fn render(&self, ctx: &Vec<ContextEntry>) -> (r: Result<Rendered, Error>)
        ensures
            rendered("body"@, self.body@, context_view(ctx@)) is None ==> (r matches Err(e)
                && is_template_error(e)),
            rendered("body"@, self.body@, context_view(ctx@)) matches Some(b) ==> match self.subject {
                None => r matches Ok(t) && t.body@ == b && t.subject is None,
                Some(s) => match rendered("subject"@, s@, context_view(ctx@)) {
                    Some(x) => r matches Ok(t) && t.body@ == b && (t.subject matches Some(y)
                        && y@ == x),
                    None => r matches Err(e) && is_template_error(e),
                },
            },
    {
        let body = match render_str("body", self.body.as_str(), ctx) {
            Ok(b) => b,
            Err(m) => {
                return Err(Error::from_kind(ErrorKind::Template(m)));
            },
        };
        let subject = match &self.subject {
            Some(s) => match render_str("subject", s.as_str(), ctx) {
                Ok(x) => Some(x),
                Err(m) => {
                    return Err(Error::from_kind(ErrorKind::Template(m)));
                },
            },
            None => None,
        };
        Ok(Rendered { subject, body })
    }
}

} // verus!
