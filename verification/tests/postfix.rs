use mailpot::models::{DbVal, MailingList, PostPolicy};
use mailpot::postfix::PostfixConfiguration;

const MASTER_CF: &str = r#"#
# Postfix master process configuration file.  For details on the format
# of the file, see the master(5) manual page (command: "man 5 master" or
# on-line: http://www.postfix.org/master.5.html).
#
# Do not forget to execute "postfix reload" after editing this file.
#
# ==========================================================================
# service type  private unpriv  chroot  wakeup  maxproc command + args
#               (yes)   (yes)   (no)    (never) (100)
# ==========================================================================
smtp      inet  n       -       y       -       -       smtpd
pickup    unix  n       -       y       60      1       pickup
cleanup   unix  n       -       y       -       0       cleanup
qmgr      unix  n       -       n       300     1       qmgr
#qmgr     unix  n       -       n       300     1       oqmgr
tlsmgr    unix  -       -       y       1000?   1       tlsmgr
rewrite   unix  -       -       y       -       -       trivial-rewrite
bounce    unix  -       -       y       -       0       bounce
defer     unix  -       -       y       -       0       bounce
trace     unix  -       -       y       -       0       bounce
verify    unix  -       -       y       -       1       verify
flush     unix  n       -       y       1000?   0       flush
proxymap  unix  -       -       n       -       -       proxymap
proxywrite unix -       -       n       -       1       proxymap
smtp      unix  -       -       y       -       -       smtp
relay     unix  -       -       y       -       -       smtp
        -o syslog_name=postfix/$service_name
showq     unix  n       -       y       -       -       showq
error     unix  -       -       y       -       -       error
retry     unix  -       -       y       -       -       error
discard   unix  -       -       y       -       -       discard
local     unix  -       n       n       -       -       local
virtual   unix  -       n       n       -       -       virtual
lmtp      unix  -       -       y       -       -       lmtp
anvil     unix  -       -       y       -       1       anvil
scache    unix  -       -       y       -       1       scache
postlog   unix-dgram n  -       n       -       1       postlogd
maildrop  unix  -       n       n       -       -       pipe
  flags=DRXhu user=vmail argv=/usr/bin/maildrop -d ${recipient}
uucp      unix  -       n       n       -       -       pipe
  flags=Fqhu user=uucp argv=uux -r -n -z -a$sender - $nexthop!rmail ($recipient)
#
# Other external delivery methods.
#
ifmail    unix  -       n       n       -       -       pipe
  flags=F user=ftn argv=/usr/lib/ifmail/ifmail -r $nexthop ($recipient)
bsmtp     unix  -       n       n       -       -       pipe
  flags=Fq. user=bsmtp argv=/usr/lib/bsmtp/bsmtp -t$nexthop -f$sender $recipient
scalemail-backend unix -       n       n       -       2       pipe
  flags=R user=scalemail argv=/usr/lib/scalemail/bin/scalemail-store ${nexthop} ${user} ${extension}
mailman   unix  -       n       n       -       -       pipe
  flags=FRX user=list argv=/usr/lib/mailman/bin/postfix-to-mailman.py ${nexthop} ${user}
"#;

fn list(pk: i64, name: &str) -> DbVal<MailingList> {
    DbVal(
        MailingList {
            pk,
            name: name.to_string(),
            id: name.to_string(),
            address: format!("{name}@example.com"),
            description: None,
            archive_url: None,
        },
        pk,
    )
}

fn policy(pk: i64, list: i64, approval_needed: bool, open: bool) -> DbVal<PostPolicy> {
    DbVal(
        PostPolicy {
            pk,
            list,
            announce_only: false,
            subscription_only: false,
            approval_needed,
            open,
            custom: false,
        },
        pk,
    )
}

fn entry(user: &str) -> String {
    format!(
        "mailpot unix - n n - 1 pipe\nflags=RX user={user} directory={{/tmp/data}} \
         argv={{/usr/bin/mailpot}} -c {{/tmp/data/conf.toml}} post"
    )
}

#[test]
fn test_postfix_generation() {
    let mut postfix_conf = PostfixConfiguration::default_config();
    assert_eq!(
        postfix_conf.generate_master_cf_entry("/tmp/data", "/tmp/data/conf.toml"),
        entry("user")
    );

    let lists = vec![
        (list(1, "first"), None),
        (list(2, "second"), Some(policy(1, 2, false, true))),
        (list(3, "third"), Some(policy(2, 3, true, false))),
    ];
    let maps = postfix_conf.generate_maps(&lists);
    let expected = "second@example.com             mailpot:

third@example.com              mailpot:
third+request@example.com      mailpot:
third+owner@example.com        mailpot:
";
    assert!(maps.ends_with(expected), "maps has unexpected contents: {maps:?}");
    assert!(maps.starts_with("# Automatically generated by mailpot.\n"));

    let first = postfix_conf
        .update_master_cf(MASTER_CF, "/tmp/data", "/tmp/data/conf.toml")
        .unwrap();
    assert!(first.starts_with(MASTER_CF));
    assert!(first.ends_with(&format!("{}\n", entry("user"))));

    // a smaller entry replaces the previous one
    postfix_conf.user = "nobody".into();
    let second = postfix_conf
        .update_master_cf(&first, "/tmp/data", "/tmp/data/conf.toml")
        .unwrap();
    assert_eq!(second, format!("{MASTER_CF}{}\n", entry("nobody")));

    // a larger entry replaces the previous one
    postfix_conf.user = "hackerman".into();
    let third = postfix_conf
        .update_master_cf(&second, "/tmp/data", "/tmp/data/conf.toml")
        .unwrap();
    assert_eq!(third, format!("{MASTER_CF}{}\n", entry("hackerman")));

    // a group is rendered after the user
    postfix_conf.group = Some("nobody".into());
    let fourth = postfix_conf
        .update_master_cf(&third, "/tmp/data", "/tmp/data/conf.toml")
        .unwrap();
    assert_eq!(fourth, format!("{MASTER_CF}{}\n", entry("hackerman:nobody")));
}

#[test]
fn maps_without_policies_only_hold_the_header() {
    let conf = PostfixConfiguration::default_config();
    let lists = vec![(list(1, "first"), None)];
    let maps = conf.generate_maps(&lists);
    assert_eq!(
        maps,
        "# Automatically generated by mailpot.\n# Upon its creation and every time it is \
         modified, postmap(1) must be called for the changes to take effect:\n# postmap \
         /path/to/map_file\n"
    );
    let none: Vec<(DbVal<MailingList>, Option<DbVal<PostPolicy>>)> = vec![];
    assert_eq!(
        conf.generate_maps(&none),
        "# Automatically generated by mailpot.\n# Upon its creation and every time it is \
         modified, postmap(1) must be called for the changes to take effect:\n# postmap \
         /path/to/map_file\n\n"
    );
}

#[test]
fn custom_transport_and_process_limit() {
    let mut conf = PostfixConfiguration::default_config();
    conf.transport_name = Some("lists".into());
    conf.process_limit = Some(4);
    assert_eq!(conf.transport(), "lists");
    assert_eq!(
        conf.generate_master_cf_entry("/d", "/c.toml"),
        "lists unix - n n - 4 pipe\nflags=RX user=user directory={/d} argv={/usr/bin/mailpot} \
         -c {/c.toml} post"
    );
    let lists = vec![(list(1, "a"), Some(policy(1, 1, false, true)))];
    assert!(conf.generate_maps(&lists).ends_with(&format!("a@example.com{}lists:\n", " ".repeat(13))));
}

#[test]
fn master_cf_entry_without_argv_is_a_bug() {
    let conf = PostfixConfiguration::default_config();
    let broken = "mailpot unix - n n - 1 pipe\n";
    let err = conf.update_master_cf(broken, "/d", "/c").unwrap_err();
    assert_eq!(
        err.to_string(),
        "An error that shouldn't happen and should be reported: Unepected logical error.."
    );
}

#[test]
fn saving_again_into_an_empty_master_cf_keeps_one_entry() {
    let mut conf = PostfixConfiguration::default_config();
    let once = conf.update_master_cf("", "/d", "/c").unwrap();
    assert_eq!(
        once,
        "mailpot unix - n n - 1 pipe\nflags=RX user=user directory={/d} argv={/usr/bin/mailpot} -c {/c} post\n"
    );
    conf.process_limit = Some(12);
    conf.binary_path = "/opt/mailpot".into();
    let twice = conf.update_master_cf(&once, "/d", "/c").unwrap();
    assert_eq!(
        twice,
        "mailpot unix - n n - 12 pipe\nflags=RX user=user directory={/d} argv={/opt/mailpot} -c {/c} post\n"
    );
}

#[test]
fn lists_without_policy_do_not_change_the_maps() {
    let conf = PostfixConfiguration::default_config();
    let with = vec![
        (list(1, "first"), None),
        (list(2, "second"), Some(policy(1, 2, false, true))),
        (list(4, "fourth-list-with-a-long-name"), None),
    ];
    let without = vec![(list(2, "second"), Some(policy(1, 2, false, true)))];
    assert_eq!(conf.generate_maps(&with), conf.generate_maps(&without));
}

#[test]
fn open_lists_need_no_domain_in_their_address() {
    let conf = PostfixConfiguration::default_config();
    let mut l = list(1, "first");
    l.0.address = "local".to_string();
    let lists = vec![(l, Some(policy(1, 1, false, true)))];
    assert_eq!(
        conf.generate_maps(&lists),
        format!(
            "# Automatically generated by mailpot.\n# Upon its creation and every time it is \
             modified, postmap(1) must be called for the changes to take effect:\n# postmap \
             /path/to/map_file\n\nlocal{}mailpot:\n",
            " ".repeat(13)
        )
    );
}

#[test]
fn saving_again_keeps_what_follows_the_entry() {
    let mut conf = PostfixConfiguration::default_config();
    conf.user = "hackerman".into();
    let after = "# end of services\nlast unix - n n - - pipe\n";
    let before = format!("{MASTER_CF}{}\n{after}", entry("hackerman"));
    conf.user = "nobody".into();
    let saved = conf.update_master_cf(&before, "/tmp/data", "/tmp/data/conf.toml").unwrap();
    assert_eq!(saved, format!("{MASTER_CF}{}\n{after}", entry("nobody")));
}
