# mailpot

A mailing list manager whose core is verified with Verus.

## Layout

- `src/`: the verified library.
  - `models`, `models/changesets`: lists, subscriptions, owners, policies
    and the column updates a changeset makes.
  - `posts`: where a received e-mail goes (a post or a request), which
    request it is, and what is answered to each outcome.
  - `mail`, `mail/message_filters`: the filter stack every post goes
    through (line endings, posting rights, list headers, recipients).
  - `policies`, `connection`: policy checks, the authorizer of untrusted
    database connections, transactions, savepoints and migration plans.
  - `postfix`, `postfix/replacement`: postfix maps and the `master.cf`
    service entry, and the proof that saving the entry again replaces it.
  - `migrations`: the table of schema migrations built from the SQL files
    of a migrations directory, and the data scripts added to the schema.
  - `errors`, `queue`, `templates`, `cli`, `lints`, `import`, `script`,
    `text`: errors and their chains, queues, built-in reply templates,
    command line values, database repairs, mailman3 roster imports, script
    validation and the text helpers the rest is built on.
- `tests/`: tests of the library.
- `app/`: the `mpot` command line tool: configuration file, sqlite3
  database, mail submission and everything else that does I/O.
