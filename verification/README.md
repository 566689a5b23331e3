# mailbridge

The rules of a small HTTP bridge to IMAP and SMTP mailboxes, verified with Verus.

- `src/config.rs` reads the settings from environment variables; `src/accounts.rs` holds the
  mailbox accounts among them.
- `src/api.rs` holds the requests that callers can make, `src/auth.rs` who may make them.
- `src/exchange.rs` decides, command by command, how a request goes on and what the caller is
  answered; `src/courses.rs` states what whole requests come to, `src/folder.rs` what becomes of
  the messages of a folder.
- `src/command.rs`, `src/date.rs` and `src/params.rs` build the commands for the mail servers.
- `src/outgoing.rs` composes outgoing mail with the `lettre` crate.
- `src/summary.rs` and `src/reply.rs` turn what came back into answers.
- `src/watch.rs` watches inboxes and announces new mail.
- `src/text.rs`, `src/decimal.rs` and `src/letter_case.rs` are about text and numerals.
- `app/` is the program: HTTP routes, TLS sessions, the SMTP relay and the webhook.

The library does no input or output. It names the next command, the program carries it out and
hands back how it ended.
