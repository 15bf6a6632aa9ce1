# pam_password_fingerprint

A PAM module that asks for a password and listens to the fingerprint reader at
the same time. Whichever comes first logs the user in; the other one is
cancelled. The decisions of the module are written in Verus and proved against
their contracts.

## Layout

- `src/` is the verified library. It does no input or output: each function
  takes what came of an action and returns what to do next.
- `app/` is the module itself, in ordinary Rust: the entry points for PAM, the
  two threads, the terminal, the system log and `fprintd` on the system bus.
- `tests/` runs the library on concrete values.

## Options

    auth sufficient pam_password_fingerprint.so show_stars password_tries=3 fingerprint_tries=5

- `show_stars` answers each typed character with an asterisk.
- `tries=X` allows `X` attempts for each method; without it there are three.
- `password_tries=Y` and `fingerprint_tries=Z` override it for one method, in
  whatever order the options stand.

A count is a decimal number of 32 bits. Arguments that are none of these are
passed over.

## What is proved

- The module answers `PAM_SUCCESS` if and only if, at some moment of the run,
  `crypt` turned an entered password into the user's hash or the reader
  reported a match, for every order in which the events of both threads arrive
  (`src/run_laws.rs`). The exception is a run that the user broke off with
  Ctrl+C: what is recognised after that no longer counts.
- The run goes on while either method has attempts left, and no method uses more
  attempts than it was given.
- A reader that is missing, busy or broken costs no password attempt.
- A reader that was claimed has been released, and a scan that was started has
  been stopped, when the fingerprint method ends (`src/reader_laws.rs`).
- Neither a password nor a hash reaches the log or the terminal: two attempts
  with the same verdict leave the same entries and the same notice, and two
  lines of the same length and corrections look the same while they are typed
  (`src/password.rs`, `src/records.rs`, `src/keyboard.rs`).
- On a terminal all notices of a run share one line: each is written in the row
  of the first prompt, and the prompt stands directly below it
  (`src/screen_laws.rs`).
- Once one method has succeeded, the other one ends without asking for anything
  that would hold the user up.

## What is trusted

Verus takes on trust what the library says of three functions of the standard
library: `String::push`, `String::pop` and `String::from_utf8_lossy`
(`src/text.rs`).
