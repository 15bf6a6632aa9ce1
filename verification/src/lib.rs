//! The decisions of a PAM module that takes a password and a fingerprint at the
//! same time, whichever comes first.
//!
//! The library performs no input or output. It is handed what came of an
//! action, as a plain value, and says what to do next:
//!
//! - [`authenticate`] covers one call of the module, from the user's name to
//!   the answer; [`conversation`], [`shadow`] and [`options`] read what PAM, the
//!   shadow database and the administrator provide.
//! - [`password`] and [`fingerprint`] are the two methods. They run side by
//!   side and share a [`session`], which counts attempts, knows when the run is
//!   over, and words the notices.
//! - [`keyboard`] is the typing of a password behind asterisks.
//! - [`records`] words the entries in the system log.
//! - [`option_laws`], [`session_laws`], [`password_laws`] and
//!   [`fingerprint_laws`] state what each single thing that happens brings
//!   about, by its inputs and results.
//! - [`reader_laws`] and [`run_laws`] state what holds of a method, and of both
//!   together, in every course of events; [`screen_laws`] states where the
//!   notices of a run stand on the terminal.

pub mod authenticate;
pub mod codes;
pub mod conversation;
pub mod fingerprint;
pub mod fingerprint_laws;
pub mod keyboard;
pub mod option_laws;
pub mod options;
pub mod password;
pub mod password_laws;
pub mod reader_laws;
pub mod records;
pub mod run_laws;
pub mod screen_laws;
pub mod session;
pub mod session_laws;
pub mod shadow;
pub mod text;
