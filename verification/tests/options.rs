use pam_password_fingerprint::options::{Options, DEFAULT_TRIES};

fn parse(args: &[&str]) -> Options {
    Options::parse(&args.iter().map(|arg| arg.to_string()).collect())
}

fn options(show_stars: bool, password_tries: u32, fingerprint_tries: u32) -> Options {
    Options { show_stars, password_tries, fingerprint_tries }
}

#[test]
fn defaults_without_arguments() {
    assert_eq!(DEFAULT_TRIES, 3);
    assert_eq!(parse(&[]), options(false, 3, 3));
}

#[test]
fn documented_example_line() {
    assert_eq!(
        parse(&["show_stars", "password_tries=3", "fingerprint_tries=5"]),
        options(true, 3, 5)
    );
}

#[test]
fn tries_sets_both_methods() {
    assert_eq!(parse(&["tries=5"]), options(false, 5, 5));
    assert_eq!(parse(&["tries=0"]), options(false, 0, 0));
}

#[test]
fn own_count_overrides_in_either_order() {
    assert_eq!(parse(&["tries=5", "password_tries=2"]), options(false, 2, 5));
    assert_eq!(parse(&["password_tries=2", "tries=5"]), options(false, 2, 5));
    assert_eq!(parse(&["fingerprint_tries=1", "tries=5"]), options(false, 5, 1));
}

#[test]
fn last_setting_of_an_option_wins() {
    assert_eq!(parse(&["tries=5", "tries=7"]), options(false, 7, 7));
    assert_eq!(parse(&["password_tries=1", "password_tries=9"]), options(false, 9, 3));
}

#[test]
fn arguments_that_are_no_options_are_passed_over() {
    assert_eq!(
        parse(&["debug", "tries=4", "tries=", "tries=four", "tries=4x", "Tries=9", "show_starsx"]),
        options(false, 4, 4)
    );
    assert_eq!(parse(&["tries=+4", "tries=-4", "tries= 4"]), options(false, 3, 3));
}

#[test]
fn counts_end_where_32_bits_end() {
    assert_eq!(parse(&["tries=4294967295"]), options(false, u32::MAX, u32::MAX));
    assert_eq!(parse(&["tries=4294967296"]), options(false, 3, 3));
    assert_eq!(parse(&["tries=99999999999999999999999"]), options(false, 3, 3));
    assert_eq!(parse(&["tries=0000000000000000000007"]), options(false, 7, 7));
}

#[test]
fn arguments_arrive_as_c_strings() {
    let argv = vec![b"show_stars".to_vec(), b"tries=2".to_vec(), vec![0xff, 0x74]];
    assert_eq!(Options::from_argv(&argv), options(true, 2, 2));
}
