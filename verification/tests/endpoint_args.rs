use scp::agent::args::{collect_relays, collect_required_values, optional_arg, parse_u64_arg, require_arg, ArgError};

fn args(v: &[&str]) -> Vec<String> {
    v.iter().map(|s| s.to_string()).collect()
}

#[test]
fn collect_relays_gathers_repeated_flag() {
    let a = args(&["--relay", "127.0.0.1:7700", "--relay", "127.0.0.1:7701"]);
    assert_eq!(collect_relays(&a).unwrap(), vec!["127.0.0.1:7700", "127.0.0.1:7701"]);
}

#[test]
fn collect_relays_single_flag_still_works() {
    let a = args(&["--identity", "x.key", "--relay", "127.0.0.1:7700", "--mailbox", "abc"]);
    assert_eq!(collect_relays(&a).unwrap(), vec!["127.0.0.1:7700"]);
}

#[test]
fn collect_relays_errors_when_absent() {
    let a = args(&["--identity", "x.key"]);
    assert!(collect_relays(&a).is_err());
}

#[test]
fn collect_relays_errors_on_missing_value() {
    let a = args(&["--relay"]);
    assert!(collect_relays(&a).is_err());
}

#[test]
fn collect_required_values_gathers_repeated_flag() {
    let a = args(&["--reply-relay", "a", "--reply-relay", "b"]);
    assert_eq!(collect_required_values(&a, "--reply-relay").unwrap(), vec!["a", "b"]);
}

#[test]
fn missing_value_and_missing_argument_are_told_apart() {
    let a = args(&["--relay"]);
    assert_eq!(collect_relays(&a), Err(ArgError::MissingValue("--relay".to_string())));
    let b = args(&["--identity", "x.key"]);
    assert_eq!(collect_relays(&b), Err(ArgError::MissingArgument("--relay".to_string())));
}

#[test]
fn a_flag_value_is_consumed_and_not_read_as_a_flag() {
    let a = args(&["--relay", "--relay", "x"]);
    assert_eq!(collect_relays(&a).unwrap(), vec!["--relay"]);
}

#[test]
fn require_arg_takes_the_first_occurrence_with_a_value() {
    let a = args(&["--out", "a.key", "--out", "b.key"]);
    assert_eq!(require_arg(&a, "--out").unwrap(), "a.key");
    let b = args(&["--x", "1", "--out"]);
    assert_eq!(require_arg(&b, "--out"), Err(ArgError::MissingArgument("--out".to_string())));
    assert_eq!(optional_arg(&b, "--x"), Some("1".to_string()));
    assert_eq!(optional_arg(&b, "--out"), None);
}

#[test]
fn parse_u64_arg_reads_decimal_values() {
    let a = args(&["--ttl-secs", "60"]);
    assert_eq!(parse_u64_arg(&a, "--ttl-secs"), Ok(60));
    let b = args(&["--ttl-secs", "+7"]);
    assert_eq!(parse_u64_arg(&b, "--ttl-secs"), Ok(7));
    let c = args(&["--ttl-secs", "-1"]);
    assert_eq!(parse_u64_arg(&c, "--ttl-secs"), Err(ArgError::NotUnsigned("--ttl-secs".to_string())));
    let d = args(&["--ttl-secs", "18446744073709551616"]);
    assert!(parse_u64_arg(&d, "--ttl-secs").is_err());
    let e = args(&[]);
    assert_eq!(parse_u64_arg(&e, "--ttl-secs"), Err(ArgError::MissingArgument("--ttl-secs".to_string())));
}
