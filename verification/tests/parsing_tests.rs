use node_supervisor::errors::Error;
use node_supervisor::parsing::{parse_env, split_tokens, ws};

#[test]
fn parse_env_two_pairs() {
    let v = parse_env("FOO=1 BAR=2").unwrap();
    assert_eq!(
        v,
        vec![("FOO".to_string(), "1".to_string()), ("BAR".to_string(), "2".to_string())]
    );
}

#[test]
fn parse_env_token_without_separator_is_rejected() {
    let r = parse_env("FOO");
    assert!(matches!(r, Err(Error::EnvParseError)));
}

#[test]
fn parse_env_rejects_mixed_good_and_bad_tokens() {
    let r = parse_env("FOO=1 BAR");
    assert!(matches!(r, Err(Error::EnvParseError)));
}

#[test]
fn parse_env_rejects_two_separators() {
    let r = parse_env("A==B");
    assert!(matches!(r, Err(Error::EnvParseError)));
}

#[test]
fn parse_env_empty_is_no_pairs() {
    let v = parse_env("").unwrap();
    assert_eq!(v, Vec::<(String, String)>::new());
}

#[test]
fn parse_env_allows_empty_key_or_value() {
    let v = parse_env("FOO= =1").unwrap();
    assert_eq!(
        v,
        vec![("FOO".to_string(), "".to_string()), ("".to_string(), "1".to_string())]
    );
}

#[test]
fn parse_env_extra_whitespace_is_ignored() {
    let v = parse_env("  FOO=1 \t BAR=2  ").unwrap();
    assert_eq!(
        v,
        vec![("FOO".to_string(), "1".to_string()), ("BAR".to_string(), "2".to_string())]
    );
}

#[test]
fn split_tokens_argument_vector() {
    let v = split_tokens("--port 1234");
    assert_eq!(v, vec!["--port".to_string(), "1234".to_string()]);
}

#[test]
fn split_tokens_empty_and_blank() {
    assert_eq!(split_tokens(""), Vec::<String>::new());
    assert_eq!(split_tokens(" \t\n "), Vec::<String>::new());
}

#[test]
fn split_tokens_collapses_runs_of_whitespace() {
    let v = split_tokens("  a\t\tb  c ");
    assert_eq!(v, vec!["a".to_string(), "b".to_string(), "c".to_string()]);
}

#[test]
fn ws_recognises_unicode_whitespace() {
    assert!(ws(' '));
    assert!(ws('\t'));
    assert!(ws('\n'));
    assert!(ws('\u{a0}'));
    assert!(ws('\u{2003}'));
    assert!(!ws('a'));
    assert!(!ws('='));
}
