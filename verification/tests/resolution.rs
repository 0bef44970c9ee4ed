use provision::envmap::{parse_key_val, to_env_map, EnvMap};
use provision::prompt::{confirm_answer, confirm_with_timeout, TimedReply};
use provision::resolve::{
    resolve_cert_dir, resolve_cert_paths, resolve_from_envs, resolve_name_with_default,
    resolve_optional_path, resolve_optional_value, resolve_path, resolve_resolvers, resolve_value,
    select_resolver, RESOLVER_ALI, RESOLVER_CLOUDFLARE, RESOLVER_GOOGLE, RESOLVER_TENCENT,
};

fn map_of(pairs: &[(&str, &str)]) -> EnvMap {
    let owned: Vec<(String, String)> = pairs
        .iter()
        .map(|(k, v)| (k.to_string(), v.to_string()))
        .collect();
    to_env_map(&owned)
}

#[test]
fn explicit_wins_over_override_and_env() {
    let overrides = map_of(&[("DOMAIN", "override.example")]);
    let env = map_of(&[("DOMAIN", "env.example")]);
    let r = resolve_value(
        Some("explicit.example".to_string()),
        &overrides,
        &env,
        "DOMAIN",
        false,
        None,
    );
    assert_eq!(r, Ok("explicit.example".to_string()));
}

#[test]
fn override_beats_env() {
    let overrides = map_of(&[("DOMAIN", "override.example")]);
    let env = map_of(&[("DOMAIN", "env.example")]);
    let r = resolve_value(None, &overrides, &env, "DOMAIN", false, None);
    assert_eq!(r, Ok("override.example".to_string()));
}

#[test]
fn blank_override_falls_through_to_env() {
    let overrides = map_of(&[("DOMAIN", "   ")]);
    let env = map_of(&[("DOMAIN", "env.example")]);
    let r = resolve_value(None, &overrides, &env, "DOMAIN", false, None);
    assert_eq!(r, Ok("env.example".to_string()));
}

#[test]
fn last_override_wins_for_duplicate_keys() {
    let overrides = map_of(&[("K", "first"), ("K", "second")]);
    let env = map_of(&[]);
    let r = resolve_value(None, &overrides, &env, "K", false, None);
    assert_eq!(r, Ok("second".to_string()));
}

#[test]
fn prompt_reply_is_trimmed_when_not_sensitive() {
    let overrides = map_of(&[]);
    let env = map_of(&[]);
    let r = resolve_value(None, &overrides, &env, "K", false, Some("  hello \n".to_string()));
    assert_eq!(r, Ok("hello".to_string()));
}

#[test]
fn sensitive_prompt_reply_is_verbatim() {
    let overrides = map_of(&[]);
    let env = map_of(&[]);
    let r = resolve_value(None, &overrides, &env, "K", true, Some(" secret ".to_string()));
    assert_eq!(r, Ok(" secret ".to_string()));
}

#[test]
fn blank_prompt_reply_is_accepted_verbatim_for_required_scalar() {
    let overrides = map_of(&[]);
    let env = map_of(&[]);
    let r = resolve_value(None, &overrides, &env, "K", false, Some("   \n".to_string()));
    assert_eq!(r, Ok("".to_string()));
}

#[test]
fn read_failure_is_an_error() {
    let overrides = map_of(&[]);
    let env = map_of(&[]);
    let r = resolve_value(None, &overrides, &env, "K", false, None);
    assert_eq!(r, Err("Failed to read input".to_string()));
}

#[test]
fn optional_blank_reply_means_no_value() {
    let overrides = map_of(&[]);
    let env = map_of(&[]);
    let r = resolve_optional_value(None, &overrides, &env, "K", false, Some("  \n".to_string()));
    assert_eq!(r, Ok(None));
}

#[test]
fn optional_non_blank_reply_is_some_trimmed() {
    let overrides = map_of(&[]);
    let env = map_of(&[]);
    let r = resolve_optional_value(None, &overrides, &env, "K", false, Some(" v \n".to_string()));
    assert_eq!(r, Ok(Some("v".to_string())));
}

#[test]
fn path_blank_reply_gives_default() {
    let overrides = map_of(&[]);
    let env = map_of(&[]);
    let r = resolve_path(None, &overrides, &env, "P", "/default/path", Some("\n".to_string()));
    assert_eq!(r, Ok("/default/path".to_string()));
}

#[test]
fn optional_path_never_prompts() {
    let overrides = map_of(&[]);
    let env = map_of(&[]);
    let r = resolve_optional_path(None, &overrides, &env, "P");
    assert_eq!(r, None);
}

#[test]
fn optional_path_from_env() {
    let overrides = map_of(&[]);
    let env = map_of(&[("P", "/from/env")]);
    let r = resolve_optional_path(None, &overrides, &env, "P");
    assert_eq!(r, Some("/from/env".to_string()));
}

#[test]
fn multi_key_priority_order() {
    let overrides = map_of(&[("B", "from-b")]);
    let env = map_of(&[("A", "from-a")]);
    // A is checked before B, and per key the override outranks the environment.
    let r = resolve_from_envs(&overrides, &env, &["A", "B"]);
    assert_eq!(r, Some("from-a".to_string()));
    let r2 = resolve_from_envs(&overrides, &env, &["B", "A"]);
    assert_eq!(r2, Some("from-b".to_string()));
    let r3 = resolve_from_envs(&overrides, &env, &["C"]);
    assert_eq!(r3, None);
}

#[test]
fn name_with_default_blank_reply_gives_default() {
    let overrides = map_of(&[]);
    let env = map_of(&[]);
    let r = resolve_name_with_default(None, &overrides, &env, &["X"], "custom", Some("\n".to_string()));
    assert_eq!(r, Ok("custom".to_string()));
}

#[test]
fn cert_dir_explicit_wins() {
    let overrides = map_of(&[("CERT_DIR_NAME", "ignored")]);
    let env = map_of(&[]);
    let r = resolve_cert_dir(
        Some("/explicit/dir".to_string()),
        None,
        &overrides,
        &env,
        &["CERT_DIR_NAME"],
        "custom",
        None,
    );
    assert_eq!(r, Ok("/explicit/dir".to_string()));
}

#[test]
fn cert_dir_name_joined_under_base() {
    let overrides = map_of(&[("CERT_DIR_NAME", "mysite")]);
    let env = map_of(&[]);
    let r = resolve_cert_dir(None, None, &overrides, &env, &["CERT_DIR_NAME"], "custom", None);
    assert_eq!(r, Ok("/etc/ca-certificates/mysite".to_string()));
}

#[test]
fn cert_paths_both_explicit_pass_through() {
    let r = resolve_cert_paths(
        Some("/c.cer".to_string()),
        Some("/k.key".to_string()),
        None,
        None,
    );
    assert_eq!(r, Ok(("/c.cer".to_string(), "/k.key".to_string())));
}

#[test]
fn cert_paths_derived_from_dir_and_domain() {
    let r = resolve_cert_paths(
        None,
        None,
        Some("/etc/ca-certificates/custom".to_string()),
        Some("foo.com".to_string()),
    );
    assert_eq!(
        r,
        Ok((
            "/etc/ca-certificates/custom/foo.com.cer".to_string(),
            "/etc/ca-certificates/custom/foo.com.key".to_string()
        ))
    );
}

#[test]
fn half_explicit_pair_is_a_configuration_error() {
    let r = resolve_cert_paths(Some("/c.cer".to_string()), None, Some("/d".to_string()), Some("x".to_string()));
    assert_eq!(r, Err("Both cert and key paths must be set together".to_string()));
    let r2 = resolve_cert_paths(None, Some("/k.key".to_string()), None, None);
    assert_eq!(r2, Err("Both cert and key paths must be set together".to_string()));
}

#[test]
fn resolvers_cli_values_joined_with_spaces() {
    let overrides = map_of(&[("RESOLVER", "ignored")]);
    let env = map_of(&[]);
    let cli = vec!["1.1.1.1".to_string(), "8.8.8.8".to_string()];
    let r = resolve_resolvers(&cli, &overrides, &env, "RESOLVER", "default", &TimedReply::Failed, None);
    assert_eq!(r, Ok("1.1.1.1 8.8.8.8".to_string()));
}

#[test]
fn resolver_menu_timeout_gives_default() {
    let overrides = map_of(&[]);
    let env = map_of(&[]);
    let cli: Vec<String> = Vec::new();
    let r = resolve_resolvers(
        &cli,
        &overrides,
        &env,
        "RESOLVER",
        RESOLVER_CLOUDFLARE,
        &TimedReply::TimedOut,
        None,
    );
    assert_eq!(
        r,
        Ok("1.1.1.1 1.0.0.1 [2606:4700:4700::1111] [2606:4700:4700::1064]".to_string())
    );
}

#[test]
fn resolver_menu_numbered_choices() {
    assert_eq!(
        select_resolver("d", &TimedReply::Line("1\n".to_string()), None),
        Ok(RESOLVER_CLOUDFLARE.to_string())
    );
    assert_eq!(
        select_resolver("d", &TimedReply::Line("2".to_string()), None),
        Ok(RESOLVER_TENCENT.to_string())
    );
    assert_eq!(
        select_resolver("d", &TimedReply::Line("3".to_string()), None),
        Ok(RESOLVER_ALI.to_string())
    );
    assert_eq!(
        select_resolver("d", &TimedReply::Line("4".to_string()), None),
        Ok(RESOLVER_GOOGLE.to_string())
    );
}

#[test]
fn resolver_menu_custom_entry() {
    let r = select_resolver(
        "d",
        &TimedReply::Line("5".to_string()),
        Some("9.9.9.9 149.112.112.112\n".to_string()),
    );
    assert_eq!(r, Ok("9.9.9.9 149.112.112.112".to_string()));
    // A blank custom reply falls back to the default.
    let r2 = select_resolver("d", &TimedReply::Line("5".to_string()), Some(" \n".to_string()));
    assert_eq!(r2, Ok("d".to_string()));
    // A failed custom read is an error.
    let r3 = select_resolver("d", &TimedReply::Line("5".to_string()), None);
    assert_eq!(r3, Err("Failed to read input".to_string()));
}

#[test]
fn resolver_menu_unknown_choice_gives_default() {
    let r = select_resolver("d", &TimedReply::Line("7".to_string()), None);
    assert_eq!(r, Ok("d".to_string()));
    let r2 = select_resolver("d", &TimedReply::Line("  ".to_string()), None);
    assert_eq!(r2, Ok("d".to_string()));
}

#[test]
fn parse_key_val_cases() {
    assert_eq!(parse_key_val("A=b"), Ok(("A".to_string(), "b".to_string())));
    assert_eq!(parse_key_val("A="), Ok(("A".to_string(), "".to_string())));
    assert_eq!(parse_key_val("A=b=c"), Ok(("A".to_string(), "b=c".to_string())));
    assert_eq!(parse_key_val(" K =v"), Ok(("K".to_string(), "v".to_string())));
    // An entry without `=` is malformed, whatever its text.
    assert_eq!(parse_key_val("KEY"), Err("--env expects KEY=VALUE".to_string()));
    assert_eq!(parse_key_val("=v"), Err("--env expects KEY=VALUE".to_string()));
    assert_eq!(parse_key_val("  =v"), Err("--env expects KEY=VALUE".to_string()));
    assert_eq!(parse_key_val(""), Err("--env expects KEY=VALUE".to_string()));
}

#[test]
fn confirmation_answers() {
    assert_eq!(confirm_answer(&TimedReply::Line("y\n".to_string())), Ok(true));
    assert_eq!(confirm_answer(&TimedReply::Line("Y".to_string())), Ok(true));
    assert_eq!(confirm_answer(&TimedReply::Line("yes".to_string())), Ok(true));
    assert_eq!(confirm_answer(&TimedReply::Line("YES".to_string())), Ok(true));
    assert_eq!(confirm_answer(&TimedReply::Line(" yEs ".to_string())), Ok(true));
    assert_eq!(confirm_answer(&TimedReply::Line("n".to_string())), Ok(false));
    assert_eq!(confirm_answer(&TimedReply::Line("".to_string())), Ok(false));
    assert_eq!(confirm_answer(&TimedReply::TimedOut), Ok(false));
    assert_eq!(confirm_answer(&TimedReply::Failed), Err("Failed to read input".to_string()));
}

#[test]
fn dry_run_confirmation_is_no_without_asking() {
    assert_eq!(confirm_with_timeout(true, &TimedReply::Line("y".to_string())), Ok(false));
    assert_eq!(confirm_with_timeout(false, &TimedReply::Line("y".to_string())), Ok(true));
}
