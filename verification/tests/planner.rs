use provision::certcmd::{issue_cert, setup_acme_renew_cron, IssueCertReplies};
use provision::cli::{IssueCertArgs, WriteProxyArgs};
use provision::envmap::{to_env_map, EnvMap};
use provision::nginxcfg::{
    render_nginx_default, write_nginx_default, write_proxy_config, WriteNginxDefaultReplies,
    WriteProxyReplies, DEFAULT_RESOLVER,
};
use provision::osinfo::{command_candidate_paths, ensure_root, read_os_codename, read_os_id};
use provision::plan::Action;
use provision::prompt::TimedReply;
use provision::setup::{print_summary, setup_needs_zsh_confirm, setup_system, OsProbes, SetupPlan};

fn map_of(pairs: &[(&str, &str)]) -> EnvMap {
    let owned: Vec<(String, String)> = pairs
        .iter()
        .map(|(k, v)| (k.to_string(), v.to_string()))
        .collect();
    to_env_map(&owned)
}

fn is_mutating(a: &Action) -> bool {
    !matches!(a, Action::Note { .. } | Action::Done { .. })
}

fn root_uid() -> Result<String, String> {
    Ok("0\n".to_string())
}

fn debian_probes() -> OsProbes {
    OsProbes {
        os_release: Ok("ID=debian\nVERSION_CODENAME=bookworm\n".to_string()),
        lsb_codename: Err("not installed".to_string()),
        alpine_release: Err("no such file".to_string()),
        apk_repositories: Err("no such file".to_string()),
    }
}

#[test]
fn setup_dry_run_mutates_nothing_and_reports_intent() {
    let plan: SetupPlan = setup_system(
        true,
        true,
        true,
        true,
        &root_uid(),
        false,
        &TimedReply::TimedOut,
        false,
        false,
        &debian_probes(),
    )
    .unwrap();
    assert!(plan.actions.iter().all(|a| !is_mutating(a)));
    assert!(!plan.actions.is_empty());
    assert_eq!(
        plan.changes,
        vec!["Would install crontab".to_string(), "Would install nginx".to_string()]
    );
}

#[test]
fn setup_requires_elevated_privilege() {
    let r = setup_system(
        true,
        true,
        true,
        false,
        &Ok("1000\n".to_string()),
        true,
        &TimedReply::TimedOut,
        true,
        true,
        &debian_probes(),
    );
    assert!(matches!(r, Err(e) if e == "This command must be run as root"));
}

#[test]
fn setup_skips_existing_capabilities() {
    let plan = setup_system(
        true,
        true,
        true,
        false,
        &root_uid(),
        true,
        &TimedReply::TimedOut,
        true,
        true,
        &debian_probes(),
    )
    .unwrap();
    assert!(plan.changes.is_empty());
    let notes: Vec<&str> = plan
        .actions
        .iter()
        .map(|a| match a {
            Action::Note { message } => message.as_str(),
            _ => panic!("unexpected action"),
        })
        .collect();
    assert_eq!(
        notes,
        vec![
            "zsh is already installed",
            "crontab is already installed",
            "nginx is already installed"
        ]
    );
}

#[test]
fn declined_confirmation_skips_the_shell() {
    let plan = setup_system(
        true,
        false,
        false,
        false,
        &root_uid(),
        false,
        &TimedReply::Line("n\n".to_string()),
        false,
        false,
        &debian_probes(),
    )
    .unwrap();
    assert!(plan.changes.is_empty());
    assert!(matches!(&plan.actions[0], Action::Note { message } if message == "zsh install skipped"));
}

#[test]
fn accepted_confirmation_installs_the_shell() {
    let plan = setup_system(
        true,
        false,
        false,
        false,
        &root_uid(),
        false,
        &TimedReply::Line("y\n".to_string()),
        false,
        false,
        &debian_probes(),
    )
    .unwrap();
    assert_eq!(plan.changes, vec!["Installed zsh".to_string()]);
    assert!(matches!(&plan.actions[0], Action::Note { message } if message == "Installing zsh"));
    match &plan.actions[1] {
        Action::Run { program, args, .. } => {
            assert_eq!(program, "apt-get");
            assert_eq!(args, &vec!["update".to_string(), "-qq".to_string()]);
        }
        _ => panic!("expected a command"),
    }
}

#[test]
fn setup_needs_confirmation_only_for_missing_shell_in_real_runs() {
    assert!(setup_needs_zsh_confirm(true, false, false));
    assert!(!setup_needs_zsh_confirm(true, true, false));
    assert!(!setup_needs_zsh_confirm(true, false, true));
    assert!(!setup_needs_zsh_confirm(false, false, false));
}

#[test]
fn unsupported_os_is_fatal() {
    let probes = OsProbes {
        os_release: Ok("ID=arch\n".to_string()),
        lsb_codename: Err("x".to_string()),
        alpine_release: Err("x".to_string()),
        apk_repositories: Err("x".to_string()),
    };
    let r = setup_system(
        false,
        false,
        true,
        false,
        &root_uid(),
        true,
        &TimedReply::TimedOut,
        true,
        false,
        &probes,
    );
    assert!(matches!(r, Err(e) if e == "Unsupported OS for nginx install: arch"));
}

#[test]
fn debian_install_writes_the_vendor_source_list() {
    let plan = setup_system(
        false,
        false,
        true,
        false,
        &root_uid(),
        true,
        &TimedReply::TimedOut,
        true,
        false,
        &debian_probes(),
    )
    .unwrap();
    let writes: Vec<(&str, &str)> = plan
        .actions
        .iter()
        .filter_map(|a| match a {
            Action::WriteFile { path, content, .. } => Some((path.as_str(), content.as_str())),
            _ => None,
        })
        .collect();
    assert_eq!(writes.len(), 2);
    assert_eq!(writes[0].0, "/etc/apt/sources.list.d/nginx.list");
    assert_eq!(
        writes[0].1,
        "deb [signed-by=/usr/share/keyrings/nginx-archive-keyring.gpg] https://nginx.org/packages/mainline/debian bookworm nginx\n"
    );
    assert_eq!(writes[1].0, "/etc/apt/preferences.d/99nginx");
    assert_eq!(
        writes[1].1,
        "Package: *\nPin: origin nginx.org\nPin: release o=nginx\nPin-Priority: 900\n"
    );
    assert_eq!(plan.changes, vec!["Installed nginx".to_string()]);
}

#[test]
fn codename_falls_back_to_the_utility() {
    let os_release = Ok("ID=ubuntu\n".to_string());
    let lsb = Ok((true, "noble\n".to_string()));
    assert_eq!(read_os_codename(&os_release, &lsb), Ok("noble".to_string()));
    let lsb_bad = Ok((false, "".to_string()));
    assert_eq!(
        read_os_codename(&os_release, &lsb_bad),
        Err("Failed to read OS codename".to_string())
    );
    let lsb_missing: Result<(bool, String), String> = Err("spawn failed".to_string());
    assert_eq!(
        read_os_codename(&os_release, &lsb_missing),
        Err("Failed to run lsb_release: spawn failed".to_string())
    );
}

#[test]
fn os_id_is_read_from_the_descriptor() {
    assert_eq!(read_os_id(&Ok("PRETTY=x\nID=\"alpine\"\n".to_string())), Ok("alpine".to_string()));
    assert_eq!(
        read_os_id(&Ok("PRETTY=x\n".to_string())),
        Err("OS ID not found in /etc/os-release".to_string())
    );
    assert_eq!(
        read_os_id(&Err("denied".to_string())),
        Err("Failed to read /etc/os-release: denied".to_string())
    );
}

#[test]
fn alpine_install_appends_a_versioned_repo_line_once() {
    let probes = OsProbes {
        os_release: Ok("ID=alpine\n".to_string()),
        lsb_codename: Err("x".to_string()),
        alpine_release: Ok("3.18.4\n".to_string()),
        apk_repositories: Ok("https://dl-cdn.alpinelinux.org/alpine/v3.18/main".to_string()),
    };
    let plan = setup_system(
        false,
        false,
        true,
        false,
        &root_uid(),
        true,
        &TimedReply::TimedOut,
        true,
        false,
        &probes,
    )
    .unwrap();
    let writes: Vec<&str> = plan
        .actions
        .iter()
        .filter_map(|a| match a {
            Action::WriteFile { content, .. } => Some(content.as_str()),
            _ => None,
        })
        .collect();
    assert_eq!(writes.len(), 1);
    assert_eq!(
        writes[0],
        "https://dl-cdn.alpinelinux.org/alpine/v3.18/main\n@nginx https://nginx.org/packages/mainline/alpine/v3.18/main\n"
    );

    // A repositories file that already holds the line is left alone.
    let probes2 = OsProbes {
        alpine_release: Ok("3.18.4\n".to_string()),
        apk_repositories: Ok(
            "@nginx https://nginx.org/packages/mainline/alpine/v3.18/main\n".to_string(),
        ),
        os_release: Ok("ID=alpine\n".to_string()),
        lsb_codename: Err("x".to_string()),
    };
    let plan2 = setup_system(
        false,
        false,
        true,
        false,
        &root_uid(),
        true,
        &TimedReply::TimedOut,
        true,
        false,
        &probes2,
    )
    .unwrap();
    assert!(plan2
        .actions
        .iter()
        .all(|a| !matches!(a, Action::WriteFile { .. })));
}

#[test]
fn renewal_cron_is_idempotent() {
    // Without the scheduler: a notice, nothing else.
    let r = setup_acme_renew_cron("/a", "/h", false, false, &Ok("".to_string())).unwrap();
    assert_eq!(r.len(), 1);
    assert!(matches!(&r[0], Action::Note { message } if message == "crontab not found, skipping renew cron setup"));

    let line = "0 0 1,16 * * /bin/sh /a --cron --home /h >/dev/null 2>&1";

    // An existing identical line is left alone.
    let existing = format!("{}\n", line);
    let r2 = setup_acme_renew_cron("/a", "/h", false, true, &Ok(existing)).unwrap();
    assert!(matches!(&r2[0], Action::Note { message } if message == "acme renew cron already exists"));

    // Otherwise the line is appended to the current table.
    let r3 = setup_acme_renew_cron("/a", "/h", false, true, &Ok("# existing".to_string())).unwrap();
    match &r3[0] {
        Action::SetCrontab { content } => {
            assert_eq!(content, &format!("# existing\n{}\n", line));
        }
        _ => panic!("expected a crontab update"),
    }

    // A dry run only states the intent.
    let r4 = setup_acme_renew_cron("/a", "/h", true, true, &Err("unused".to_string())).unwrap();
    assert!(matches!(&r4[0], Action::Note { message } if message == &format!("[dry-run] Would ensure cron: {}", line)));
}

#[test]
fn setup_dry_run_notes_the_confirmation() {
    let plan = setup_system(
        true,
        false,
        false,
        true,
        &root_uid(),
        false,
        &TimedReply::Failed,
        false,
        false,
        &debian_probes(),
    )
    .unwrap();
    let notes: Vec<&str> = plan
        .actions
        .iter()
        .map(|a| match a {
            Action::Note { message } => message.as_str(),
            _ => panic!("unexpected action"),
        })
        .collect();
    assert_eq!(notes, vec!["[dry-run] Would prompt: Install zsh?", "zsh install skipped"]);
}

#[test]
fn unreadable_descriptor_is_fatal() {
    let probes = OsProbes {
        os_release: Err("denied".to_string()),
        lsb_codename: Err("x".to_string()),
        alpine_release: Err("x".to_string()),
        apk_repositories: Err("x".to_string()),
    };
    let r = setup_system(
        false,
        false,
        true,
        false,
        &root_uid(),
        true,
        &TimedReply::TimedOut,
        true,
        false,
        &probes,
    );
    assert!(matches!(r, Err(e) if e == "Failed to read /etc/os-release: denied"));
}

#[test]
fn alpine_probe_errors_are_fatal() {
    let probes = OsProbes {
        os_release: Ok("ID=alpine\n".to_string()),
        lsb_codename: Err("x".to_string()),
        alpine_release: Err("gone".to_string()),
        apk_repositories: Ok("".to_string()),
    };
    let r = setup_system(
        false,
        false,
        true,
        false,
        &root_uid(),
        true,
        &TimedReply::TimedOut,
        true,
        false,
        &probes,
    );
    assert!(matches!(r, Err(e) if e == "Failed to read /etc/alpine-release: gone"));

    let probes2 = OsProbes {
        os_release: Ok("ID=alpine\n".to_string()),
        lsb_codename: Err("x".to_string()),
        alpine_release: Ok("3.18.4\n".to_string()),
        apk_repositories: Err("locked".to_string()),
    };
    let r2 = setup_system(
        false,
        false,
        true,
        false,
        &root_uid(),
        true,
        &TimedReply::TimedOut,
        true,
        false,
        &probes2,
    );
    assert!(matches!(r2, Err(e) if e == "Failed to read /etc/apk/repositories: locked"));
}

#[test]
fn crontab_read_failure_is_fatal() {
    let r = setup_acme_renew_cron("/a", "/h", false, true, &Err("boom".to_string()));
    assert!(matches!(r, Err(e) if e == "Failed to read crontab: boom"));
}

#[test]
fn derivation_requires_directory_and_domain() {
    let r = provision::resolve::resolve_cert_paths(None, None, None, Some("foo.com".to_string()));
    assert!(matches!(r, Err(e) if e == "cert_dir is required to derive cert paths"));
    let r2 = provision::resolve::resolve_cert_paths(None, None, Some("/d".to_string()), None);
    assert!(matches!(r2, Err(e) if e == "domain is required to derive cert paths"));
}

#[test]
fn summary_formats_elapsed_time() {
    let lines = print_summary(&Vec::new(), 125);
    assert_eq!(
        lines,
        vec!["No changes were made".to_string(), "Execution time: 2m 5s".to_string()]
    );
    let lines2 = print_summary(&vec!["Installed zsh".to_string()], 0);
    assert_eq!(
        lines2,
        vec!["Installed zsh".to_string(), "Execution time: 0m 0s".to_string()]
    );
}

#[test]
fn root_check_reads_the_identity_probe() {
    assert_eq!(ensure_root(&Ok("0\n".to_string())), Ok(()));
    assert_eq!(
        ensure_root(&Ok("1000\n".to_string())),
        Err("This command must be run as root".to_string())
    );
    assert_eq!(
        ensure_root(&Err("io".to_string())),
        Err("Failed to check uid: io".to_string())
    );
}

#[test]
fn candidate_paths_follow_the_search_path() {
    let r = command_candidate_paths(&Some("/usr/bin:/bin".to_string()), "zsh");
    assert_eq!(r, vec!["/usr/bin/zsh".to_string(), "/bin/zsh".to_string()]);
    let r2 = command_candidate_paths(&None, "zsh");
    assert!(r2.is_empty());
}

fn empty_issue_replies() -> IssueCertReplies {
    IssueCertReplies {
        cf_token: None,
        cf_account_id: None,
        cf_zone_id: None,
        domain: None,
        // A blank reply to the wildcard prompt: derive it from the domain.
        wildcard_domain: Some("\n".to_string()),
        acme_bin: None,
        acme_home: None,
        cert_dir_name: None,
        nginx_bin: None,
    }
}

fn issue_args() -> IssueCertArgs {
    IssueCertArgs {
        cf_token: Some("tok".to_string()),
        cf_account_id: Some("acct".to_string()),
        cf_zone_id: Some("zone".to_string()),
        domain: Some("foo.com".to_string()),
        wildcard_domain: None,
        acme_bin: Some("/root/.acme.sh/acme.sh".to_string()),
        acme_home: Some("/root/.acme.sh".to_string()),
        cert_dir: Some("/etc/ca-certificates/custom".to_string()),
        cert_dir_name: None,
        cert_input_path: None,
        key_input_path: None,
        cert_output_path: None,
        key_output_path: None,
        nginx_bin: Some("nginx".to_string()),
    }
}

#[test]
fn issue_cert_dry_run_mutates_nothing() {
    let overrides = map_of(&[]);
    let env = map_of(&[]);
    let mut args = issue_args();
    args.wildcard_domain = Some("*.foo.com".to_string());
    let plan = issue_cert(
        &overrides,
        &env,
        args,
        empty_issue_replies(),
        true,
        true,
        &root_uid(),
        true,
        &Ok("".to_string()),
    )
    .unwrap();
    assert!(plan.iter().all(|a| !is_mutating(a)));
    assert!(!plan.is_empty());
}

#[test]
fn issue_cert_runs_the_acme_client_with_challenge_flags() {
    let overrides = map_of(&[]);
    let env = map_of(&[]);
    let plan = issue_cert(
        &overrides,
        &env,
        issue_args(),
        empty_issue_replies(),
        false,
        false,
        &root_uid(),
        false,
        &Ok("".to_string()),
    )
    .unwrap();
    // First the cache clear, then the client run.
    assert!(matches!(&plan[0], Action::RemoveDirIfExists { path } if path == "/root/.acme.sh/foo.com_ecc"));
    match &plan[1] {
        Action::Run { program, args, envs, .. } => {
            assert_eq!(program, "/root/.acme.sh/acme.sh");
            assert_eq!(
                args,
                &vec![
                    "--issue".to_string(),
                    "--force".to_string(),
                    "-d".to_string(),
                    "foo.com".to_string(),
                    "-d".to_string(),
                    "*.foo.com".to_string(),
                    "--dns".to_string(),
                    "dns_cf".to_string(),
                    "--keylength".to_string(),
                    "ec-256".to_string(),
                ]
            );
            assert_eq!(
                envs,
                &vec![
                    ("CF_Token".to_string(), "tok".to_string()),
                    ("CF_Account_ID".to_string(), "acct".to_string()),
                    ("CF_Zone_ID".to_string(), "zone".to_string()),
                ]
            );
        }
        _ => panic!("expected the client run"),
    }
    // The produced pair lands beside the domain under the certificate dir.
    let copies: Vec<(&str, &str)> = plan
        .iter()
        .filter_map(|a| match a {
            Action::CopyFile { from, to, .. } => Some((from.as_str(), to.as_str())),
            _ => None,
        })
        .collect();
    assert_eq!(
        copies,
        vec![
            (
                "/root/.acme.sh/foo.com_ecc/fullchain.cer",
                "/etc/ca-certificates/custom/foo.com.cer"
            ),
            (
                "/root/.acme.sh/foo.com_ecc/foo.com.key",
                "/etc/ca-certificates/custom/foo.com.key"
            ),
        ]
    );
}

#[test]
fn issue_cert_rejects_a_half_explicit_output_pair() {
    let overrides = map_of(&[]);
    let env = map_of(&[]);
    let mut args = issue_args();
    args.cert_output_path = Some("/out/c.cer".to_string());
    let r = issue_cert(
        &overrides,
        &env,
        args,
        empty_issue_replies(),
        false,
        false,
        &root_uid(),
        false,
        &Ok("".to_string()),
    );
    assert!(matches!(r, Err(e) if e == "Both CERT_OUTPUT_PATH and KEY_OUTPUT_PATH must be set together"));
}

fn empty_default_replies() -> WriteNginxDefaultReplies {
    // A blank reply to the directory-name prompt: the default applies.
    WriteNginxDefaultReplies { domain: None, cert_dir_name: Some("\n".to_string()), output_path: None }
}

#[test]
fn override_domain_derives_the_cert_pair() {
    let overrides = map_of(&[("DOMAIN", "foo.com")]);
    let env = map_of(&[]);
    let plan = write_nginx_default(
        &overrides,
        &env,
        None,
        None,
        None,
        None,
        Some("/etc/nginx/conf.d/default/00-default.conf".to_string()),
        false,
        empty_default_replies(),
    )
    .unwrap();
    let expected = render_nginx_default(
        "/etc/ca-certificates/custom/foo.com.cer",
        "/etc/ca-certificates/custom/foo.com.key",
    );
    match &plan[1] {
        Action::WriteFile { path, content, .. } => {
            assert_eq!(path, "/etc/nginx/conf.d/default/00-default.conf");
            assert_eq!(content, &expected);
            assert!(content.contains("/etc/ca-certificates/custom/foo.com.cer"));
            assert!(content.contains("/etc/ca-certificates/custom/foo.com.key"));
            assert!(content.contains("return 444;"));
        }
        _ => panic!("expected the config write"),
    }
    assert!(matches!(&plan[0], Action::CreateDirAll { path } if path == "/etc/nginx/conf.d/default"));
}

#[test]
fn half_explicit_pair_fails_the_default_config_for_any_domain() {
    let overrides = map_of(&[("DOMAIN", "foo.com")]);
    let env = map_of(&[]);
    let r = write_nginx_default(
        &overrides,
        &env,
        Some("/c.cer".to_string()),
        None,
        None,
        None,
        Some("/out.conf".to_string()),
        false,
        empty_default_replies(),
    );
    assert!(matches!(r, Err(e) if e == "Both cert and key paths must be set together"));
}

fn proxy_args() -> WriteProxyArgs {
    WriteProxyArgs {
        proxy_domain: Some("proxy.foo.com".to_string()),
        backend_url: Some("https://backend.foo.com:443".to_string()),
        cert_path: None,
        key_path: None,
        cert_dir_name: None,
        cert_dir: None,
        output_dir: Some("/etc/nginx/conf.d/proxy".to_string()),
        resolvers: vec!["1.1.1.1".to_string()],
    }
}

fn proxy_replies() -> WriteProxyReplies {
    WriteProxyReplies {
        proxy_domain: None,
        backend_url: None,
        // A blank reply to the directory-name prompt: the default applies.
        cert_dir_name: Some("\n".to_string()),
        output_dir: None,
        resolver_menu: TimedReply::TimedOut,
        resolver_custom: None,
    }
}

#[test]
fn proxy_config_is_named_after_the_domain_with_dashes() {
    let overrides = map_of(&[]);
    let env = map_of(&[]);
    let plan = write_proxy_config(&overrides, &env, proxy_args(), false, proxy_replies()).unwrap();
    match &plan[1] {
        Action::WriteFile { path, content, .. } => {
            assert_eq!(path, "/etc/nginx/conf.d/proxy/proxy-foo-com.conf");
            assert!(content.contains("server_name proxy.foo.com;"));
            assert!(content.contains("proxy_pass https://backend.foo.com:443;"));
            assert!(content.contains("resolver 1.1.1.1 valid=300s;"));
            // With no DOMAIN entry anywhere, the pair falls back to the
            // proxy domain itself.
            assert!(content.contains("/etc/ca-certificates/custom/proxy.foo.com.cer"));
        }
        _ => panic!("expected the config write"),
    }
}

#[test]
fn proxy_pair_follows_the_domain_override() {
    let overrides = map_of(&[("DOMAIN", "foo.com")]);
    let env = map_of(&[]);
    let mut args = proxy_args();
    args.proxy_domain = Some("proxy.bar".to_string());
    let plan = write_proxy_config(&overrides, &env, args, false, proxy_replies()).unwrap();
    match &plan[1] {
        Action::WriteFile { path, content, .. } => {
            // The file is still named after the proxy domain...
            assert_eq!(path, "/etc/nginx/conf.d/proxy/proxy-bar.conf");
            assert!(content.contains("server_name proxy.bar;"));
            // ...but the pair derives from the DOMAIN override, where the
            // issued certificate was stored.
            assert!(content.contains("ssl_certificate /etc/ca-certificates/custom/foo.com.cer;"));
            assert!(content.contains("ssl_certificate_key /etc/ca-certificates/custom/foo.com.key;"));
            assert!(!content.contains("proxy.bar.cer"));
        }
        _ => panic!("expected the config write"),
    }
}

#[test]
fn proxy_config_dry_run_only_notes() {
    let overrides = map_of(&[]);
    let env = map_of(&[]);
    let plan = write_proxy_config(&overrides, &env, proxy_args(), true, proxy_replies()).unwrap();
    assert_eq!(plan.len(), 1);
    assert!(matches!(&plan[0], Action::Note { message } if message == "[dry-run] Would write proxy config to: /etc/nginx/conf.d/proxy/proxy-foo-com.conf"));
}

#[test]
fn proxy_resolver_timeout_falls_back_to_the_default_provider() {
    let overrides = map_of(&[]);
    let env = map_of(&[]);
    let mut args = proxy_args();
    args.resolvers = Vec::new();
    let plan = write_proxy_config(&overrides, &env, args, false, proxy_replies()).unwrap();
    match &plan[1] {
        Action::WriteFile { content, .. } => {
            assert!(content.contains(&format!("resolver {} valid=300s;", DEFAULT_RESOLVER)));
            assert!(content.contains(
                "resolver 1.1.1.1 1.0.0.1 [2606:4700:4700::1111] [2606:4700:4700::1064] valid=300s;"
            ));
        }
        _ => panic!("expected the config write"),
    }
}
