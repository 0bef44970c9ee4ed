//! The laws of the resolution engine and the planner, stated and proved
//! once for all inputs.

use vstd::prelude::*;

use crate::plan::{all_harmless, spec_run_cmd, ActionV};
use crate::prompt::{spec_confirm, TimedReply};
use crate::resolve::{
    chain_value, spec_resolve_cert_dir, spec_resolve_cert_paths, spec_resolve_optional_value,
    spec_resolve_path, spec_resolve_value, spec_select_resolver,
};
use crate::setup::{
    spec_install_if_missing, spec_install_nginx_alpine, spec_install_nginx_debian_like,
    spec_install_nginx_official, spec_setup_cron, spec_setup_nginx, spec_setup_system,
    spec_setup_zsh, OsProbes,
};
use crate::strutil::is_blank;

verus! {

/// An explicit value wins the chain outright: whatever the override map,
/// the environment and the interactive reply hold, each resolver returns it
/// unchanged.
pub proof fn lemma_explicit_wins(
    v: Seq<char>,
    ov: Map<Seq<char>, Seq<char>>,
    env: Map<Seq<char>, Seq<char>>,
    key: Seq<char>,
    sensitive: bool,
    reply: Option<Seq<char>>,
    default: Seq<char>,
)
    ensures
        chain_value(Some(v), ov, env, key) == Some(v),
        spec_resolve_value(Some(v), ov, env, key, sensitive, reply) == Ok::<_, Seq<char>>(v),
        spec_resolve_optional_value(Some(v), ov, env, key, sensitive, reply) == Ok::<
            _,
            Seq<char>,
        >(Some(v)),
        spec_resolve_path(Some(v), ov, env, key, default, reply) == Ok::<_, Seq<char>>(v),
{
}

/// Explicitly supplied list values win the list resolver outright, joined
/// with single spaces, whatever the other sources and the menu hold.
pub proof fn lemma_explicit_list_wins(
    cli: Seq<Seq<char>>,
    ov: Map<Seq<char>, Seq<char>>,
    env: Map<Seq<char>, Seq<char>>,
    key: Seq<char>,
    default: Seq<char>,
    menu: TimedReply,
    custom: Option<Seq<char>>,
)
    requires
        cli.len() > 0,
    ensures
        crate::resolve::spec_resolve_resolvers(cli, ov, env, key, default, menu, custom) == Ok::<
            _,
            Seq<char>,
        >(crate::strutil::join_sep(cli, " "@)),
{
}

/// With no explicit value, a non-blank override entry wins over the
/// environment, whatever value the environment binds to the same key, and
/// no prompt is consulted.
pub proof fn lemma_override_beats_env(
    ov: Map<Seq<char>, Seq<char>>,
    env: Map<Seq<char>, Seq<char>>,
    key: Seq<char>,
    sensitive: bool,
    reply: Option<Seq<char>>,
    default: Seq<char>,
)
    requires
        ov.contains_key(key),
        !is_blank(ov[key]),
    ensures
        chain_value(None, ov, env, key) == Some(ov[key]),
        spec_resolve_value(None, ov, env, key, sensitive, reply) == Ok::<_, Seq<char>>(ov[key]),
        spec_resolve_optional_value(None, ov, env, key, sensitive, reply) == Ok::<_, Seq<char>>(
            Some(ov[key]),
        ),
        spec_resolve_path(None, ov, env, key, default, reply) == Ok::<_, Seq<char>>(ov[key]),
{
}

/// A certificate/key pair with neither half explicit is derived from the
/// directory and the domain with the fixed suffixes.
pub proof fn lemma_derived_cert_paths(dir: Seq<char>, domain: Seq<char>)
    ensures
        spec_resolve_cert_paths(None, None, Some(dir), Some(domain)) == Ok::<_, Seq<char>>(
            (
                crate::strutil::path_join_seq(dir, domain + ".cer"@),
                crate::strutil::path_join_seq(dir, domain + ".key"@),
            ),
        ),
{
}

/// With no explicit certificate or key path anywhere in their chains and no
/// explicit domain, an override entry for the domain key flows through the
/// chain into the derived pair: `<cert_dir>/<domain>.cer` and
/// `<cert_dir>/<domain>.key`.
pub proof fn lemma_override_domain_derives_pair(
    ov: Map<Seq<char>, Seq<char>>,
    env: Map<Seq<char>, Seq<char>>,
    d: Seq<char>,
    cert_dir_explicit: Option<Seq<char>>,
    cert_dir_name: Option<Seq<char>>,
    name_keys: Seq<Seq<char>>,
    name_reply: Option<Seq<char>>,
    domain_reply: Option<Seq<char>>,
    dir: Seq<char>,
)
    requires
        chain_value(None, ov, env, "NGINX_CERT_PATH"@) is None,
        chain_value(None, ov, env, "NGINX_KEY_PATH"@) is None,
        ov.contains_key("DOMAIN"@),
        !is_blank(ov["DOMAIN"@]),
        ov["DOMAIN"@] == d,
        crate::resolve::spec_resolve_cert_dir(
            cert_dir_explicit,
            cert_dir_name,
            ov,
            env,
            name_keys,
            "custom"@,
            name_reply,
        ) == Ok::<Seq<char>, Seq<char>>(dir),
    ensures
        crate::nginxcfg::spec_config_cert_pair(
            ov,
            env,
            None,
            None,
            None,
            domain_reply,
            cert_dir_explicit,
            cert_dir_name,
            name_keys,
            name_reply,
        ) == Ok::<_, Seq<char>>(
            (
                crate::strutil::path_join_seq(dir, d + ".cer"@),
                crate::strutil::path_join_seq(dir, d + ".key"@),
            ),
        ),
{
}

/// The proxy command's certificate pair follows the domain chain: with a
/// non-blank DOMAIN override entry, the pair derives from that entry,
/// whatever the proxy domain and the environment hold.
pub proof fn lemma_proxy_pair_follows_domain_override(
    ov: Map<Seq<char>, Seq<char>>,
    env: Map<Seq<char>, Seq<char>>,
    proxy_domain: Seq<char>,
)
    requires
        ov.contains_key("DOMAIN"@),
        !is_blank(ov["DOMAIN"@]),
    ensures
        crate::nginxcfg::pair_domain(ov, env, proxy_domain) == ov["DOMAIN"@],
{
}

/// With no DOMAIN entry anywhere, the proxy command's certificate pair
/// falls back to the proxy domain itself.
pub proof fn lemma_proxy_pair_domain_fallback(
    ov: Map<Seq<char>, Seq<char>>,
    env: Map<Seq<char>, Seq<char>>,
    proxy_domain: Seq<char>,
)
    requires
        chain_value(None, ov, env, "DOMAIN"@) is None,
    ensures
        crate::nginxcfg::pair_domain(ov, env, proxy_domain) == proxy_domain,
{
}

/// A half-explicit certificate/key pair is a configuration error, for every
/// directory and domain: operator intent cannot be completed by inference.
pub proof fn lemma_half_pair_rejected(
    cert_path: Option<Seq<char>>,
    key_path: Option<Seq<char>>,
    cert_dir: Option<Seq<char>>,
    domain: Option<Seq<char>>,
)
    requires
        (cert_path is Some) != (key_path is Some),
    ensures
        spec_resolve_cert_paths(cert_path, key_path, cert_dir, domain) == Err::<
            (Seq<char>, Seq<char>),
            _,
        >("Both cert and key paths must be set together"@),
{
}

/// A half-resolved certificate/key pair fails the default-site command with
/// the configuration error, for all domain, directory-name and output
/// inputs — provided the prompt reads the resolution owes succeed — and no
/// write is planned.
pub proof fn lemma_half_pair_fails_default_config(
    ov: Map<Seq<char>, Seq<char>>,
    env: Map<Seq<char>, Seq<char>>,
    cert_path: Option<Seq<char>>,
    key_path: Option<Seq<char>>,
    cert_dir_name: Option<Seq<char>>,
    domain: Option<Seq<char>>,
    output_path: Option<Seq<char>>,
    dry_run: bool,
    replies_domain: Option<Seq<char>>,
    replies_name: Option<Seq<char>>,
    replies_output: Option<Seq<char>>,
)
    requires
        (chain_value(cert_path, ov, env, "NGINX_CERT_PATH"@) is Some) != (chain_value(
            key_path,
            ov,
            env,
            "NGINX_KEY_PATH"@,
        ) is Some),
        spec_resolve_value(domain, ov, env, "DOMAIN"@, false, replies_domain) is Ok,
        spec_resolve_cert_dir(
            None,
            cert_dir_name,
            ov,
            env,
            seq!["NGINX_CERT_DIR_NAME"@, "CERT_DIR_NAME"@],
            "custom"@,
            replies_name,
        ) is Ok,
    ensures
        crate::nginxcfg::spec_write_nginx_default(
            ov,
            env,
            cert_path,
            key_path,
            cert_dir_name,
            domain,
            output_path,
            dry_run,
            replies_domain,
            replies_name,
            replies_output,
        ) == Err::<Seq<ActionV>, _>("Both cert and key paths must be set together"@),
{
}

/// A timed confirmation that hears nothing resolves to no, not to a hang.
pub proof fn lemma_confirm_timeout()
    ensures
        spec_confirm(TimedReply::TimedOut) == Ok::<bool, Seq<char>>(false),
{
}

/// A resolver menu that hears nothing resolves to the caller's default
/// provider, whatever the custom reply would have been.
pub proof fn lemma_resolver_menu_timeout(default: Seq<char>, custom: Option<Seq<char>>)
    ensures
        spec_select_resolver(default, TimedReply::TimedOut, custom) == Ok::<_, Seq<char>>(default),
{
}

proof fn lemma_harmless_concat(a: Seq<ActionV>, b: Seq<ActionV>)
    requires
        all_harmless(a),
        all_harmless(b),
    ensures
        all_harmless(a + b),
{
    assert forall|i: int| 0 <= i < (a + b).len() implies !crate::plan::is_mutating(
        #[trigger] (a + b)[i],
    ) by {
        if i < a.len() {
            assert((a + b)[i] == a[i]);
        } else {
            assert((a + b)[i] == b[i - a.len()]);
        }
    }
}

proof fn lemma_run_cmd_dry_harmless(cmd: Seq<char>, args: Seq<Seq<char>>)
    ensures
        !crate::plan::is_mutating(spec_run_cmd(cmd, args, true)),
{
}

proof fn lemma_install_nginx_dry_harmless(probes: OsProbes)
    ensures
        spec_install_nginx_official(true, probes) matches Ok(acts) ==> all_harmless(acts),
{
    if spec_install_nginx_official(true, probes) is Ok {
        match crate::osinfo::spec_read_os_id(probes.os_release) {
            Err(e) => {},
            Ok(id) => {
                if id == "debian"@ || id == "ubuntu"@ {
                    let r = spec_install_nginx_debian_like(
                        id,
                        true,
                        probes.os_release,
                        probes.lsb_codename,
                    );
                    if r is Ok {
                        let acts = r->Ok_0;
                        assert forall|i: int| 0 <= i < acts.len() implies !crate::plan::is_mutating(
                            #[trigger] acts[i],
                        ) by {}
                    }
                } else if id == "alpine"@ {
                    let r = spec_install_nginx_alpine(
                        true,
                        probes.alpine_release,
                        probes.apk_repositories,
                    );
                    if r is Ok {
                        let acts = r->Ok_0;
                        assert forall|i: int| 0 <= i < acts.len() implies !crate::plan::is_mutating(
                            #[trigger] acts[i],
                        ) by {}
                    }
                }
            },
        }
    }
}

/// A dry setup run mutates nothing: every action of the plan is a note or a
/// report, whatever the flags, probes and prompt outcomes were.
pub proof fn lemma_setup_dry_run_harmless(
    install_zsh: bool,
    install_cron: bool,
    install_nginx: bool,
    uid: Result<String, String>,
    zsh_exists: bool,
    zsh_confirm: TimedReply,
    crontab_exists: bool,
    nginx_exists: bool,
    probes: OsProbes,
)
    ensures
        spec_setup_system(
            install_zsh,
            install_cron,
            install_nginx,
            true,
            uid,
            zsh_exists,
            zsh_confirm,
            crontab_exists,
            nginx_exists,
            probes,
        ) matches Ok(pair) ==> all_harmless(pair.0),
{
    let s = spec_setup_system(
        install_zsh,
        install_cron,
        install_nginx,
        true,
        uid,
        zsh_exists,
        zsh_confirm,
        crontab_exists,
        nginx_exists,
        probes,
    );
    if s is Ok {
        let zsh = spec_setup_zsh(install_zsh, zsh_exists, true, zsh_confirm);
        let za = zsh->Ok_0.0;
        assert forall|i: int| 0 <= i < za.len() implies !crate::plan::is_mutating(
            #[trigger] za[i],
        ) by {}
        let (ca, cc) = spec_setup_cron(install_cron, crontab_exists, true);
        assert forall|i: int| 0 <= i < ca.len() implies !crate::plan::is_mutating(
            #[trigger] ca[i],
        ) by {}
        let nginx = spec_setup_nginx(install_nginx, nginx_exists, true, probes);
        let na = nginx->Ok_0.0;
        lemma_install_nginx_dry_harmless(probes);
        assert forall|i: int| 0 <= i < na.len() implies !crate::plan::is_mutating(
            #[trigger] na[i],
        ) by {
            if install_nginx && !nginx_exists {
                let inst = spec_install_nginx_official(true, probes)->Ok_0;
                assert(all_harmless(inst));
                assert(na == spec_install_if_missing("nginx"@, false, true, inst).0);
                if i >= 1 {
                    assert(na[i] == inst[i - 1]);
                }
            }
        }
        lemma_harmless_concat(za, ca);
        lemma_harmless_concat(za + ca, na);
        assert(s->Ok_0.0 == za + ca + na);
    }
}

/// A dry certificate issuance mutates nothing: no subprocess, no file copy,
/// no scheduler change; every would-be action is a note.
pub proof fn lemma_issue_cert_dry_run_harmless(
    ov: Map<Seq<char>, Seq<char>>,
    env: Map<Seq<char>, Seq<char>>,
    args: crate::cli::IssueCertArgs,
    replies: crate::certcmd::IssueCertReplies,
    reload_nginx: bool,
    uid: Result<String, String>,
    crontab_exists: bool,
    crontab_list: Result<String, String>,
)
    ensures
        crate::certcmd::spec_issue_cert(
            ov,
            env,
            args,
            replies,
            reload_nginx,
            true,
            uid,
            crontab_exists,
            crontab_list,
        ) matches Ok(acts) ==> all_harmless(acts),
{
}

/// A dry default-site write mutates nothing.
pub proof fn lemma_write_nginx_default_dry_run_harmless(
    ov: Map<Seq<char>, Seq<char>>,
    env: Map<Seq<char>, Seq<char>>,
    cert_path: Option<Seq<char>>,
    key_path: Option<Seq<char>>,
    cert_dir_name: Option<Seq<char>>,
    domain: Option<Seq<char>>,
    output_path: Option<Seq<char>>,
    replies_domain: Option<Seq<char>>,
    replies_name: Option<Seq<char>>,
    replies_output: Option<Seq<char>>,
)
    ensures
        crate::nginxcfg::spec_write_nginx_default(
            ov,
            env,
            cert_path,
            key_path,
            cert_dir_name,
            domain,
            output_path,
            true,
            replies_domain,
            replies_name,
            replies_output,
        ) matches Ok(acts) ==> all_harmless(acts),
{
}

/// A dry proxy-config write mutates nothing.
pub proof fn lemma_write_proxy_config_dry_run_harmless(
    ov: Map<Seq<char>, Seq<char>>,
    env: Map<Seq<char>, Seq<char>>,
    args: crate::cli::WriteProxyArgs,
    replies: crate::nginxcfg::WriteProxyReplies,
)
    ensures
        crate::nginxcfg::spec_write_proxy_config(ov, env, args, true, replies) matches Ok(acts)
            ==> all_harmless(acts),
{
}

} // verus!
