//! The certificate-issuance command: resolve the credentials and paths,
//! plan the external ACME invocation, the copy of the produced files, the
//! optional proxy reload, and the idempotent renewal job.

use vstd::prelude::*;

use crate::cli::IssueCertArgs;
use crate::envmap::EnvMap;
use crate::plan::{action_views, Action, ActionV};
use crate::resolve::{
    chain_value, opt_view, spec_resolve_cert_dir, spec_resolve_optional_value, spec_resolve_path,
    spec_resolve_value,
};
use crate::setup::plan_res_view;
use crate::strutil::{
    contains_sub, parent_dir, path_join, path_join_seq, str_contains, str_parent_dir, views_of,
};

verus! {

/// The prompt replies a certificate issuance may consume: each is the line
/// read for that parameter's prompt — asked only when its chain yields
/// nothing — or `None` when reading failed or no prompt was asked.
pub struct IssueCertReplies {
    pub cf_token: Option<String>,
    pub cf_account_id: Option<String>,
    pub cf_zone_id: Option<String>,
    pub domain: Option<String>,
    pub wildcard_domain: Option<String>,
    pub acme_bin: Option<String>,
    pub acme_home: Option<String>,
    pub cert_dir_name: Option<String>,
    pub nginx_bin: Option<String>,
}

/// The renewal job: registered with the scheduler once, idempotently —
/// an existing identical line is left alone; without the scheduler the step
/// is skipped with a notice.
pub open spec fn spec_setup_acme_renew_cron(
    acme_bin: Seq<char>,
    acme_home: Seq<char>,
    dry_run: bool,
    crontab_exists: bool,
    crontab_list: Result<String, String>,
) -> Result<Seq<ActionV>, Seq<char>> {
    if !crontab_exists {
        Ok(seq![ActionV::Note { message: "crontab not found, skipping renew cron setup"@ }])
    } else {
        let cron_line = "0 0 1,16 * * /bin/sh "@ + acme_bin + " --cron --home "@ + acme_home
            + " >/dev/null 2>&1"@;
        if dry_run {
            Ok(seq![ActionV::Note { message: "[dry-run] Would ensure cron: "@ + cron_line }])
        } else {
            match crontab_list {
                Err(e) => Err("Failed to read crontab: "@ + e@),
                Ok(existing) => if contains_sub(existing@, cron_line) {
                    Ok(seq![ActionV::Note { message: "acme renew cron already exists"@ }])
                } else {
                    let content = (if existing@.len() > 0 && existing@.last() == '\n' {
                        existing@
                    } else {
                        existing@ + "\n"@
                    }) + cron_line + "\n"@;
                    Ok(
                        seq![
                            ActionV::SetCrontab { content },
                            ActionV::Done { message: "acme renew cron added"@ },
                        ],
                    )
                },
            }
        }
    }
}

/// Plan the renewal-job registration. The list probe is the scheduler's
/// current job table, read only for a real run.
pub fn setup_acme_renew_cron(
    acme_bin: &str,
    acme_home: &str,
    dry_run: bool,
    crontab_exists: bool,
    crontab_list: &Result<String, String>,
) -> (r: Result<Vec<Action>, String>)
    ensures
        plan_res_view(r) == spec_setup_acme_renew_cron(
            acme_bin@,
            acme_home@,
            dry_run,
            crontab_exists,
            *crontab_list,
        ),
{
    let mut v: Vec<Action> = Vec::new();
    if !crontab_exists {
        v.push(Action::Note { message: "crontab not found, skipping renew cron setup".to_owned() });
        proof {
            assert(action_views(v@) =~~= spec_setup_acme_renew_cron(
                acme_bin@,
                acme_home@,
                dry_run,
                crontab_exists,
                *crontab_list,
            )->Ok_0);
        }
        return Ok(v);
    }
    let cron_line = "0 0 1,16 * * /bin/sh ".to_owned().concat(acme_bin).concat(
        " --cron --home ",
    ).concat(acme_home).concat(" >/dev/null 2>&1");
    if dry_run {
        v.push(
            Action::Note {
                message: "[dry-run] Would ensure cron: ".to_owned().concat(cron_line.as_str()),
            },
        );
        proof {
            assert(action_views(v@) =~~= spec_setup_acme_renew_cron(
                acme_bin@,
                acme_home@,
                dry_run,
                crontab_exists,
                *crontab_list,
            )->Ok_0);
        }
        return Ok(v);
    }
    let existing = match crontab_list {
        Err(e) => {
            return Err("Failed to read crontab: ".to_owned().concat(e.as_str()));
        },
        Ok(existing) => existing,
    };
    if str_contains(existing.as_str(), cron_line.as_str()) {
        v.push(Action::Note { message: "acme renew cron already exists".to_owned() });
        proof {
            assert(action_views(v@) =~~= spec_setup_acme_renew_cron(
                acme_bin@,
                acme_home@,
                dry_run,
                crontab_exists,
                *crontab_list,
            )->Ok_0);
        }
        return Ok(v);
    }
    let len = existing.as_str().unicode_len();
    let base = if len > 0 && existing.as_str().get_char(len - 1) == '\n' {
        existing.clone()
    } else {
        existing.clone().concat("\n")
    };
    let content = base.concat(cron_line.as_str()).concat("\n");
    v.push(Action::SetCrontab { content });
    v.push(Action::Done { message: "acme renew cron added".to_owned() });
    proof {
        assert(action_views(v@) =~~= spec_setup_acme_renew_cron(
            acme_bin@,
            acme_home@,
            dry_run,
            crontab_exists,
            *crontab_list,
        )->Ok_0);
    }
    Ok(v)
}

/// The issuance plan, once every value is resolved: clear the client's
/// cache for the domain, run the client with DNS-challenge flags and the
/// credentials in its environment, copy the produced pair to its
/// destination, optionally validate and reload the proxy, and register the
/// renewal job.
pub open spec fn spec_issue_cert_plan(
    cf_token: Seq<char>,
    cf_account_id: Seq<char>,
    cf_zone_id: Seq<char>,
    domain: Seq<char>,
    wildcard: Seq<char>,
    acme_bin: Seq<char>,
    acme_home: Seq<char>,
    cert_dst: Seq<char>,
    key_dst: Seq<char>,
    nginx_bin: Seq<char>,
    reload_nginx: bool,
    dry_run: bool,
    crontab_exists: bool,
    crontab_list: Result<String, String>,
) -> Result<Seq<ActionV>, Seq<char>> {
    let cache_dir = path_join_seq(acme_home, domain + "_ecc"@);
    let cache_part = if dry_run {
        seq![
            ActionV::Note { message: "[dry-run] Would remove cache dir if exists: "@ + cache_dir },
        ]
    } else {
        seq![ActionV::RemoveDirIfExists { path: cache_dir }]
    };
    let acme_part = if dry_run {
        seq![ActionV::Note { message: "[dry-run] Would run acme.sh to issue certificate"@ }]
    } else {
        seq![
            ActionV::Run {
                program: acme_bin,
                args: seq![
                    "--issue"@,
                    "--force"@,
                    "-d"@,
                    domain,
                    "-d"@,
                    wildcard,
                    "--dns"@,
                    "dns_cf"@,
                    "--keylength"@,
                    "ec-256"@,
                ],
                envs: seq![
                    ("CF_Token"@, cf_token),
                    ("CF_Account_ID"@, cf_account_id),
                    ("CF_Zone_ID"@, cf_zone_id),
                ],
                err_spawn: "Failed to run acme.sh"@,
                err_exit: "Certificate issuance failed"@,
            },
            ActionV::Done { message: "Certificate issuance completed"@ },
        ]
    };
    let cert_src = path_join_seq(cache_dir, "fullchain.cer"@);
    let key_src = path_join_seq(cache_dir, domain + ".key"@);
    let parent = parent_dir(cert_dst);
    let parent_display = match parent {
        Some(p) => p,
        None => "/"@,
    };
    let dir_part = if dry_run {
        seq![ActionV::Note { message: "[dry-run] Would create cert dir: "@ + parent_display }]
    } else {
        match parent {
            Some(p) => seq![ActionV::CreateDirAll { path: p }],
            None => seq![],
        }
    };
    let copy_part = if dry_run {
        seq![
            ActionV::Note {
                message: "[dry-run] Would copy cert: "@ + cert_src + " -> "@ + cert_dst,
            },
            ActionV::Note { message: "[dry-run] Would copy key: "@ + key_src + " -> "@ + key_dst },
        ]
    } else {
        seq![
            ActionV::CopyFile {
                from: cert_src,
                to: cert_dst,
                err_prefix: "Failed to copy cert from "@ + cert_src,
            },
            ActionV::CopyFile {
                from: key_src,
                to: key_dst,
                err_prefix: "Failed to copy key from "@ + key_src,
            },
            ActionV::Done { message: "Certificate files updated"@ },
        ]
    };
    let reload_part = if !reload_nginx {
        seq![]
    } else if dry_run {
        seq![ActionV::Note { message: "[dry-run] Would run nginx -t and reload"@ }]
    } else {
        seq![
            ActionV::Run {
                program: nginx_bin,
                args: seq!["-t"@],
                envs: seq![],
                err_spawn: "Failed to run nginx -t"@,
                err_exit: "nginx -t failed"@,
            },
            ActionV::Run {
                program: nginx_bin,
                args: seq!["-s"@, "reload"@],
                envs: seq![],
                err_spawn: "Failed to reload nginx"@,
                err_exit: "nginx reload failed"@,
            },
            ActionV::Done { message: "nginx reloaded"@ },
        ]
    };
    match spec_setup_acme_renew_cron(acme_bin, acme_home, dry_run, crontab_exists, crontab_list) {
        Err(e) => Err(e),
        Ok(cron) => Ok(cache_part + acme_part + dir_part + copy_part + reload_part + cron),
    }
}

/// The whole issuance: gated on elevated privilege, credentials and paths
/// resolved through their chains, the half-explicit output pair rejected,
/// then the plan above with destinations either explicit or derived from
/// the certificate directory and the domain.
pub open spec fn spec_issue_cert(
    ov: Map<Seq<char>, Seq<char>>,
    env: Map<Seq<char>, Seq<char>>,
    args: IssueCertArgs,
    replies: IssueCertReplies,
    reload_nginx: bool,
    dry_run: bool,
    uid: Result<String, String>,
    crontab_exists: bool,
    crontab_list: Result<String, String>,
) -> Result<Seq<ActionV>, Seq<char>> {
    match crate::osinfo::spec_ensure_root(uid) {
        Err(e) => Err(e),
        Ok(u) => match spec_resolve_value(
            opt_view(args.cf_token),
            ov,
            env,
            "CF_TOKEN"@,
            true,
            opt_view(replies.cf_token),
        ) {
            Err(e) => Err(e),
            Ok(cf_token) => match spec_resolve_value(
                opt_view(args.cf_account_id),
                ov,
                env,
                "CF_ACCOUNT_ID"@,
                false,
                opt_view(replies.cf_account_id),
            ) {
                Err(e) => Err(e),
                Ok(cf_account_id) => match spec_resolve_value(
                    opt_view(args.cf_zone_id),
                    ov,
                    env,
                    "CF_ZONE_ID"@,
                    false,
                    opt_view(replies.cf_zone_id),
                ) {
                    Err(e) => Err(e),
                    Ok(cf_zone_id) => match spec_resolve_value(
                        opt_view(args.domain),
                        ov,
                        env,
                        "DOMAIN"@,
                        false,
                        opt_view(replies.domain),
                    ) {
                        Err(e) => Err(e),
                        Ok(domain) => match spec_resolve_optional_value(
                            opt_view(args.wildcard_domain),
                            ov,
                            env,
                            "WILDCARD_DOMAIN"@,
                            false,
                            opt_view(replies.wildcard_domain),
                        ) {
                            Err(e) => Err(e),
                            Ok(wopt) => {
                                let wildcard = match wopt {
                                    Some(w) => w,
                                    None => "*."@ + domain,
                                };
                                match spec_resolve_path(
                                    opt_view(args.acme_bin),
                                    ov,
                                    env,
                                    "ACME_BIN"@,
                                    "/root/.acme.sh/acme.sh"@,
                                    opt_view(replies.acme_bin),
                                ) {
                                    Err(e) => Err(e),
                                    Ok(acme_bin) => match spec_resolve_path(
                                        opt_view(args.acme_home),
                                        ov,
                                        env,
                                        "ACME_HOME"@,
                                        "/root/.acme.sh"@,
                                        opt_view(replies.acme_home),
                                    ) {
                                        Err(e) => Err(e),
                                        Ok(acme_home) => match spec_resolve_cert_dir(
                                            chain_value(opt_view(args.cert_dir), ov, env, "CERT_DIR"@),
                                            opt_view(args.cert_dir_name),
                                            ov,
                                            env,
                                            seq!["CERT_DIR_NAME"@],
                                            "custom"@,
                                            opt_view(replies.cert_dir_name),
                                        ) {
                                            Err(e) => Err(e),
                                            Ok(cert_dir) => {
                                                let cert_out = chain_value(
                                                    opt_view(args.cert_output_path),
                                                    ov,
                                                    env,
                                                    "CERT_OUTPUT_PATH"@,
                                                );
                                                let key_out = chain_value(
                                                    opt_view(args.key_output_path),
                                                    ov,
                                                    env,
                                                    "KEY_OUTPUT_PATH"@,
                                                );
                                                if (cert_out is Some) != (key_out is Some) {
                                                    Err(
                                                        "Both CERT_OUTPUT_PATH and KEY_OUTPUT_PATH must be set together"@,
                                                    )
                                                } else {
                                                    match spec_resolve_path(
                                                        opt_view(args.nginx_bin),
                                                        ov,
                                                        env,
                                                        "NGINX_BIN"@,
                                                        "nginx"@,
                                                        opt_view(replies.nginx_bin),
                                                    ) {
                                                        Err(e) => Err(e),
                                                        Ok(nginx_bin) => {
                                                            let dst = match (cert_out, key_out) {
                                                                (Some(c), Some(k)) => (c, k),
                                                                _ => (
                                                                    path_join_seq(
                                                                        cert_dir,
                                                                        domain + ".cer"@,
                                                                    ),
                                                                    path_join_seq(
                                                                        cert_dir,
                                                                        domain + ".key"@,
                                                                    ),
                                                                ),
                                                            };
                                                            spec_issue_cert_plan(
                                                                cf_token,
                                                                cf_account_id,
                                                                cf_zone_id,
                                                                domain,
                                                                wildcard,
                                                                acme_bin,
                                                                acme_home,
                                                                dst.0,
                                                                dst.1,
                                                                nginx_bin,
                                                                reload_nginx,
                                                                dry_run,
                                                                crontab_exists,
                                                                crontab_list,
                                                            )
                                                        },
                                                    }
                                                }
                                            },
                                        },
                                    },
                                }
                            },
                        },
                    },
                },
            },
        },
    }
}

/// Plan a certificate issuance from the resolved sources, prompt replies
/// and probes.
#[verifier::rlimit(100)]
pub fn issue_cert(
    overrides: &EnvMap,
    env: &EnvMap,
    args: IssueCertArgs,
    replies: IssueCertReplies,
    reload_nginx: bool,
    dry_run: bool,
    uid: &Result<String, String>,
    crontab_exists: bool,
    crontab_list: &Result<String, String>,
) -> (r: Result<Vec<Action>, String>)
    ensures
        plan_res_view(r) == spec_issue_cert(
            overrides@,
            env@,
            args,
            replies,
            reload_nginx,
            dry_run,
            *uid,
            crontab_exists,
            *crontab_list,
        ),
{
    if let Err(e) = crate::osinfo::ensure_root(uid) {
        return Err(e);
    }
    let cf_token = match crate::resolve::resolve_value(
        args.cf_token,
        overrides,
        env,
        "CF_TOKEN",
        true,
        replies.cf_token,
    ) {
        Ok(v) => v,
        Err(e) => {
            return Err(e);
        },
    };
    let cf_account_id = match crate::resolve::resolve_value(
        args.cf_account_id,
        overrides,
        env,
        "CF_ACCOUNT_ID",
        false,
        replies.cf_account_id,
    ) {
        Ok(v) => v,
        Err(e) => {
            return Err(e);
        },
    };
    let cf_zone_id = match crate::resolve::resolve_value(
        args.cf_zone_id,
        overrides,
        env,
        "CF_ZONE_ID",
        false,
        replies.cf_zone_id,
    ) {
        Ok(v) => v,
        Err(e) => {
            return Err(e);
        },
    };
    let domain = match crate::resolve::resolve_value(
        args.domain,
        overrides,
        env,
        "DOMAIN",
        false,
        replies.domain,
    ) {
        Ok(v) => v,
        Err(e) => {
            return Err(e);
        },
    };
    let wildcard = match crate::resolve::resolve_optional_value(
        args.wildcard_domain,
        overrides,
        env,
        "WILDCARD_DOMAIN",
        false,
        replies.wildcard_domain,
    ) {
        Ok(Some(w)) => w,
        Ok(None) => "*.".to_owned().concat(domain.as_str()),
        Err(e) => {
            return Err(e);
        },
    };
    let acme_bin = match crate::resolve::resolve_path(
        args.acme_bin,
        overrides,
        env,
        "ACME_BIN",
        "/root/.acme.sh/acme.sh",
        replies.acme_bin,
    ) {
        Ok(v) => v,
        Err(e) => {
            return Err(e);
        },
    };
    let acme_home = match crate::resolve::resolve_path(
        args.acme_home,
        overrides,
        env,
        "ACME_HOME",
        "/root/.acme.sh",
        replies.acme_home,
    ) {
        Ok(v) => v,
        Err(e) => {
            return Err(e);
        },
    };
    let cert_dir0 = crate::resolve::resolve_optional_path(args.cert_dir, overrides, env, "CERT_DIR");
    proof {
        assert(crate::resolve::strs_views(["CERT_DIR_NAME"]@) =~~= seq!["CERT_DIR_NAME"@]);
    }
    let cert_dir = match crate::resolve::resolve_cert_dir(
        cert_dir0,
        args.cert_dir_name,
        overrides,
        env,
        &["CERT_DIR_NAME"],
        "custom",
        replies.cert_dir_name,
    ) {
        Ok(v) => v,
        Err(e) => {
            return Err(e);
        },
    };
    let cert_out = crate::resolve::resolve_optional_path(
        args.cert_output_path,
        overrides,
        env,
        "CERT_OUTPUT_PATH",
    );
    let key_out = crate::resolve::resolve_optional_path(
        args.key_output_path,
        overrides,
        env,
        "KEY_OUTPUT_PATH",
    );
    if cert_out.is_some() != key_out.is_some() {
        return Err("Both CERT_OUTPUT_PATH and KEY_OUTPUT_PATH must be set together".to_owned());
    }
    let nginx_bin = match crate::resolve::resolve_path(
        args.nginx_bin,
        overrides,
        env,
        "NGINX_BIN",
        "nginx",
        replies.nginx_bin,
    ) {
        Ok(v) => v,
        Err(e) => {
            return Err(e);
        },
    };
    let (cert_dst, key_dst) = match (cert_out, key_out) {
        (Some(c), Some(k)) => (c, k),
        _ => (
            path_join(cert_dir.as_str(), domain.clone().concat(".cer").as_str()),
            path_join(cert_dir.as_str(), domain.clone().concat(".key").as_str()),
        ),
    };
    let mut v: Vec<Action> = Vec::new();
    let cache_dir = path_join(acme_home.as_str(), domain.clone().concat("_ecc").as_str());
    if dry_run {
        v.push(
            Action::Note {
                message: "[dry-run] Would remove cache dir if exists: ".to_owned().concat(
                    cache_dir.as_str(),
                ),
            },
        );
    } else {
        v.push(Action::RemoveDirIfExists { path: cache_dir.clone() });
    }
    if dry_run {
        v.push(Action::Note { message: "[dry-run] Would run acme.sh to issue certificate".to_owned() });
    } else {
        let mut acme_args: Vec<String> = Vec::new();
        acme_args.push("--issue".to_owned());
        acme_args.push("--force".to_owned());
        acme_args.push("-d".to_owned());
        acme_args.push(domain.clone());
        acme_args.push("-d".to_owned());
        acme_args.push(wildcard.clone());
        acme_args.push("--dns".to_owned());
        acme_args.push("dns_cf".to_owned());
        acme_args.push("--keylength".to_owned());
        acme_args.push("ec-256".to_owned());
        let mut acme_envs: Vec<(String, String)> = Vec::new();
        acme_envs.push(("CF_Token".to_owned(), cf_token.clone()));
        acme_envs.push(("CF_Account_ID".to_owned(), cf_account_id.clone()));
        acme_envs.push(("CF_Zone_ID".to_owned(), cf_zone_id.clone()));
        proof {
            assert(views_of(acme_args@) =~~= seq![
                "--issue"@,
                "--force"@,
                "-d"@,
                domain@,
                "-d"@,
                wildcard@,
                "--dns"@,
                "dns_cf"@,
                "--keylength"@,
                "ec-256"@,
            ]);
            assert(crate::envmap::kv_views(acme_envs@) =~~= seq![
                ("CF_Token"@, cf_token@),
                ("CF_Account_ID"@, cf_account_id@),
                ("CF_Zone_ID"@, cf_zone_id@),
            ]);
        }
        v.push(
            Action::Run {
                program: acme_bin.clone(),
                args: acme_args,
                envs: acme_envs,
                err_spawn: "Failed to run acme.sh".to_owned(),
                err_exit: "Certificate issuance failed".to_owned(),
            },
        );
        v.push(Action::Done { message: "Certificate issuance completed".to_owned() });
    }
    let cert_src = path_join(cache_dir.as_str(), "fullchain.cer");
    let key_src = path_join(cache_dir.as_str(), domain.clone().concat(".key").as_str());
    let parent = str_parent_dir(cert_dst.as_str());
    if dry_run {
        let pd = match parent {
            Some(p) => p,
            None => "/".to_owned(),
        };
        v.push(
            Action::Note {
                message: "[dry-run] Would create cert dir: ".to_owned().concat(pd.as_str()),
            },
        );
    } else {
        match parent {
            Some(p) => {
                v.push(Action::CreateDirAll { path: p });
            },
            None => {},
        }
    }
    if dry_run {
        v.push(
            Action::Note {
                message: "[dry-run] Would copy cert: ".to_owned().concat(cert_src.as_str()).concat(
                    " -> ",
                ).concat(cert_dst.as_str()),
            },
        );
        v.push(
            Action::Note {
                message: "[dry-run] Would copy key: ".to_owned().concat(key_src.as_str()).concat(
                    " -> ",
                ).concat(key_dst.as_str()),
            },
        );
    } else {
        v.push(
            Action::CopyFile {
                from: cert_src.clone(),
                to: cert_dst.clone(),
                err_prefix: "Failed to copy cert from ".to_owned().concat(cert_src.as_str()),
            },
        );
        v.push(
            Action::CopyFile {
                from: key_src.clone(),
                to: key_dst.clone(),
                err_prefix: "Failed to copy key from ".to_owned().concat(key_src.as_str()),
            },
        );
        v.push(Action::Done { message: "Certificate files updated".to_owned() });
    }
    if reload_nginx {
        if dry_run {
            v.push(Action::Note { message: "[dry-run] Would run nginx -t and reload".to_owned() });
        } else {
            let targs = crate::plan::strs_to_strings(&["-t"]);
            let rargs = crate::plan::strs_to_strings(&["-s", "reload"]);
            proof {
                assert(views_of(targs@) =~~= seq!["-t"@]);
                assert(views_of(rargs@) =~~= seq!["-s"@, "reload"@]);
                assert(crate::envmap::kv_views(Seq::<(String, String)>::empty())
                    =~~= Seq::<(Seq<char>, Seq<char>)>::empty());
            }
            v.push(
                Action::Run {
                    program: nginx_bin.clone(),
                    args: targs,
                    envs: Vec::new(),
                    err_spawn: "Failed to run nginx -t".to_owned(),
                    err_exit: "nginx -t failed".to_owned(),
                },
            );
            v.push(
                Action::Run {
                    program: nginx_bin.clone(),
                    args: rargs,
                    envs: Vec::new(),
                    err_spawn: "Failed to reload nginx".to_owned(),
                    err_exit: "nginx reload failed".to_owned(),
                },
            );
            v.push(Action::Done { message: "nginx reloaded".to_owned() });
        }
    }
    let mut cron = match setup_acme_renew_cron(
        acme_bin.as_str(),
        acme_home.as_str(),
        dry_run,
        crontab_exists,
        crontab_list,
    ) {
        Ok(cron) => cron,
        Err(e) => {
            return Err(e);
        },
    };
    let ghost before_cron = action_views(v@);
    let ghost cron_views = action_views(cron@);
    v.append(&mut cron);
    proof {
        assert(action_views(v@) =~~= before_cron + cron_views);
        let s = spec_issue_cert(
            overrides@,
            env@,
            args,
            replies,
            reload_nginx,
            dry_run,
            *uid,
            crontab_exists,
            *crontab_list,
        );
        assert(action_views(v@) =~~= s->Ok_0);
    }
    Ok(v)
}

} // verus!
