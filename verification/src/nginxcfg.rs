//! Template rendering for the web-server configuration files: the resolved
//! certificate paths, domain, backend and resolver list substituted into
//! fixed templates, and the write planned to a resolved output path.

use vstd::prelude::*;

use crate::cli::WriteProxyArgs;
use crate::envmap::EnvMap;
use crate::plan::{action_views, Action, ActionV};
use crate::prompt::TimedReply;
use crate::resolve::{
    chain_value, opt_view, spec_resolve_cert_dir, spec_resolve_cert_paths, spec_resolve_path,
    spec_resolve_resolvers, spec_resolve_value,
};
use crate::setup::plan_res_view;
use crate::strutil::{dot_dash, parent_dir, path_join, path_join_seq, str_dot_dash, str_parent_dir, views_of};

verus! {

/// The resolver set a proxy config falls back to.
pub const DEFAULT_RESOLVER: &'static str =
    "1.1.1.1 1.0.0.1 [2606:4700:4700::1111] [2606:4700:4700::1064]";

/// The catch-all default site: every name not served elsewhere is refused.
pub open spec fn nginx_default_text(cert_path: Seq<char>, key_path: Seq<char>) -> Seq<char> {
    "server {\n    listen 80 default_server;\n    listen [::]:80 default_server;\n    listen 443 ssl default_server;\n    listen [::]:443 ssl default_server;\n    ssl_certificate "@
        + cert_path + ";\n    ssl_certificate_key "@ + key_path
        + ";\n    server_name _;\n    return 444;\n}\n"@
}

/// Render the catch-all default site.
pub fn render_nginx_default(cert_path: &str, key_path: &str) -> (r: String)
    ensures
        r@ == nginx_default_text(cert_path@, key_path@),
{
    "server {\n    listen 80 default_server;\n    listen [::]:80 default_server;\n    listen 443 ssl default_server;\n    listen [::]:443 ssl default_server;\n    ssl_certificate ".to_owned().concat(
        cert_path,
    ).concat(";\n    ssl_certificate_key ").concat(key_path).concat(
        ";\n    server_name _;\n    return 444;\n}\n",
    )
}

/// The reverse-proxy site for one domain: TLS with the resolved pair, the
/// resolver list for upstream lookups, and the backend passed through.
pub open spec fn nginx_proxy_text(
    proxy_domain: Seq<char>,
    backend_url: Seq<char>,
    cert_path: Seq<char>,
    key_path: Seq<char>,
    resolver: Seq<char>,
) -> Seq<char> {
    "server {\n    listen 443 ssl;\n    listen [::]:443 ssl;\n    server_name "@ + proxy_domain
        + ";\n    ssl_certificate "@ + cert_path + ";\n    ssl_certificate_key "@ + key_path
        + ";\n    resolver "@ + resolver
        + " valid=300s;\n    location / {\n        proxy_pass "@ + backend_url
        + ";\n        proxy_set_header Host $host;\n        proxy_set_header X-Real-IP $remote_addr;\n        proxy_ssl_server_name on;\n    }\n}\n"@
}

/// Render the reverse-proxy site.
pub fn render_nginx_proxy(
    proxy_domain: &str,
    backend_url: &str,
    cert_path: &str,
    key_path: &str,
    resolver: &str,
) -> (r: String)
    ensures
        r@ == nginx_proxy_text(proxy_domain@, backend_url@, cert_path@, key_path@, resolver@),
{
    "server {\n    listen 443 ssl;\n    listen [::]:443 ssl;\n    server_name ".to_owned().concat(
        proxy_domain,
    ).concat(";\n    ssl_certificate ").concat(cert_path).concat(
        ";\n    ssl_certificate_key ",
    ).concat(key_path).concat(";\n    resolver ").concat(resolver).concat(
        " valid=300s;\n    location / {\n        proxy_pass ",
    ).concat(backend_url).concat(
        ";\n        proxy_set_header Host $host;\n        proxy_set_header X-Real-IP $remote_addr;\n        proxy_ssl_server_name on;\n    }\n}\n",
    )
}

/// The prompt replies the default-site command may consume.
pub struct WriteNginxDefaultReplies {
    pub domain: Option<String>,
    pub cert_dir_name: Option<String>,
    pub output_path: Option<String>,
}

/// The certificate pair of a config write: explicit paths win; otherwise the
/// domain and the certificate directory are resolved and the pair derived;
/// a half-explicit pair is a configuration error.
pub open spec fn spec_config_cert_pair(
    ov: Map<Seq<char>, Seq<char>>,
    env: Map<Seq<char>, Seq<char>>,
    cert_explicit: Option<Seq<char>>,
    key_explicit: Option<Seq<char>>,
    domain_explicit: Option<Seq<char>>,
    domain_reply: Option<Seq<char>>,
    cert_dir_explicit: Option<Seq<char>>,
    cert_dir_name: Option<Seq<char>>,
    name_keys: Seq<Seq<char>>,
    name_reply: Option<Seq<char>>,
) -> Result<(Seq<char>, Seq<char>), Seq<char>> {
    let cert_path = chain_value(cert_explicit, ov, env, "NGINX_CERT_PATH"@);
    let key_path = chain_value(key_explicit, ov, env, "NGINX_KEY_PATH"@);
    let needs_domain = cert_path is None || key_path is None;
    if needs_domain {
        match spec_resolve_value(domain_explicit, ov, env, "DOMAIN"@, false, domain_reply) {
            Err(e) => Err(e),
            Ok(domain) => match spec_resolve_cert_dir(
                cert_dir_explicit,
                cert_dir_name,
                ov,
                env,
                name_keys,
                "custom"@,
                name_reply,
            ) {
                Err(e) => Err(e),
                Ok(cert_dir) => spec_resolve_cert_paths(
                    cert_path,
                    key_path,
                    Some(cert_dir),
                    Some(domain),
                ),
            },
        }
    } else {
        spec_resolve_cert_paths(cert_path, key_path, None, None)
    }
}

/// Resolve the certificate pair for a config write. The domain and the
/// directory name are resolved only when a half of the pair is missing, so
/// an explicit pair never touches the other sources.
pub fn config_cert_pair(
    overrides: &EnvMap,
    env: &EnvMap,
    cert_explicit: Option<String>,
    key_explicit: Option<String>,
    domain_explicit: Option<String>,
    domain_reply: Option<String>,
    cert_dir_explicit: Option<String>,
    cert_dir_name: Option<String>,
    name_keys: &[&str],
    name_reply: Option<String>,
) -> (r: Result<(String, String), String>)
    ensures
        crate::resolve::pair_res_view(r) == spec_config_cert_pair(
            overrides@,
            env@,
            opt_view(cert_explicit),
            opt_view(key_explicit),
            opt_view(domain_explicit),
            opt_view(domain_reply),
            opt_view(cert_dir_explicit),
            opt_view(cert_dir_name),
            crate::resolve::strs_views(name_keys@),
            opt_view(name_reply),
        ),
{
    let cert_path = crate::resolve::resolve_optional_path(
        cert_explicit,
        overrides,
        env,
        "NGINX_CERT_PATH",
    );
    let key_path = crate::resolve::resolve_optional_path(
        key_explicit,
        overrides,
        env,
        "NGINX_KEY_PATH",
    );
    let needs_domain = cert_path.is_none() || key_path.is_none();
    if needs_domain {
        let domain = match crate::resolve::resolve_value(
            domain_explicit,
            overrides,
            env,
            "DOMAIN",
            false,
            domain_reply,
        ) {
            Ok(d) => d,
            Err(e) => {
                return Err(e);
            },
        };
        let cert_dir = match crate::resolve::resolve_cert_dir(
            cert_dir_explicit,
            cert_dir_name,
            overrides,
            env,
            name_keys,
            "custom",
            name_reply,
        ) {
            Ok(d) => d,
            Err(e) => {
                return Err(e);
            },
        };
        crate::resolve::resolve_cert_paths(cert_path, key_path, Some(cert_dir), Some(domain))
    } else {
        crate::resolve::resolve_cert_paths(cert_path, key_path, None, None)
    }
}

/// The default-site command: resolve the pair and the output path, create
/// the parent directory, and write the rendered template.
pub open spec fn spec_write_nginx_default(
    ov: Map<Seq<char>, Seq<char>>,
    env: Map<Seq<char>, Seq<char>>,
    cert_path: Option<Seq<char>>,
    key_path: Option<Seq<char>>,
    cert_dir_name: Option<Seq<char>>,
    domain: Option<Seq<char>>,
    output_path: Option<Seq<char>>,
    dry_run: bool,
    replies_domain: Option<Seq<char>>,
    replies_name: Option<Seq<char>>,
    replies_output: Option<Seq<char>>,
) -> Result<Seq<ActionV>, Seq<char>> {
    match spec_config_cert_pair(
        ov,
        env,
        cert_path,
        key_path,
        domain,
        replies_domain,
        None,
        cert_dir_name,
        seq!["NGINX_CERT_DIR_NAME"@, "CERT_DIR_NAME"@],
        replies_name,
    ) {
        Err(e) => Err(e),
        Ok(pair) => match spec_resolve_path(
            output_path,
            ov,
            env,
            "NGINX_DEFAULT_OUTPUT"@,
            "/etc/nginx/conf.d/default/00-default.conf"@,
            replies_output,
        ) {
            Err(e) => Err(e),
            Ok(out) => {
                let dir_part = match parent_dir(out) {
                    Some(p) => if dry_run {
                        seq![
                            ActionV::Note { message: "[dry-run] Would create directory: "@ + p },
                        ]
                    } else {
                        seq![ActionV::CreateDirAll { path: p }]
                    },
                    None => seq![],
                };
                let content = nginx_default_text(pair.0, pair.1);
                let write_part = if dry_run {
                    seq![
                        ActionV::Note {
                            message: "[dry-run] Would write nginx default config to: "@ + out,
                        },
                    ]
                } else {
                    seq![
                        ActionV::WriteFile {
                            path: out,
                            content,
                            err_prefix: "Failed to write "@ + out,
                        },
                        ActionV::Done { message: "nginx default config written"@ },
                    ]
                };
                Ok(dir_part + write_part)
            },
        },
    }
}

/// Plan the default-site write.
pub fn write_nginx_default(
    overrides: &EnvMap,
    env: &EnvMap,
    cert_path: Option<String>,
    key_path: Option<String>,
    cert_dir_name: Option<String>,
    domain: Option<String>,
    output_path: Option<String>,
    dry_run: bool,
    replies: WriteNginxDefaultReplies,
) -> (r: Result<Vec<Action>, String>)
    ensures
        plan_res_view(r) == spec_write_nginx_default(
            overrides@,
            env@,
            opt_view(cert_path),
            opt_view(key_path),
            opt_view(cert_dir_name),
            opt_view(domain),
            opt_view(output_path),
            dry_run,
            opt_view(replies.domain),
            opt_view(replies.cert_dir_name),
            opt_view(replies.output_path),
        ),
{
    proof {
        assert(crate::resolve::strs_views(["NGINX_CERT_DIR_NAME", "CERT_DIR_NAME"]@) =~~= seq![
            "NGINX_CERT_DIR_NAME"@,
            "CERT_DIR_NAME"@,
        ]);
    }
    let pair = match config_cert_pair(
        overrides,
        env,
        cert_path,
        key_path,
        domain,
        replies.domain,
        None,
        cert_dir_name,
        &["NGINX_CERT_DIR_NAME", "CERT_DIR_NAME"],
        replies.cert_dir_name,
    ) {
        Ok(p) => p,
        Err(e) => {
            return Err(e);
        },
    };
    let out = match crate::resolve::resolve_path(
        output_path,
        overrides,
        env,
        "NGINX_DEFAULT_OUTPUT",
        "/etc/nginx/conf.d/default/00-default.conf",
        replies.output_path,
    ) {
        Ok(o) => o,
        Err(e) => {
            return Err(e);
        },
    };
    let mut v: Vec<Action> = Vec::new();
    match str_parent_dir(out.as_str()) {
        Some(p) => if dry_run {
            v.push(
                Action::Note {
                    message: "[dry-run] Would create directory: ".to_owned().concat(p.as_str()),
                },
            );
        } else {
            v.push(Action::CreateDirAll { path: p });
        },
        None => {},
    }
    let content = render_nginx_default(pair.0.as_str(), pair.1.as_str());
    if dry_run {
        v.push(
            Action::Note {
                message: "[dry-run] Would write nginx default config to: ".to_owned().concat(
                    out.as_str(),
                ),
            },
        );
    } else {
        v.push(
            Action::WriteFile {
                path: out.clone(),
                content,
                err_prefix: "Failed to write ".to_owned().concat(out.as_str()),
            },
        );
        v.push(Action::Done { message: "nginx default config written".to_owned() });
    }
    proof {
        let s = spec_write_nginx_default(
            overrides@,
            env@,
            opt_view(cert_path),
            opt_view(key_path),
            opt_view(cert_dir_name),
            opt_view(domain),
            opt_view(output_path),
            dry_run,
            opt_view(replies.domain),
            opt_view(replies.cert_dir_name),
            opt_view(replies.output_path),
        );
        assert(action_views(v@) =~~= s->Ok_0);
    }
    Ok(v)
}

/// The domain a proxy config's certificate pair derives from: the DOMAIN
/// override or environment entry when one is set — so the pair can name the
/// domain the certificate was issued for — else the proxy domain itself.
pub open spec fn pair_domain(
    ov: Map<Seq<char>, Seq<char>>,
    env: Map<Seq<char>, Seq<char>>,
    proxy_domain: Seq<char>,
) -> Seq<char> {
    match chain_value(None, ov, env, "DOMAIN"@) {
        Some(d) => d,
        None => proxy_domain,
    }
}

/// The prompt replies the proxy-config command may consume; the resolver
/// menu is a bounded prompt, its custom entry a free-text one.
pub struct WriteProxyReplies {
    pub proxy_domain: Option<String>,
    pub backend_url: Option<String>,
    pub cert_dir_name: Option<String>,
    pub output_dir: Option<String>,
    pub resolver_menu: TimedReply,
    pub resolver_custom: Option<String>,
}

/// The proxy-config command: resolve the domain, backend, resolver list and
/// certificate pair — the pair's domain taken from the DOMAIN chain, the
/// proxy domain standing in when that chain is empty — then write the
/// rendered site under the output directory, named after the proxy domain
/// with dots turned to dashes.
pub open spec fn spec_write_proxy_config(
    ov: Map<Seq<char>, Seq<char>>,
    env: Map<Seq<char>, Seq<char>>,
    args: WriteProxyArgs,
    dry_run: bool,
    replies: WriteProxyReplies,
) -> Result<Seq<ActionV>, Seq<char>> {
    match spec_resolve_value(
        opt_view(args.proxy_domain),
        ov,
        env,
        "PROXY_DOMAIN"@,
        false,
        opt_view(replies.proxy_domain),
    ) {
        Err(e) => Err(e),
        Ok(proxy_domain) => match spec_resolve_value(
            opt_view(args.backend_url),
            ov,
            env,
            "BACKEND_URL"@,
            false,
            opt_view(replies.backend_url),
        ) {
            Err(e) => Err(e),
            Ok(backend_url) => match spec_resolve_resolvers(
                views_of(args.resolvers@),
                ov,
                env,
                "RESOLVER"@,
                DEFAULT_RESOLVER@,
                replies.resolver_menu,
                opt_view(replies.resolver_custom),
            ) {
                Err(e) => Err(e),
                Ok(resolver) => match spec_config_cert_pair(
                    ov,
                    env,
                    opt_view(args.cert_path),
                    opt_view(args.key_path),
                    Some(pair_domain(ov, env, proxy_domain)),
                    None,
                    chain_value(opt_view(args.cert_dir), ov, env, "CERT_DIR"@),
                    opt_view(args.cert_dir_name),
                    seq!["NGINX_CERT_DIR_NAME"@, "CERT_DIR_NAME"@],
                    opt_view(replies.cert_dir_name),
                ) {
                    Err(e) => Err(e),
                    Ok(pair) => match spec_resolve_path(
                        opt_view(args.output_dir),
                        ov,
                        env,
                        "PROXY_OUTPUT_DIR"@,
                        "/etc/nginx/conf.d/proxy"@,
                        opt_view(replies.output_dir),
                    ) {
                        Err(e) => Err(e),
                        Ok(output_dir) => {
                            let output_path = path_join_seq(
                                output_dir,
                                dot_dash(proxy_domain) + ".conf"@,
                            );
                            let content = nginx_proxy_text(
                                proxy_domain,
                                backend_url,
                                pair.0,
                                pair.1,
                                resolver,
                            );
                            if dry_run {
                                Ok(
                                    seq![
                                        ActionV::Note {
                                            message: "[dry-run] Would write proxy config to: "@
                                                + output_path,
                                        },
                                    ],
                                )
                            } else {
                                Ok(
                                    seq![
                                        ActionV::CreateDirAll { path: output_dir },
                                        ActionV::WriteFile {
                                            path: output_path,
                                            content,
                                            err_prefix: "Failed to write "@ + output_path,
                                        },
                                        ActionV::Done {
                                            message: "reverse proxy config written"@,
                                        },
                                    ],
                                )
                            }
                        },
                    },
                },
            },
        },
    }
}

/// Plan the proxy-config write.
pub fn write_proxy_config(
    overrides: &EnvMap,
    env: &EnvMap,
    args: WriteProxyArgs,
    dry_run: bool,
    replies: WriteProxyReplies,
) -> (r: Result<Vec<Action>, String>)
    ensures
        plan_res_view(r) == spec_write_proxy_config(overrides@, env@, args, dry_run, replies),
{
    let proxy_domain = match crate::resolve::resolve_value(
        args.proxy_domain,
        overrides,
        env,
        "PROXY_DOMAIN",
        false,
        replies.proxy_domain,
    ) {
        Ok(v) => v,
        Err(e) => {
            return Err(e);
        },
    };
    let backend_url = match crate::resolve::resolve_value(
        args.backend_url,
        overrides,
        env,
        "BACKEND_URL",
        false,
        replies.backend_url,
    ) {
        Ok(v) => v,
        Err(e) => {
            return Err(e);
        },
    };
    let resolver = match crate::resolve::resolve_resolvers(
        &args.resolvers,
        overrides,
        env,
        "RESOLVER",
        DEFAULT_RESOLVER,
        &replies.resolver_menu,
        replies.resolver_custom,
    ) {
        Ok(v) => v,
        Err(e) => {
            return Err(e);
        },
    };
    let cert_dir0 = crate::resolve::resolve_optional_path(args.cert_dir, overrides, env, "CERT_DIR");
    let pair_dom = match crate::resolve::value_from_sources(&None, overrides, env, "DOMAIN") {
        Some(d) => d,
        None => proxy_domain.clone(),
    };
    proof {
        assert(crate::resolve::strs_views(["NGINX_CERT_DIR_NAME", "CERT_DIR_NAME"]@) =~~= seq![
            "NGINX_CERT_DIR_NAME"@,
            "CERT_DIR_NAME"@,
        ]);
    }
    let pair = match config_cert_pair(
        overrides,
        env,
        args.cert_path,
        args.key_path,
        Some(pair_dom),
        None,
        cert_dir0,
        args.cert_dir_name,
        &["NGINX_CERT_DIR_NAME", "CERT_DIR_NAME"],
        replies.cert_dir_name,
    ) {
        Ok(p) => p,
        Err(e) => {
            return Err(e);
        },
    };
    let output_dir = match crate::resolve::resolve_path(
        args.output_dir,
        overrides,
        env,
        "PROXY_OUTPUT_DIR",
        "/etc/nginx/conf.d/proxy",
        replies.output_dir,
    ) {
        Ok(v) => v,
        Err(e) => {
            return Err(e);
        },
    };
    let output_path = path_join(
        output_dir.as_str(),
        str_dot_dash(proxy_domain.as_str()).concat(".conf").as_str(),
    );
    let content = render_nginx_proxy(
        proxy_domain.as_str(),
        backend_url.as_str(),
        pair.0.as_str(),
        pair.1.as_str(),
        resolver.as_str(),
    );
    let mut v: Vec<Action> = Vec::new();
    if dry_run {
        v.push(
            Action::Note {
                message: "[dry-run] Would write proxy config to: ".to_owned().concat(
                    output_path.as_str(),
                ),
            },
        );
    } else {
        v.push(Action::CreateDirAll { path: output_dir.clone() });
        v.push(
            Action::WriteFile {
                path: output_path.clone(),
                content,
                err_prefix: "Failed to write ".to_owned().concat(output_path.as_str()),
            },
        );
        v.push(Action::Done { message: "reverse proxy config written".to_owned() });
    }
    proof {
        let s = spec_write_proxy_config(overrides@, env@, args, dry_run, replies);
        assert(action_views(v@) =~~= s->Ok_0);
    }
    Ok(v)
}

} // verus!
