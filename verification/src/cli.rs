//! The command-line surface as data: the parsed invocation, each flag a
//! plain optional value. A front end fills these from whatever argument
//! parser it uses; every path travels as a string.

use vstd::prelude::*;

verus! {

/// A parsed invocation: the repeatable `KEY=VALUE` overrides and the chosen
/// command.
pub struct Cli {
    pub env_overrides: Vec<(String, String)>,
    pub command: Commands,
}

/// The flags of the certificate-issuance command.
pub struct IssueCertArgs {
    pub cf_token: Option<String>,
    pub cf_account_id: Option<String>,
    pub cf_zone_id: Option<String>,
    pub domain: Option<String>,
    pub wildcard_domain: Option<String>,
    pub acme_bin: Option<String>,
    pub acme_home: Option<String>,
    pub cert_dir: Option<String>,
    pub cert_dir_name: Option<String>,
    pub cert_input_path: Option<String>,
    pub key_input_path: Option<String>,
    pub cert_output_path: Option<String>,
    pub key_output_path: Option<String>,
    pub nginx_bin: Option<String>,
}

/// The flags of the proxy-config command.
pub struct WriteProxyArgs {
    pub proxy_domain: Option<String>,
    pub backend_url: Option<String>,
    pub cert_path: Option<String>,
    pub key_path: Option<String>,
    pub cert_dir_name: Option<String>,
    pub cert_dir: Option<String>,
    pub output_dir: Option<String>,
    pub resolvers: Vec<String>,
}

/// The commands the tool offers.
pub enum Commands {
    Setup { install_zsh: bool, install_cron: bool, install_nginx: bool, dry_run: bool },
    IssueCert {
        cf_token: Option<String>,
        cf_account_id: Option<String>,
        cf_zone_id: Option<String>,
        domain: Option<String>,
        wildcard_domain: Option<String>,
        acme_bin: Option<String>,
        acme_home: Option<String>,
        cert_dir: Option<String>,
        cert_dir_name: Option<String>,
        cert_input_path: Option<String>,
        key_input_path: Option<String>,
        cert_output_path: Option<String>,
        key_output_path: Option<String>,
        nginx_bin: Option<String>,
        reload_nginx: bool,
        dry_run: bool,
    },
    WriteNginxDefault {
        cert_path: Option<String>,
        key_path: Option<String>,
        cert_dir_name: Option<String>,
        domain: Option<String>,
        output_path: Option<String>,
        dry_run: bool,
    },
    WriteProxyConfig {
        proxy_domain: Option<String>,
        backend_url: Option<String>,
        cert_path: Option<String>,
        key_path: Option<String>,
        cert_dir_name: Option<String>,
        cert_dir: Option<String>,
        output_dir: Option<String>,
        resolver: Vec<String>,
        dry_run: bool,
    },
    PrintParams,
}

} // verus!
