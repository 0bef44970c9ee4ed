//! The provisioning orchestrator: an ordered sequence of idempotent
//! installation steps, each guarded by an existence probe, optionally gated
//! by a confirmation, dispatched per OS family, and accumulated into a plan
//! and a change log. Probes and prompt outcomes are inputs; the plan is the
//! output.

use vstd::prelude::*;

use crate::osinfo::{spec_ensure_root, spec_read_os_codename, spec_read_os_id, major_minor};
use crate::plan::{
    action_views, clone_strings, run_cmd, spec_run_cmd, strs_to_strings, Action, ActionV,
};
use crate::prompt::{spec_confirm, TimedReply};
use crate::strutil::{contains_sub, str_contains, str_trim, trim_seq, views_of};

verus! {

/// The read-only probes an OS-specific installation needs: each is the text
/// that was read, or the I/O error it failed with. The codename fallback
/// probe carries the utility's exit success and its output.
pub struct OsProbes {
    pub os_release: Result<String, String>,
    pub lsb_codename: Result<(bool, String), String>,
    pub alpine_release: Result<String, String>,
    pub apk_repositories: Result<String, String>,
}

/// The view of a plan-or-error result.
pub open spec fn plan_res_view(r: Result<Vec<Action>, String>) -> Result<Seq<ActionV>, Seq<char>> {
    match r {
        Ok(v) => Ok(action_views(v@)),
        Err(e) => Err(e@),
    }
}

/// One guarded install step: an existing capability is only noted; a missing
/// one is announced, installed, and recorded in the change log.
pub open spec fn spec_install_if_missing(
    name: Seq<char>,
    exists: bool,
    dry_run: bool,
    installer: Seq<ActionV>,
) -> (Seq<ActionV>, Seq<Seq<char>>) {
    if exists {
        (seq![ActionV::Note { message: name + " is already installed"@ }], seq![])
    } else {
        (
            seq![ActionV::Note { message: "Installing "@ + name }] + installer,
            seq![
                if dry_run {
                    "Would install "@ + name
                } else {
                    "Installed "@ + name
                },
            ],
        )
    }
}

/// Plan one guarded install step; appends its change-log entry, if any.
pub fn install_if_missing(
    command_name: &str,
    exists: bool,
    changes: &mut Vec<String>,
    dry_run: bool,
    installer: Vec<Action>,
) -> (acts: Vec<Action>)
    ensures
        ({
            let (sa, sc) = spec_install_if_missing(
                command_name@,
                exists,
                dry_run,
                action_views(installer@),
            );
            action_views(acts@) == sa && views_of(final(changes)@) == views_of(old(changes)@) + sc
        }),
{
    let mut acts: Vec<Action> = Vec::new();
    if exists {
        acts.push(
            Action::Note { message: command_name.to_owned().concat(" is already installed") },
        );
        proof {
            let (sa, sc) = spec_install_if_missing(
                command_name@,
                exists,
                dry_run,
                action_views(installer@),
            );
            assert(action_views(acts@) =~~= sa);
            assert(views_of(changes@) =~~= views_of(changes@) + sc);
        }
        return acts;
    }
    acts.push(Action::Note { message: "Installing ".to_owned().concat(command_name) });
    let mut installer = installer;
    let ghost installer_views = action_views(installer@);
    acts.append(&mut installer);
    let entry = if dry_run {
        "Would install ".to_owned().concat(command_name)
    } else {
        "Installed ".to_owned().concat(command_name)
    };
    let ghost old_changes = changes@;
    changes.push(entry);
    proof {
        let (sa, sc) = spec_install_if_missing(command_name@, exists, dry_run, installer_views);
        assert(action_views(acts@) =~~= sa);
        assert(views_of(changes@) =~~= views_of(old_changes) + sc);
    }
    acts
}

/// The command sequence that installs the shell.
pub open spec fn spec_zsh_installer(dry_run: bool) -> Seq<ActionV> {
    seq![
        spec_run_cmd("apt-get"@, seq!["update"@, "-qq"@], dry_run),
        spec_run_cmd("apt-get"@, seq!["install"@, "-y"@, "zsh"@], dry_run),
    ]
}

fn build_zsh_installer(dry_run: bool) -> (v: Vec<Action>)
    ensures
        action_views(v@) == spec_zsh_installer(dry_run),
{
    let mut v: Vec<Action> = Vec::new();
    let args1 = strs_to_strings(&["update", "-qq"]);
    let args2 = strs_to_strings(&["install", "-y", "zsh"]);
    proof {
        assert(views_of(args1@) =~~= seq!["update"@, "-qq"@]);
        assert(views_of(args2@) =~~= seq!["install"@, "-y"@, "zsh"@]);
    }
    v.push(run_cmd("apt-get", &args1, dry_run));
    v.push(run_cmd("apt-get", &args2, dry_run));
    proof {
        assert(action_views(v@) =~~= spec_zsh_installer(dry_run));
    }
    v
}

/// The command sequence that installs and enables the scheduler.
pub open spec fn spec_cron_installer(dry_run: bool) -> Seq<ActionV> {
    seq![
        spec_run_cmd("apt-get"@, seq!["update"@, "-qq"@], dry_run),
        spec_run_cmd("apt-get"@, seq!["install"@, "-y"@, "cron"@], dry_run),
        spec_run_cmd("systemctl"@, seq!["enable"@, "cron"@], dry_run),
        spec_run_cmd("systemctl"@, seq!["start"@, "cron"@], dry_run),
    ]
}

fn build_cron_installer(dry_run: bool) -> (v: Vec<Action>)
    ensures
        action_views(v@) == spec_cron_installer(dry_run),
{
    let mut v: Vec<Action> = Vec::new();
    let args1 = strs_to_strings(&["update", "-qq"]);
    let args2 = strs_to_strings(&["install", "-y", "cron"]);
    let args3 = strs_to_strings(&["enable", "cron"]);
    let args4 = strs_to_strings(&["start", "cron"]);
    proof {
        assert(views_of(args1@) =~~= seq!["update"@, "-qq"@]);
        assert(views_of(args2@) =~~= seq!["install"@, "-y"@, "cron"@]);
        assert(views_of(args3@) =~~= seq!["enable"@, "cron"@]);
        assert(views_of(args4@) =~~= seq!["start"@, "cron"@]);
    }
    v.push(run_cmd("apt-get", &args1, dry_run));
    v.push(run_cmd("apt-get", &args2, dry_run));
    v.push(run_cmd("systemctl", &args3, dry_run));
    v.push(run_cmd("systemctl", &args4, dry_run));
    proof {
        assert(action_views(v@) =~~= spec_cron_installer(dry_run));
    }
    v
}

/// The pin-priority stanza that keeps the vendor packages preferred.
pub open spec fn apt_pin_text() -> Seq<char> {
    "Package: *\nPin: origin nginx.org\nPin: release o=nginx\nPin-Priority: 900\n"@
}

/// The Debian-family web-server installation: prerequisites, the vendor
/// signing key, a source list entry and a pin file for the given OS identity
/// and its codename, then the package itself.
pub open spec fn spec_install_nginx_debian_like(
    os_id: Seq<char>,
    dry_run: bool,
    os_release: Result<String, String>,
    lsb: Result<(bool, String), String>,
) -> Result<Seq<ActionV>, Seq<char>> {
    let keyring = if os_id == "ubuntu"@ {
        "ubuntu-keyring"@
    } else {
        "debian-archive-keyring"@
    };
    match spec_read_os_codename(os_release, lsb) {
        Err(e) => Err(e),
        Ok(codename) => {
            let repo_line =
                "deb [signed-by=/usr/share/keyrings/nginx-archive-keyring.gpg] https://nginx.org/packages/mainline/"@
                + os_id + " "@ + codename + " nginx\n"@;
            let write_part = if dry_run {
                seq![
                    ActionV::Note {
                        message: "[dry-run] Would write /etc/apt/sources.list.d/nginx.list"@,
                    },
                    ActionV::Note {
                        message: "[dry-run] Would write /etc/apt/preferences.d/99nginx"@,
                    },
                ]
            } else {
                seq![
                    ActionV::WriteFile {
                        path: "/etc/apt/sources.list.d/nginx.list"@,
                        content: repo_line,
                        err_prefix: "Failed to write nginx.list"@,
                    },
                    ActionV::WriteFile {
                        path: "/etc/apt/preferences.d/99nginx"@,
                        content: apt_pin_text(),
                        err_prefix: "Failed to write 99nginx"@,
                    },
                ]
            };
            Ok(
                seq![
                    spec_run_cmd(
                        "apt"@,
                        seq![
                            "install"@,
                            "-y"@,
                            "curl"@,
                            "gnupg2"@,
                            "ca-certificates"@,
                            "lsb-release"@,
                            keyring,
                        ],
                        dry_run,
                    ),
                    spec_run_cmd(
                        "curl"@,
                        seq![
                            "-o"@,
                            "/tmp/nginx_signing.key"@,
                            "https://nginx.org/keys/nginx_signing.key"@,
                        ],
                        dry_run,
                    ),
                    spec_run_cmd(
                        "gpg"@,
                        seq![
                            "--dearmor"@,
                            "-o"@,
                            "/usr/share/keyrings/nginx-archive-keyring.gpg"@,
                            "/tmp/nginx_signing.key"@,
                        ],
                        dry_run,
                    ),
                ] + write_part + seq![
                    spec_run_cmd("apt"@, seq!["update"@], dry_run),
                    spec_run_cmd("apt"@, seq!["install"@, "-y"@, "nginx"@], dry_run),
                ],
            )
        },
    }
}

/// Plan the Debian-family web-server installation.
pub fn install_nginx_debian_like(os_id: &str, dry_run: bool, probes: &OsProbes) -> (r: Result<
    Vec<Action>,
    String,
>)
    ensures
        plan_res_view(r) == spec_install_nginx_debian_like(
            os_id@,
            dry_run,
            probes.os_release,
            probes.lsb_codename,
        ),
{
    let codename = match crate::osinfo::read_os_codename(&probes.os_release, &probes.lsb_codename) {
        Ok(c) => c,
        Err(e) => {
            return Err(e);
        },
    };
    let keyring = if crate::strutil::str_eq(os_id, "ubuntu") {
        "ubuntu-keyring"
    } else {
        "debian-archive-keyring"
    };
    let mut v: Vec<Action> = Vec::new();
    let args1 = strs_to_strings(
        &["install", "-y", "curl", "gnupg2", "ca-certificates", "lsb-release", keyring],
    );
    let args2 = strs_to_strings(
        &["-o", "/tmp/nginx_signing.key", "https://nginx.org/keys/nginx_signing.key"],
    );
    let args3 = strs_to_strings(
        &[
            "--dearmor",
            "-o",
            "/usr/share/keyrings/nginx-archive-keyring.gpg",
            "/tmp/nginx_signing.key",
        ],
    );
    proof {
        assert(views_of(args1@) =~~= seq![
            "install"@,
            "-y"@,
            "curl"@,
            "gnupg2"@,
            "ca-certificates"@,
            "lsb-release"@,
            keyring@,
        ]);
        assert(views_of(args2@) =~~= seq![
            "-o"@,
            "/tmp/nginx_signing.key"@,
            "https://nginx.org/keys/nginx_signing.key"@,
        ]);
        assert(views_of(args3@) =~~= seq![
            "--dearmor"@,
            "-o"@,
            "/usr/share/keyrings/nginx-archive-keyring.gpg"@,
            "/tmp/nginx_signing.key"@,
        ]);
    }
    v.push(run_cmd("apt", &args1, dry_run));
    v.push(run_cmd("curl", &args2, dry_run));
    v.push(run_cmd("gpg", &args3, dry_run));
    let repo_line =
        "deb [signed-by=/usr/share/keyrings/nginx-archive-keyring.gpg] https://nginx.org/packages/mainline/".to_owned().concat(
            os_id,
        ).concat(" ").concat(codename.as_str()).concat(" nginx\n");
    if dry_run {
        v.push(
            Action::Note {
                message: "[dry-run] Would write /etc/apt/sources.list.d/nginx.list".to_owned(),
            },
        );
        v.push(
            Action::Note {
                message: "[dry-run] Would write /etc/apt/preferences.d/99nginx".to_owned(),
            },
        );
    } else {
        v.push(
            Action::WriteFile {
                path: "/etc/apt/sources.list.d/nginx.list".to_owned(),
                content: repo_line,
                err_prefix: "Failed to write nginx.list".to_owned(),
            },
        );
        v.push(
            Action::WriteFile {
                path: "/etc/apt/preferences.d/99nginx".to_owned(),
                content: "Package: *\nPin: origin nginx.org\nPin: release o=nginx\nPin-Priority: 900\n".to_owned(),
                err_prefix: "Failed to write 99nginx".to_owned(),
            },
        );
    }
    let args4 = strs_to_strings(&["update"]);
    let args5 = strs_to_strings(&["install", "-y", "nginx"]);
    proof {
        assert(views_of(args4@) =~~= seq!["update"@]);
        assert(views_of(args5@) =~~= seq!["install"@, "-y"@, "nginx"@]);
    }
    v.push(run_cmd("apt", &args4, dry_run));
    v.push(run_cmd("apt", &args5, dry_run));
    proof {
        let spec_r = spec_install_nginx_debian_like(
            os_id@,
            dry_run,
            probes.os_release,
            probes.lsb_codename,
        );
        assert(action_views(v@) =~~= spec_r->Ok_0);
    }
    Ok(v)
}

/// The Alpine web-server installation: prerequisites, a versioned vendor
/// repository line appended once, the vendor signing key, then the
/// distro-qualified package.
pub open spec fn spec_install_nginx_alpine(
    dry_run: bool,
    alpine_release: Result<String, String>,
    apk_repositories: Result<String, String>,
) -> Result<Seq<ActionV>, Seq<char>> {
    match alpine_release {
        Err(e) => Err("Failed to read /etc/alpine-release: "@ + e@),
        Ok(rel) => {
            let version = major_minor(trim_seq(rel@));
            let repo_line = "@nginx https://nginx.org/packages/mainline/alpine/v"@ + version
                + "/main\n"@;
            let repo_part: Result<Seq<ActionV>, Seq<char>> = if dry_run {
                Ok(
                    seq![
                        ActionV::Note {
                            message: "[dry-run] Would append nginx repo to /etc/apk/repositories"@,
                        },
                    ],
                )
            } else {
                match apk_repositories {
                    Err(e) => Err("Failed to read /etc/apk/repositories: "@ + e@),
                    Ok(repos) => if contains_sub(repos@, repo_line) {
                        Ok(seq![])
                    } else {
                        let content = if repos@.len() > 0 && repos@.last() == '\n' {
                            repos@ + repo_line
                        } else {
                            repos@ + "\n"@ + repo_line
                        };
                        Ok(
                            seq![
                                ActionV::WriteFile {
                                    path: "/etc/apk/repositories"@,
                                    content,
                                    err_prefix: "Failed to write /etc/apk/repositories"@,
                                },
                            ],
                        )
                    },
                }
            };
            match repo_part {
                Err(e) => Err(e),
                Ok(rp) => Ok(
                    seq![
                        spec_run_cmd(
                            "apk"@,
                            seq!["add"@, "openssl"@, "curl"@, "ca-certificates"@],
                            dry_run,
                        ),
                    ] + rp + seq![
                        spec_run_cmd(
                            "curl"@,
                            seq![
                                "-o"@,
                                "/tmp/nginx_signing.rsa.pub"@,
                                "https://nginx.org/keys/nginx_signing.rsa.pub"@,
                            ],
                            dry_run,
                        ),
                    ] + (if dry_run {
                        seq![
                            ActionV::Note {
                                message: "[dry-run] Would move nginx signing key to /etc/apk/keys/"@,
                            },
                        ]
                    } else {
                        seq![
                            ActionV::MoveFile {
                                from: "/tmp/nginx_signing.rsa.pub"@,
                                to: "/etc/apk/keys/nginx_signing.rsa.pub"@,
                                err_prefix: "Failed to move nginx signing key"@,
                            },
                        ]
                    }) + seq![spec_run_cmd("apk"@, seq!["add"@, "nginx@nginx"@], dry_run)],
                ),
            }
        },
    }
}

/// Plan the Alpine web-server installation.
pub fn install_nginx_alpine(dry_run: bool, probes: &OsProbes) -> (r: Result<Vec<Action>, String>)
    ensures
        plan_res_view(r) == spec_install_nginx_alpine(
            dry_run,
            probes.alpine_release,
            probes.apk_repositories,
        ),
{
    let rel = match &probes.alpine_release {
        Ok(rel) => rel,
        Err(e) => {
            return Err("Failed to read /etc/alpine-release: ".to_owned().concat(e.as_str()));
        },
    };
    let version = crate::osinfo::release_major_minor(str_trim(rel.as_str()));
    let repo_line = "@nginx https://nginx.org/packages/mainline/alpine/v".to_owned().concat(
        version.as_str(),
    ).concat("/main\n");
    let mut v: Vec<Action> = Vec::new();
    let args1 = strs_to_strings(&["add", "openssl", "curl", "ca-certificates"]);
    proof {
        assert(views_of(args1@) =~~= seq!["add"@, "openssl"@, "curl"@, "ca-certificates"@]);
    }
    v.push(run_cmd("apk", &args1, dry_run));
    if dry_run {
        v.push(
            Action::Note {
                message: "[dry-run] Would append nginx repo to /etc/apk/repositories".to_owned(),
            },
        );
    } else {
        let repos = match &probes.apk_repositories {
            Ok(repos) => repos,
            Err(e) => {
                return Err("Failed to read /etc/apk/repositories: ".to_owned().concat(e.as_str()));
            },
        };
        if !str_contains(repos.as_str(), repo_line.as_str()) {
            let len = repos.as_str().unicode_len();
            let content = if len > 0 && repos.as_str().get_char(len - 1) == '\n' {
                repos.clone().concat(repo_line.as_str())
            } else {
                repos.clone().concat("\n").concat(repo_line.as_str())
            };
            v.push(
                Action::WriteFile {
                    path: "/etc/apk/repositories".to_owned(),
                    content,
                    err_prefix: "Failed to write /etc/apk/repositories".to_owned(),
                },
            );
        }
    }
    let args2 = strs_to_strings(
        &["-o", "/tmp/nginx_signing.rsa.pub", "https://nginx.org/keys/nginx_signing.rsa.pub"],
    );
    proof {
        assert(views_of(args2@) =~~= seq![
            "-o"@,
            "/tmp/nginx_signing.rsa.pub"@,
            "https://nginx.org/keys/nginx_signing.rsa.pub"@,
        ]);
    }
    v.push(run_cmd("curl", &args2, dry_run));
    if dry_run {
        v.push(
            Action::Note {
                message: "[dry-run] Would move nginx signing key to /etc/apk/keys/".to_owned(),
            },
        );
    } else {
        v.push(
            Action::MoveFile {
                from: "/tmp/nginx_signing.rsa.pub".to_owned(),
                to: "/etc/apk/keys/nginx_signing.rsa.pub".to_owned(),
                err_prefix: "Failed to move nginx signing key".to_owned(),
            },
        );
    }
    let args3 = strs_to_strings(&["add", "nginx@nginx"]);
    proof {
        assert(views_of(args3@) =~~= seq!["add"@, "nginx@nginx"@]);
    }
    v.push(run_cmd("apk", &args3, dry_run));
    proof {
        let spec_r = spec_install_nginx_alpine(
            dry_run,
            probes.alpine_release,
            probes.apk_repositories,
        );
        assert(action_views(v@) =~~= spec_r->Ok_0);
    }
    Ok(v)
}

/// The OS dispatch for the web-server installation: an unsupported identity
/// is fatal for the whole run.
pub open spec fn spec_install_nginx_official(dry_run: bool, probes: OsProbes) -> Result<
    Seq<ActionV>,
    Seq<char>,
> {
    match spec_read_os_id(probes.os_release) {
        Err(e) => Err(e),
        Ok(id) => if id == "debian"@ {
            spec_install_nginx_debian_like("debian"@, dry_run, probes.os_release, probes.lsb_codename)
        } else if id == "ubuntu"@ {
            spec_install_nginx_debian_like("ubuntu"@, dry_run, probes.os_release, probes.lsb_codename)
        } else if id == "alpine"@ {
            spec_install_nginx_alpine(dry_run, probes.alpine_release, probes.apk_repositories)
        } else {
            Err("Unsupported OS for nginx install: "@ + id)
        },
    }
}

/// Plan the web-server installation for the detected OS.
pub fn install_nginx_official(dry_run: bool, probes: &OsProbes) -> (r: Result<Vec<Action>, String>)
    ensures
        plan_res_view(r) == spec_install_nginx_official(dry_run, *probes),
{
    let os_id = match crate::osinfo::read_os_id(&probes.os_release) {
        Ok(id) => id,
        Err(e) => {
            return Err(e);
        },
    };
    if crate::strutil::str_eq(os_id.as_str(), "debian") {
        install_nginx_debian_like("debian", dry_run, probes)
    } else if crate::strutil::str_eq(os_id.as_str(), "ubuntu") {
        install_nginx_debian_like("ubuntu", dry_run, probes)
    } else if crate::strutil::str_eq(os_id.as_str(), "alpine") {
        install_nginx_alpine(dry_run, probes)
    } else {
        Err("Unsupported OS for nginx install: ".to_owned().concat(os_id.as_str()))
    }
}

/// A command's worth of planned work: the actions in order, and the change
/// log consumed once at summary time.
pub struct SetupPlan {
    pub actions: Vec<Action>,
    pub changes: Vec<String>,
}

/// The shell step: probed, confirmation-gated, and skipped on a declined or
/// timed-out confirmation; in a dry run the prompt itself is only noted.
pub open spec fn spec_setup_zsh(
    install_zsh: bool,
    zsh_exists: bool,
    dry_run: bool,
    confirm: TimedReply,
) -> Result<(Seq<ActionV>, Seq<Seq<char>>), Seq<char>> {
    if !install_zsh {
        Ok((seq![], seq![]))
    } else if zsh_exists {
        Ok((seq![ActionV::Note { message: "zsh is already installed"@ }], seq![]))
    } else if dry_run {
        Ok(
            (
                seq![
                    ActionV::Note { message: "[dry-run] Would prompt: Install zsh?"@ },
                    ActionV::Note { message: "zsh install skipped"@ },
                ],
                seq![],
            ),
        )
    } else {
        match spec_confirm(confirm) {
            Err(e) => Err(e),
            Ok(yes) => if yes {
                Ok(spec_install_if_missing("zsh"@, false, dry_run, spec_zsh_installer(dry_run)))
            } else {
                Ok((seq![ActionV::Note { message: "zsh install skipped"@ }], seq![]))
            },
        }
    }
}

/// The scheduler step: mandatory, no confirmation.
pub open spec fn spec_setup_cron(install_cron: bool, crontab_exists: bool, dry_run: bool) -> (
    Seq<ActionV>,
    Seq<Seq<char>>,
) {
    if !install_cron {
        (seq![], seq![])
    } else {
        spec_install_if_missing("crontab"@, crontab_exists, dry_run, spec_cron_installer(dry_run))
    }
}

/// The web-server step: mandatory, dispatched per OS when missing.
pub open spec fn spec_setup_nginx(
    install_nginx: bool,
    nginx_exists: bool,
    dry_run: bool,
    probes: OsProbes,
) -> Result<(Seq<ActionV>, Seq<Seq<char>>), Seq<char>> {
    if !install_nginx {
        Ok((seq![], seq![]))
    } else if nginx_exists {
        Ok(spec_install_if_missing("nginx"@, true, dry_run, seq![]))
    } else {
        match spec_install_nginx_official(dry_run, probes) {
            Err(e) => Err(e),
            Ok(inst) => Ok(spec_install_if_missing("nginx"@, false, dry_run, inst)),
        }
    }
}

/// The whole setup run: gated once on elevated privilege, then the shell,
/// scheduler and web-server steps in order, with their change log.
pub open spec fn spec_setup_system(
    install_zsh: bool,
    install_cron: bool,
    install_nginx: bool,
    dry_run: bool,
    uid: Result<String, String>,
    zsh_exists: bool,
    zsh_confirm: TimedReply,
    crontab_exists: bool,
    nginx_exists: bool,
    probes: OsProbes,
) -> Result<(Seq<ActionV>, Seq<Seq<char>>), Seq<char>> {
    match spec_ensure_root(uid) {
        Err(e) => Err(e),
        Ok(u) => match spec_setup_zsh(install_zsh, zsh_exists, dry_run, zsh_confirm) {
            Err(e) => Err(e),
            Ok((za, zc)) => {
                let (ca, cc) = spec_setup_cron(install_cron, crontab_exists, dry_run);
                match spec_setup_nginx(install_nginx, nginx_exists, dry_run, probes) {
                    Err(e) => Err(e),
                    Ok((na, nc)) => Ok((za + ca + na, zc + cc + nc)),
                }
            },
        },
    }
}

/// Whether the setup run owes the operator a shell confirmation prompt, so
/// that the front end asks before the plan is built.
pub fn setup_needs_zsh_confirm(install_zsh: bool, zsh_exists: bool, dry_run: bool) -> (r: bool)
    ensures
        r == (install_zsh && !zsh_exists && !dry_run),
{
    install_zsh && !zsh_exists && !dry_run
}

/// Plan a whole setup run from its probes and prompt outcome.
pub fn setup_system(
    install_zsh: bool,
    install_cron: bool,
    install_nginx: bool,
    dry_run: bool,
    uid: &Result<String, String>,
    zsh_exists: bool,
    zsh_confirm: &TimedReply,
    crontab_exists: bool,
    nginx_exists: bool,
    probes: &OsProbes,
) -> (r: Result<SetupPlan, String>)
    ensures
        ({
            let s = spec_setup_system(
                install_zsh,
                install_cron,
                install_nginx,
                dry_run,
                *uid,
                zsh_exists,
                *zsh_confirm,
                crontab_exists,
                nginx_exists,
                *probes,
            );
            match r {
                Ok(p) => s matches Ok(pair) && action_views(p.actions@) == pair.0 && views_of(
                    p.changes@,
                ) == pair.1,
                Err(e) => s matches Err(m) && e@ == m,
            }
        }),
{
    if let Err(e) = crate::osinfo::ensure_root(uid) {
        return Err(e);
    }
    let mut actions: Vec<Action> = Vec::new();
    let mut changes: Vec<String> = Vec::new();
    let ghost zsh_part = spec_setup_zsh(install_zsh, zsh_exists, dry_run, *zsh_confirm);
    if install_zsh {
        if zsh_exists {
            actions.push(Action::Note { message: "zsh is already installed".to_owned() });
        } else if dry_run {
            actions.push(
                Action::Note { message: "[dry-run] Would prompt: Install zsh?".to_owned() },
            );
            actions.push(Action::Note { message: "zsh install skipped".to_owned() });
        } else {
            match crate::prompt::confirm_answer(zsh_confirm) {
                Err(e) => {
                    return Err(e);
                },
                Ok(true) => {
                    let mut a = install_if_missing(
                        "zsh",
                        false,
                        &mut changes,
                        dry_run,
                        build_zsh_installer(dry_run),
                    );
                    actions.append(&mut a);
                },
                Ok(false) => {
                    actions.push(Action::Note { message: "zsh install skipped".to_owned() });
                },
            }
        }
    }
    proof {
        assert(zsh_part matches Ok(pair) && action_views(actions@) =~~= pair.0 && views_of(
            changes@,
        ) =~~= pair.1);
    }
    let ghost za = action_views(actions@);
    let ghost zc = views_of(changes@);
    let ghost cron_part = spec_setup_cron(install_cron, crontab_exists, dry_run);
    if install_cron {
        let mut a = install_if_missing(
            "crontab",
            crontab_exists,
            &mut changes,
            dry_run,
            build_cron_installer(dry_run),
        );
        actions.append(&mut a);
    }
    proof {
        assert(action_views(actions@) =~~= za + cron_part.0);
        assert(views_of(changes@) =~~= zc + cron_part.1);
    }
    let ghost zca = action_views(actions@);
    let ghost zcc = views_of(changes@);
    let ghost nginx_part = spec_setup_nginx(install_nginx, nginx_exists, dry_run, *probes);
    if install_nginx {
        if nginx_exists {
            let mut a = install_if_missing("nginx", true, &mut changes, dry_run, Vec::new());
            proof {
                assert(action_views(Seq::<Action>::empty()) =~~= Seq::<ActionV>::empty());
            }
            actions.append(&mut a);
        } else {
            let inst = match install_nginx_official(dry_run, probes) {
                Ok(inst) => inst,
                Err(e) => {
                    return Err(e);
                },
            };
            let mut a = install_if_missing("nginx", false, &mut changes, dry_run, inst);
            actions.append(&mut a);
        }
    }
    proof {
        assert(nginx_part matches Ok(pair) && action_views(actions@) =~~= zca + pair.0 && views_of(
            changes@,
        ) =~~= zcc + pair.1);
    }
    Ok(SetupPlan { actions, changes })
}

/// The summary lines: the change log — or the explicit no-changes notice —
/// then the elapsed wall-clock time as minutes and seconds.
pub open spec fn spec_print_summary(changes: Seq<Seq<char>>, elapsed_secs: nat) -> Seq<Seq<char>> {
    (if changes.len() == 0 {
        seq!["No changes were made"@]
    } else {
        changes
    }) + seq![
        "Execution time: "@ + crate::strutil::dec_str(elapsed_secs / 60) + "m "@
            + crate::strutil::dec_str(elapsed_secs % 60) + "s"@,
    ]
}

/// The summary of a finished run.
pub fn print_summary(changes: &Vec<String>, elapsed_secs: u64) -> (lines: Vec<String>)
    ensures
        views_of(lines@) == spec_print_summary(views_of(changes@), elapsed_secs as nat),
{
    let mut lines: Vec<String> = if changes.len() == 0 {
        let mut l: Vec<String> = Vec::new();
        l.push("No changes were made".to_owned());
        l
    } else {
        clone_strings(changes)
    };
    let time_line = "Execution time: ".to_owned().concat(
        crate::strutil::u64_to_dec(elapsed_secs / 60).as_str(),
    ).concat("m ").concat(crate::strutil::u64_to_dec(elapsed_secs % 60).as_str()).concat("s");
    let ghost old_lines = lines@;
    lines.push(time_line);
    proof {
        assert(views_of(lines@) =~~= views_of(old_lines).push(
            "Execution time: "@ + crate::strutil::dec_str((elapsed_secs as nat) / 60) + "m "@
                + crate::strutil::dec_str((elapsed_secs as nat) % 60) + "s"@,
        ));
        assert(views_of(lines@) =~~= spec_print_summary(
            views_of(changes@),
            elapsed_secs as nat,
        ));
    }
    lines
}

} // verus!
