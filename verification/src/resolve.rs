//! The value resolver: every configuration parameter is resolved through one
//! ordered precedence chain — explicit value, override map, environment
//! snapshot, interactive reply — as a pure function of those four sources.
//!
//! The interactive tier is injected: the caller reads a line (or fails to)
//! and passes the outcome in, so resolution itself stays deterministic and
//! fully specified. `None` for a reply means the input stream could not be
//! read; a blank or missing value is never an error at this layer.

use vstd::prelude::*;

use crate::envmap::EnvMap;
use crate::strutil::{
    is_blank, path_join, path_join_seq, str_eq, str_is_blank, str_trim, trim_seq,
};

verus! {

/// The view of an optional string.
pub open spec fn opt_view(o: Option<String>) -> Option<Seq<char>> {
    match o {
        Some(s) => Some(s@),
        None => None,
    }
}

/// The view of a string-or-error result.
pub open spec fn res_view(r: Result<String, String>) -> Result<Seq<char>, Seq<char>> {
    match r {
        Ok(s) => Ok(s@),
        Err(e) => Err(e@),
    }
}

/// The error a resolver reports when the interactive tier cannot be read.
pub open spec fn read_fail_msg() -> Seq<char> {
    "Failed to read input"@
}

/// The non-interactive precedence chain: the explicit value if present,
/// else a non-blank override entry, else a non-blank environment entry.
pub open spec fn chain_value(
    explicit: Option<Seq<char>>,
    ov: Map<Seq<char>, Seq<char>>,
    env: Map<Seq<char>, Seq<char>>,
    key: Seq<char>,
) -> Option<Seq<char>> {
    match explicit {
        Some(v) => Some(v),
        None => if ov.contains_key(key) && !is_blank(ov[key]) {
            Some(ov[key])
        } else if env.contains_key(key) && !is_blank(env[key]) {
            Some(env[key])
        } else {
            None
        },
    }
}

/// What an interactive reply resolves to: secret input is taken verbatim,
/// plain input is trimmed; a missing reply is a read failure.
pub open spec fn spec_prompt_reply(reply: Option<Seq<char>>, sensitive: bool) -> Result<
    Seq<char>,
    Seq<char>,
> {
    match reply {
        Some(line) => Ok(
            if sensitive {
                line
            } else {
                trim_seq(line)
            },
        ),
        None => Err(read_fail_msg()),
    }
}

/// The required-scalar resolution: the chain, then the reply verbatim —
/// a blank reply is accepted as is.
pub open spec fn spec_resolve_value(
    explicit: Option<Seq<char>>,
    ov: Map<Seq<char>, Seq<char>>,
    env: Map<Seq<char>, Seq<char>>,
    key: Seq<char>,
    sensitive: bool,
    reply: Option<Seq<char>>,
) -> Result<Seq<char>, Seq<char>> {
    match chain_value(explicit, ov, env, key) {
        Some(v) => Ok(v),
        None => spec_prompt_reply(reply, sensitive),
    }
}

/// The non-interactive tiers of the chain, as a value.
pub fn value_from_sources(
    explicit: &Option<String>,
    overrides: &EnvMap,
    env: &EnvMap,
    key: &str,
) -> (r: Option<String>)
    ensures
        opt_view(r) == chain_value(opt_view(*explicit), overrides@, env@, key@),
{
    if let Some(v) = explicit {
        return Some(v.clone());
    }
    if let Some(v) = overrides.get(key) {
        if !str_is_blank(v.as_str()) {
            return Some(v.clone());
        }
    }
    if let Some(v) = env.get(key) {
        if !str_is_blank(v.as_str()) {
            return Some(v.clone());
        }
    }
    None
}

/// Resolve a required scalar. The reply is the line read for the prompt —
/// asked only when the chain yields nothing — or `None` when reading
/// failed. A blank reply is returned verbatim; emptiness policy belongs to
/// the caller.
pub fn resolve_value(
    cli_value: Option<String>,
    overrides: &EnvMap,
    env: &EnvMap,
    key: &str,
    sensitive: bool,
    reply: Option<String>,
) -> (r: Result<String, String>)
    ensures
        res_view(r) == spec_resolve_value(
            opt_view(cli_value),
            overrides@,
            env@,
            key@,
            sensitive,
            opt_view(reply),
        ),
{
    if let Some(v) = value_from_sources(&cli_value, overrides, env, key) {
        return Ok(v);
    }
    match reply {
        Some(line) => if sensitive {
            Ok(line)
        } else {
            Ok(str_trim(line.as_str()).to_owned())
        },
        None => Err("Failed to read input".to_owned()),
    }
}

/// The optional-scalar resolution: as the required one, but a blank reply
/// resolves to "no value".
pub open spec fn spec_resolve_optional_value(
    explicit: Option<Seq<char>>,
    ov: Map<Seq<char>, Seq<char>>,
    env: Map<Seq<char>, Seq<char>>,
    key: Seq<char>,
    sensitive: bool,
    reply: Option<Seq<char>>,
) -> Result<Option<Seq<char>>, Seq<char>> {
    match chain_value(explicit, ov, env, key) {
        Some(v) => Ok(Some(v)),
        None => match reply {
            Some(line) => if is_blank(line) {
                Ok(None)
            } else if sensitive {
                Ok(Some(line))
            } else {
                Ok(Some(trim_seq(line)))
            },
            None => Err(read_fail_msg()),
        },
    }
}

/// The view of an optional-string-or-error result.
pub open spec fn opt_res_view(r: Result<Option<String>, String>) -> Result<
    Option<Seq<char>>,
    Seq<char>,
> {
    match r {
        Ok(o) => Ok(opt_view(o)),
        Err(e) => Err(e@),
    }
}

/// Resolve an optional scalar: a blank reply means "explicitly no value",
/// distinguishing it from an unset parameter.
pub fn resolve_optional_value(
    cli_value: Option<String>,
    overrides: &EnvMap,
    env: &EnvMap,
    key: &str,
    sensitive: bool,
    reply: Option<String>,
) -> (r: Result<Option<String>, String>)
    ensures
        opt_res_view(r) == spec_resolve_optional_value(
            opt_view(cli_value),
            overrides@,
            env@,
            key@,
            sensitive,
            opt_view(reply),
        ),
{
    if let Some(v) = value_from_sources(&cli_value, overrides, env, key) {
        return Ok(Some(v));
    }
    match reply {
        Some(line) => if str_is_blank(line.as_str()) {
            Ok(None)
        } else if sensitive {
            Ok(Some(line))
        } else {
            Ok(Some(str_trim(line.as_str()).to_owned()))
        },
        None => Err("Failed to read input".to_owned()),
    }
}

/// The path resolution: the chain, then the reply, then the caller's
/// default path when the reply is blank.
pub open spec fn spec_resolve_path(
    explicit: Option<Seq<char>>,
    ov: Map<Seq<char>, Seq<char>>,
    env: Map<Seq<char>, Seq<char>>,
    key: Seq<char>,
    default: Seq<char>,
    reply: Option<Seq<char>>,
) -> Result<Seq<char>, Seq<char>> {
    match chain_value(explicit, ov, env, key) {
        Some(v) => Ok(v),
        None => match reply {
            Some(line) => if is_blank(line) {
                Ok(default)
            } else {
                Ok(trim_seq(line))
            },
            None => Err(read_fail_msg()),
        },
    }
}

/// Resolve a filesystem path: a blank reply falls back to the supplied
/// default path rather than an error.
pub fn resolve_path(
    cli_value: Option<String>,
    overrides: &EnvMap,
    env: &EnvMap,
    key: &str,
    default: &str,
    reply: Option<String>,
) -> (r: Result<String, String>)
    ensures
        res_view(r) == spec_resolve_path(
            opt_view(cli_value),
            overrides@,
            env@,
            key@,
            default@,
            opt_view(reply),
        ),
{
    if let Some(v) = value_from_sources(&cli_value, overrides, env, key) {
        return Ok(v);
    }
    match reply {
        Some(line) => if str_is_blank(line.as_str()) {
            Ok(default.to_owned())
        } else {
            Ok(str_trim(line.as_str()).to_owned())
        },
        None => Err("Failed to read input".to_owned()),
    }
}

/// Resolve an optional path: the non-interactive chain only, never a
/// prompt; an unset parameter stays unset.
pub fn resolve_optional_path(
    cli_value: Option<String>,
    overrides: &EnvMap,
    env: &EnvMap,
    key: &str,
) -> (r: Option<String>)
    ensures
        opt_view(r) == chain_value(opt_view(cli_value), overrides@, env@, key@),
{
    value_from_sources(&cli_value, overrides, env, key)
}

/// The views of a slice of string slices.
pub open spec fn strs_views(keys: Seq<&str>) -> Seq<Seq<char>> {
    keys.map_values(|k: &str| k@)
}

/// The first key, in priority order, whose override or environment entry is
/// non-blank; per key the override outranks the environment.
pub open spec fn multi_key_value(
    ov: Map<Seq<char>, Seq<char>>,
    env: Map<Seq<char>, Seq<char>>,
    keys: Seq<Seq<char>>,
) -> Option<Seq<char>>
    decreases keys.len(),
{
    if keys.len() == 0 {
        None
    } else {
        let k = keys.first();
        if ov.contains_key(k) && !is_blank(ov[k]) {
            Some(ov[k])
        } else if env.contains_key(k) && !is_blank(env[k]) {
            Some(env[k])
        } else {
            multi_key_value(ov, env, keys.drop_first())
        }
    }
}

/// Look a value up under several key aliases, first non-blank hit wins.
pub fn resolve_from_envs(overrides: &EnvMap, env: &EnvMap, keys: &[&str]) -> (r: Option<String>)
    ensures
        opt_view(r) == multi_key_value(overrides@, env@, strs_views(keys@)),
{
    let mut i: usize = 0;
    proof {
        assert(strs_views(keys@).subrange(0, keys@.len() as int) =~= strs_views(keys@));
    }
    while i < keys.len()
        invariant
            i <= keys@.len(),
            multi_key_value(overrides@, env@, strs_views(keys@)) == multi_key_value(
                overrides@,
                env@,
                strs_views(keys@).subrange(i as int, keys@.len() as int),
            ),
        decreases keys@.len() - i,
    {
        let ghost suf = strs_views(keys@).subrange(i as int, keys@.len() as int);
        proof {
            assert(suf.first() == keys@[i as int]@);
            assert(suf.drop_first() =~= strs_views(keys@).subrange(
                i as int + 1,
                keys@.len() as int,
            ));
        }
        let key = keys[i];
        if let Some(v) = overrides.get(key) {
            if !str_is_blank(v.as_str()) {
                return Some(v.clone());
            }
        }
        if let Some(v) = env.get(key) {
            if !str_is_blank(v.as_str()) {
                return Some(v.clone());
            }
        }
        i += 1;
    }
    proof {
        assert(strs_views(keys@).subrange(keys@.len() as int, keys@.len() as int)
            =~= Seq::<Seq<char>>::empty());
    }
    None
}

/// The name-with-default resolution: explicit value, then the key aliases,
/// then the reply, then the visible default when the reply is blank.
pub open spec fn spec_resolve_name_with_default(
    explicit: Option<Seq<char>>,
    ov: Map<Seq<char>, Seq<char>>,
    env: Map<Seq<char>, Seq<char>>,
    keys: Seq<Seq<char>>,
    default: Seq<char>,
    reply: Option<Seq<char>>,
) -> Result<Seq<char>, Seq<char>> {
    match explicit {
        Some(v) => Ok(v),
        None => match multi_key_value(ov, env, keys) {
            Some(v) => Ok(v),
            None => match reply {
                Some(line) => if is_blank(line) {
                    Ok(default)
                } else {
                    Ok(trim_seq(line))
                },
                None => Err(read_fail_msg()),
            },
        },
    }
}

/// Resolve a name that has several environment-key aliases and a visible
/// default: a blank reply falls back to the default.
pub fn resolve_name_with_default(
    cli_value: Option<String>,
    overrides: &EnvMap,
    env: &EnvMap,
    keys: &[&str],
    default: &str,
    reply: Option<String>,
) -> (r: Result<String, String>)
    ensures
        res_view(r) == spec_resolve_name_with_default(
            opt_view(cli_value),
            overrides@,
            env@,
            strs_views(keys@),
            default@,
            opt_view(reply),
        ),
{
    if let Some(v) = cli_value {
        return Ok(v);
    }
    if let Some(v) = resolve_from_envs(overrides, env, keys) {
        return Ok(v);
    }
    match reply {
        Some(line) => if str_is_blank(line.as_str()) {
            Ok(default.to_owned())
        } else {
            Ok(str_trim(line.as_str()).to_owned())
        },
        None => Err("Failed to read input".to_owned()),
    }
}

/// Whether resolving the certificate directory will fall through to the
/// interactive name prompt, so that the front end asks first.
pub fn cert_dir_needs_name_prompt(
    cert_dir: &Option<String>,
    cert_dir_name: &Option<String>,
    overrides: &EnvMap,
    env: &EnvMap,
    keys: &[&str],
) -> (r: bool)
    ensures
        r == (cert_dir is None && cert_dir_name is None && multi_key_value(
            overrides@,
            env@,
            strs_views(keys@),
        ) is None),
{
    cert_dir.is_none() && cert_dir_name.is_none() && resolve_from_envs(
        overrides,
        env,
        keys,
    ).is_none()
}

/// The fixed base every named certificate directory is placed under.
pub const CERT_BASE_DIR: &'static str = "/etc/ca-certificates";

/// The certificate-directory resolution: an explicit directory wins
/// verbatim; otherwise a directory name is resolved and joined under the
/// fixed base.
pub open spec fn spec_resolve_cert_dir(
    cert_dir: Option<Seq<char>>,
    cert_dir_name: Option<Seq<char>>,
    ov: Map<Seq<char>, Seq<char>>,
    env: Map<Seq<char>, Seq<char>>,
    keys: Seq<Seq<char>>,
    default_name: Seq<char>,
    reply: Option<Seq<char>>,
) -> Result<Seq<char>, Seq<char>> {
    match cert_dir {
        Some(d) => Ok(d),
        None => match spec_resolve_name_with_default(
            cert_dir_name,
            ov,
            env,
            keys,
            default_name,
            reply,
        ) {
            Ok(name) => Ok(path_join_seq(CERT_BASE_DIR@, name)),
            Err(e) => Err(e),
        },
    }
}

/// Resolve the certificate directory: an explicit path, or a resolved
/// directory name under the fixed base path.
pub fn resolve_cert_dir(
    cert_dir: Option<String>,
    cert_dir_name: Option<String>,
    overrides: &EnvMap,
    env: &EnvMap,
    keys: &[&str],
    default_name: &str,
    reply: Option<String>,
) -> (r: Result<String, String>)
    ensures
        res_view(r) == spec_resolve_cert_dir(
            opt_view(cert_dir),
            opt_view(cert_dir_name),
            overrides@,
            env@,
            strs_views(keys@),
            default_name@,
            opt_view(reply),
        ),
{
    if let Some(d) = cert_dir {
        return Ok(d);
    }
    let name = match resolve_name_with_default(
        cert_dir_name,
        overrides,
        env,
        keys,
        default_name,
        reply,
    ) {
        Ok(name) => name,
        Err(e) => {
            return Err(e);
        },
    };
    Ok(path_join(CERT_BASE_DIR, name.as_str()))
}

/// The Cloudflare resolver set, the menu's default provider.
pub const RESOLVER_CLOUDFLARE: &'static str =
    "1.1.1.1 1.0.0.1 [2606:4700:4700::1111] [2606:4700:4700::1064]";

/// The Tencent resolver set.
pub const RESOLVER_TENCENT: &'static str = "119.29.29.29 182.254.116.116";

/// The Aliyun resolver set.
pub const RESOLVER_ALI: &'static str = "223.5.5.5 223.6.6.6";

/// The Google resolver set.
pub const RESOLVER_GOOGLE: &'static str = "8.8.8.8 8.8.4.4";

/// What the numbered resolver menu resolves to: a timeout, a blank choice or
/// an unknown choice give the caller's default; choices 1 to 4 give the named
/// provider; choice 5 asks for a custom list, whose blank reply again gives
/// the default.
pub open spec fn spec_select_resolver(
    default: Seq<char>,
    menu: crate::prompt::TimedReply,
    custom: Option<Seq<char>>,
) -> Result<Seq<char>, Seq<char>> {
    match menu {
        crate::prompt::TimedReply::Failed => Err(read_fail_msg()),
        crate::prompt::TimedReply::TimedOut => Ok(default),
        crate::prompt::TimedReply::Line(l) => {
            let t = trim_seq(l@);
            if t.len() == 0 {
                Ok(default)
            } else if t == "1"@ {
                Ok(RESOLVER_CLOUDFLARE@)
            } else if t == "2"@ {
                Ok(RESOLVER_TENCENT@)
            } else if t == "3"@ {
                Ok(RESOLVER_ALI@)
            } else if t == "4"@ {
                Ok(RESOLVER_GOOGLE@)
            } else if t == "5"@ {
                match custom {
                    Some(c) => if is_blank(c) {
                        Ok(default)
                    } else {
                        Ok(trim_seq(c))
                    },
                    None => Err(read_fail_msg()),
                }
            } else {
                Ok(default)
            }
        },
    }
}

/// Whether the menu reply picks the custom entry, so that a secondary
/// free-text prompt is owed.
pub fn resolver_choice_is_custom(menu: &crate::prompt::TimedReply) -> (r: bool)
    ensures
        r == (menu matches crate::prompt::TimedReply::Line(l) && trim_seq(l@) == "5"@),
{
    match menu {
        crate::prompt::TimedReply::Line(l) => str_eq(str_trim(l.as_str()), "5"),
        _ => false,
    }
}

/// Map the outcome of the resolver menu to a resolver list.
pub fn select_resolver(
    default_value: &str,
    menu: &crate::prompt::TimedReply,
    custom: Option<String>,
) -> (r: Result<String, String>)
    ensures
        res_view(r) == spec_select_resolver(default_value@, *menu, opt_view(custom)),
{
    match menu {
        crate::prompt::TimedReply::Failed => Err("Failed to read input".to_owned()),
        crate::prompt::TimedReply::TimedOut => Ok(default_value.to_owned()),
        crate::prompt::TimedReply::Line(l) => {
            let t = str_trim(l.as_str());
            if t.unicode_len() == 0 {
                Ok(default_value.to_owned())
            } else if str_eq(t, "1") {
                Ok(RESOLVER_CLOUDFLARE.to_owned())
            } else if str_eq(t, "2") {
                Ok(RESOLVER_TENCENT.to_owned())
            } else if str_eq(t, "3") {
                Ok(RESOLVER_ALI.to_owned())
            } else if str_eq(t, "4") {
                Ok(RESOLVER_GOOGLE.to_owned())
            } else if str_eq(t, "5") {
                match custom {
                    Some(c) => if str_is_blank(c.as_str()) {
                        Ok(default_value.to_owned())
                    } else {
                        Ok(str_trim(c.as_str()).to_owned())
                    },
                    None => Err("Failed to read input".to_owned()),
                }
            } else {
                Ok(default_value.to_owned())
            }
        },
    }
}

/// The multi-valued resolver-list resolution: explicit values joined with
/// single spaces, else the override/environment chain, else the menu.
pub open spec fn spec_resolve_resolvers(
    cli: Seq<Seq<char>>,
    ov: Map<Seq<char>, Seq<char>>,
    env: Map<Seq<char>, Seq<char>>,
    key: Seq<char>,
    default: Seq<char>,
    menu: crate::prompt::TimedReply,
    custom: Option<Seq<char>>,
) -> Result<Seq<char>, Seq<char>> {
    if cli.len() > 0 {
        Ok(crate::strutil::join_sep(cli, " "@))
    } else {
        match chain_value(None, ov, env, key) {
            Some(v) => Ok(v),
            None => spec_select_resolver(default, menu, custom),
        }
    }
}

/// Resolve the DNS resolver list: repeated explicit values feed the first
/// tier, and the interactive fallback is the numbered menu.
pub fn resolve_resolvers(
    cli_values: &Vec<String>,
    overrides: &EnvMap,
    env: &EnvMap,
    key: &str,
    default_value: &str,
    menu: &crate::prompt::TimedReply,
    custom: Option<String>,
) -> (r: Result<String, String>)
    ensures
        res_view(r) == spec_resolve_resolvers(
            crate::strutil::views_of(cli_values@),
            overrides@,
            env@,
            key@,
            default_value@,
            *menu,
            opt_view(custom),
        ),
{
    if cli_values.len() > 0 {
        return Ok(crate::strutil::join_strs(cli_values, " "));
    }
    if let Some(v) = value_from_sources(&None, overrides, env, key) {
        return Ok(v);
    }
    select_resolver(default_value, menu, custom)
}

/// The certificate/key pair resolution: both explicit paths verbatim;
/// neither, both derived from the directory and the domain with fixed
/// suffixes; exactly one is a configuration error.
pub open spec fn spec_resolve_cert_paths(
    cert_path: Option<Seq<char>>,
    key_path: Option<Seq<char>>,
    cert_dir: Option<Seq<char>>,
    domain: Option<Seq<char>>,
) -> Result<(Seq<char>, Seq<char>), Seq<char>> {
    match (cert_path, key_path) {
        (Some(c), Some(k)) => Ok((c, k)),
        (None, None) => match cert_dir {
            None => Err("cert_dir is required to derive cert paths"@),
            Some(dir) => match domain {
                None => Err("domain is required to derive cert paths"@),
                Some(d) => Ok(
                    (path_join_seq(dir, d + ".cer"@), path_join_seq(dir, d + ".key"@)),
                ),
            },
        },
        _ => Err("Both cert and key paths must be set together"@),
    }
}

/// The view of a string-pair-or-error result.
pub open spec fn pair_res_view(r: Result<(String, String), String>) -> Result<
    (Seq<char>, Seq<char>),
    Seq<char>,
> {
    match r {
        Ok(p) => Ok((p.0@, p.1@)),
        Err(e) => Err(e@),
    }
}

/// Resolve the certificate and key paths together: a half-explicit pair
/// signals operator intent that cannot be completed by inference, and fails.
pub fn resolve_cert_paths(
    cert_path: Option<String>,
    key_path: Option<String>,
    cert_dir: Option<String>,
    domain: Option<String>,
) -> (r: Result<(String, String), String>)
    ensures
        pair_res_view(r) == spec_resolve_cert_paths(
            opt_view(cert_path),
            opt_view(key_path),
            opt_view(cert_dir),
            opt_view(domain),
        ),
{
    match (cert_path, key_path) {
        (Some(c), Some(k)) => Ok((c, k)),
        (None, None) => {
            let dir = match cert_dir {
                Some(dir) => dir,
                None => {
                    return Err("cert_dir is required to derive cert paths".to_owned());
                },
            };
            let d = match domain {
                Some(d) => d,
                None => {
                    return Err("domain is required to derive cert paths".to_owned());
                },
            };
            let cert = path_join(dir.as_str(), d.clone().concat(".cer").as_str());
            let key = path_join(dir.as_str(), d.concat(".key").as_str());
            Ok((cert, key))
        },
        _ => Err("Both cert and key paths must be set together".to_owned()),
    }
}

} // verus!
