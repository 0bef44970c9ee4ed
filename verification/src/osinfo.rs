//! The OS detector and the other read-only probes: pure extraction from
//! descriptor text and probe outcomes that the front end reads and hands in.
//! A probe is a `Result`: the text that was read, or the I/O error it failed
//! with.

use vstd::prelude::*;

use crate::resolve::opt_view;
use crate::strutil::{
    path_join, path_join_seq, split_seq, str_eq, str_split_char, str_strip_prefix, str_trim,
    str_trim_char, trim_by, trim_seq, views_of,
};

verus! {

/// The view of a unit-or-error result.
pub open spec fn unit_res_view(r: Result<(), String>) -> Result<(), Seq<char>> {
    match r {
        Ok(u) => Ok(u),
        Err(e) => Err(e@),
    }
}

/// A line with one trailing carriage return removed.
pub open spec fn line_fix(l: Seq<char>) -> Seq<char> {
    if l.len() > 0 && l.last() == '\r' {
        l.drop_last()
    } else {
        l
    }
}

/// The lines of a text: split at every line feed, carriage returns removed.
pub open spec fn lines_of(s: Seq<char>) -> Seq<Seq<char>> {
    split_seq(s, '\n').map_values(|l: Seq<char>| line_fix(l))
}

/// Whether `p` is a prefix of `s`.
pub open spec fn starts_with(s: Seq<char>, p: Seq<char>) -> bool {
    s.len() >= p.len() && s.subrange(0, p.len() as int) == p
}

/// What follows `p` on the first line it opens, if any line does.
pub open spec fn first_with_prefix(lines: Seq<Seq<char>>, p: Seq<char>) -> Option<Seq<char>>
    decreases lines.len(),
{
    if lines.len() == 0 {
        None
    } else if starts_with(lines.first(), p) {
        Some(lines.first().skip(p.len() as int))
    } else {
        first_with_prefix(lines.drop_first(), p)
    }
}

/// The value of the first `KEY=`-style field in a descriptor text, with any
/// surrounding double quotes removed.
pub open spec fn os_field(content: Seq<char>, key: Seq<char>) -> Option<Seq<char>> {
    match first_with_prefix(lines_of(content), key) {
        Some(v) => Some(trim_by(Some('"'), v)),
        None => None,
    }
}

fn fix_line<'a>(l: &'a str) -> (r: &'a str)
    ensures
        r@ == line_fix(l@),
{
    let len = l.unicode_len();
    if len > 0 && l.get_char(len - 1) == '\r' {
        let r = l.substring_char(0, len - 1);
        proof {
            assert(r@ =~= l@.drop_last());
        }
        r
    } else {
        l
    }
}

/// Extract one field of a descriptor text.
pub fn os_release_field(content: &str, key: &str) -> (r: Option<String>)
    ensures
        opt_view(r) == os_field(content@, key@),
{
    let lines = str_split_char(content, '\n');
    let ghost all = lines_of(content@);
    let mut i: usize = 0;
    proof {
        assert(all =~~= all.subrange(0, all.len() as int));
    }
    while i < lines.len()
        invariant
            i <= lines@.len(),
            views_of(lines@) == split_seq(content@, '\n'),
            all == lines_of(content@),
            all.len() == lines@.len(),
            first_with_prefix(all, key@) == first_with_prefix(
                all.subrange(i as int, all.len() as int),
                key@,
            ),
        decreases lines@.len() - i,
    {
        let ghost suf = all.subrange(i as int, all.len() as int);
        proof {
            assert(suf.first() == line_fix(lines@[i as int]@));
            assert(suf.drop_first() =~~= all.subrange(i as int + 1, all.len() as int));
        }
        let line = fix_line(lines[i].as_str());
        match str_strip_prefix(line, key) {
            Some(rest) => {
                proof {
                    assert(rest@ =~= line@.skip(key@.len() as int));
                }
                return Some(str_trim_char(rest, '"').to_owned());
            },
            None => {},
        }
        i += 1;
    }
    proof {
        assert(all.subrange(all.len() as int, all.len() as int) =~~= Seq::<Seq<char>>::empty());
    }
    None
}

/// The OS identity read from the descriptor probe: the `ID=` field; a
/// missing field or an unreadable descriptor is a fatal error.
pub open spec fn spec_read_os_id(os_release: Result<String, String>) -> Result<
    Seq<char>,
    Seq<char>,
> {
    match os_release {
        Err(e) => Err("Failed to read /etc/os-release: "@ + e@),
        Ok(content) => match os_field(content@, "ID="@) {
            Some(v) => Ok(v),
            None => Err("OS ID not found in /etc/os-release"@),
        },
    }
}

/// The OS identity from the descriptor probe.
pub fn read_os_id(os_release: &Result<String, String>) -> (r: Result<String, String>)
    ensures
        crate::resolve::res_view(r) == spec_read_os_id(*os_release),
{
    match os_release {
        Err(e) => Err("Failed to read /etc/os-release: ".to_owned().concat(e.as_str())),
        Ok(content) => match os_release_field(content.as_str(), "ID=") {
            Some(v) => Ok(v),
            None => Err("OS ID not found in /etc/os-release".to_owned()),
        },
    }
}

/// The OS codename: the `VERSION_CODENAME=` field, or — when the field is
/// absent — the trimmed output of the external OS-identification utility;
/// a failure of both is fatal.
pub open spec fn spec_read_os_codename(
    os_release: Result<String, String>,
    lsb: Result<(bool, String), String>,
) -> Result<Seq<char>, Seq<char>> {
    match os_release {
        Err(e) => Err("Failed to read /etc/os-release: "@ + e@),
        Ok(content) => match os_field(content@, "VERSION_CODENAME="@) {
            Some(v) => Ok(v),
            None => match lsb {
                Err(e) => Err("Failed to run lsb_release: "@ + e@),
                Ok((ok, out)) => if ok {
                    Ok(trim_seq(out@))
                } else {
                    Err("Failed to read OS codename"@)
                },
            },
        },
    }
}

/// The OS codename from the descriptor probe, with the utility fallback.
/// The fallback probe carries the utility's exit success and its output.
pub fn read_os_codename(
    os_release: &Result<String, String>,
    lsb: &Result<(bool, String), String>,
) -> (r: Result<String, String>)
    ensures
        crate::resolve::res_view(r) == spec_read_os_codename(*os_release, *lsb),
{
    match os_release {
        Err(e) => Err("Failed to read /etc/os-release: ".to_owned().concat(e.as_str())),
        Ok(content) => match os_release_field(content.as_str(), "VERSION_CODENAME=") {
            Some(v) => Ok(v),
            None => match lsb {
                Err(e) => Err("Failed to run lsb_release: ".to_owned().concat(e.as_str())),
                Ok((ok, out)) => if *ok {
                    Ok(str_trim(out.as_str()).to_owned())
                } else {
                    Err("Failed to read OS codename".to_owned())
                },
            },
        },
    }
}

/// The elevated-privilege gate: the probe is the output of the user-identity
/// query; anything but user zero is fatal.
pub open spec fn spec_ensure_root(uid: Result<String, String>) -> Result<(), Seq<char>> {
    match uid {
        Err(e) => Err("Failed to check uid: "@ + e@),
        Ok(out) => if trim_seq(out@) == "0"@ {
            Ok(())
        } else {
            Err("This command must be run as root"@)
        },
    }
}

/// Require elevated privilege, given the user-identity probe.
pub fn ensure_root(uid: &Result<String, String>) -> (r: Result<(), String>)
    ensures
        unit_res_view(r) == spec_ensure_root(*uid),
{
    match uid {
        Err(e) => Err("Failed to check uid: ".to_owned().concat(e.as_str())),
        Ok(out) => if str_eq(str_trim(out.as_str()), "0") {
            Ok(())
        } else {
            Err("This command must be run as root".to_owned())
        },
    }
}

/// Where a named executable may sit: each entry of the search path joined
/// with the name. The existence probe itself is the front end's.
pub open spec fn spec_command_candidate_paths(path_var: Option<String>, name: Seq<char>) -> Seq<
    Seq<char>,
> {
    match path_var {
        None => Seq::empty(),
        Some(pv) => split_seq(pv@, ':').map_values(|d: Seq<char>| path_join_seq(d, name)),
    }
}

/// The candidate paths a named executable is probed at.
pub fn command_candidate_paths(path_var: &Option<String>, name: &str) -> (r: Vec<String>)
    ensures
        views_of(r@) == spec_command_candidate_paths(*path_var, name@),
{
    let mut r: Vec<String> = Vec::new();
    let pv = match path_var {
        None => {
            proof {
                assert(views_of(r@) =~~= Seq::<Seq<char>>::empty());
            }
            return r;
        },
        Some(pv) => pv,
    };
    let parts = str_split_char(pv.as_str(), ':');
    let ghost mapped = spec_command_candidate_paths(*path_var, name@);
    let mut i: usize = 0;
    while i < parts.len()
        invariant
            i <= parts@.len(),
            views_of(parts@) == split_seq(pv@, ':'),
            mapped == spec_command_candidate_paths(*path_var, name@),
            mapped.len() == parts@.len(),
            path_var matches Some(q) && q@ == pv@,
            views_of(r@) =~~= mapped.subrange(0, i as int),
        decreases parts@.len() - i,
    {
        let ghost old_r = r@;
        r.push(path_join(parts[i].as_str(), name));
        proof {
            assert(views_of(r@) =~~= views_of(old_r).push(path_join_seq(parts@[i as int]@, name@)));
            assert(mapped[i as int] == path_join_seq(parts@[i as int]@, name@));
            assert(views_of(r@) =~~= mapped.subrange(0, i + 1));
        }
        i += 1;
    }
    proof {
        assert(mapped.subrange(0, mapped.len() as int) =~~= mapped);
    }
    r
}

/// The leading `major.minor` of a release string: everything before the
/// second dot.
pub open spec fn major_minor(s: Seq<char>) -> Seq<char> {
    let parts = split_seq(s, '.');
    if parts.len() == 1 {
        parts.first()
    } else {
        parts[0] + "."@ + parts[1]
    }
}

/// The `major.minor` prefix of a release string.
pub fn release_major_minor(s: &str) -> (r: String)
    ensures
        r@ == major_minor(s@),
{
    let parts = str_split_char(s, '.');
    proof {
        crate::strutil::lemma_split_seq_len(s@, '.');
        assert(parts@.len() == split_seq(s@, '.').len());
    }
    if parts.len() == 1 {
        parts[0].clone()
    } else {
        parts[0].clone().concat(".").concat(parts[1].as_str())
    }
}

} // verus!
