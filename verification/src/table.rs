//! The read-only parameter table: the fixed list of flags and environment
//! keys the tool recognizes, rendered as a bordered text table whose column
//! widths are the maxima of the column entries' lengths.

use vstd::prelude::*;

use crate::envmap::kv_views;

verus! {

/// The fixed parameter list, one row per flag or environment key.
pub open spec fn param_rows() -> Seq<(Seq<char>, Seq<char>)> {
    seq![
        ("--env KEY=VALUE"@, "Override environment values (repeatable)"@),
        ("setup"@, "Install zsh/cron/nginx if missing"@),
        ("--install-zsh"@, "Install zsh if missing"@),
        ("--install-cron"@, "Install cron if missing"@),
        ("--install-nginx"@, "Install nginx if missing"@),
        ("--dry-run"@, "Simulate actions without changes"@),
        ("issue-cert"@, "Issue certs and optionally reload nginx"@),
        ("--cf-token"@, "Cloudflare token"@),
        ("CF_TOKEN"@, "Cloudflare token (env)"@),
        ("--cf-account-id"@, "Cloudflare account ID"@),
        ("CF_ACCOUNT_ID"@, "Cloudflare account ID (env)"@),
        ("--cf-zone-id"@, "Cloudflare zone ID"@),
        ("CF_ZONE_ID"@, "Cloudflare zone ID (env)"@),
        ("--domain"@, "Primary domain"@),
        ("DOMAIN"@, "Primary domain (env)"@),
        ("--wildcard-domain"@, "Wildcard domain"@),
        ("WILDCARD_DOMAIN"@, "Wildcard domain (env)"@),
        ("--acme-bin"@, "acme.sh path"@),
        ("ACME_BIN"@, "acme.sh path (env)"@),
        ("--acme-home"@, "acme home directory"@),
        ("ACME_HOME"@, "acme home directory (env)"@),
        ("--cert-dir"@, "Certificate directory (absolute path)"@),
        ("CERT_DIR"@, "Certificate directory (env)"@),
        ("--cert-dir-name"@, "Certificate directory name"@),
        ("CERT_DIR_NAME"@, "Certificate directory name (env)"@),
        ("--cert-output-path"@, "Certificate output path"@),
        ("CERT_OUTPUT_PATH"@, "Certificate output path (env)"@),
        ("--key-output-path"@, "Key output path"@),
        ("KEY_OUTPUT_PATH"@, "Key output path (env)"@),
        ("--nginx-bin"@, "nginx binary"@),
        ("NGINX_BIN"@, "nginx binary (env)"@),
        ("--reload-nginx"@, "Reload nginx after issuance"@),
        ("--dry-run"@, "Simulate actions without changes"@),
        ("write-nginx-default"@, "Write default nginx 444 config"@),
        ("--cert-path"@, "Nginx cert path (absolute)"@),
        ("NGINX_CERT_PATH"@, "Nginx cert path (env)"@),
        ("--key-path"@, "Nginx key path (absolute)"@),
        ("NGINX_KEY_PATH"@, "Nginx key path (env)"@),
        ("--cert-dir-name"@, "Certificate directory name"@),
        ("NGINX_CERT_DIR_NAME"@, "Certificate dir name (env)"@),
        ("--domain"@, "Primary domain (used for default cert/key)"@),
        ("DOMAIN"@, "Primary domain (env)"@),
        ("--output-path"@, "Output path for default config"@),
        ("NGINX_DEFAULT_OUTPUT"@, "Output path for default config (env)"@),
        ("--dry-run"@, "Simulate actions without changes"@),
        ("write-proxy-config"@, "Write reverse proxy config"@),
        ("--proxy-domain"@, "Proxy domain"@),
        ("PROXY_DOMAIN"@, "Proxy domain (env)"@),
        ("--backend-url"@, "Backend URL"@),
        ("BACKEND_URL"@, "Backend URL (env)"@),
        ("--resolver"@, "DNS resolver (repeatable)"@),
        ("RESOLVER"@, "DNS resolver list (env or interactive)"@),
        ("--cert-path"@, "Nginx cert path (absolute)"@),
        ("NGINX_CERT_PATH"@, "Nginx cert path (env)"@),
        ("--key-path"@, "Nginx key path (absolute)"@),
        ("NGINX_KEY_PATH"@, "Nginx key path (env)"@),
        ("--cert-dir"@, "Certificate directory (absolute path)"@),
        ("CERT_DIR"@, "Certificate directory (env)"@),
        ("--cert-dir-name"@, "Certificate directory name"@),
        ("CERT_DIR_NAME"@, "Certificate directory name (env)"@),
        ("--output-dir"@, "Proxy config output dir"@),
        ("PROXY_OUTPUT_DIR"@, "Proxy config output dir (env)"@),
        ("--dry-run"@, "Simulate actions without changes"@),
    ]
}

/// The fixed parameter list, as values.
#[verifier::rlimit(100)]
pub fn params_rows() -> (r: Vec<(String, String)>)
    ensures
        kv_views(r@) == param_rows(),
{
    let mut r: Vec<(String, String)> = Vec::new();
    r.push(("--env KEY=VALUE".to_owned(), "Override environment values (repeatable)".to_owned()));
    r.push(("setup".to_owned(), "Install zsh/cron/nginx if missing".to_owned()));
    r.push(("--install-zsh".to_owned(), "Install zsh if missing".to_owned()));
    r.push(("--install-cron".to_owned(), "Install cron if missing".to_owned()));
    r.push(("--install-nginx".to_owned(), "Install nginx if missing".to_owned()));
    r.push(("--dry-run".to_owned(), "Simulate actions without changes".to_owned()));
    r.push(("issue-cert".to_owned(), "Issue certs and optionally reload nginx".to_owned()));
    r.push(("--cf-token".to_owned(), "Cloudflare token".to_owned()));
    r.push(("CF_TOKEN".to_owned(), "Cloudflare token (env)".to_owned()));
    r.push(("--cf-account-id".to_owned(), "Cloudflare account ID".to_owned()));
    r.push(("CF_ACCOUNT_ID".to_owned(), "Cloudflare account ID (env)".to_owned()));
    r.push(("--cf-zone-id".to_owned(), "Cloudflare zone ID".to_owned()));
    r.push(("CF_ZONE_ID".to_owned(), "Cloudflare zone ID (env)".to_owned()));
    r.push(("--domain".to_owned(), "Primary domain".to_owned()));
    r.push(("DOMAIN".to_owned(), "Primary domain (env)".to_owned()));
    r.push(("--wildcard-domain".to_owned(), "Wildcard domain".to_owned()));
    r.push(("WILDCARD_DOMAIN".to_owned(), "Wildcard domain (env)".to_owned()));
    r.push(("--acme-bin".to_owned(), "acme.sh path".to_owned()));
    r.push(("ACME_BIN".to_owned(), "acme.sh path (env)".to_owned()));
    r.push(("--acme-home".to_owned(), "acme home directory".to_owned()));
    r.push(("ACME_HOME".to_owned(), "acme home directory (env)".to_owned()));
    r.push(("--cert-dir".to_owned(), "Certificate directory (absolute path)".to_owned()));
    r.push(("CERT_DIR".to_owned(), "Certificate directory (env)".to_owned()));
    r.push(("--cert-dir-name".to_owned(), "Certificate directory name".to_owned()));
    r.push(("CERT_DIR_NAME".to_owned(), "Certificate directory name (env)".to_owned()));
    r.push(("--cert-output-path".to_owned(), "Certificate output path".to_owned()));
    r.push(("CERT_OUTPUT_PATH".to_owned(), "Certificate output path (env)".to_owned()));
    r.push(("--key-output-path".to_owned(), "Key output path".to_owned()));
    r.push(("KEY_OUTPUT_PATH".to_owned(), "Key output path (env)".to_owned()));
    r.push(("--nginx-bin".to_owned(), "nginx binary".to_owned()));
    r.push(("NGINX_BIN".to_owned(), "nginx binary (env)".to_owned()));
    r.push(("--reload-nginx".to_owned(), "Reload nginx after issuance".to_owned()));
    r.push(("--dry-run".to_owned(), "Simulate actions without changes".to_owned()));
    r.push(("write-nginx-default".to_owned(), "Write default nginx 444 config".to_owned()));
    r.push(("--cert-path".to_owned(), "Nginx cert path (absolute)".to_owned()));
    r.push(("NGINX_CERT_PATH".to_owned(), "Nginx cert path (env)".to_owned()));
    r.push(("--key-path".to_owned(), "Nginx key path (absolute)".to_owned()));
    r.push(("NGINX_KEY_PATH".to_owned(), "Nginx key path (env)".to_owned()));
    r.push(("--cert-dir-name".to_owned(), "Certificate directory name".to_owned()));
    r.push(("NGINX_CERT_DIR_NAME".to_owned(), "Certificate dir name (env)".to_owned()));
    r.push(("--domain".to_owned(), "Primary domain (used for default cert/key)".to_owned()));
    r.push(("DOMAIN".to_owned(), "Primary domain (env)".to_owned()));
    r.push(("--output-path".to_owned(), "Output path for default config".to_owned()));
    r.push(("NGINX_DEFAULT_OUTPUT".to_owned(), "Output path for default config (env)".to_owned()));
    r.push(("--dry-run".to_owned(), "Simulate actions without changes".to_owned()));
    r.push(("write-proxy-config".to_owned(), "Write reverse proxy config".to_owned()));
    r.push(("--proxy-domain".to_owned(), "Proxy domain".to_owned()));
    r.push(("PROXY_DOMAIN".to_owned(), "Proxy domain (env)".to_owned()));
    r.push(("--backend-url".to_owned(), "Backend URL".to_owned()));
    r.push(("BACKEND_URL".to_owned(), "Backend URL (env)".to_owned()));
    r.push(("--resolver".to_owned(), "DNS resolver (repeatable)".to_owned()));
    r.push(("RESOLVER".to_owned(), "DNS resolver list (env or interactive)".to_owned()));
    r.push(("--cert-path".to_owned(), "Nginx cert path (absolute)".to_owned()));
    r.push(("NGINX_CERT_PATH".to_owned(), "Nginx cert path (env)".to_owned()));
    r.push(("--key-path".to_owned(), "Nginx key path (absolute)".to_owned()));
    r.push(("NGINX_KEY_PATH".to_owned(), "Nginx key path (env)".to_owned()));
    r.push(("--cert-dir".to_owned(), "Certificate directory (absolute path)".to_owned()));
    r.push(("CERT_DIR".to_owned(), "Certificate directory (env)".to_owned()));
    r.push(("--cert-dir-name".to_owned(), "Certificate directory name".to_owned()));
    r.push(("CERT_DIR_NAME".to_owned(), "Certificate directory name (env)".to_owned()));
    r.push(("--output-dir".to_owned(), "Proxy config output dir".to_owned()));
    r.push(("PROXY_OUTPUT_DIR".to_owned(), "Proxy config output dir (env)".to_owned()));
    r.push(("--dry-run".to_owned(), "Simulate actions without changes".to_owned()));
    proof {
        assert(kv_views(r@) =~~= param_rows());
    }
    r
}


/// The larger of two lengths.
pub open spec fn max2(a: nat, b: nat) -> nat {
    if a >= b {
        a
    } else {
        b
    }
}

/// The longest first column of the rows.
pub open spec fn names_max(rows: Seq<(Seq<char>, Seq<char>)>) -> nat
    decreases rows.len(),
{
    if rows.len() == 0 {
        0
    } else {
        max2(rows.first().0.len(), names_max(rows.drop_first()))
    }
}

/// The longest second column of the rows.
pub open spec fn descs_max(rows: Seq<(Seq<char>, Seq<char>)>) -> nat
    decreases rows.len(),
{
    if rows.len() == 0 {
        0
    } else {
        max2(rows.first().1.len(), descs_max(rows.drop_first()))
    }
}

proof fn lemma_names_max_ge(rows: Seq<(Seq<char>, Seq<char>)>, i: int)
    requires
        0 <= i < rows.len(),
    ensures
        rows[i].0.len() <= names_max(rows),
        rows[i].1.len() <= descs_max(rows),
    decreases rows.len(),
{
    if i > 0 {
        lemma_names_max_ge(rows.drop_first(), i - 1);
    }
}

/// `n` copies of one character.
pub open spec fn repeat_char(c: char, n: nat) -> Seq<char> {
    Seq::new(n, |i: int| c)
}

/// `s` padded with spaces on the right to width `w`.
pub open spec fn pad_to(s: Seq<char>, w: nat) -> Seq<char>
    recommends
        s.len() <= w,
{
    s + repeat_char(' ', (w - s.len()) as nat)
}

/// A horizontal border for the two column widths.
pub open spec fn border_line(nw: nat, dw: nat) -> Seq<char> {
    "+-"@ + repeat_char('-', nw) + "-+-"@ + repeat_char('-', dw) + "-+"@
}

/// One table row, both cells padded to their column widths.
pub open spec fn row_line(name: Seq<char>, desc: Seq<char>, nw: nat, dw: nat) -> Seq<char> {
    "| "@ + pad_to(name, nw) + " | "@ + pad_to(desc, dw) + " |"@
}

/// The body rows, each on its own line.
pub open spec fn rows_text(rows: Seq<(Seq<char>, Seq<char>)>, nw: nat, dw: nat) -> Seq<char>
    decreases rows.len(),
{
    if rows.len() == 0 {
        Seq::empty()
    } else {
        row_line(rows.first().0, rows.first().1, nw, dw) + "\n"@ + rows_text(
            rows.drop_first(),
            nw,
            dw,
        )
    }
}

/// The whole table: border, header, border, the rows, border. The column
/// widths are exactly the maxima of the entries and the headings.
pub open spec fn table_text(rows: Seq<(Seq<char>, Seq<char>)>) -> Seq<char> {
    let nw = max2(names_max(rows), "Parameter/ENV"@.len());
    let dw = max2(descs_max(rows), "Description"@.len());
    border_line(nw, dw) + "\n"@ + row_line("Parameter/ENV"@, "Description"@, nw, dw) + "\n"@
        + border_line(nw, dw) + "\n"@ + rows_text(rows, nw, dw) + border_line(nw, dw) + "\n"@
}

proof fn lemma_rows_text_push(
    rows: Seq<(Seq<char>, Seq<char>)>,
    nw: nat,
    dw: nat,
    x: (Seq<char>, Seq<char>),
)
    ensures
        rows_text(rows.push(x), nw, dw) == rows_text(rows, nw, dw) + row_line(x.0, x.1, nw, dw)
            + "\n"@,
    decreases rows.len(),
{
    let p = rows.push(x);
    if rows.len() == 0 {
        assert(p.drop_first() =~~= Seq::<(Seq<char>, Seq<char>)>::empty());
        assert(rows_text(rows, nw, dw) + row_line(x.0, x.1, nw, dw) + "\n"@ =~= row_line(
            x.0,
            x.1,
            nw,
            dw,
        ) + "\n"@ + rows_text(p.drop_first(), nw, dw));
    } else {
        assert(p.first() == rows.first());
        assert(p.drop_first() =~~= rows.drop_first().push(x));
        lemma_rows_text_push(rows.drop_first(), nw, dw, x);
        assert(rows_text(p, nw, dw) =~= rows_text(rows, nw, dw) + row_line(x.0, x.1, nw, dw)
            + "\n"@);
    }
}

fn spaces(n: usize) -> (r: String)
    ensures
        r@ == repeat_char(' ', n as nat),
{
    let mut r = String::new();
    let mut i: usize = 0;
    proof {
        assert(r@ =~= repeat_char(' ', 0));
    }
    while i < n
        invariant
            i <= n,
            r@ == repeat_char(' ', i as nat),
        decreases n - i,
    {
        r = r.concat(" ");
        proof {
            reveal_strlit(" ");
            assert(r@ =~= repeat_char(' ', (i + 1) as nat));
        }
        i += 1;
    }
    r
}

fn dashes(n: usize) -> (r: String)
    ensures
        r@ == repeat_char('-', n as nat),
{
    let mut r = String::new();
    let mut i: usize = 0;
    proof {
        assert(r@ =~= repeat_char('-', 0));
    }
    while i < n
        invariant
            i <= n,
            r@ == repeat_char('-', i as nat),
        decreases n - i,
    {
        r = r.concat("-");
        proof {
            reveal_strlit("-");
            assert(r@ =~= repeat_char('-', (i + 1) as nat));
        }
        i += 1;
    }
    r
}

fn pad(s: &str, w: usize) -> (r: String)
    requires
        s@.len() <= w,
    ensures
        r@ == pad_to(s@, w as nat),
{
    let len = s.unicode_len();
    s.to_owned().concat(spaces(w - len).as_str())
}

fn render_row(name: &str, desc: &str, nw: usize, dw: usize) -> (r: String)
    requires
        name@.len() <= nw,
        desc@.len() <= dw,
    ensures
        r@ == row_line(name@, desc@, nw as nat, dw as nat),
{
    "| ".to_owned().concat(pad(name, nw).as_str()).concat(" | ").concat(
        pad(desc, dw).as_str(),
    ).concat(" |")
}

/// The full parameter table as text, one line per row, each line ending in
/// a line feed.
#[verifier::rlimit(50)]
pub fn print_params_table() -> (r: String)
    ensures
        r@ == table_text(param_rows()),
{
    let rows = params_rows();
    let ghost all = param_rows();
    let mut nw: usize = "Parameter/ENV".unicode_len();
    let mut dw: usize = "Description".unicode_len();
    let mut i: usize = 0;
    proof {
        assert(all.subrange(0, all.len() as int) =~~= all);
    }
    while i < rows.len()
        invariant
            i <= rows@.len(),
            kv_views(rows@) == all,
            all.len() == rows@.len(),
            max2(names_max(all), "Parameter/ENV"@.len()) == max2(
                nw as nat,
                names_max(all.subrange(i as int, all.len() as int)),
            ),
            max2(descs_max(all), "Description"@.len()) == max2(
                dw as nat,
                descs_max(all.subrange(i as int, all.len() as int)),
            ),
        decreases rows@.len() - i,
    {
        let ghost suf = all.subrange(i as int, all.len() as int);
        proof {
            assert(suf.first() == all[i as int]);
            assert(suf.drop_first() =~~= all.subrange(i as int + 1, all.len() as int));
        }
        let nl = rows[i].0.as_str().unicode_len();
        if nl > nw {
            nw = nl;
        }
        let dl = rows[i].1.as_str().unicode_len();
        if dl > dw {
            dw = dl;
        }
        i += 1;
    }
    proof {
        assert(all.subrange(all.len() as int, all.len() as int)
            =~~= Seq::<(Seq<char>, Seq<char>)>::empty());
        assert(nw as nat == max2(names_max(all), "Parameter/ENV"@.len()));
        assert(dw as nat == max2(descs_max(all), "Description"@.len()));
    }
    let border = "+-".to_owned().concat(dashes(nw).as_str()).concat("-+-").concat(
        dashes(dw).as_str(),
    ).concat("-+");
    proof {
        assert(border@ =~= border_line(nw as nat, dw as nat));
    }
    let mut text = border.clone().concat("\n");
    text = text.concat(render_row("Parameter/ENV", "Description", nw, dw).as_str()).concat("\n");
    text = text.concat(border.as_str()).concat("\n");
    let ghost head = border_line(nw as nat, dw as nat) + "\n"@ + row_line(
        "Parameter/ENV"@,
        "Description"@,
        nw as nat,
        dw as nat,
    ) + "\n"@ + border_line(nw as nat, dw as nat) + "\n"@;
    proof {
        assert(text@ =~= head);
        assert(rows_text(all.subrange(0, 0), nw as nat, dw as nat) =~= Seq::<char>::empty());
    }
    let mut j: usize = 0;
    while j < rows.len()
        invariant
            j <= rows@.len(),
            kv_views(rows@) == all,
            all.len() == rows@.len(),
            nw as nat == max2(names_max(all), "Parameter/ENV"@.len()),
            dw as nat == max2(descs_max(all), "Description"@.len()),
            head == border_line(nw as nat, dw as nat) + "\n"@ + row_line(
                "Parameter/ENV"@,
                "Description"@,
                nw as nat,
                dw as nat,
            ) + "\n"@ + border_line(nw as nat, dw as nat) + "\n"@,
            text@ == head + rows_text(all.subrange(0, j as int), nw as nat, dw as nat),
        decreases rows@.len() - j,
    {
        proof {
            lemma_names_max_ge(all, j as int);
            assert(all[j as int].0 == rows@[j as int].0@);
            assert(all[j as int].1 == rows@[j as int].1@);
        }
        text = text.concat(
            render_row(rows[j].0.as_str(), rows[j].1.as_str(), nw, dw).as_str(),
        ).concat("\n");
        proof {
            let pre = all.subrange(0, j as int);
            lemma_rows_text_push(pre, nw as nat, dw as nat, all[j as int]);
            assert(pre.push(all[j as int]) =~~= all.subrange(0, j + 1));
            assert(text@ =~= head + rows_text(all.subrange(0, j + 1), nw as nat, dw as nat));
        }
        j += 1;
    }
    let r = text.concat(border.as_str()).concat("\n");
    proof {
        assert(all.subrange(0, all.len() as int) =~~= all);
        assert(r@ =~= table_text(all));
    }
    r
}

} // verus!
