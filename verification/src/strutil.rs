//! Verified string utilities: blankness, trimming, joining, searching and
//! decimal formatting, all specified over `Seq<char>` views.

use vstd::prelude::*;

verus! {

/// The Unicode white-space characters, the set that blankness and trimming
/// go by.
pub open spec fn is_ws(c: char) -> bool {
    ||| (0x09 <= c as u32 && c as u32 <= 0x0d)
    ||| c == ' '
    ||| c as u32 == 0x85
    ||| c as u32 == 0xa0
    ||| c as u32 == 0x1680
    ||| (0x2000 <= c as u32 && c as u32 <= 0x200a)
    ||| c as u32 == 0x2028
    ||| c as u32 == 0x2029
    ||| c as u32 == 0x202f
    ||| c as u32 == 0x205f
    ||| c as u32 == 0x3000
}

fn is_ws_char(c: char) -> (r: bool)
    ensures
        r == is_ws(c),
{
    let n = c as u32;
    (0x09 <= n && n <= 0x0d) || n == 0x20 || n == 0x85 || n == 0xa0 || n == 0x1680 || (0x2000 <= n
        && n <= 0x200a) || n == 0x2028 || n == 0x2029 || n == 0x202f || n == 0x205f || n == 0x3000
}

/// A string is blank when every character is white space; the empty string
/// is blank.
pub open spec fn is_blank(s: Seq<char>) -> bool {
    forall|i: int| 0 <= i < s.len() ==> is_ws(s[i])
}

/// Whether `s` consists of white space alone.
pub fn str_is_blank(s: &str) -> (r: bool)
    ensures
        r == is_blank(s@),
{
    let len = s.unicode_len();
    let mut i: usize = 0;
    while i < len
        invariant
            i <= len,
            len == s@.len(),
            forall|j: int| 0 <= j < i ==> is_ws(s@[j]),
        decreases len - i,
    {
        if !is_ws_char(s.get_char(i)) {
            return false;
        }
        i += 1;
    }
    true
}

/// The character class a trim removes: a given character, or white space
/// when none is given.
pub open spec fn trim_pred(m: Option<char>, c: char) -> bool {
    match m {
        Some(q) => c == q,
        None => is_ws(c),
    }
}

/// `s` with every leading character of the class removed.
pub open spec fn trim_start_by(m: Option<char>, s: Seq<char>) -> Seq<char>
    decreases s.len(),
{
    if s.len() > 0 && trim_pred(m, s.first()) {
        trim_start_by(m, s.drop_first())
    } else {
        s
    }
}

/// `s` with every trailing character of the class removed.
pub open spec fn trim_end_by(m: Option<char>, s: Seq<char>) -> Seq<char>
    decreases s.len(),
{
    if s.len() > 0 && trim_pred(m, s.last()) {
        trim_end_by(m, s.drop_last())
    } else {
        s
    }
}

/// `s` with both ends trimmed.
pub open spec fn trim_by(m: Option<char>, s: Seq<char>) -> Seq<char> {
    trim_end_by(m, trim_start_by(m, s))
}

/// `s` with leading and trailing white space removed.
pub open spec fn trim_seq(s: Seq<char>) -> Seq<char> {
    trim_by(None, s)
}

proof fn lemma_trim_start_by(m: Option<char>, s: Seq<char>, i: int)
    requires
        0 <= i <= s.len(),
        forall|j: int| 0 <= j < i ==> trim_pred(m, s[j]),
        i == s.len() || !trim_pred(m, s[i]),
    ensures
        trim_start_by(m, s) == s.subrange(i, s.len() as int),
    decreases i,
{
    if i == 0 {
        assert(s.subrange(0, s.len() as int) =~= s);
    } else {
        assert(trim_pred(m, s.first()));
        lemma_trim_start_by(m, s.drop_first(), i - 1);
        assert(s.drop_first().subrange(i - 1, s.drop_first().len() as int) =~= s.subrange(
            i,
            s.len() as int,
        ));
    }
}

proof fn lemma_trim_end_by(m: Option<char>, s: Seq<char>, e: int)
    requires
        0 <= e <= s.len(),
        forall|j: int| e <= j < s.len() ==> trim_pred(m, s[j]),
        e == 0 || !trim_pred(m, s[e - 1]),
    ensures
        trim_end_by(m, s) == s.subrange(0, e),
    decreases s.len() - e,
{
    if e == s.len() {
        assert(s.subrange(0, s.len() as int) =~= s);
    } else {
        assert(trim_pred(m, s.last()));
        lemma_trim_end_by(m, s.drop_last(), e);
        assert(s.drop_last().subrange(0, e) =~= s.subrange(0, e));
    }
}

fn trim_impl<'a>(s: &'a str, m: Option<char>) -> (r: &'a str)
    ensures
        r@ == trim_by(m, s@),
{
    let len = s.unicode_len();
    let mut start: usize = 0;
    while start < len && trim_pred_char(s.get_char(start), m)
        invariant
            start <= len,
            len == s@.len(),
            forall|j: int| 0 <= j < start ==> trim_pred(m, s@[j]),
        decreases len - start,
    {
        start += 1;
    }
    let mut end: usize = len;
    while end > start && trim_pred_char(s.get_char(end - 1), m)
        invariant
            start <= end <= len,
            len == s@.len(),
            forall|j: int| end <= j < len ==> trim_pred(m, s@[j]),
        decreases end,
    {
        end -= 1;
    }
    proof {
        lemma_trim_start_by(m, s@, start as int);
        let t = s@.subrange(start as int, len as int);
        lemma_trim_end_by(m, t, end - start);
        assert(t.subrange(0, end - start) =~= s@.subrange(start as int, end as int));
    }
    s.substring_char(start, end)
}

fn trim_pred_char(c: char, m: Option<char>) -> (r: bool)
    ensures
        r == trim_pred(m, c),
{
    match m {
        Some(q) => c == q,
        None => is_ws_char(c),
    }
}

/// `s` with leading and trailing white space removed.
pub fn str_trim<'a>(s: &'a str) -> (r: &'a str)
    ensures
        r@ == trim_seq(s@),
{
    trim_impl(s, None)
}

/// `s` with every leading and trailing occurrence of `q` removed.
pub fn str_trim_char<'a>(s: &'a str, q: char) -> (r: &'a str)
    ensures
        r@ == trim_by(Some(q), s@),
{
    trim_impl(s, Some(q))
}

/// Character-for-character string equality.
pub fn str_eq(a: &str, b: &str) -> (r: bool)
    ensures
        r == (a@ == b@),
{
    let alen = a.unicode_len();
    let blen = b.unicode_len();
    if alen != blen {
        return false;
    }
    let mut i: usize = 0;
    while i < alen
        invariant
            i <= alen,
            alen == a@.len(),
            alen == b@.len(),
            forall|j: int| 0 <= j < i ==> a@[j] == b@[j],
        decreases alen - i,
    {
        if a.get_char(i) != b.get_char(i) {
            return false;
        }
        i += 1;
    }
    proof {
        assert(a@ =~= b@);
    }
    true
}

/// The one-character slice of `s` at `i`.
pub fn char_at_str<'a>(s: &'a str, i: usize) -> (r: &'a str)
    requires
        i < s@.len(),
        i < usize::MAX,
    ensures
        r@ =~= seq![s@[i as int]],
{
    let r = s.substring_char(i, i + 1);
    proof {
        assert(r@ =~= seq![s@[i as int]]);
    }
    r
}

/// Index of the first occurrence of `c` in `s`, if any.
pub fn find_char(s: &str, c: char) -> (r: Option<usize>)
    ensures
        match r {
            Some(i) => i < s@.len() && s@[i as int] == c && forall|j: int|
                0 <= j < i ==> s@[j] != c,
            None => forall|j: int| 0 <= j < s@.len() ==> s@[j] != c,
        },
{
    let len = s.unicode_len();
    let mut i: usize = 0;
    while i < len
        invariant
            i <= len,
            len == s@.len(),
            forall|j: int| 0 <= j < i ==> s@[j] != c,
        decreases len - i,
    {
        if s.get_char(i) == c {
            return Some(i);
        }
        i += 1;
    }
    None
}

/// Whether `p` is a prefix of `s`; on success the rest of `s` after it.
pub fn str_strip_prefix<'a>(s: &'a str, p: &str) -> (r: Option<&'a str>)
    ensures
        match r {
            Some(rest) => s@.len() >= p@.len() && s@.subrange(0, p@.len() as int) == p@ && rest@
                == s@.subrange(p@.len() as int, s@.len() as int),
            None => !(s@.len() >= p@.len() && s@.subrange(0, p@.len() as int) =~= p@),
        },
{
    let slen = s.unicode_len();
    let plen = p.unicode_len();
    if slen < plen {
        return None;
    }
    let mut i: usize = 0;
    while i < plen
        invariant
            i <= plen <= slen,
            slen == s@.len(),
            plen == p@.len(),
            forall|j: int| 0 <= j < i ==> s@[j] == p@[j],
        decreases plen - i,
    {
        if s.get_char(i) != p.get_char(i) {
            proof {
                assert(s@.subrange(0, p@.len() as int)[i as int] != p@[i as int]);
            }
            return None;
        }
        i += 1;
    }
    proof {
        assert(s@.subrange(0, p@.len() as int) =~= p@);
    }
    Some(s.substring_char(plen, slen))
}

/// `c` occurs somewhere in `s`.
pub open spec fn contains_char(s: Seq<char>, c: char) -> bool {
    exists|i: int| 0 <= i < s.len() && s[i] == c
}

/// `p` occurs somewhere in `s` as a contiguous substring.
pub open spec fn contains_sub(s: Seq<char>, p: Seq<char>) -> bool {
    exists|i: int|
        0 <= i && i + p.len() <= s.len() && #[trigger] s.subrange(i, i + p.len() as int) == p
}

/// Whether `p` occurs in `s`.
pub fn str_contains(s: &str, p: &str) -> (r: bool)
    ensures
        r == contains_sub(s@, p@),
{
    let slen = s.unicode_len();
    let plen = p.unicode_len();
    if plen > slen {
        return false;
    }
    if plen == 0 {
        proof {
            assert(s@.subrange(0, 0 + p@.len() as int) =~= p@);
            assert(contains_sub(s@, p@));
        }
        return true;
    }
    let bound = slen - plen;
    let mut i: usize = 0;
    while i <= bound
        invariant
            i <= bound + 1,
            bound == slen - plen,
            plen >= 1,
            plen <= slen,
            slen == s@.len(),
            plen == p@.len(),
            forall|k: int| 0 <= k < i ==> #[trigger] s@.subrange(k, k + p@.len() as int) != p@,
        decreases bound + 1 - i,
    {
        let mut j: usize = 0;
        let mut hit = true;
        while j < plen
            invariant
                j <= plen,
                i + plen <= slen,
                slen == s@.len(),
                plen == p@.len(),
                hit ==> forall|t: int| 0 <= t < j ==> s@[i + t] == p@[t],
                !hit ==> s@.subrange(i as int, i + p@.len() as int) != p@,
            decreases plen - j,
        {
            if s.get_char(i + j) != p.get_char(j) {
                hit = false;
                proof {
                    assert(s@.subrange(i as int, i + p@.len() as int)[j as int] != p@[j as int]);
                }
                j = plen;
            } else {
                j += 1;
            }
        }
        if hit {
            proof {
                assert(s@.subrange(i as int, i + p@.len() as int) =~= p@);
            }
            return true;
        }
        i += 1;
    }
    proof {
        assert forall|k: int| 0 <= k && k + p@.len() <= s@.len() implies #[trigger] s@.subrange(
            k,
            k + p@.len() as int,
        ) != p@ by {
            assert(k < i);
        }
    }
    false
}

/// Joining a directory and a relative name: a single `/` stands between
/// them, and an empty directory leaves the name alone.
pub open spec fn path_join_seq(dir: Seq<char>, name: Seq<char>) -> Seq<char> {
    if dir.len() == 0 {
        name
    } else if dir.last() == '/' {
        dir + name
    } else {
        dir + seq!['/'] + name
    }
}

/// Join a directory and a relative name with a `/` separator.
pub fn path_join(dir: &str, name: &str) -> (r: String)
    ensures
        r@ == path_join_seq(dir@, name@),
{
    let dlen = dir.unicode_len();
    if dlen == 0 {
        return name.to_owned();
    }
    if dir.get_char(dlen - 1) == '/' {
        dir.to_owned().concat(name)
    } else {
        proof {
            reveal_strlit("/");
            assert("/"@ =~= seq!['/']);
        }
        dir.to_owned().concat("/").concat(name)
    }
}

/// The segments of `s` between occurrences of `c`; always at least one
/// segment, and empty segments are kept.
pub open spec fn split_seq(s: Seq<char>, c: char) -> Seq<Seq<char>>
    decreases s.len(),
{
    if s.len() == 0 {
        seq![Seq::<char>::empty()]
    } else if s.first() == c {
        seq![Seq::<char>::empty()] + split_seq(s.drop_first(), c)
    } else {
        let rest = split_seq(s.drop_first(), c);
        seq![seq![s.first()] + rest.first()] + rest.drop_first()
    }
}

pub proof fn lemma_split_seq_len(s: Seq<char>, c: char)
    ensures
        split_seq(s, c).len() >= 1,
    decreases s.len(),
{
    if s.len() > 0 {
        lemma_split_seq_len(s.drop_first(), c);
    }
}

/// `ss` with `x` glued onto the front of its first segment.
spec fn prepend_first(x: Seq<char>, ss: Seq<Seq<char>>) -> Seq<Seq<char>>
    recommends
        ss.len() >= 1,
{
    seq![x + ss.first()] + ss.drop_first()
}

/// The views of a vector of strings.
pub open spec fn views_of(v: Seq<String>) -> Seq<Seq<char>> {
    v.map_values(|t: String| t@)
}

/// Split `s` at every occurrence of `c`.
pub fn str_split_char(s: &str, c: char) -> (r: Vec<String>)
    ensures
        views_of(r@) == split_seq(s@, c),
{
    let len = s.unicode_len();
    let mut pieces: Vec<String> = Vec::new();
    let mut cur = String::new();
    let mut i: usize = 0;
    proof {
        assert(s@.subrange(0, len as int) =~= s@);
        lemma_split_seq_len(s@, c);
        assert(prepend_first(Seq::<char>::empty(), split_seq(s@, c)) =~~= split_seq(s@, c));
        assert(views_of(pieces@) =~~= Seq::<Seq<char>>::empty());
    }
    while i < len
        invariant
            i <= len,
            len == s@.len(),
            split_seq(s@, c) =~~= views_of(pieces@) + prepend_first(
                cur@,
                split_seq(s@.subrange(i as int, len as int), c),
            ),
        decreases len - i,
    {
        let ghost suf = s@.subrange(i as int, len as int);
        let ghost suf2 = s@.subrange(i as int + 1, len as int);
        proof {
            assert(suf.drop_first() =~= suf2);
            lemma_split_seq_len(suf2, c);
        }
        let ch = s.get_char(i);
        if ch == c {
            let ghost old_pieces = pieces@;
            let ghost old_cur = cur@;
            pieces.push(cur);
            cur = String::new();
            proof {
                assert(split_seq(suf, c) =~~= seq![Seq::<char>::empty()] + split_seq(suf2, c));
                assert(prepend_first(old_cur, split_seq(suf, c)) =~~= seq![old_cur] + split_seq(
                    suf2,
                    c,
                ));
                assert(views_of(pieces@) =~~= views_of(old_pieces).push(old_cur));
                assert(prepend_first(cur@, split_seq(suf2, c)) =~~= split_seq(suf2, c));
                assert(views_of(pieces@) + prepend_first(cur@, split_seq(suf2, c))
                    =~~= views_of(old_pieces) + prepend_first(old_cur, split_seq(suf, c)));
            }
        } else {
            let ghost old_cur = cur@;
            cur = cur.concat(char_at_str(s, i));
            proof {
                let rest = split_seq(suf2, c);
                assert(split_seq(suf, c) =~~= prepend_first(seq![suf.first()], rest));
                assert(prepend_first(old_cur, prepend_first(seq![suf.first()], rest))
                    =~~= prepend_first(old_cur + seq![suf.first()], rest));
                assert(cur@ =~= old_cur + seq![suf.first()]);
            }
        }
        i += 1;
    }
    proof {
        assert(s@.subrange(len as int, len as int) =~= Seq::<char>::empty());
        assert(prepend_first(cur@, split_seq(Seq::<char>::empty(), c)) =~~= seq![cur@]);
    }
    let ghost old_pieces = pieces@;
    let ghost last = cur@;
    pieces.push(cur);
    proof {
        assert(views_of(pieces@) =~~= views_of(old_pieces).push(last));
        assert(views_of(old_pieces) + seq![last] =~~= views_of(pieces@));
    }
    pieces
}

/// Index of the last occurrence of `c` in `s`, if any.
pub open spec fn rfind(s: Seq<char>, c: char) -> Option<int>
    decreases s.len(),
{
    if s.len() == 0 {
        None
    } else if s.last() == c {
        Some(s.len() - 1)
    } else {
        rfind(s.drop_last(), c)
    }
}

/// The textual parent of a path: the part before the last `/`; `/` for a
/// top-level entry, the empty string for a bare name, and nothing for the
/// root or the empty path.
pub open spec fn parent_dir(s: Seq<char>) -> Option<Seq<char>> {
    if s.len() == 0 || s == seq!['/'] {
        None
    } else {
        match rfind(s, '/') {
            None => Some(Seq::empty()),
            Some(i) => if i == 0 {
                Some(seq!['/'])
            } else {
                Some(s.subrange(0, i))
            },
        }
    }
}

proof fn lemma_rfind_at(s: Seq<char>, c: char, i: int)
    requires
        0 <= i < s.len(),
        s[i] == c,
        forall|j: int| i < j < s.len() ==> s[j] != c,
    ensures
        rfind(s, c) == Some(i),
    decreases s.len(),
{
    if i == s.len() - 1 {
    } else {
        assert(s.last() != c);
        lemma_rfind_at(s.drop_last(), c, i);
    }
}

proof fn lemma_rfind_none(s: Seq<char>, c: char)
    requires
        forall|j: int| 0 <= j < s.len() ==> s[j] != c,
    ensures
        rfind(s, c) == None::<int>,
    decreases s.len(),
{
    if s.len() > 0 {
        lemma_rfind_none(s.drop_last(), c);
    }
}

/// The textual parent of a path.
pub fn str_parent_dir(s: &str) -> (r: Option<String>)
    ensures
        match r {
            Some(p) => parent_dir(s@) == Some(p@),
            None => parent_dir(s@) == None::<Seq<char>>,
        },
{
    let len = s.unicode_len();
    if len == 0 {
        return None;
    }
    if len == 1 && s.get_char(0) == '/' {
        proof {
            assert(s@ =~= seq!['/']);
        }
        return None;
    }
    proof {
        assert(s@ != seq!['/']);
    }
    let mut i: usize = len;
    while i > 0
        invariant
            i <= len,
            len == s@.len(),
            len >= 1,
            s@ != seq!['/'],
            forall|j: int| i <= j < len ==> s@[j] != '/',
        decreases i,
    {
        i -= 1;
        if s.get_char(i) == '/' {
            proof {
                lemma_rfind_at(s@, '/', i as int);
            }
            if i == 0 {
                proof {
                    reveal_strlit("/");
                    assert("/"@ =~= seq!['/']);
                    assert(parent_dir(s@) == Some("/"@));
                }
                return Some("/".to_owned());
            }
            return Some(s.substring_char(0, i).to_owned());
        }
    }
    proof {
        lemma_rfind_none(s@, '/');
    }
    Some(String::new())
}

/// The parts joined with `sep` between consecutive parts.
pub open spec fn join_sep(parts: Seq<Seq<char>>, sep: Seq<char>) -> Seq<char>
    decreases parts.len(),
{
    if parts.len() == 0 {
        Seq::empty()
    } else if parts.len() == 1 {
        parts.first()
    } else {
        parts.first() + sep + join_sep(parts.drop_first(), sep)
    }
}

proof fn lemma_join_sep_push(parts: Seq<Seq<char>>, sep: Seq<char>, x: Seq<char>)
    requires
        parts.len() >= 1,
    ensures
        join_sep(parts.push(x), sep) == join_sep(parts, sep) + sep + x,
    decreases parts.len(),
{
    let p = parts.push(x);
    assert(p.first() == parts.first());
    assert(p.drop_first() =~~= parts.drop_first().push(x));
    if parts.len() == 1 {
        assert(parts.drop_first().push(x) =~~= seq![x]);
        assert(join_sep(seq![x], sep) == x);
        assert(join_sep(p, sep) == parts.first() + sep + x);
    } else {
        lemma_join_sep_push(parts.drop_first(), sep, x);
    }
}

/// Join the strings with `sep` between consecutive entries.
pub fn join_strs(parts: &Vec<String>, sep: &str) -> (r: String)
    ensures
        r@ == join_sep(views_of(parts@), sep@),
{
    let mut r = String::new();
    if parts.len() == 0 {
        return r;
    }
    r = parts[0].clone();
    let mut i: usize = 1;
    proof {
        assert(views_of(parts@).subrange(0, 1) =~~= seq![parts@[0]@]);
    }
    while i < parts.len()
        invariant
            1 <= i <= parts@.len(),
            r@ == join_sep(views_of(parts@).subrange(0, i as int), sep@),
        decreases parts@.len() - i,
    {
        let ghost pre = views_of(parts@).subrange(0, i as int);
        r = r.concat(sep).concat(parts[i].as_str());
        proof {
            lemma_join_sep_push(pre, sep@, parts@[i as int]@);
            assert(pre.push(parts@[i as int]@) =~~= views_of(parts@).subrange(0, i + 1));
        }
        i += 1;
    }
    proof {
        assert(views_of(parts@).subrange(0, parts@.len() as int) =~~= views_of(parts@));
    }
    r
}

/// The decimal digit characters.
pub open spec fn dec_digit(d: int) -> char {
    if d == 0 {
        '0'
    } else if d == 1 {
        '1'
    } else if d == 2 {
        '2'
    } else if d == 3 {
        '3'
    } else if d == 4 {
        '4'
    } else if d == 5 {
        '5'
    } else if d == 6 {
        '6'
    } else if d == 7 {
        '7'
    } else if d == 8 {
        '8'
    } else {
        '9'
    }
}

/// The decimal notation of `n`, without leading zeros (`0` for zero).
pub open spec fn dec_str(n: nat) -> Seq<char>
    decreases n,
{
    if n < 10 {
        seq![dec_digit(n as int)]
    } else {
        dec_str(n / 10).push(dec_digit((n % 10) as int))
    }
}

fn digit_str(d: u64) -> (r: &'static str)
    requires
        d < 10,
    ensures
        r@ =~= seq![dec_digit(d as int)],
{
    proof {
        reveal_strlit("0");
        reveal_strlit("1");
        reveal_strlit("2");
        reveal_strlit("3");
        reveal_strlit("4");
        reveal_strlit("5");
        reveal_strlit("6");
        reveal_strlit("7");
        reveal_strlit("8");
        reveal_strlit("9");
    }
    if d == 0 {
        "0"
    } else if d == 1 {
        "1"
    } else if d == 2 {
        "2"
    } else if d == 3 {
        "3"
    } else if d == 4 {
        "4"
    } else if d == 5 {
        "5"
    } else if d == 6 {
        "6"
    } else if d == 7 {
        "7"
    } else if d == 8 {
        "8"
    } else {
        "9"
    }
}

/// `n` written in decimal.
pub fn u64_to_dec(n: u64) -> (r: String)
    ensures
        r@ == dec_str(n as nat),
{
    let mut m: u64 = n;
    let mut acc = String::new();
    while m >= 10
        invariant
            dec_str(n as nat) == dec_str(m as nat) + acc@,
        decreases m,
    {
        let ghost old_m = m as nat;
        let ghost old_acc = acc@;
        let d = m % 10;
        acc = digit_str(d).to_owned().concat(acc.as_str());
        m = m / 10;
        proof {
            assert(dec_str(old_m) == dec_str(old_m / 10).push(dec_digit((old_m % 10) as int)));
            assert(dec_str(old_m / 10).push(dec_digit((old_m % 10) as int)) + old_acc
                =~= dec_str(old_m / 10) + acc@);
        }
    }
    let r = digit_str(m).to_owned().concat(acc.as_str());
    proof {
        assert(r@ =~= dec_str(m as nat) + acc@);
    }
    r
}

/// Every `.` replaced by `-`; the shape a domain takes inside a file name.
pub open spec fn dot_dash(s: Seq<char>) -> Seq<char> {
    s.map_values(|c: char| if c == '.' { '-' } else { c })
}

/// Replace every `.` in `s` with `-`.
pub fn str_dot_dash(s: &str) -> (r: String)
    ensures
        r@ == dot_dash(s@),
{
    let len = s.unicode_len();
    let mut r = String::new();
    let mut i: usize = 0;
    proof {
        assert(r@ =~= dot_dash(s@.subrange(0, 0)));
    }
    while i < len
        invariant
            i <= len,
            len == s@.len(),
            r@ == dot_dash(s@.subrange(0, i as int)),
        decreases len - i,
    {
        let ch = s.get_char(i);
        let ghost old_r = r@;
        if ch == '.' {
            proof {
                reveal_strlit("-");
                assert("-"@ =~= seq!['-']);
            }
            r = r.concat("-");
        } else {
            r = r.concat(char_at_str(s, i));
        }
        proof {
            assert(dot_dash(s@.subrange(0, i + 1)) =~= dot_dash(s@.subrange(0, i as int)).push(
                if s@[i as int] == '.' {
                    '-'
                } else {
                    s@[i as int]
                },
            ));
            assert(r@ =~= old_r.push(
                if s@[i as int] == '.' {
                    '-'
                } else {
                    s@[i as int]
                },
            ));
        }
        i += 1;
    }
    proof {
        assert(s@.subrange(0, len as int) =~= s@);
    }
    r
}

/// ASCII upper-case letters folded to lower case, as a code point.
pub open spec fn lower_code(c: char) -> u32 {
    if 'A' <= c && c <= 'Z' {
        (c as u32 + 32) as u32
    } else {
        c as u32
    }
}

/// Equality up to ASCII case.
pub open spec fn eq_ignore_case(a: Seq<char>, b: Seq<char>) -> bool {
    a.len() == b.len() && forall|i: int| 0 <= i < a.len() ==> lower_code(a[i]) == lower_code(b[i])
}

/// Whether the strings agree up to ASCII case.
pub fn str_eq_ignore_case(a: &str, b: &str) -> (r: bool)
    ensures
        r == eq_ignore_case(a@, b@),
{
    let alen = a.unicode_len();
    let blen = b.unicode_len();
    if alen != blen {
        return false;
    }
    let mut i: usize = 0;
    while i < alen
        invariant
            i <= alen,
            alen == a@.len(),
            alen == b@.len(),
            forall|j: int| 0 <= j < i ==> lower_code(a@[j]) == lower_code(b@[j]),
        decreases alen - i,
    {
        let ca = a.get_char(i);
        let cb = b.get_char(i);
        let la = if 'A' <= ca && ca <= 'Z' {
            ca as u32 + 32
        } else {
            ca as u32
        };
        let lb = if 'A' <= cb && cb <= 'Z' {
            cb as u32 + 32
        } else {
            cb as u32
        };
        if la != lb {
            return false;
        }
        i += 1;
    }
    true
}

} // verus!
