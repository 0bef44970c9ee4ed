//! Key-value maps for configuration: the override map built from explicit
//! `KEY=VALUE` pairs and the read-only environment snapshot share one type,
//! whose view is a mathematical map with last-write-wins semantics.

use vstd::prelude::*;

use crate::strutil::{find_char, str_eq, str_trim, trim_seq};

verus! {

/// The views of a sequence of key-value pairs.
pub open spec fn kv_views(v: Seq<(String, String)>) -> Seq<(Seq<char>, Seq<char>)> {
    v.map_values(|p: (String, String)| (p.0@, p.1@))
}

/// The map the pairs denote: a later pair overrides an earlier one with the
/// same key.
pub open spec fn map_of_kvs(kvs: Seq<(Seq<char>, Seq<char>)>) -> Map<Seq<char>, Seq<char>>
    decreases kvs.len(),
{
    if kvs.len() == 0 {
        Map::empty()
    } else {
        map_of_kvs(kvs.drop_last()).insert(kvs.last().0, kvs.last().1)
    }
}

/// A mapping from environment keys to string values; immutable once built.
pub struct EnvMap {
    pairs: Vec<(String, String)>,
}

impl View for EnvMap {
    type V = Map<Seq<char>, Seq<char>>;

    closed spec fn view(&self) -> Map<Seq<char>, Seq<char>> {
        map_of_kvs(kv_views(self.pairs@))
    }
}

proof fn lemma_map_of_kvs_found(kvs: Seq<(Seq<char>, Seq<char>)>, key: Seq<char>, i: int)
    requires
        0 <= i < kvs.len(),
        kvs[i].0 == key,
        forall|j: int| i < j < kvs.len() ==> (#[trigger] kvs[j]).0 != key,
    ensures
        map_of_kvs(kvs).contains_key(key),
        map_of_kvs(kvs)[key] == kvs[i].1,
    decreases kvs.len(),
{
    if i == kvs.len() - 1 {
    } else {
        assert(kvs.drop_last()[i] == kvs[i]);
        lemma_map_of_kvs_found(kvs.drop_last(), key, i);
    }
}

proof fn lemma_map_of_kvs_absent(kvs: Seq<(Seq<char>, Seq<char>)>, key: Seq<char>)
    requires
        forall|j: int| 0 <= j < kvs.len() ==> (#[trigger] kvs[j]).0 != key,
    ensures
        !map_of_kvs(kvs).contains_key(key),
    decreases kvs.len(),
{
    if kvs.len() > 0 {
        lemma_map_of_kvs_absent(kvs.drop_last(), key);
    }
}

impl EnvMap {
    /// The empty map.
    pub fn new() -> (m: EnvMap)
        ensures
            m@ == Map::<Seq<char>, Seq<char>>::empty(),
    {
        EnvMap { pairs: Vec::new() }
    }

    /// Bind `key` to `value`, overriding any earlier binding.
    pub fn insert(&mut self, key: String, value: String)
        ensures
            final(self)@ == old(self)@.insert(key@, value@),
    {
        let ghost old_pairs = self.pairs@;
        self.pairs.push((key, value));
        proof {
            assert(kv_views(self.pairs@).drop_last() =~= kv_views(old_pairs));
        }
    }

    /// The value bound to `key`, if any.
    pub fn get<'a>(&'a self, key: &str) -> (r: Option<&'a String>)
        ensures
            match r {
                Some(v) => self@.contains_key(key@) && v@ == self@[key@],
                None => !self@.contains_key(key@),
            },
    {
        let mut i: usize = self.pairs.len();
        while i > 0
            invariant
                i <= self.pairs@.len(),
                forall|j: int|
                    i <= j < self.pairs@.len() ==> (#[trigger] self.pairs@[j]).0@ != key@,
            decreases i,
        {
            i -= 1;
            if str_eq(self.pairs[i].0.as_str(), key) {
                proof {
                    lemma_map_of_kvs_found(kv_views(self.pairs@), key@, i as int);
                }
                return Some(&self.pairs[i].1);
            }
        }
        proof {
            lemma_map_of_kvs_absent(kv_views(self.pairs@), key@);
        }
        None
    }
}

/// The part of `s` before the first occurrence of `c`; all of `s` when `c`
/// does not occur.
pub open spec fn before_char(s: Seq<char>, c: char) -> Seq<char>
    decreases s.len(),
{
    if s.len() == 0 {
        s
    } else if s.first() == c {
        Seq::empty()
    } else {
        seq![s.first()] + before_char(s.drop_first(), c)
    }
}

/// The part of `s` after the first occurrence of `c`; empty when `c` does
/// not occur.
pub open spec fn after_char(s: Seq<char>, c: char) -> Seq<char>
    decreases s.len(),
{
    if s.len() == 0 {
        Seq::empty()
    } else if s.first() == c {
        s.drop_first()
    } else {
        after_char(s.drop_first(), c)
    }
}

proof fn lemma_before_after_char(s: Seq<char>, c: char, i: int)
    requires
        0 <= i <= s.len(),
        forall|j: int| 0 <= j < i ==> s[j] != c,
        i == s.len() || s[i] == c,
    ensures
        before_char(s, c) == s.subrange(0, i),
        after_char(s, c) == if i == s.len() {
            Seq::<char>::empty()
        } else {
            s.subrange(i + 1, s.len() as int)
        },
    decreases i,
{
    if s.len() == 0 {
        assert(s.subrange(0, 0) =~= s);
    } else if i == 0 {
        assert(s.subrange(0, 0) =~= Seq::<char>::empty());
        assert(s.drop_first() =~= s.subrange(1, s.len() as int));
    } else {
        lemma_before_after_char(s.drop_first(), c, i - 1);
        assert(seq![s.first()] + s.drop_first().subrange(0, i - 1) =~= s.subrange(0, i));
        if i < s.len() {
            assert(s.drop_first().subrange(i, s.drop_first().len() as int) =~= s.subrange(
                i + 1,
                s.len() as int,
            ));
        }
    }
}

/// The key a `KEY=VALUE` argument names: the part before the first `=`,
/// trimmed.
pub open spec fn kv_key(s: Seq<char>) -> Seq<char> {
    trim_seq(before_char(s, '='))
}

/// The value a `KEY=VALUE` argument carries: the part after the first `=`,
/// verbatim.
pub open spec fn kv_value(s: Seq<char>) -> Seq<char> {
    after_char(s, '=')
}

/// Parse one `KEY=VALUE` override argument. A malformed entry — no `=`, or
/// a key that trims to nothing — is a startup-time fatal error; the value
/// is taken verbatim.
pub fn parse_key_val(s: &str) -> (r: Result<(String, String), String>)
    ensures
        match r {
            Ok(kv) => crate::strutil::contains_char(s@, '=') && kv_key(s@).len() > 0 && kv.0@
                == kv_key(s@) && kv.1@ == kv_value(s@),
            Err(e) => (!crate::strutil::contains_char(s@, '=') || kv_key(s@).len() == 0) && e@
                == "--env expects KEY=VALUE"@,
        },
{
    let len = s.unicode_len();
    let i = match find_char(s, '=') {
        Some(i) => i,
        None => {
            return Err("--env expects KEY=VALUE".to_owned());
        },
    };
    proof {
        lemma_before_after_char(s@, '=', i as int);
        assert(crate::strutil::contains_char(s@, '='));
    }
    let key_raw = s.substring_char(0, i);
    let value = s.substring_char(i + 1, len).to_owned();
    let key = str_trim(key_raw);
    if key.unicode_len() == 0 {
        Err("--env expects KEY=VALUE".to_owned())
    } else {
        Ok((key.to_owned(), value))
    }
}

/// Build the override map from explicit `KEY=VALUE` pairs; a later pair for
/// the same key wins.
pub fn to_env_map(pairs: &Vec<(String, String)>) -> (m: EnvMap)
    ensures
        m@ == map_of_kvs(kv_views(pairs@)),
{
    let mut m = EnvMap::new();
    let mut i: usize = 0;
    while i < pairs.len()
        invariant
            i <= pairs@.len(),
            m@ == map_of_kvs(kv_views(pairs@.subrange(0, i as int))),
        decreases pairs@.len() - i,
    {
        m.insert(pairs[i].0.clone(), pairs[i].1.clone());
        proof {
            assert(kv_views(pairs@.subrange(0, i + 1)).drop_last() =~= kv_views(
                pairs@.subrange(0, i as int),
            ));
        }
        i += 1;
    }
    proof {
        assert(pairs@.subrange(0, pairs@.len() as int) =~= pairs@);
    }
    m
}

} // verus!
