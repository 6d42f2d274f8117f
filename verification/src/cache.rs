//! Response cache layout for the catalog scraper.
//!
//! Entries live as JSON files under one directory; the key is made
//! file-system safe here, while reading and writing the files is the
//! surrounding binary's work.

use vstd::prelude::*;
use vstd::string::StringExecFns;

use crate::paths::is_path_special;
use crate::paths::under_root;
use crate::text::chars_vec;
use crate::text::string_of_chars;

verus! {

/// Cache manager for catalog responses.
#[derive(Debug)]
pub struct CacheManager {
    cache_dir: String,
    enabled: bool,
}

/// Path-special characters replaced by `_`.
pub open spec fn keyed_chars(s: Seq<char>) -> Seq<char> {
    s.map_values(
        |c: char|
            if is_path_special(c) {
                '_'
            } else {
                c
            },
    )
}

/// Runs of two underscores collapsed once, left to right, as a single
/// `replace("__", "_")` pass leaves them.
pub open spec fn collapse_double_underscore(s: Seq<char>) -> Seq<char>
    decreases s.len(),
{
    if s.len() < 2 {
        s
    } else if s[0] == '_' && s[1] == '_' {
        seq!['_'] + collapse_double_underscore(s.subrange(2, s.len() as int))
    } else {
        seq![s[0]] + collapse_double_underscore(s.subrange(1, s.len() as int))
    }
}

/// The file-system safe form of a cache key.
pub open spec fn safe_key(s: Seq<char>) -> Seq<char> {
    collapse_double_underscore(keyed_chars(s))
}

impl CacheManager {
    /// The cache directory.
    pub closed spec fn dir(&self) -> Seq<char> {
        self.cache_dir@
    }

    /// Whether the cache is in use at all.
    pub closed spec fn is_enabled(&self) -> bool {
        self.enabled
    }

    /// A manager over the given directory. When disabled, lookups miss and
    /// stores are dropped; the directory is then never touched.
    pub fn new(cache_dir: &str, enabled: bool) -> (r: CacheManager)
        ensures
            r.dir() == cache_dir@,
            r.is_enabled() == enabled,
    {
        CacheManager { cache_dir: <String as StringExecFns>::from_str(cache_dir), enabled }
    }

    /// Whether the cache is in use.
    pub fn enabled(&self) -> (r: bool)
        ensures
            r == self.is_enabled(),
    {
        self.enabled
    }

    /// Whether a cache entry exists: the cache must be enabled and the
    /// entry's file present. `file_present` is the caller's probe of
    /// `cache_path(key)`; a disabled cache holds nothing, whatever is on
    /// disk.
    pub fn entry_exists(&self, file_present: bool) -> (r: bool)
        ensures
            r == (self.is_enabled() && file_present),
    {
        self.enabled && file_present
    }

    /// The file a key is stored at: the key made file-system safe, with
    /// doubled underscores collapsed, as `<dir>/<safe key>.json`.
    pub fn cache_path(&self, key: &str) -> (r: String)
        ensures
            r@ == under_root(self.dir(), safe_key(key@) + ".json"@),
    {
        let v = chars_vec(key);
        let mut mapped: Vec<char> = Vec::new();
        let mut i: usize = 0;
        while i < v.len()
            invariant
                i <= v@.len(),
                mapped@ == keyed_chars(v@.subrange(0, i as int)),
            decreases v@.len() - i,
        {
            let c = v[i];
            let mc = if c == '/' || c == '\\' || c == ':' || c == '*' || c == '?' || c == '"' || c
                == '<' || c == '>' || c == '|' {
                '_'
            } else {
                c
            };
            mapped.push(mc);
            i = i + 1;
            proof {
                assert(mapped@ =~= keyed_chars(v@.subrange(0, i as int)));
            }
        }
        proof {
            assert(v@.subrange(0, v@.len() as int) =~= v@);
        }
        let n = mapped.len();
        let mut out: Vec<char> = Vec::new();
        let mut p: usize = 0;
        proof {
            assert(mapped@.subrange(0, n as int) =~= mapped@);
        }
        while p < n
            invariant
                n == mapped@.len(),
                p <= n,
                collapse_double_underscore(mapped@) == out@ + collapse_double_underscore(
                    mapped@.subrange(p as int, n as int),
                ),
            decreases n - p,
        {
            let ghost t = mapped@.subrange(p as int, n as int);
            if p + 1 < n && mapped[p] == '_' && mapped[p + 1] == '_' {
                out.push('_');
                proof {
                    assert(t.subrange(2, t.len() as int) =~= mapped@.subrange(p + 2, n as int));
                }
                p = p + 2;
            } else {
                out.push(mapped[p]);
                proof {
                    assert(t[0] == mapped@[p as int]);
                    if t.len() >= 2 {
                        assert(t[1] == mapped@[p + 1]);
                    }
                    assert(t.subrange(1, t.len() as int) =~= mapped@.subrange(p + 1, n as int));
                }
                p = p + 1;
            }
        }
        proof {
            assert(collapse_double_underscore(mapped@.subrange(n as int, n as int))
                =~= Seq::<char>::empty());
            assert(out@ =~= collapse_double_underscore(mapped@));
        }
        let mut s = crate::paths::dir_prefix(&self.cache_dir);
        let keypart = string_of_chars(&out);
        s.append(keypart.as_str());
        s.append(".json");
        proof {
            assert(s@ =~= under_root(self.dir(), safe_key(key@) + ".json"@));
        }
        s
    }
}

/// Cache statistics, as measured by the surrounding binary.
#[derive(Debug, Clone, Copy, PartialEq, Eq, Structural)]
pub struct CacheStats {
    pub total_files: usize,
    pub total_size_bytes: u64,
}

} // verus!
