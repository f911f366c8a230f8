//! The response cache without its files: where an entry lives, and whether
//! an entry that was found may still be used.
//!
//! Entries are files named after their key. The caller looks at the file
//! and asks the cache what to do with it.

use crate::text::concat2;
use crate::text::from_chars;
use crate::text::join_path;
use crate::text::joined_path;
use crate::text::to_chars;
use vstd::prelude::*;

verus! {

/// How long an entry may be used unless told otherwise: a day, in seconds.
pub const DEFAULT_TTL_SECS: u64 = 86400;

/// The settings of the response cache.
#[derive(Debug)]
pub struct Cache {
    cache_dir: String,
    ttl_secs: u64,
    enabled: bool,
}

/// The cache as the contracts see it.
pub struct CacheView {
    /// The directory that holds the entries.
    pub dir: Seq<char>,
    /// How many seconds an entry may be used.
    pub ttl_secs: u64,
    /// Whether the cache is in use at all.
    pub enabled: bool,
}

/// How old an entry is.
#[derive(Clone, Copy, Debug, PartialEq, Eq, Structural)]
pub struct Age {
    pub secs: u64,
    pub nanos: u32,
}

/// What the caller found where an entry should be.
#[derive(Clone, Copy, Debug, PartialEq, Eq, Structural)]
pub enum EntryState {
    /// No file.
    Absent,
    /// A file; its age is unknown where the file's time cannot be read or
    /// lies in the future.
    Present { age: Option<Age> },
}

/// What to do about an entry.
#[derive(Clone, Copy, Debug, PartialEq, Eq, Structural)]
pub enum CacheAction {
    /// There is nothing to use.
    Miss,
    /// The entry is too old: delete it; there is nothing to use.
    Evict,
    /// Read the entry. If its content cannot be read or understood, there
    /// is nothing to use.
    Read,
}

/// `dirs::cache_dir`, as text: the user's cache directory, where the
/// platform has one. It depends on the environment, so nothing is claimed
/// of it.
#[verifier::external_body]
fn platform_cache_dir() -> Option<String> {
    match dirs::cache_dir() {
        Some(path) => Some(path.to_string_lossy().into_owned()),
        None => None,
    }
}

/// A key as a file name may hold it: `/` and `:` become `_`.
pub open spec fn sanitized(key: Seq<char>) -> Seq<char> {
    key.map_values(
        |c: char|
            if c == '/' || c == ':' {
                '_'
            } else {
                c
            },
    )
}

/// The name of the file that holds the entry for `key`.
pub open spec fn entry_file_name(key: Seq<char>) -> Seq<char> {
    sanitized(key) + ".json"@
}

/// Whether an entry of that age is older than `ttl_secs` seconds.
pub open spec fn is_expired(age: Age, ttl_secs: u64) -> bool {
    age.secs > ttl_secs || (age.secs == ttl_secs && age.nanos > 0)
}

/// What to do about an entry. A cache that is not in use never has
/// anything. An entry of unknown age counts as absent and is left alone.
/// An entry older than the time to live is evicted; any other is read.
pub open spec fn action_for(cache: CacheView, entry: EntryState) -> CacheAction {
    if !cache.enabled {
        CacheAction::Miss
    } else {
        match entry {
            EntryState::Absent => CacheAction::Miss,
            EntryState::Present { age: None } => CacheAction::Miss,
            EntryState::Present { age: Some(age) } => if is_expired(age, cache.ttl_secs) {
                CacheAction::Evict
            } else {
                CacheAction::Read
            },
        }
    }
}

impl View for Cache {
    type V = CacheView;

    closed spec fn view(&self) -> CacheView {
        CacheView { dir: self.cache_dir@, ttl_secs: self.ttl_secs, enabled: self.enabled }
    }
}

impl Cache {
    /// A cache below the directory `base`, or below the current directory
    /// where there is no `base`, with the default time to live.
    pub fn in_dir(base: Option<&str>, enabled: bool) -> (cache: Cache)
        ensures
            cache@.enabled == enabled,
            cache@.ttl_secs == DEFAULT_TTL_SECS,
            cache@.dir == joined_path(
                match base {
                    Some(b) => b@,
                    None => "."@,
                },
                "ghr"@,
            ),
    {
        let cache_dir = match base {
            Some(b) => join_path(b, "ghr"),
            None => join_path(".", "ghr"),
        };
        Cache { cache_dir, ttl_secs: DEFAULT_TTL_SECS, enabled }
    }

    /// A cache below the user's cache directory, or below the current
    /// directory where the platform has none, with the default time to
    /// live.
    pub fn new(enabled: bool) -> (cache: Cache)
        ensures
            cache@.enabled == enabled,
            cache@.ttl_secs == DEFAULT_TTL_SECS,
            exists|base: Seq<char>| cache@.dir == joined_path(base, "ghr"@),
    {
        let base = platform_cache_dir();
        match &base {
            Some(b) => Cache::in_dir(Some(b.as_str()), enabled),
            None => Cache::in_dir(None, enabled),
        }
    }

    /// A cache like `new` makes it, whose entries may be used for
    /// `ttl_hours` hours.
    pub fn with_ttl(enabled: bool, ttl_hours: u64) -> (cache: Cache)
        requires
            ttl_hours * 3600 <= u64::MAX,
        ensures
            cache@.enabled == enabled,
            cache@.ttl_secs == ttl_hours * 3600,
            exists|base: Seq<char>| cache@.dir == joined_path(base, "ghr"@),
    {
        let mut cache = Cache::new(enabled);
        cache.ttl_secs = ttl_hours * 60 * 60;
        cache
    }

    /// Whether the cache is in use.
    pub fn is_enabled(&self) -> (b: bool)
        ensures
            b == self@.enabled,
    {
        self.enabled
    }

    /// How many seconds an entry may be used.
    pub fn ttl_secs(&self) -> (t: u64)
        ensures
            t == self@.ttl_secs,
    {
        self.ttl_secs
    }

    /// The directory that holds the entries.
    pub fn cache_dir(&self) -> (dir: String)
        ensures
            dir@ == self@.dir,
    {
        self.cache_dir.clone()
    }

    /// The file that holds the entry for `key`.
    pub fn cache_path(&self, key: &str) -> (path: String)
        ensures
            path@ == joined_path(self@.dir, entry_file_name(key@)),
    {
        let mut chars = to_chars(key);
        let n = chars.len();
        let mut i: usize = 0;
        while i < n
            invariant
                i <= n,
                n == chars@.len(),
                n == key@.len(),
                forall|j: int| 0 <= j < i ==> chars@[j] == sanitized(key@)[j],
                forall|j: int| i <= j < n ==> chars@[j] == key@[j],
            decreases n - i,
        {
            let c = chars[i];
            if c == '/' || c == ':' {
                chars.set(i, '_');
            }
            i += 1;
        }
        assert(chars@ =~= sanitized(key@));
        let name = concat2(from_chars(chars.as_slice()).as_str(), ".json");
        join_path(self.cache_dir.as_str(), name.as_str())
    }

    /// What to do about the entry that was found, or not found, for a key.
    pub fn lookup(&self, entry: EntryState) -> (action: CacheAction)
        ensures
            action == action_for(self@, entry),
    {
        if !self.enabled {
            return CacheAction::Miss;
        }
        match entry {
            EntryState::Absent => CacheAction::Miss,
            EntryState::Present { age: None } => CacheAction::Miss,
            EntryState::Present { age: Some(age) } => {
                if age.secs > self.ttl_secs || (age.secs == self.ttl_secs && age.nanos > 0) {
                    CacheAction::Evict
                } else {
                    CacheAction::Read
                }
            },
        }
    }

    /// Where to write the entry for `key`: nowhere where the cache is not
    /// in use, so that storing then does nothing and succeeds.
    pub fn store_path(&self, key: &str) -> (path: Option<String>)
        ensures
            path is Some <==> self@.enabled,
            path matches Some(p) ==> p@ == joined_path(self@.dir, entry_file_name(key@)),
    {
        if self.enabled {
            Some(self.cache_path(key))
        } else {
            None
        }
    }
}

/// An entry that was written just now is read back, whatever the time to
/// live: a stored value is found again at once.
pub proof fn law_fresh_entry_is_read(cache: CacheView)
    requires
        cache.enabled,
    ensures
        action_for(cache, EntryState::Present { age: Some(Age { secs: 0, nanos: 0 }) })
            == CacheAction::Read,
{
}

/// An entry older than the time to live is evicted, never read.
pub proof fn law_stale_entry_is_evicted(cache: CacheView, age: Age)
    requires
        cache.enabled,
        age.secs > cache.ttl_secs,
    ensures
        action_for(cache, EntryState::Present { age: Some(age) }) == CacheAction::Evict,
{
}

/// A cache that is not in use has nothing, whatever lies on disk.
pub proof fn law_disabled_cache_always_misses(cache: CacheView, entry: EntryState)
    requires
        !cache.enabled,
    ensures
        action_for(cache, entry) == CacheAction::Miss,
{
}

/// The name of an entry's file holds no `/` and no `:` before its
/// extension, whatever the key.
pub proof fn law_sanitized_key_is_flat(key: Seq<char>)
    ensures
        sanitized(key).len() == key.len(),
        !sanitized(key).contains('/'),
        !sanitized(key).contains(':'),
{
}

} // verus!
