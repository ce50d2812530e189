//! Cache for registry lookup results.
//!
//! Both positive (exists) and negative (not found) results are kept, so that
//! the same package is not looked up twice. The in-memory part lives here;
//! entries are also written to files (one per key, in the format that
//! [`format_cache_entry`] writes and [`parse_cache_entry`] reads) under the
//! user's cache directory.
use vstd::prelude::*;

use crate::detect::types::str_eq;
use crate::registry::{registry_name, PackageStatus, PackageStatusView, RegistryType};
use crate::text::{
    chars_of, chars_eq_str, concat, concat_str, decimal, first_char_from, lemma_first_char_from,
    lemma_first_char_is, lemma_parse_decimal, parse_u64, parse_u64_spec, replace_char,
    replace_char_with, slice_range, string_of, trailing_ws, trim, trim_chars, u64_to_decimal,
    find_char_from, is_ws, leading_ws, lemma_leading_ws_bound, lemma_trailing_ws_bound,
};

verus! {

/// A cached answer and when it was stored (Unix seconds).
#[derive(Debug, Clone)]
pub struct CacheEntry {
    pub status: PackageStatus,
    pub timestamp: u64,
}

pub struct CacheEntryView {
    pub status: PackageStatusView,
    pub timestamp: u64,
}

impl View for CacheEntry {
    type V = CacheEntryView;

    open spec fn view(&self) -> CacheEntryView {
        CacheEntryView { status: self.status@, timestamp: self.timestamp }
    }
}

pub open spec fn opt_entry_view(o: Option<CacheEntry>) -> Option<CacheEntryView> {
    match o {
        Some(e) => Some(e@),
        None => None,
    }
}

pub open spec fn opt_status_view(o: Option<PackageStatus>) -> Option<PackageStatusView> {
    match o {
        Some(s) => Some(s@),
        None => None,
    }
}

/// The key of a registry/package pair: `registry:package`.
pub open spec fn cache_key_of(registry: RegistryType, package: Seq<char>) -> Seq<char> {
    registry_name(registry) + ":"@ + package
}

/// The entries as a map: a later entry for a key replaces an earlier one.
pub open spec fn entries_map(v: Seq<(String, CacheEntry)>) -> Map<Seq<char>, CacheEntryView>
    decreases v.len(),
{
    if v.len() == 0 {
        Map::empty()
    } else {
        entries_map(v.drop_last()).insert(v.last().0@, v.last().1@)
    }
}

/// An entry stored at `timestamp` is still fresh at `now` under the TTL.
pub open spec fn is_fresh(timestamp: u64, now: u64, ttl_hours: u32) -> bool {
    timestamp <= now && now - timestamp < ttl_hours * 3600
}

/// What a lookup of `key` at `now` answers: the stored status if it is fresh.
pub open spec fn lookup_at(
    m: Map<Seq<char>, CacheEntryView>,
    key: Seq<char>,
    now: u64,
    ttl_hours: u32,
) -> Option<PackageStatusView> {
    if m.contains_key(key) && is_fresh(m[key].timestamp, now, ttl_hours) {
        Some(m[key].status)
    } else {
        None
    }
}

/// In-memory cache for registry results.
pub struct RegistryCache {
    /// Entries of the current session, oldest first
    memory: Vec<(String, CacheEntry)>,
    /// Path to the cache directory, if the platform has one
    cache_dir: Option<String>,
    /// TTL in hours
    ttl_hours: u32,
}

/// The cache directory of an application, as the `directories` crate finds
/// it (`ProjectDirs::from`, then `ProjectDirs::cache_dir`). It depends on the
/// platform and the environment, so nothing is stated of it.
#[verifier::external_body]
fn project_cache_dir(qualifier: &str, organization: &str, application: &str) -> (r: Option<String>) {
    directories::ProjectDirs::from(qualifier, organization, application).map(
        |d| d.cache_dir().to_string_lossy().to_string(),
    )
}

/// The current Unix time in seconds (`SystemTime::now`); nothing is stated
/// of the value.
#[verifier::external_body]
pub fn current_timestamp() -> (r: u64) {
    std::time::SystemTime::now().duration_since(std::time::UNIX_EPOCH).map_or(0, |d| d.as_secs())
}

impl RegistryCache {
    /// The cached entries, by key.
    pub closed spec fn entries(&self) -> Map<Seq<char>, CacheEntryView> {
        entries_map(self.memory@)
    }

    pub closed spec fn ttl(&self) -> u32 {
        self.ttl_hours
    }

    pub closed spec fn dir(&self) -> Option<Seq<char>> {
        match self.cache_dir {
            Some(d) => Some(d@),
            None => None,
        }
    }

    /// Create a new registry cache with the given TTL; its files go to
    /// `registry` under this tool's cache directory, where the platform has
    /// one.
    pub fn new(ttl_hours: u32) -> (r: RegistryCache)
        ensures
            r.entries() == Map::<Seq<char>, CacheEntryView>::empty(),
            r.ttl() == ttl_hours,
            r.dir() matches Some(d) ==> exists|base: Seq<char>|
                d == crate::paths::path_join_of(base, "registry"@),
    {
        let cache_dir = match project_cache_dir("", "", "hollowcheck") {
            Some(base) => Some(crate::paths::path_join(base.as_str(), "registry")),
            None => None,
        };
        RegistryCache { memory: Vec::new(), cache_dir, ttl_hours }
    }

    /// A cache that keeps its files in the given directory (or none).
    pub fn with_dir(ttl_hours: u32, cache_dir: Option<String>) -> (r: RegistryCache)
        ensures
            r.entries() == Map::<Seq<char>, CacheEntryView>::empty(),
            r.ttl() == ttl_hours,
            r.dir() == crate::paths::opt_string_view(cache_dir),
    {
        RegistryCache { memory: Vec::new(), cache_dir, ttl_hours }
    }

    /// The directory that holds the cache files.
    pub fn cache_dir(&self) -> (r: Option<String>)
        ensures
            crate::paths::opt_string_view(r) == self.dir(),
    {
        match &self.cache_dir {
            Some(d) => Some(d.clone()),
            None => None,
        }
    }

    pub fn ttl_hours(&self) -> (r: u32)
        ensures
            r == self.ttl(),
    {
        self.ttl_hours
    }

    /// Generate a cache key for a registry/package pair.
    pub fn cache_key(registry: RegistryType, package: &str) -> (r: String)
        ensures
            r@ == cache_key_of(registry, package@),
    {
        let mut s = String::from_str(registry.as_str());
        s.append(":");
        s.append(package);
        s
    }

    /// The entry stored for a key, if any.
    pub fn entry_for(&self, key: &str) -> (r: Option<CacheEntry>)
        ensures
            opt_entry_view(r) == (if self.entries().contains_key(key@) {
                Some(self.entries()[key@])
            } else {
                None
            }),
    {
        let ghost v = self.memory@;
        let mut j = self.memory.len();
        assert(v.take(j as int) =~= v);
        while j > 0
            invariant
                j <= v.len(),
                v == self.memory@,
                entries_map(v).contains_key(key@) == entries_map(v.take(j as int)).contains_key(
                    key@,
                ),
                entries_map(v).contains_key(key@) ==> entries_map(v)[key@] == entries_map(
                    v.take(j as int),
                )[key@],
            decreases j,
        {
            let k = j - 1;
            assert(v.take(j as int).drop_last() =~= v.take(k as int));
            assert(v.take(j as int).last() == v[k as int]);
            assert(entries_map(v.take(j as int)) == entries_map(v.take(k as int)).insert(
                v[k as int].0@,
                v[k as int].1@,
            ));
            if crate::detect::types::str_eq(self.memory[k].0.as_str(), key) {
                let e = &self.memory[k].1;
                return Some(CacheEntry { status: e.status.duplicate(), timestamp: e.timestamp });
            }
            j = k;
        }
        None
    }

    /// Get a cached result at time `now`, if it exists and is not expired.
    pub fn get_at(&self, registry: RegistryType, package: &str, now: u64) -> (r: Option<
        PackageStatus,
    >)
        ensures
            opt_status_view(r) == lookup_at(
                self.entries(),
                cache_key_of(registry, package@),
                now,
                self.ttl(),
            ),
    {
        let key = Self::cache_key(registry, package);
        let ttl_secs: u64 = (self.ttl_hours as u64) * 3600;
        match self.entry_for(key.as_str()) {
            Some(e) => {
                if e.timestamp <= now && now - e.timestamp < ttl_secs {
                    Some(e.status)
                } else {
                    None
                }
            },
            None => None,
        }
    }

    /// Get a cached result if it exists and is not expired (as of now).
    pub fn get(&self, registry: RegistryType, package: &str) -> (r: Option<PackageStatus>)
        ensures
            exists|now: u64|
                opt_status_view(r) == #[trigger] lookup_at(
                    self.entries(),
                    cache_key_of(registry, package@),
                    now,
                    self.ttl(),
                ),
            r matches Some(s) ==> self.entries().contains_key(cache_key_of(registry, package@))
                && self.entries()[cache_key_of(registry, package@)].status == s@,
    {
        let now = current_timestamp();
        self.get_at(registry, package, now)
    }

    /// Store an entry under a key (replacing what the key held).
    pub fn insert_entry(&mut self, key: &str, entry: CacheEntry)
        ensures
            final(self).entries() == old(self).entries().insert(key@, entry@),
            final(self).ttl() == old(self).ttl(),
            final(self).dir() == old(self).dir(),
    {
        let k = String::from_str(key);
        self.memory.push((k, entry));
        assert(self.memory@.drop_last() =~= old(self).memory@);
    }

    /// Store a result in the cache, stamped with time `now`.
    pub fn set_at(&mut self, registry: RegistryType, package: &str, status: PackageStatus, now: u64)
        ensures
            final(self).entries() == old(self).entries().insert(
                cache_key_of(registry, package@),
                CacheEntryView { status: status@, timestamp: now },
            ),
            final(self).ttl() == old(self).ttl(),
            final(self).dir() == old(self).dir(),
    {
        let key = Self::cache_key(registry, package);
        self.insert_entry(key.as_str(), CacheEntry { status, timestamp: now });
    }

    /// Store a result in the cache, stamped with the current time.
    pub fn set(&mut self, registry: RegistryType, package: &str, status: PackageStatus)
        ensures
            exists|now: u64|
                final(self).entries() == #[trigger] old(self).entries().insert(
                    cache_key_of(registry, package@),
                    CacheEntryView { status: status@, timestamp: now },
                ),
            final(self).entries().contains_key(cache_key_of(registry, package@)),
            final(self).entries()[cache_key_of(registry, package@)].status == status@,
            forall|k: Seq<char>|
                k != cache_key_of(registry, package@) ==> #[trigger] final(self).entries().contains_key(k)
                    == old(self).entries().contains_key(k) && (old(self).entries().contains_key(k)
                    ==> final(self).entries()[k] == old(self).entries()[k]),
            final(self).ttl() == old(self).ttl(),
    {
        let now = current_timestamp();
        self.set_at(registry, package, status, now);
    }
}

/// A lookup right after a store answers what was stored, while it is fresh;
/// other keys answer as before.
pub proof fn lemma_get_after_set(
    m: Map<Seq<char>, CacheEntryView>,
    key: Seq<char>,
    other: Seq<char>,
    status: PackageStatusView,
    stored_at: u64,
    now: u64,
    ttl_hours: u32,
)
    ensures
        is_fresh(stored_at, now, ttl_hours) ==> lookup_at(
            m.insert(key, CacheEntryView { status, timestamp: stored_at }),
            key,
            now,
            ttl_hours,
        ) == Some(status),
        other != key ==> lookup_at(
            m.insert(key, CacheEntryView { status, timestamp: stored_at }),
            other,
            now,
            ttl_hours,
        ) == lookup_at(m, other, now, ttl_hours),
{
}

/// A read after a store of the same package answers the stored status while
/// it is fresh: whatever times the store and the read took from the clock
/// (`set` and `get` state that there are such times), if the read came no
/// earlier than the store and within the time to live, it finds what was
/// stored.
pub proof fn lemma_read_after_store(
    before: RegistryCache,
    after: RegistryCache,
    registry: RegistryType,
    package: Seq<char>,
    status: PackageStatus,
    stored_at: u64,
    read: Option<PackageStatus>,
    read_at: u64,
)
    requires
        after.entries() == before.entries().insert(
            cache_key_of(registry, package),
            CacheEntryView { status: status@, timestamp: stored_at },
        ),
        opt_status_view(read) == lookup_at(
            after.entries(),
            cache_key_of(registry, package),
            read_at,
            after.ttl(),
        ),
        is_fresh(stored_at, read_at, after.ttl()),
    ensures
        opt_status_view(read) == Some(status@),
{
    lemma_get_after_set(
        before.entries(),
        cache_key_of(registry, package),
        cache_key_of(registry, package),
        status@,
        stored_at,
        read_at,
        after.ttl(),
    );
}

// ---------------------------------------------------------------------------
// File format
// ---------------------------------------------------------------------------

/// The name of the file that holds a key's entry: `:` and `/` become `_`,
/// then `.cache` is appended.
pub open spec fn cache_file_name_of(key: Seq<char>) -> Seq<char> {
    replace_char(replace_char(key, ':', seq!['_']), '/', seq!['_']) + ".cache"@
}

pub fn cache_file_name(key: &str) -> (r: String)
    ensures
        r@ == cache_file_name_of(key@),
{
    let k = chars_of(key);
    let a = replace_char_with(k.as_slice(), ':', '_');
    let b = replace_char_with(a.as_slice(), '/', '_');
    let c = concat_str(b.as_slice(), ".cache");
    string_of(c.as_slice())
}

/// An entry as a line of text: `exists:TS`, `notfound:TS` or `unknown:TS:MESSAGE`.
pub open spec fn formatted_entry(e: CacheEntryView) -> Seq<char> {
    match e.status {
        PackageStatusView::Exists => "exists:"@ + decimal(e.timestamp as nat),
        PackageStatusView::NotFound => "notfound:"@ + decimal(e.timestamp as nat),
        PackageStatusView::Unknown(m) => "unknown:"@ + decimal(e.timestamp as nat) + ":"@ + m,
    }
}

/// Format a cache entry for file storage.
pub fn format_cache_entry(entry: &CacheEntry) -> (r: String)
    ensures
        r@ == formatted_entry(entry@),
{
    let ts = u64_to_decimal(entry.timestamp);
    let out = match &entry.status {
        PackageStatus::Exists => concat(chars_of("exists:").as_slice(), ts.as_slice()),
        PackageStatus::NotFound => concat(chars_of("notfound:").as_slice(), ts.as_slice()),
        PackageStatus::Unknown(msg) => {
            let a = concat(chars_of("unknown:").as_slice(), ts.as_slice());
            let b = concat_str(a.as_slice(), ":");
            concat_str(b.as_slice(), msg.as_str())
        },
    };
    string_of(out.as_slice())
}

/// `str::splitn(3, c)`: the text before the first `c`, between the first
/// and the second, and the rest (as many pieces as there are).
pub open spec fn split3(s: Seq<char>, c: char) -> Seq<Seq<char>> {
    let i = first_char_from(s, c, 0);
    if i >= s.len() {
        seq![s]
    } else {
        let j = first_char_from(s, c, i + 1);
        if j >= s.len() {
            seq![s.take(i), s.skip(i + 1)]
        } else {
            seq![s.take(i), s.subrange(i + 1, j), s.skip(j + 1)]
        }
    }
}

/// The entry a file's content describes: the content trimmed, split at the
/// first two `:`, a timestamp in the second piece and a known status word in
/// the first (an `unknown` without a message reads as `unknown error`).
pub open spec fn parsed_entry(content: Seq<char>) -> Option<CacheEntryView> {
    let parts = split3(trim(content), ':');
    if parts.len() < 2 {
        None
    } else {
        match parse_u64_spec(parts[1]) {
            None => None,
            Some(ts) => if parts[0] == "exists"@ {
                Some(CacheEntryView { status: PackageStatusView::Exists, timestamp: ts })
            } else if parts[0] == "notfound"@ {
                Some(CacheEntryView { status: PackageStatusView::NotFound, timestamp: ts })
            } else if parts[0] == "unknown"@ {
                Some(
                    CacheEntryView {
                        status: PackageStatusView::Unknown(
                            if parts.len() > 2 {
                                parts[2]
                            } else {
                                "unknown error"@
                            },
                        ),
                        timestamp: ts,
                    },
                )
            } else {
                None
            },
        }
    }
}

/// Parse a cache entry from file content.
pub fn parse_cache_entry(content: &str) -> (r: Option<CacheEntry>)
    ensures
        opt_entry_view(r) == parsed_entry(content@),
{
    let cs = chars_of(content);
    let t = trim_chars(cs.as_slice());
    let ghost ts = t@;
    let i = find_char_from(t.as_slice(), ':', 0);
    if i >= t.len() {
        return None;
    }
    proof {
        lemma_first_char_from(ts, ':', 0);
    }
    let j = find_char_from(t.as_slice(), ':', i + 1);
    let first = slice_range(t.as_slice(), 0, i);
    let second = slice_range(t.as_slice(), i + 1, j);
    assert(first@ =~= ts.take(i as int));
    let stamp = match parse_u64(second.as_slice()) {
        Some(v) => v,
        None => {
            proof {
                if j >= ts.len() {
                    assert(second@ =~= ts.skip(i + 1));
                }
            }
            return None;
        },
    };
    proof {
        if j >= ts.len() {
            assert(second@ =~= ts.skip(i + 1));
        }
    }
    if chars_eq_str(first.as_slice(), "exists") {
        Some(CacheEntry { status: PackageStatus::Exists, timestamp: stamp })
    } else if chars_eq_str(first.as_slice(), "notfound") {
        Some(CacheEntry { status: PackageStatus::NotFound, timestamp: stamp })
    } else if chars_eq_str(first.as_slice(), "unknown") {
        let msg = if j < t.len() {
            let m = slice_range(t.as_slice(), j + 1, t.len());
            assert(m@ =~= ts.skip(j + 1));
            string_of(m.as_slice())
        } else {
            String::from_str("unknown error")
        };
        Some(CacheEntry { status: PackageStatus::Unknown(msg), timestamp: stamp })
    } else {
        None
    }
}

/// Reading back a written entry gives the entry, for every entry whose
/// message (if any) does not end in whitespace (the reader trims the line).
pub proof fn lemma_parse_formatted(e: CacheEntryView)
    requires
        e.status matches PackageStatusView::Unknown(m) ==> m.len() == 0 || !is_ws(m.last()),
    ensures
        parsed_entry(formatted_entry(e)) == Some(e),
{
    reveal_strlit("exists:");
    reveal_strlit("notfound:");
    reveal_strlit("unknown:");
    reveal_strlit(":");
    reveal_strlit("exists");
    reveal_strlit("notfound");
    reveal_strlit("unknown");
    let d = decimal(e.timestamp as nat);
    crate::text::lemma_decimal_digits(e.timestamp as nat);
    lemma_parse_decimal(e.timestamp);
    let f = formatted_entry(e);
    let w: Seq<char> = match e.status {
        PackageStatusView::Exists => "exists"@,
        PackageStatusView::NotFound => "notfound"@,
        PackageStatusView::Unknown(_) => "unknown"@,
    };
    let wl = w.len() as int;
    // The line starts with the word, a colon and the digits.
    assert(f.take(wl) =~= w);
    assert(f[wl] == ':');
    assert(f.subrange(wl + 1, wl + 1 + d.len()) =~= d);
    assert forall|j: int| 0 <= j < wl implies f[j] != ':' by {
        assert(f[j] == w[j]);
    }
    assert forall|j: int| wl + 1 <= j < wl + 1 + d.len() implies f[j] != ':' by {
        assert(f[j] == d[j - wl - 1]);
        assert(crate::text::is_digit(d[j - wl - 1]));
    }
    // Trimming changes nothing.
    assert(!is_ws(f[0]));
    assert(leading_ws(f) == 0);
    assert(f.skip(0) =~= f);
    assert(!is_ws(f.last())) by {
        match e.status {
            PackageStatusView::Unknown(m) => {
                if m.len() > 0 {
                    assert(f.last() == m.last());
                } else {
                    assert(f.last() == ':');
                }
            },
            _ => {
                assert(f.last() == d.last());
                assert(crate::text::is_digit(d[d.len() - 1]));
            },
        }
    }
    assert(trailing_ws(f) == 0);
    assert(f.take(f.len() as int) =~= f);
    assert(trim(f) == f);
    lemma_first_char_is(f, ':', 0, wl);
    match e.status {
        PackageStatusView::Unknown(m) => {
            let j = wl + 1 + d.len();
            assert(f[j] == ':');
            lemma_first_char_is(f, ':', wl + 1, j);
            assert(f.subrange(wl + 1, j) =~= d);
            assert(f.skip(j + 1) =~= m);
            assert(split3(f, ':') =~= seq![w, d, m]);
        },
        _ => {
            assert(f.len() == wl + 1 + d.len());
            lemma_first_char_is(f, ':', wl + 1, f.len() as int);
            assert(f.skip(wl + 1) =~= d);
            assert(split3(f, ':') =~= seq![w, d]);
        },
    }
}

} // verus!
