//! The registry client's decisions: which registries are asked, what the
//! cache answers, what is cached, and how an error reads. The request
//! itself is made by the caller between `answer_without_request` and
//! `record_answer`.
use vstd::prelude::*;

use crate::contract::{DependencyVerificationConfig, RegistryConfig};
use crate::registry::cache::{cache_key_of, lookup_at, opt_status_view, CacheEntryView};
use crate::registry::{
    allowlisted, is_allowlisted, PackageStatus, PackageStatusView, RegistryCache, RegistryError,
    RegistryType,
};
use crate::text::{chars_of, concat_str, string_of};

verus! {

/// What a registry error says.
pub open spec fn error_text(e: RegistryError) -> Seq<char> {
    match e {
        RegistryError::Network(m) => "network error: "@ + m@,
        RegistryError::Timeout => "request timed out"@,
        RegistryError::RateLimited => "rate limited by registry"@,
        RegistryError::Unavailable(m) => "registry unavailable: "@ + m@,
    }
}

impl RegistryError {
    /// The text of the error.
    pub fn message(&self) -> (r: String)
        ensures
            r@ == error_text(*self),
    {
        match self {
            RegistryError::Network(m) => string_of(
                concat_str(chars_of("network error: ").as_slice(), m.as_str()).as_slice(),
            ),
            RegistryError::Timeout => String::from_str("request timed out"),
            RegistryError::RateLimited => String::from_str("rate limited by registry"),
            RegistryError::Unavailable(m) => string_of(
                concat_str(chars_of("registry unavailable: ").as_slice(), m.as_str()).as_slice(),
            ),
        }
    }
}

/// The configuration of one registry.
pub open spec fn registry_config(c: DependencyVerificationConfig, r: RegistryType) -> RegistryConfig {
    match r {
        RegistryType::PyPI => c.registries.pypi,
        RegistryType::Npm => c.registries.npm,
        RegistryType::Crates => c.registries.crates,
        RegistryType::Go => c.registries.go,
    }
}

/// The answer known without asking the registry: `registry disabled` for a
/// disabled registry, else what the cache holds (fresh) for the package.
pub open spec fn known_answer(
    c: DependencyVerificationConfig,
    cache: Map<Seq<char>, CacheEntryView>,
    ttl: u32,
    registry: RegistryType,
    package: Seq<char>,
    now: u64,
) -> Option<PackageStatusView> {
    if !registry_config(c, registry).enabled {
        Some(PackageStatusView::Unknown("registry disabled"@))
    } else {
        lookup_at(cache, cache_key_of(registry, package), now, ttl)
    }
}

/// Checks package existence against the registries: configuration, the
/// lookup cache, and the allowlist.
pub struct RegistryClient {
    cache: RegistryCache,
    config: DependencyVerificationConfig,
}

impl RegistryClient {
    pub closed spec fn config(&self) -> DependencyVerificationConfig {
        self.config
    }

    pub closed spec fn cache_entries(&self) -> Map<Seq<char>, CacheEntryView> {
        self.cache.entries()
    }

    pub closed spec fn cache_ttl(&self) -> u32 {
        self.cache.ttl()
    }

    /// Create a new registry client with the given configuration.
    pub fn new(config: DependencyVerificationConfig) -> (r: RegistryClient)
        ensures
            r.config() == config,
            r.cache_entries() == Map::<Seq<char>, CacheEntryView>::empty(),
            r.cache_ttl() == config.cache_ttl_hours,
    {
        let cache = RegistryCache::new(config.cache_ttl_hours);
        RegistryClient { cache, config }
    }

    /// The timeout of a registry's requests, in milliseconds.
    pub fn timeout_ms(&self, registry: RegistryType) -> (r: u64)
        ensures
            r == registry_config(self.config(), registry).timeout_ms,
    {
        match registry {
            RegistryType::PyPI => self.config.registries.pypi.timeout_ms,
            RegistryType::Npm => self.config.registries.npm.timeout_ms,
            RegistryType::Crates => self.config.registries.crates.timeout_ms,
            RegistryType::Go => self.config.registries.go.timeout_ms,
        }
    }

    /// The answer to a package check that needs no request (`None`: the
    /// registry must be asked).
    pub fn answer_without_request(&self, registry: RegistryType, package: &str, now: u64) -> (r:
        Option<PackageStatus>)
        ensures
            opt_status_view(r) == known_answer(
                self.config(),
                self.cache_entries(),
                self.cache_ttl(),
                registry,
                package@,
                now,
            ),
    {
        let enabled = match registry {
            RegistryType::PyPI => self.config.registries.pypi.enabled,
            RegistryType::Npm => self.config.registries.npm.enabled,
            RegistryType::Crates => self.config.registries.crates.enabled,
            RegistryType::Go => self.config.registries.go.enabled,
        };
        if !enabled {
            return Some(PackageStatus::Unknown(String::from_str("registry disabled")));
        }
        self.cache.get_at(registry, package, now)
    }

    /// Record a registry's answer: found and not-found answers are cached,
    /// others are not.
    pub fn record_answer(
        &mut self,
        registry: RegistryType,
        package: &str,
        answer: &Result<PackageStatus, RegistryError>,
        now: u64,
    )
        ensures
            final(self).config() == old(self).config(),
            final(self).cache_ttl() == old(self).cache_ttl(),
            match answer {
                Ok(PackageStatus::Exists) => final(self).cache_entries() == old(
                    self,
                ).cache_entries().insert(
                    cache_key_of(registry, package@),
                    CacheEntryView { status: PackageStatusView::Exists, timestamp: now },
                ),
                Ok(PackageStatus::NotFound) => final(self).cache_entries() == old(
                    self,
                ).cache_entries().insert(
                    cache_key_of(registry, package@),
                    CacheEntryView { status: PackageStatusView::NotFound, timestamp: now },
                ),
                _ => final(self).cache_entries() == old(self).cache_entries(),
            },
    {
        match answer {
            Ok(PackageStatus::Exists) => {
                self.cache.set_at(registry, package, PackageStatus::Exists, now);
            },
            Ok(PackageStatus::NotFound) => {
                self.cache.set_at(registry, package, PackageStatus::NotFound, now);
            },
            _ => {},
        }
    }

    /// Check if a package is in the allowlist.
    pub fn is_allowlisted(&self, package: &str) -> (r: bool)
        ensures
            r == allowlisted(self.config().allowlist@.map_values(|p: String| p@), package@),
    {
        is_allowlisted(&self.config.allowlist, package)
    }

    /// Whether to fail on timeout errors.
    pub fn fail_on_timeout(&self) -> (r: bool)
        ensures
            r == self.config().fail_on_timeout,
    {
        self.config.fail_on_timeout
    }
}

} // verus!
