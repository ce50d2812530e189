use hollowcheck::contract::DependencyVerificationConfig;
use hollowcheck::registry::cache::{
    cache_file_name, format_cache_entry, parse_cache_entry, CacheEntry, RegistryCache,
};
use hollowcheck::registry::crates::normalize_crate_name;
use hollowcheck::registry::go::encode_module_path;
use hollowcheck::registry::npm::encode_package_name;
use hollowcheck::registry::pypi::{generate_name_variants, normalize_package_name};
use hollowcheck::registry::{
    is_allowlisted, status_from_http, PackageStatus, RegistryClient, RegistryError, RegistryType,
};

#[test]
fn test_cache_key_format() {
    let key = RegistryCache::cache_key(RegistryType::PyPI, "requests");
    assert_eq!(key, "pypi:requests");

    let key = RegistryCache::cache_key(RegistryType::Npm, "@types/node");
    assert_eq!(key, "npm:@types/node");
}

#[test]
fn test_format_parse_cache_entry() {
    let entry = CacheEntry {
        status: PackageStatus::Exists,
        timestamp: 1234567890,
    };
    let formatted = format_cache_entry(&entry);
    let parsed = parse_cache_entry(&formatted).unwrap();

    assert_eq!(parsed.status, PackageStatus::Exists);
    assert_eq!(parsed.timestamp, 1234567890);
}

#[test]
fn test_format_parse_notfound() {
    let entry = CacheEntry {
        status: PackageStatus::NotFound,
        timestamp: 1234567890,
    };
    let formatted = format_cache_entry(&entry);
    let parsed = parse_cache_entry(&formatted).unwrap();

    assert_eq!(parsed.status, PackageStatus::NotFound);
}

#[test]
fn test_memory_cache() {
    let mut cache = RegistryCache::with_dir(24, None);

    cache.set(RegistryType::PyPI, "requests", PackageStatus::Exists);

    let result = cache.get(RegistryType::PyPI, "requests");
    assert_eq!(result, Some(PackageStatus::Exists));

    let result = cache.get(RegistryType::PyPI, "flask");
    assert_eq!(result, None);
}

#[test]
fn cache_entries_expire() {
    let mut cache = RegistryCache::with_dir(1, None);
    cache.set_at(RegistryType::Npm, "left-pad", PackageStatus::NotFound, 1000);
    assert_eq!(
        cache.get_at(RegistryType::Npm, "left-pad", 1000 + 3599),
        Some(PackageStatus::NotFound)
    );
    assert_eq!(cache.get_at(RegistryType::Npm, "left-pad", 1000 + 3601), None);
}

#[test]
fn cache_entry_format_and_file_name() {
    let entry = CacheEntry {
        status: PackageStatus::Unknown("HTTP 500".to_string()),
        timestamp: 7,
    };
    let formatted = format_cache_entry(&entry);
    let parsed = parse_cache_entry(&formatted).unwrap();
    assert_eq!(parsed.status, PackageStatus::Unknown("HTTP 500".to_string()));
    assert_eq!(parsed.timestamp, 7);
    assert!(parse_cache_entry("garbage").is_none());
    assert_eq!(cache_file_name("npm:@types/node"), "npm_@types_node.cache");
}

#[test]
fn test_normalize_crate_name() {
    assert_eq!(normalize_crate_name("serde"), "serde");
    assert_eq!(normalize_crate_name("serde_json"), "serde-json");
    assert_eq!(normalize_crate_name("Tokio"), "tokio");
    assert_eq!(normalize_crate_name("tree_sitter"), "tree-sitter");
}

#[test]
fn test_encode_module_path() {
    assert_eq!(encode_module_path("github.com/user/repo"), "github.com/user/repo");
    assert_eq!(
        encode_module_path("github.com/Azure/azure-sdk-for-go"),
        "github.com/!azure/azure-sdk-for-go"
    );
    assert_eq!(
        encode_module_path("github.com/BurntSushi/toml"),
        "github.com/!burnt!sushi/toml"
    );
}

#[test]
fn test_registry_type_from_extension() {
    assert_eq!(RegistryType::from_extension("py"), Some(RegistryType::PyPI));
    assert_eq!(RegistryType::from_extension("js"), Some(RegistryType::Npm));
    assert_eq!(RegistryType::from_extension("ts"), Some(RegistryType::Npm));
    assert_eq!(RegistryType::from_extension("rs"), Some(RegistryType::Crates));
    assert_eq!(RegistryType::from_extension("go"), Some(RegistryType::Go));
    assert_eq!(RegistryType::from_extension("java"), None);
}

#[test]
fn registry_extensions_lead_back() {
    for r in [
        RegistryType::PyPI,
        RegistryType::Npm,
        RegistryType::Crates,
        RegistryType::Go,
    ] {
        for ext in r.extensions() {
            assert_eq!(RegistryType::from_extension(ext), Some(r));
        }
    }
}

#[test]
fn test_allowlist_exact_match() {
    let config = DependencyVerificationConfig {
        enabled: true,
        allowlist: vec!["my-internal-pkg".to_string()],
        ..Default::default()
    };
    let client = RegistryClient::new(config);

    assert!(client.is_allowlisted("my-internal-pkg"));
    assert!(!client.is_allowlisted("other-pkg"));
}

#[test]
fn test_allowlist_glob_pattern() {
    let config = DependencyVerificationConfig {
        enabled: true,
        allowlist: vec!["company-*".to_string(), "@myorg/*".to_string()],
        ..Default::default()
    };
    let client = RegistryClient::new(config);

    assert!(client.is_allowlisted("company-utils"));
    assert!(client.is_allowlisted("company-core"));
    assert!(client.is_allowlisted("@myorg/auth"));
    assert!(!client.is_allowlisted("other-pkg"));
}

#[test]
fn allowlist_invalid_glob_matches_exactly() {
    let list = vec!["weird[".to_string()];
    assert!(is_allowlisted(&list, "weird["));
    assert!(!is_allowlisted(&list, "weird"));
    assert!(!is_allowlisted(&vec![], "anything"));
}

#[test]
fn client_answers_without_request() {
    let mut config = DependencyVerificationConfig {
        enabled: true,
        cache_ttl_hours: 24,
        ..Default::default()
    };
    config.registries.npm.enabled = false;
    let mut client = RegistryClient::new(config);
    assert_eq!(
        client.answer_without_request(RegistryType::Npm, "left-pad", 10),
        Some(PackageStatus::Unknown("registry disabled".to_string()))
    );
    assert_eq!(client.answer_without_request(RegistryType::PyPI, "requests", 10), None);
    client.record_answer(RegistryType::PyPI, "requests", &Ok(PackageStatus::Exists), 10);
    client.record_answer(
        RegistryType::PyPI,
        "flaky",
        &Ok(PackageStatus::Unknown("HTTP 500".to_string())),
        10,
    );
    assert_eq!(
        client.answer_without_request(RegistryType::PyPI, "requests", 11),
        Some(PackageStatus::Exists)
    );
    assert_eq!(client.answer_without_request(RegistryType::PyPI, "flaky", 11), None);
    assert_eq!(client.timeout_ms(RegistryType::Go), 5000);
}

#[test]
fn registry_error_messages() {
    assert_eq!(RegistryError::Timeout.message(), "request timed out");
    assert_eq!(RegistryError::RateLimited.message(), "rate limited by registry");
    assert_eq!(
        RegistryError::Network("boom".to_string()).message(),
        "network error: boom"
    );
    assert_eq!(
        RegistryError::Unavailable("down".to_string()).message(),
        "registry unavailable: down"
    );
}

#[test]
fn http_status_meanings() {
    assert_eq!(status_from_http(RegistryType::PyPI, 200), Ok(PackageStatus::Exists));
    assert_eq!(status_from_http(RegistryType::PyPI, 404), Ok(PackageStatus::NotFound));
    assert_eq!(status_from_http(RegistryType::Go, 410), Ok(PackageStatus::NotFound));
    assert_eq!(
        status_from_http(RegistryType::Npm, 410),
        Ok(PackageStatus::Unknown("HTTP 410".to_string()))
    );
    assert_eq!(status_from_http(RegistryType::Crates, 429), Err(RegistryError::RateLimited));
}

#[test]
fn test_encode_regular_package() {
    assert_eq!(encode_package_name("lodash"), "lodash");
    assert_eq!(encode_package_name("express"), "express");
}

#[test]
fn test_encode_scoped_package() {
    assert_eq!(encode_package_name("@types/node"), "%40types%2fnode");
    assert_eq!(encode_package_name("@babel/core"), "%40babel%2fcore");
}

#[test]
fn test_normalize_package_name() {
    assert_eq!(normalize_package_name("Requests"), "requests");
    assert_eq!(normalize_package_name("Flask_RESTful"), "flask-restful");
    assert_eq!(normalize_package_name("a__b--c..d"), "a-b-c-d");
    assert_eq!(normalize_package_name("typing_extensions"), "typing-extensions");
    assert_eq!(normalize_package_name("_private"), "private");
    assert_eq!(normalize_package_name("trailing_"), "trailing");
}

#[test]
fn test_generate_name_variants() {
    let variants = generate_name_variants("mysensors");
    assert!(variants.contains(&"mysensors".to_string()));
    assert!(variants.contains(&"pymysensors".to_string()));
    assert!(variants.contains(&"python-mysensors".to_string()));
    assert!(variants.contains(&"mysensors-client".to_string()));

    let variants = generate_name_variants("pysomething");
    assert!(variants.contains(&"pysomething".to_string()));
    assert!(variants.contains(&"something".to_string()));
}

#[test]
fn test_variants_for_async_packages() {
    let variants = generate_name_variants("evohomeasync");
    assert!(variants.iter().any(|v| v == "evohome"), "variants: {:?}", variants);

    let variants2 = generate_name_variants("evohome");
    assert!(
        variants2.iter().any(|v| v == "evohome-async"),
        "variants: {:?}",
        variants2
    );
}

#[test]
fn normalize_is_idempotent_on_examples() {
    for name in ["Flask_RESTful", "a__b--c..d", "_x_"] {
        let once = normalize_package_name(name);
        assert_eq!(normalize_package_name(&once), once);
    }
}
