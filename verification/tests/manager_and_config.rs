//! Cache decisions, download admission, the loaded set, and configuration
//! validation.

use wasmforge::config::{CacheConfig, Config, ConfigError, ModuleConfig, ModuleSource, ServerConfig};
use wasmforge::digest::calculate_checksum;
use wasmforge::manager::{
    admit_http_download, build_local_metadata, is_cache_valid, should_use_cache, LoadError,
    ModuleManager,
};

fn plain_module(name: &[u8], source: ModuleSource, enabled: bool) -> ModuleConfig {
    ModuleConfig {
        name: name.to_vec(),
        version: None,
        description: None,
        source,
        enabled,
        tools: None,
        metadata: None,
    }
}

fn plain_config(modules: Vec<ModuleConfig>) -> Config {
    Config {
        server: ServerConfig {
            name: b"wasmforge".to_vec(),
            version: b"0.1.0".to_vec(),
            default_port: None,
            default_host: b"127.0.0.1".to_vec(),
        },
        modules,
        cache: CacheConfig { directory: b"/tmp/cache".to_vec(), max_size_mb: 100, ttl_hours: 24 },
    }
}

const GOOD_HEADER: [u8; 8] = [0x00, 0x61, 0x73, 0x6d, 0x01, 0x00, 0x00, 0x00];

#[test]
fn cache_freshness_boundary() {
    assert!(is_cache_valid(3599, 0, 1));
    assert!(!is_cache_valid(3600, 0, 1));
    assert!(is_cache_valid(0, 1000, 1));
}

#[test]
fn cache_is_used_only_when_fresh_and_present() {
    let cfg = plain_module(b"m", ModuleSource::Local { path: b"x".to_vec() }, true);
    let meta = build_local_metadata(&cfg, b"x".to_vec(), &GOOD_HEADER, 100).unwrap();
    assert!(should_use_cache(Some(&meta), true, 200, 1));
    assert!(!should_use_cache(Some(&meta), false, 200, 1));
    assert!(!should_use_cache(None, true, 200, 1));
    assert!(!should_use_cache(Some(&meta), true, 100 + 3600, 1));
}

#[test]
fn download_admitted_without_configured_checksum() {
    let cfg = plain_module(b"m", ModuleSource::Http { url: b"http://x".to_vec(), checksum: None }, true);
    let meta = admit_http_download(&cfg, b"id1".to_vec(), b"/c/id1.wasm".to_vec(), &GOOD_HEADER, &None, 7).unwrap();
    assert_eq!(meta.checksum, calculate_checksum(&GOOD_HEADER));
    assert_eq!(meta.size_bytes, 8);
    assert_eq!(meta.cached_at, 7);
    assert_eq!(meta.id, b"id1".to_vec());
    assert_eq!(meta.version, b"unknown".to_vec());
}

#[test]
fn download_admitted_with_matching_checksum() {
    let cfg = plain_module(b"m", ModuleSource::Http { url: b"http://x".to_vec(), checksum: None }, true);
    let expected = calculate_checksum(&GOOD_HEADER);
    let r = admit_http_download(&cfg, b"id".to_vec(), b"p".to_vec(), &GOOD_HEADER, &Some(expected), 0);
    assert!(r.is_ok());
}

#[test]
fn download_rejected_on_checksum_mismatch() {
    let cfg = plain_module(b"m", ModuleSource::Http { url: b"http://x".to_vec(), checksum: None }, true);
    let wrong = vec![b'f'; 64];
    let r = admit_http_download(&cfg, b"id".to_vec(), b"p".to_vec(), &GOOD_HEADER, &Some(wrong), 0);
    match r {
        Err(LoadError::ChecksumMismatch { actual, .. }) => {
            assert_eq!(actual, calculate_checksum(&GOOD_HEADER));
        }
        _ => panic!("expected a checksum mismatch"),
    }
}

#[test]
fn download_rejected_on_bad_header() {
    let cfg = plain_module(b"m", ModuleSource::Http { url: b"http://x".to_vec(), checksum: None }, true);
    let r = admit_http_download(&cfg, b"id".to_vec(), b"p".to_vec(), b"not a module", &None, 0);
    assert!(matches!(r, Err(LoadError::Header(_))));
}

#[test]
fn local_load_twice_gives_same_checksum_and_size() {
    let cfg = plain_module(b"m", ModuleSource::Local { path: b"x.wasm".to_vec() }, true);
    let m1 = build_local_metadata(&cfg, b"x.wasm".to_vec(), &GOOD_HEADER, 1).unwrap();
    let m2 = build_local_metadata(&cfg, b"x.wasm".to_vec(), &GOOD_HEADER, 2).unwrap();
    assert_eq!(m1.checksum, m2.checksum);
    assert_eq!(m1.size_bytes, m2.size_bytes);
    assert_ne!(m1.id, m2.id);
}

#[test]
fn local_load_rejects_bad_header() {
    let cfg = plain_module(b"m", ModuleSource::Local { path: b"x".to_vec() }, true);
    assert!(matches!(
        build_local_metadata(&cfg, b"x".to_vec(), b"bogus!!!", 0),
        Err(LoadError::Header(_))
    ));
}

#[test]
fn loaded_set_inserts_and_replaces_by_name() {
    let cfg_a = plain_module(b"a", ModuleSource::Local { path: b"a.wasm".to_vec() }, true);
    let cfg_b = plain_module(b"b", ModuleSource::Local { path: b"b.wasm".to_vec() }, true);
    let mut mm = ModuleManager::new(plain_config(vec![]));
    let ma = build_local_metadata(&cfg_a, b"a.wasm".to_vec(), &GOOD_HEADER, 1).unwrap();
    let mb = build_local_metadata(&cfg_b, b"b.wasm".to_vec(), &GOOD_HEADER, 1).unwrap();
    let ma2 = build_local_metadata(&cfg_a, b"a.wasm".to_vec(), &GOOD_HEADER, 9).unwrap();
    mm.insert_loaded(ma);
    mm.insert_loaded(mb);
    assert_eq!(mm.get_loaded_modules().len(), 2);
    mm.insert_loaded(ma2);
    assert_eq!(mm.get_loaded_modules().len(), 2);
    assert_eq!(mm.get_module_metadata(b"a").unwrap().cached_at, 9);
    assert!(mm.get_module_metadata(b"missing").is_none());
}

#[test]
fn validate_accepts_good_sources() {
    let c = plain_config(vec![
        plain_module(b"h", ModuleSource::Http { url: b"https://x/m.wasm".to_vec(), checksum: None }, true),
        plain_module(b"l", ModuleSource::Local { path: b"m.wasm".to_vec() }, true),
    ]);
    assert!(c.validate(&vec![true, true]).is_ok());
}

#[test]
fn validate_rejects_bad_http_url() {
    let c = plain_config(vec![plain_module(
        b"h",
        ModuleSource::Http { url: b"ftp://x".to_vec(), checksum: None },
        true,
    )]);
    assert_eq!(c.validate(&vec![true]), Err(ConfigError::InvalidHttpUrl { index: 0 }));
}

#[test]
fn validate_rejects_missing_local_path() {
    let c = plain_config(vec![plain_module(
        b"l",
        ModuleSource::Local { path: b"gone.wasm".to_vec() },
        true,
    )]);
    assert_eq!(c.validate(&vec![false]), Err(ConfigError::LocalPathMissing { index: 0 }));
}

#[test]
fn validate_rejects_empty_registry_name() {
    let c = plain_config(vec![plain_module(
        b"r",
        ModuleSource::Registry { name: b"".to_vec(), version: None },
        true,
    )]);
    assert_eq!(c.validate(&vec![false]), Err(ConfigError::EmptyRegistryName { index: 0 }));
}

#[test]
fn validate_skips_disabled_modules() {
    let c = plain_config(vec![plain_module(
        b"h",
        ModuleSource::Http { url: b"ftp://x".to_vec(), checksum: None },
        false,
    )]);
    assert!(c.validate(&vec![true]).is_ok());
}

#[test]
fn find_module_and_enabled_modules() {
    let c = plain_config(vec![
        plain_module(b"a", ModuleSource::Local { path: b"a".to_vec() }, false),
        plain_module(b"b", ModuleSource::Local { path: b"b".to_vec() }, true),
    ]);
    assert_eq!(c.find_module(b"b"), Some(1));
    assert_eq!(c.find_module(b"zz"), None);
    assert_eq!(c.enabled_modules(), vec![1]);
}

#[test]
fn default_config_shape() {
    let c = Config::default_config(b"/tmp/cache".to_vec());
    assert_eq!(c.server.name, b"wasmforge".to_vec());
    assert_eq!(c.server.version, b"0.1.0".to_vec());
    assert_eq!(c.cache.max_size_mb, 100);
    assert_eq!(c.cache.ttl_hours, 24);
    assert_eq!(c.modules.len(), 1);
    assert_eq!(c.modules[0].name, b"test-module".to_vec());
    assert!(c.modules[0].enabled);
    let tools = c.modules[0].tools.as_ref().unwrap();
    assert_eq!(tools.len(), 2);
    assert_eq!(tools[0].name, b"add".to_vec());
    assert_eq!(tools[1].name, b"validate_url".to_vec());
}
