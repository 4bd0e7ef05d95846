//! The module lifecycle manager's decisions: cache identity, cache
//! freshness, integrity admission of downloaded or local bytes, and the
//! bookkeeping of the loaded set. Reading and writing the cache directory
//! itself is input/output and stays outside this crate; every decision
//! about those bytes is made here.

use vstd::prelude::*;
use crate::config::{Config, ModuleConfig, ModuleSource};
use crate::digest::{hex_of, sha256_of, md5_of, calculate_checksum, md5_digest, to_hex, new_uuid};
use crate::header::{HeaderError, spec_header_valid, validate_wasm_module};
use crate::text::{push_all, copy_bytes};
use vstd::string::StringSliceAdditionalSpecFns;

verus! {

/// Integrity record for a module, persisted beside its cached bytes.
pub struct ModuleMetadata {
    /// Stable cache key.
    pub id: Vec<u8>,
    pub name: Vec<u8>,
    pub version: Vec<u8>,
    pub description: Vec<u8>,
    /// Lowercase hex SHA-256 of the module bytes.
    pub checksum: Vec<u8>,
    pub size_bytes: u64,
    /// Seconds since the Unix epoch at which the bytes were recorded.
    pub cached_at: u64,
    pub source: ModuleSource,
    /// Where the bytes sit on disk.
    pub wasm_path: Vec<u8>,
}

/// Why a module failed to load. One module's failure never blocks others.
#[derive(Debug)]
pub enum LoadError {
    /// A local source whose resolved path holds no file.
    LocalFileNotFound,
    /// The bytes do not carry a valid Wasm preamble.
    Header(HeaderError),
    /// The configured checksum does not match the downloaded bytes.
    ChecksumMismatch { expected: Vec<u8>, actual: Vec<u8> },
    /// The registry source is reserved and never loads.
    RegistryUnimplemented,
    /// A transport or filesystem failure, with its message.
    Io { detail: Vec<u8> },
}

/// Two sources describe the same origin.
pub open spec fn source_eq(a: ModuleSource, b: ModuleSource) -> bool {
    match a {
        ModuleSource::Local { path } => b matches ModuleSource::Local { path: p2 } && p2@
            == path@,
        ModuleSource::Http { url, checksum } => b matches ModuleSource::Http {
            url: u2,
            checksum: c2,
        } && u2@ == url@ && opt_bytes_eq(checksum, c2),
        ModuleSource::Registry { name, version } => b matches ModuleSource::Registry {
            name: n2,
            version: v2,
        } && n2@ == name@ && opt_bytes_eq(version, v2),
    }
}

/// Equal optional byte strings, compared by contents.
pub open spec fn opt_bytes_eq(a: Option<Vec<u8>>, b: Option<Vec<u8>>) -> bool {
    match a {
        Option::Some(x) => b matches Option::Some(y) && y@ == x@,
        Option::None => b is None,
    }
}

/// Copies a source value field by field.
pub fn clone_source(s: &ModuleSource) -> (r: ModuleSource)
    ensures
        source_eq(*s, r),
{
    match s {
        ModuleSource::Local { path } => ModuleSource::Local { path: copy_bytes(path) },
        ModuleSource::Http { url, checksum } => ModuleSource::Http {
            url: copy_bytes(url),
            checksum: match checksum {
                Option::Some(c) => Option::Some(copy_bytes(c)),
                Option::None => Option::None,
            },
        },
        ModuleSource::Registry { name, version } => ModuleSource::Registry {
            name: copy_bytes(name),
            version: match version {
                Option::Some(v) => Option::Some(copy_bytes(v)),
                Option::None => Option::None,
            },
        },
    }
}

/// The version recorded for a module: the configured one, or `unknown`.
pub open spec fn spec_version_of(v: Option<Vec<u8>>) -> Seq<u8> {
    match v {
        Option::Some(s) => s@,
        Option::None => "unknown".spec_bytes(),
    }
}

/// The description recorded for a module: the configured one, or empty.
pub open spec fn spec_description_of(d: Option<Vec<u8>>) -> Seq<u8> {
    match d {
        Option::Some(s) => s@,
        Option::None => Seq::<u8>::empty(),
    }
}

fn version_of(v: &Option<Vec<u8>>) -> (r: Vec<u8>)
    ensures
        r@ == spec_version_of(*v),
{
    match v {
        Option::Some(s) => copy_bytes(s),
        Option::None => vstd::slice::slice_to_vec("unknown".as_bytes()),
    }
}

fn description_of(d: &Option<Vec<u8>>) -> (r: Vec<u8>)
    ensures
        r@ == spec_description_of(*d),
{
    match d {
        Option::Some(s) => copy_bytes(s),
        Option::None => Vec::new(),
    }
}

/// The stable cache key of an HTTP-sourced module: the module name, an
/// underscore, then the configured checksum, or failing that the MD5 hex
/// of the URL.
pub open spec fn spec_cache_id(name: Seq<u8>, checksum: Option<Vec<u8>>, url: Seq<u8>) -> Seq<
    u8,
> {
    name + "_".spec_bytes() + (match checksum {
        Option::Some(c) => c@,
        Option::None => hex_of(md5_of(url)),
    })
}

/// Computes the cache key, hashing the URL when no checksum is configured.
pub fn module_cache_id(name: &[u8], url: &[u8], checksum: &Option<Vec<u8>>) -> (r: Vec<u8>)
    ensures
        r@ == spec_cache_id(name@, *checksum, url@),
{
    let mut r: Vec<u8> = Vec::new();
    push_all(&mut r, name);
    push_all(&mut r, "_".as_bytes());
    match checksum {
        Option::Some(c) => {
            push_all(&mut r, c.as_slice());
        },
        Option::None => {
            let digest = md5_digest(url);
            let h = to_hex(digest.as_slice());
            push_all(&mut r, h.as_slice());
        },
    }
    r
}

/// A cached record is fresh while `now - cached_at` is under the
/// time-to-live in seconds.
pub open spec fn spec_cache_fresh(now: u64, cached_at: u64, ttl_hours: u64) -> bool {
    now - cached_at < ttl_hours * 3600
}

pub fn is_cache_valid(now: u64, cached_at: u64, ttl_hours: u64) -> (r: bool)
    ensures
        r == spec_cache_fresh(now, cached_at, ttl_hours),
{
    if now < cached_at {
        true
    } else {
        let age: u64 = now - cached_at;
        (age as u128) < (ttl_hours as u128) * 3600
    }
}

/// An HTTP module is served from cache exactly when a metadata record
/// exists, its cached bytes exist, and the record is fresh. When this
/// returns true the loader performs no network request.
pub fn should_use_cache(
    meta: Option<&ModuleMetadata>,
    wasm_file_exists: bool,
    now: u64,
    ttl_hours: u64,
) -> (r: bool)
    ensures
        r <==> (meta matches Some(m) && wasm_file_exists && spec_cache_fresh(
            now,
            m.cached_at,
            ttl_hours,
        )),
{
    match meta {
        Option::Some(m) => wasm_file_exists && is_cache_valid(now, m.cached_at, ttl_hours),
        Option::None => false,
    }
}

/// The downloaded bytes match the configured checksum, when one is set.
pub open spec fn spec_checksum_matches(bytes: Seq<u8>, expected: Option<Vec<u8>>) -> bool {
    match expected {
        Option::Some(c) => c@ == hex_of(sha256_of(bytes)),
        Option::None => true,
    }
}

/// Admits downloaded bytes: the checksum must match when configured (this
/// is checked first, so rejected bytes are never recorded), then the Wasm
/// preamble must be valid. On success the returned metadata carries the
/// recomputed checksum and byte count of exactly these bytes.
pub fn admit_http_download(
    cfg: &ModuleConfig,
    id: Vec<u8>,
    wasm_path: Vec<u8>,
    bytes: &[u8],
    expected_checksum: &Option<Vec<u8>>,
    now: u64,
) -> (r: Result<ModuleMetadata, LoadError>)
    ensures
        r is Ok <==> spec_checksum_matches(bytes@, *expected_checksum) && spec_header_valid(
            bytes@,
        ),
        match r {
            Ok(m) => {
                &&& m.id@ == id@
                &&& m.name@ == cfg.name@
                &&& m.version@ == spec_version_of(cfg.version)
                &&& m.description@ == spec_description_of(cfg.description)
                &&& m.checksum@ == hex_of(sha256_of(bytes@))
                &&& m.size_bytes == bytes@.len()
                &&& m.cached_at == now
                &&& source_eq(cfg.source, m.source)
                &&& m.wasm_path@ == wasm_path@
            },
            Err(e) => {
                &&& e matches LoadError::ChecksumMismatch { expected, actual } ==> (
                !spec_checksum_matches(bytes@, *expected_checksum) && actual@ == hex_of(
                    sha256_of(bytes@),
                ) && (*expected_checksum matches Option::Some(c) && expected@ == c@))
                &&& e matches LoadError::Header(_) ==> !spec_header_valid(bytes@)
                &&& (e matches LoadError::ChecksumMismatch { .. } || e matches LoadError::Header(
                    _,
                ))
            },
        },
        !spec_checksum_matches(bytes@, *expected_checksum) ==> (r matches Err(e)
            && e matches LoadError::ChecksumMismatch { .. }),
        spec_checksum_matches(bytes@, *expected_checksum) && !spec_header_valid(bytes@) ==> (r
            matches Err(e) && e matches LoadError::Header(_)),
{
    let checksum = calculate_checksum(bytes);
    match expected_checksum {
        Option::Some(expected) => {
            if !crate::text::bytes_eq(expected.as_slice(), checksum.as_slice()) {
                return Err(
                    LoadError::ChecksumMismatch { expected: copy_bytes(expected), actual: checksum },
                );
            }
        },
        Option::None => {},
    }
    if let Err(e) = validate_wasm_module(bytes) {
        return Err(LoadError::Header(e));
    }
    Ok(
        ModuleMetadata {
            id,
            name: copy_bytes(&cfg.name),
            version: version_of(&cfg.version),
            description: description_of(&cfg.description),
            checksum,
            size_bytes: bytes.len() as u64,
            cached_at: now,
            source: clone_source(&cfg.source),
            wasm_path,
        },
    )
}

/// Builds the metadata of a locally read module: the preamble must be
/// valid; the record carries a fresh 36-byte identifier and the checksum
/// and byte count of exactly these bytes.
pub fn build_local_metadata(
    cfg: &ModuleConfig,
    wasm_path: Vec<u8>,
    bytes: &[u8],
    now: u64,
) -> (r: Result<ModuleMetadata, LoadError>)
    ensures
        r is Ok <==> spec_header_valid(bytes@),
        match r {
            Ok(m) => {
                &&& m.id@.len() == 36
                &&& m.name@ == cfg.name@
                &&& m.version@ == spec_version_of(cfg.version)
                &&& m.description@ == spec_description_of(cfg.description)
                &&& m.checksum@ == hex_of(sha256_of(bytes@))
                &&& m.size_bytes == bytes@.len()
                &&& m.cached_at == now
                &&& source_eq(cfg.source, m.source)
                &&& m.wasm_path@ == wasm_path@
            },
            Err(e) => e matches LoadError::Header(_),
        },
{
    if let Err(e) = validate_wasm_module(bytes) {
        return Err(LoadError::Header(e));
    }
    let checksum = calculate_checksum(bytes);
    Ok(
        ModuleMetadata {
            id: new_uuid(),
            name: copy_bytes(&cfg.name),
            version: version_of(&cfg.version),
            description: description_of(&cfg.description),
            checksum,
            size_bytes: bytes.len() as u64,
            cached_at: now,
            source: clone_source(&cfg.source),
            wasm_path,
        },
    )
}

/// Loading the same local bytes twice yields the same checksum and size:
/// both records carry the hex SHA-256 and length of the bytes themselves.
pub proof fn lemma_local_load_idempotent(
    m1: ModuleMetadata,
    m2: ModuleMetadata,
    bytes: Seq<u8>,
)
    requires
        m1.checksum@ == hex_of(sha256_of(bytes)),
        m1.size_bytes == bytes.len(),
        m2.checksum@ == hex_of(sha256_of(bytes)),
        m2.size_bytes == bytes.len(),
    ensures
        m1.checksum@ == m2.checksum@,
        m1.size_bytes == m2.size_bytes,
{
}

/// The loaded set holds no two records with the same name.
pub open spec fn loaded_wf(s: Seq<ModuleMetadata>) -> bool {
    forall|i: int, j: int| 0 <= i < j < s.len() ==> s[i].name@ != s[j].name@
}

/// The module lifecycle manager: configuration, cache directory, and the
/// set of loaded module records, keyed by module name.
pub struct ModuleManager {
    pub config: Config,
    pub cache_dir: Vec<u8>,
    pub loaded: Vec<ModuleMetadata>,
}

impl ModuleManager {
    /// A manager for the given configuration, with nothing loaded yet.
    pub fn new(config: Config) -> (r: Self)
        ensures
            r.cache_dir@ == config.cache.directory@,
            r.loaded@.len() == 0,
            loaded_wf(r.loaded@),
    {
        let cache_dir = copy_bytes(&config.cache.directory);
        ModuleManager { config, cache_dir, loaded: Vec::new() }
    }

    /// The index of the record with the given name.
    fn find_loaded(&self, name: &[u8]) -> (r: Option<usize>)
        ensures
            match r {
                Some(i) => i < self.loaded@.len() && self.loaded@[i as int].name@ == name@,
                None => forall|j: int| 0 <= j < self.loaded@.len()
                    ==> self.loaded@[j].name@ != name@,
            },
    {
        let mut i: usize = 0;
        while i < self.loaded.len()
            invariant
                0 <= i <= self.loaded@.len(),
                forall|j: int| 0 <= j < i ==> self.loaded@[j].name@ != name@,
            decreases self.loaded@.len() - i,
        {
            if crate::text::bytes_eq(self.loaded[i].name.as_slice(), name) {
                return Some(i);
            }
            i = i + 1;
        }
        None
    }

    /// Records a loaded module, replacing any record with the same name.
    pub fn insert_loaded(&mut self, meta: ModuleMetadata)
        requires
            loaded_wf(old(self).loaded@),
        ensures
            loaded_wf(final(self).loaded@),
            final(self).config == old(self).config,
            final(self).cache_dir == old(self).cache_dir,
            exists|i: int| 0 <= i < final(self).loaded@.len() && final(self).loaded@[i] == meta,
            forall|i: int| 0 <= i < final(self).loaded@.len() ==> (final(self).loaded@[i] == meta
                || (final(self).loaded@[i].name@ != meta.name@ && old(self).loaded@.contains(
                final(self).loaded@[i],
            ))),
            forall|j: int| 0 <= j < old(self).loaded@.len() && old(self).loaded@[j].name@
                != meta.name@ ==> final(self).loaded@.contains(old(self).loaded@[j]),
    {
        let ghost s0 = self.loaded@;
        let ghost nm = meta.name@;
        match self.find_loaded(meta.name.as_slice()) {
            Option::Some(i) => {
                self.loaded.remove(i);
                self.loaded.push(meta);
                proof {
                    let s2 = self.loaded@;
                    assert(s2[s2.len() - 1] == meta);
                    assert forall|j: int|
                        0 <= j < s0.len() && s0[j].name@ != nm implies s2.contains(s0[j]) by {
                        assert(s0[i as int].name@ == nm);
                        if j < i {
                            assert(s2[j] == s0[j]);
                        } else {
                            assert(j > i);
                            assert(s2[j - 1] == s0[j]);
                        }
                    }
                    assert forall|k: int| 0 <= k < s2.len() implies (s2[k] == meta || (s2[k].name@
                        != nm && s0.contains(s2[k]))) by {
                        if k < s2.len() - 1 {
                            if k < i {
                                assert(s2[k] == s0[k]);
                                assert(s0[k].name@ != s0[i as int].name@);
                            } else {
                                assert(s2[k] == s0[k + 1]);
                                assert(s0[k + 1].name@ != s0[i as int].name@);
                            }
                        }
                    }
                    assert forall|a: int, b: int|
                        0 <= a < b < s2.len() implies s2[a].name@ != s2[b].name@ by {
                        if b < s2.len() - 1 {
                            let a0: int = if a < i { a } else { a + 1 };
                            let b0: int = if b < i { b } else { b + 1 };
                            assert(s2[a] == s0[a0] && s2[b] == s0[b0]);
                        } else {
                            let a0: int = if a < i { a } else { a + 1 };
                            assert(s2[a] == s0[a0]);
                            if a0 != i {
                                assert(s0[a0].name@ != s0[i as int].name@);
                            }
                        }
                    }
                }
            },
            Option::None => {
                self.loaded.push(meta);
                proof {
                    let s2 = self.loaded@;
                    assert(s2[s2.len() - 1] == meta);
                    assert forall|j: int|
                        0 <= j < s0.len() && s0[j].name@ != nm implies s2.contains(s0[j]) by {
                        assert(s2[j] == s0[j]);
                    }
                }
            },
        }
    }

    /// The record loaded under the given name, if any.
    pub fn get_module_metadata(&self, name: &[u8]) -> (r: Option<&ModuleMetadata>)
        ensures
            match r {
                Some(m) => m.name@ == name@ && self.loaded@.contains(*m),
                None => forall|j: int| 0 <= j < self.loaded@.len()
                    ==> self.loaded@[j].name@ != name@,
            },
    {
        match self.find_loaded(name) {
            Option::Some(i) => Some(&self.loaded[i]),
            Option::None => None,
        }
    }

    /// All loaded records.
    pub fn get_loaded_modules(&self) -> (r: &Vec<ModuleMetadata>)
        ensures
            r == &self.loaded,
    {
        &self.loaded
    }
}

} // verus!
