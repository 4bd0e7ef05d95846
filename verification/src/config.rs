//! The declarative configuration: server identity, module list, cache
//! settings, and the pure validation rules over them.
//!
//! Anything that needs the filesystem (whether a local module path resolves)
//! is handed in as a precomputed flag, so validation itself is pure.

use vstd::prelude::*;
use crate::guest::http_url_ok;
use vstd::string::StringSliceAdditionalSpecFns;

verus! {

/// Where a module's bytes come from.
pub enum ModuleSource {
    /// A filesystem path, resolved against the working directory and then
    /// the configuration directory.
    Local { path: Vec<u8> },
    /// A URL to fetch, with an optional expected lowercase hex SHA-256.
    Http { url: Vec<u8>, checksum: Option<Vec<u8>> },
    /// Reserved: loading from a registry is not implemented.
    Registry { name: Vec<u8>, version: Option<Vec<u8>> },
}

/// Identity the server reports to clients.
pub struct ServerConfig {
    pub name: Vec<u8>,
    pub version: Vec<u8>,
    pub default_port: Option<u16>,
    pub default_host: Vec<u8>,
}

/// Per-tool security overrides.
pub struct ToolSecurityConfig {
    pub allowed_commands: Option<Vec<Vec<u8>>>,
}

/// A configured description of one tool: which guest export it names, and
/// optional overrides for the advertised description and JSON schema.
/// `parameters` carries the override schema as raw JSON text.
pub struct ToolConfig {
    pub name: Vec<u8>,
    pub description: Option<Vec<u8>>,
    pub function_name: Vec<u8>,
    pub parameters: Option<Vec<u8>>,
    pub security: Option<ToolSecurityConfig>,
}

/// One module entry. `metadata` is an association list of key/value pairs.
pub struct ModuleConfig {
    pub name: Vec<u8>,
    pub version: Option<Vec<u8>>,
    pub description: Option<Vec<u8>>,
    pub source: ModuleSource,
    pub enabled: bool,
    pub tools: Option<Vec<ToolConfig>>,
    pub metadata: Option<Vec<(Vec<u8>, Vec<u8>)>>,
}

/// Cache settings: directory, size cap in MiB, and the time-to-live in
/// hours used for HTTP-sourced modules.
pub struct CacheConfig {
    pub directory: Vec<u8>,
    pub max_size_mb: u64,
    pub ttl_hours: u64,
}

pub struct Config {
    pub server: ServerConfig,
    pub modules: Vec<ModuleConfig>,
    pub cache: CacheConfig,
}

/// Why a configuration was rejected. Each variant names the offending
/// module's index in the module list.
#[derive(Clone, Copy, Debug, PartialEq, Eq, Structural)]
pub enum ConfigError {
    /// An enabled local module whose path did not resolve to a file.
    LocalPathMissing { index: usize },
    /// An enabled HTTP module whose URL has no `http://` or `https://` prefix.
    InvalidHttpUrl { index: usize },
    /// An enabled registry module with an empty registry name.
    EmptyRegistryName { index: usize },
}

/// An enabled module's source passes validation. For a local source the
/// caller supplies whether the path resolved (the filesystem check itself
/// is not part of this crate).
pub open spec fn spec_source_ok(m: ModuleConfig, local_ok: bool) -> bool {
    match m.source {
        ModuleSource::Local { .. } => local_ok,
        ModuleSource::Http { url, .. } => http_url_ok(url@),
        ModuleSource::Registry { name, .. } => name@.len() > 0,
    }
}

/// Module `i` passes validation: either it is disabled, or its source is fine.
pub open spec fn spec_module_ok(c: Config, local_ok: Seq<bool>, i: int) -> bool {
    c.modules@[i].enabled ==> spec_source_ok(c.modules@[i], local_ok[i])
}

/// The error reported for a failing module at index `i`.
pub open spec fn spec_error_for(m: ModuleConfig, i: int) -> ConfigError {
    match m.source {
        ModuleSource::Local { .. } => ConfigError::LocalPathMissing { index: i as usize },
        ModuleSource::Http { .. } => ConfigError::InvalidHttpUrl { index: i as usize },
        ModuleSource::Registry { .. } => ConfigError::EmptyRegistryName { index: i as usize },
    }
}

impl Config {
    /// The built-in configuration, rooted at the given cache directory:
    /// the server identity, one enabled local test module with two
    /// configured tools, and the default cache settings.
    pub fn default_config(cache_dir: Vec<u8>) -> (r: Config)
        ensures
            r.server.name@ == "wasmforge".spec_bytes(),
            r.server.version@ == "0.1.0".spec_bytes(),
            r.server.default_port is None,
            r.server.default_host@ == "127.0.0.1".spec_bytes(),
            r.cache.directory@ == cache_dir@,
            r.cache.max_size_mb == 100,
            r.cache.ttl_hours == 24,
            r.modules@.len() == 1,
            r.modules@[0].name@ == "test-module".spec_bytes(),
            (r.modules@[0].version matches Option::Some(v) && v@ == "0.1.0".spec_bytes()),
            (r.modules@[0].description matches Option::Some(d) && d@
                == "Test WebAssembly module with basic functions".spec_bytes()),
            (r.modules@[0].source matches ModuleSource::Local { path } && path@
                == "test-modules/test_module.wasm".spec_bytes()),
            r.modules@[0].enabled,
            r.modules@[0].metadata is None,
            (r.modules@[0].tools matches Option::Some(ts) && ts@.len() == 2 && {
                &&& ts@[0].name@ == "add".spec_bytes()
                &&& (ts@[0].description matches Option::Some(d) && d@
                    == "Add two numbers".spec_bytes())
                &&& ts@[0].function_name@ == "add".spec_bytes()
                &&& (ts@[0].parameters matches Option::Some(p) && p@
                    == "{\"type\":\"object\",\"properties\":{\"a\":{\"type\":\"number\"},\"b\":{\"type\":\"number\"}},\"required\":[\"a\",\"b\"]}".spec_bytes())
                &&& ts@[0].security is None
                &&& ts@[1].name@ == "validate_url".spec_bytes()
                &&& (ts@[1].description matches Option::Some(d) && d@
                    == "Validate URL format".spec_bytes())
                &&& ts@[1].function_name@ == "validate_url".spec_bytes()
                &&& (ts@[1].parameters matches Option::Some(p) && p@
                    == "{\"type\":\"object\",\"properties\":{\"url\":{\"type\":\"string\"}},\"required\":[\"url\"]}".spec_bytes())
                &&& ts@[1].security is None
            }),
    {
        let add_tool = ToolConfig {
            name: vstd::slice::slice_to_vec("add".as_bytes()),
            description: Some(vstd::slice::slice_to_vec("Add two numbers".as_bytes())),
            function_name: vstd::slice::slice_to_vec("add".as_bytes()),
            parameters: Some(
                vstd::slice::slice_to_vec(
                    "{\"type\":\"object\",\"properties\":{\"a\":{\"type\":\"number\"},\"b\":{\"type\":\"number\"}},\"required\":[\"a\",\"b\"]}".as_bytes(),
                ),
            ),
            security: None,
        };
        let url_tool = ToolConfig {
            name: vstd::slice::slice_to_vec("validate_url".as_bytes()),
            description: Some(vstd::slice::slice_to_vec("Validate URL format".as_bytes())),
            function_name: vstd::slice::slice_to_vec("validate_url".as_bytes()),
            parameters: Some(
                vstd::slice::slice_to_vec(
                    "{\"type\":\"object\",\"properties\":{\"url\":{\"type\":\"string\"}},\"required\":[\"url\"]}".as_bytes(),
                ),
            ),
            security: None,
        };
        let mut tools: Vec<ToolConfig> = Vec::new();
        tools.push(add_tool);
        tools.push(url_tool);
        let module = ModuleConfig {
            name: vstd::slice::slice_to_vec("test-module".as_bytes()),
            version: Some(vstd::slice::slice_to_vec("0.1.0".as_bytes())),
            description: Some(
                vstd::slice::slice_to_vec(
                    "Test WebAssembly module with basic functions".as_bytes(),
                ),
            ),
            source: ModuleSource::Local {
                path: vstd::slice::slice_to_vec("test-modules/test_module.wasm".as_bytes()),
            },
            enabled: true,
            tools: Some(tools),
            metadata: None,
        };
        let mut modules: Vec<ModuleConfig> = Vec::new();
        modules.push(module);
        Config {
            server: ServerConfig {
                name: vstd::slice::slice_to_vec("wasmforge".as_bytes()),
                version: vstd::slice::slice_to_vec("0.1.0".as_bytes()),
                default_port: None,
                default_host: vstd::slice::slice_to_vec("127.0.0.1".as_bytes()),
            },
            modules,
            cache: CacheConfig { directory: cache_dir, max_size_mb: 100, ttl_hours: 24 },
        }
    }

    /// Indices of the enabled modules, in order.
    pub fn enabled_modules(&self) -> (r: Vec<usize>)
        ensures
            forall|k: int| 0 <= k < r@.len() ==> r@[k] < self.modules@.len()
                && self.modules@[r@[k] as int].enabled,
            forall|k1: int, k2: int| 0 <= k1 < k2 < r@.len() ==> r@[k1] < r@[k2],
            forall|i: int| 0 <= i < self.modules@.len() && self.modules@[i].enabled
                ==> exists|k: int| 0 <= k < r@.len() && r@[k] == i,
    {
        let mut r: Vec<usize> = Vec::new();
        let mut i: usize = 0;
        while i < self.modules.len()
            invariant
                0 <= i <= self.modules@.len(),
                forall|k: int| 0 <= k < r@.len() ==> r@[k] < i && self.modules@[r@[k] as int].enabled,
                forall|k1: int, k2: int| 0 <= k1 < k2 < r@.len() ==> r@[k1] < r@[k2],
                forall|j: int| 0 <= j < i && self.modules@[j].enabled
                    ==> exists|k: int| 0 <= k < r@.len() && r@[k] == j,
            decreases self.modules@.len() - i,
        {
            if self.modules[i].enabled {
                let ghost r0 = r@;
                r.push(i);
                proof {
                    assert forall|j: int|
                        0 <= j < i + 1 && self.modules@[j].enabled implies exists|k: int|
                        0 <= k < r@.len() && r@[k] == j by {
                        if j == i {
                            assert(r@[r@.len() - 1] == j);
                        } else {
                            let k0 = choose|k: int| 0 <= k < r0.len() && r0[k] == j;
                            assert(r@[k0] == j);
                        }
                    }
                }
            }
            i = i + 1;
        }
        r
    }

    /// The first module with the given name, if any.
    pub fn find_module(&self, name: &[u8]) -> (r: Option<usize>)
        ensures
            match r {
                Some(i) => i < self.modules@.len() && self.modules@[i as int].name@ == name@
                    && forall|j: int| 0 <= j < i ==> self.modules@[j].name@ != name@,
                None => forall|j: int| 0 <= j < self.modules@.len()
                    ==> self.modules@[j].name@ != name@,
            },
    {
        let mut i: usize = 0;
        while i < self.modules.len()
            invariant
                0 <= i <= self.modules@.len(),
                forall|j: int| 0 <= j < i ==> self.modules@[j].name@ != name@,
            decreases self.modules@.len() - i,
        {
            if crate::text::bytes_eq(self.modules[i].name.as_slice(), name) {
                return Some(i);
            }
            i = i + 1;
        }
        None
    }

    /// Validates every enabled module's source. `local_ok[i]` says whether
    /// module `i`'s local path resolved to an existing file (ignored for
    /// non-local sources). Reports the first failure in list order.
    pub fn validate(&self, local_ok: &Vec<bool>) -> (r: Result<(), ConfigError>)
        requires
            local_ok@.len() == self.modules@.len(),
        ensures
            r is Ok <==> forall|i: int| 0 <= i < self.modules@.len()
                ==> spec_module_ok(*self, local_ok@, i),
            match r {
                Ok(()) => true,
                Err(e) => exists|i: int| 0 <= i < self.modules@.len()
                    && !spec_module_ok(*self, local_ok@, i)
                    && (forall|j: int| 0 <= j < i ==> spec_module_ok(*self, local_ok@, j))
                    && e == spec_error_for(self.modules@[i], i),
            },
    {
        let mut i: usize = 0;
        while i < self.modules.len()
            invariant
                local_ok@.len() == self.modules@.len(),
                0 <= i <= self.modules@.len(),
                forall|j: int| 0 <= j < i ==> spec_module_ok(*self, local_ok@, j),
            decreases self.modules@.len() - i,
        {
            let m = &self.modules[i];
            if m.enabled {
                match &m.source {
                    ModuleSource::Local { .. } => {
                        if !local_ok[i] {
                            proof {
                                assert(!spec_module_ok(*self, local_ok@, i as int));
                            }
                            return Err(ConfigError::LocalPathMissing { index: i });
                        }
                    },
                    ModuleSource::Http { url, .. } => {
                        let ok = crate::text::starts_with(url.as_slice(), "http://".as_bytes())
                            || crate::text::starts_with(url.as_slice(), "https://".as_bytes());
                        if !ok {
                            proof {
                                assert(!spec_module_ok(*self, local_ok@, i as int));
                            }
                            return Err(ConfigError::InvalidHttpUrl { index: i });
                        }
                    },
                    ModuleSource::Registry { name, .. } => {
                        if name.len() == 0 {
                            proof {
                                assert(!spec_module_ok(*self, local_ok@, i as int));
                            }
                            return Err(ConfigError::EmptyRegistryName { index: i });
                        }
                    },
                }
            }
            i = i + 1;
        }
        Ok(())
    }
}

} // verus!
