//! The tool discovery engine: classifies every function export of every
//! loaded module into one of the three call patterns, attaches a schema
//! and a description, applies configured overrides, and emits the
//! dispatch table of tools. A synthetic `fetch` tool is added when a
//! module exports both `validate_url` and `process_response`.

use vstd::prelude::*;
use crate::config::{ModuleConfig, ToolConfig};
use crate::executor::{WasmExecutor, LoadedModule};
use crate::signature::{FuncSignature, Pattern, spec_two_i32_to_i32, spec_no_params_to_i32};
use crate::text::{contains_seq, bytes_eq, contains, push_all, copy_bytes};
use vstd::string::StringSliceAdditionalSpecFns;
use vstd::string::is_ascii;

verus! {

/// The JSON input schema advertised for a tool: one of the fixed shapes,
/// or raw JSON text configured as an override.
pub enum ToolSchema {
    /// Two required numbers `a` and `b`.
    IntPair,
    /// A required string `url`.
    Url,
    /// A required string `path`.
    Path,
    /// Required strings `path` and `content`.
    PathContent,
    /// A required string `command`.
    Command,
    /// A required string `task`.
    Task,
    /// A required string `data`.
    Data,
    /// No parameters.
    Empty,
    /// Raw JSON text taken verbatim from the tool's configuration.
    Custom(Vec<u8>),
}

/// An RPC-visible tool bound to a guest export.
pub struct DiscoveredTool {
    /// The public tool name.
    pub name: Vec<u8>,
    pub module_name: Vec<u8>,
    pub function_name: Vec<u8>,
    pub description: Vec<u8>,
    pub schema: ToolSchema,
    pub signature: FuncSignature,
    pub pattern: Pattern,
}

/// One of the export names that marks a pointer/length validator.
pub open spec fn spec_known_ptr_len_name(f: Seq<u8>) -> bool {
    ||| f == "validate_url".spec_bytes()
    ||| f == "process_response".spec_bytes()
    ||| f == "prepare_http_get".spec_bytes()
    ||| f == "prepare_file_read".spec_bytes()
    ||| f == "prepare_file_write".spec_bytes()
    ||| f == "prepare_shell_exec".spec_bytes()
    ||| f == "prepare_recommend_mcps".spec_bytes()
}

/// How an export is classified: leading-underscore names are reserved,
/// a known validator name with the two-I32 shape is pointer/length, any
/// other two-I32 shape is plain integers, the no-parameter shape stands
/// alone, and everything else is unsupported.
pub open spec fn spec_classify(
    fname: Seq<u8>,
    params: Seq<crate::signature::ValueType>,
    results: Seq<crate::signature::ValueType>,
) -> Option<Pattern> {
    if fname.len() > 0 && fname[0] == 0x5f {
        Option::None
    } else if spec_known_ptr_len_name(fname) && spec_two_i32_to_i32(params, results) {
        Option::Some(Pattern::PtrLenToI32)
    } else if spec_two_i32_to_i32(params, results) {
        Option::Some(Pattern::I32I32ToI32)
    } else if spec_no_params_to_i32(params, results) {
        Option::Some(Pattern::NoParamsToI32)
    } else {
        Option::None
    }
}

/// The auto-generated schema for a classified export.
pub open spec fn spec_default_schema(fname: Seq<u8>, pattern: Pattern) -> ToolSchema {
    match pattern {
        Pattern::PtrLenToI32 => if fname == "prepare_http_get".spec_bytes() {
            ToolSchema::Url
        } else if fname == "prepare_file_read".spec_bytes() {
            ToolSchema::Path
        } else if fname == "prepare_file_write".spec_bytes() {
            ToolSchema::PathContent
        } else if fname == "prepare_shell_exec".spec_bytes() {
            ToolSchema::Command
        } else if fname == "prepare_recommend_mcps".spec_bytes() {
            ToolSchema::Task
        } else {
            ToolSchema::Data
        },
        Pattern::I32I32ToI32 => ToolSchema::IntPair,
        Pattern::NoParamsToI32 => ToolSchema::Empty,
    }
}

/// The fallback description for a classified export, before the name
/// table is consulted.
pub open spec fn spec_default_desc(fname: Seq<u8>, pattern: Pattern) -> Seq<u8> {
    match pattern {
        Pattern::PtrLenToI32 => if fname == "prepare_http_get".spec_bytes() {
            "Fetch content from a URL using async HTTP GET with WASM validation".spec_bytes()
        } else if fname == "prepare_file_read".spec_bytes() {
            "Read file content with WASM path validation".spec_bytes()
        } else if fname == "prepare_file_write".spec_bytes() {
            "Write content to file with WASM path validation".spec_bytes()
        } else if fname == "prepare_shell_exec".spec_bytes() {
            "Execute a simple shell command with WASM validation".spec_bytes()
        } else if fname == "prepare_recommend_mcps".spec_bytes() {
            "Recommend relevant MCP tools based on a task description".spec_bytes()
        } else {
            "Processes string data and returns an integer status".spec_bytes()
        },
        Pattern::I32I32ToI32 => "Takes two integers and returns an integer".spec_bytes(),
        Pattern::NoParamsToI32 => "Takes no parameters and returns an integer".spec_bytes(),
    }
}

/// The description chosen for a function name: an exact table first, then
/// keyword membership, then the fallback.
pub open spec fn spec_base_desc(fname: Seq<u8>, default: Seq<u8>) -> Seq<u8> {
    if fname == "add".spec_bytes() {
        "Add two numbers using WebAssembly".spec_bytes()
    } else if fname == "subtract".spec_bytes() || fname == "sub".spec_bytes() {
        "Subtract two numbers using WebAssembly".spec_bytes()
    } else if fname == "multiply".spec_bytes() || fname == "mul".spec_bytes() {
        "Multiply two numbers using WebAssembly".spec_bytes()
    } else if fname == "divide".spec_bytes() || fname == "div".spec_bytes() {
        "Divide two numbers using WebAssembly".spec_bytes()
    } else if fname == "validate_url".spec_bytes() {
        "Validate URL format using WebAssembly".spec_bytes()
    } else if fname == "process_response".spec_bytes() {
        "Process HTTP response using WebAssembly".spec_bytes()
    } else if fname == "prepare_http_get".spec_bytes() {
        "Fetch content from a URL using async HTTP GET with WASM validation".spec_bytes()
    } else if fname == "prepare_file_read".spec_bytes() {
        "Read file content with WASM path validation".spec_bytes()
    } else if fname == "prepare_file_write".spec_bytes() {
        "Write content to file with WASM path validation".spec_bytes()
    } else if fname == "prepare_shell_exec".spec_bytes() {
        "Execute a simple shell command with WASM validation".spec_bytes()
    } else if fname == "prepare_recommend_mcps".spec_bytes() {
        "Recommend relevant MCP tools based on a task description".spec_bytes()
    } else if fname == "hash".spec_bytes() || fname == "sha256".spec_bytes() {
        "Calculate hash of input data".spec_bytes()
    } else if fname == "encrypt".spec_bytes() {
        "Encrypt data using WebAssembly".spec_bytes()
    } else if fname == "decrypt".spec_bytes() {
        "Decrypt data using WebAssembly".spec_bytes()
    } else if fname == "compress".spec_bytes() {
        "Compress data using WebAssembly".spec_bytes()
    } else if fname == "decompress".spec_bytes() {
        "Decompress data using WebAssembly".spec_bytes()
    } else if contains_seq(fname, "validate".spec_bytes()) {
        "Validate input data using WebAssembly".spec_bytes()
    } else if contains_seq(fname, "process".spec_bytes()) {
        "Process input data using WebAssembly".spec_bytes()
    } else if contains_seq(fname, "parse".spec_bytes()) {
        "Parse input data using WebAssembly".spec_bytes()
    } else if contains_seq(fname, "format".spec_bytes()) {
        "Format input data using WebAssembly".spec_bytes()
    } else {
        default
    }
}

/// The advertised description: the chosen text plus the module tag.
pub open spec fn spec_generate_description(
    module: Seq<u8>,
    fname: Seq<u8>,
    default: Seq<u8>,
) -> Seq<u8> {
    spec_base_desc(fname, default) + " (from module: ".spec_bytes() + module + ")".spec_bytes()
}

/// Hyphens become underscores; every other byte is kept.
pub open spec fn spec_hyphen_to_underscore(s: Seq<u8>) -> Seq<u8> {
    Seq::new(
        s.len(),
        |i: int|
            if s[i] == 0x2d {
                0x5fu8
            } else {
                s[i]
            },
    )
}

/// The public tool name: the bare function name for the compatibility
/// module `test-module`, otherwise the module name (hyphens folded to
/// underscores), an underscore, and the function name.
pub open spec fn spec_tool_name(module: Seq<u8>, fname: Seq<u8>) -> Seq<u8> {
    if module == "test-module".spec_bytes() {
        fname
    } else {
        spec_hyphen_to_underscore(module) + "_".spec_bytes() + fname
    }
}

/// The internal table key: `module::function`.
pub open spec fn spec_tool_key(module: Seq<u8>, fname: Seq<u8>) -> Seq<u8> {
    module + "::".spec_bytes() + fname
}

/// The tool configurations of module `m`: the first entry of that name,
/// scanned from index `i`.
pub open spec fn spec_cfg_tools_from(
    s: Seq<(Vec<u8>, Vec<ToolConfig>)>,
    m: Seq<u8>,
    i: int,
) -> Option<Seq<ToolConfig>>
    decreases s.len() - i when 0 <= i <= s.len()
{
    if i >= s.len() {
        Option::None
    } else if s[i].0@ == m {
        Option::Some(s[i].1@)
    } else {
        spec_cfg_tools_from(s, m, i + 1)
    }
}

/// The first configured tool describing guest export `f`, scanned from
/// index `i`: a configuration applies to the export its `function_name`
/// names.
pub open spec fn spec_tool_cfg_from(ts: Seq<ToolConfig>, f: Seq<u8>, i: int) -> Option<ToolConfig>
    decreases ts.len() - i when 0 <= i <= ts.len()
{
    if i >= ts.len() {
        Option::None
    } else if ts[i].function_name@ == f {
        Option::Some(ts[i])
    } else {
        spec_tool_cfg_from(ts, f, i + 1)
    }
}

/// The configured override for an export, if any: the module's tool list,
/// then the entry whose `function_name` names this export.
pub open spec fn spec_override(
    s: Seq<(Vec<u8>, Vec<ToolConfig>)>,
    m: Seq<u8>,
    f: Seq<u8>,
) -> Option<ToolConfig> {
    match spec_cfg_tools_from(s, m, 0) {
        Option::Some(ts) => spec_tool_cfg_from(ts, f, 0),
        Option::None => Option::None,
    }
}

/// The description a discovered tool carries, override included.
pub open spec fn spec_tool_description(
    s: Seq<(Vec<u8>, Vec<ToolConfig>)>,
    m: Seq<u8>,
    f: Seq<u8>,
    pattern: Pattern,
) -> Seq<u8> {
    match spec_override(s, m, f) {
        Option::Some(c) => match c.description {
            Option::Some(d) => d@,
            Option::None => spec_generate_description(m, f, spec_default_desc(f, pattern)),
        },
        Option::None => spec_generate_description(m, f, spec_default_desc(f, pattern)),
    }
}

/// The schema a discovered tool carries: the configured JSON text when an
/// override sets one, else the auto-generated shape.
pub open spec fn spec_tool_schema_ok(
    s: Seq<(Vec<u8>, Vec<ToolConfig>)>,
    m: Seq<u8>,
    f: Seq<u8>,
    pattern: Pattern,
    schema: ToolSchema,
) -> bool {
    match spec_override(s, m, f) {
        Option::Some(c) => match c.parameters {
            Option::Some(p) => schema matches ToolSchema::Custom(raw) && raw@ == p@,
            Option::None => schema == spec_default_schema(f, pattern),
        },
        Option::None => schema == spec_default_schema(f, pattern),
    }
}

/// A table key is present.
pub open spec fn spec_has_key(t: Seq<(Vec<u8>, DiscoveredTool)>, k: Seq<u8>) -> bool {
    exists|i: int| 0 <= i < t.len() && t[i].0@ == k
}

/// No two table entries share a key.
pub open spec fn table_wf(t: Seq<(Vec<u8>, DiscoveredTool)>) -> bool {
    forall|i: int, j: int| 0 <= i < j < t.len() ==> t[i].0@ != t[j].0@
}

/// The tool discovery engine: the dispatch table and the configured
/// overrides, both association lists.
pub struct ToolDiscovery {
    pub discovered_tools: Vec<(Vec<u8>, DiscoveredTool)>,
    pub tool_configs: Vec<(Vec<u8>, Vec<ToolConfig>)>,
}

fn copy_security(s: &Option<crate::config::ToolSecurityConfig>) -> (r: Option<
    crate::config::ToolSecurityConfig,
>)
    ensures
        match *s {
            Option::Some(c) => r matches Option::Some(rc) && (match c.allowed_commands {
                Option::Some(a) => rc.allowed_commands matches Option::Some(ra) && ra@.len()
                    == a@.len() && (forall|i: int| 0 <= i < a@.len() ==> ra@[i]@ == a@[i]@),
                Option::None => rc.allowed_commands is None,
            }),
            Option::None => r is None,
        },
{
    match s {
        Option::Some(c) => Option::Some(
            crate::config::ToolSecurityConfig {
                allowed_commands: match &c.allowed_commands {
                    Option::Some(a) => {
                        let mut out: Vec<Vec<u8>> = Vec::new();
                        let mut i: usize = 0;
                        while i < a.len()
                            invariant
                                0 <= i <= a@.len(),
                                out@.len() == i,
                                forall|j: int| 0 <= j < i ==> out@[j]@ == a@[j]@,
                            decreases a@.len() - i,
                        {
                            out.push(copy_bytes(&a[i]));
                            i = i + 1;
                        }
                        Option::Some(out)
                    },
                    Option::None => Option::None,
                },
            },
        ),
        Option::None => Option::None,
    }
}

/// The table entry records exactly module `m`'s configured tools: its
/// name, and the tool list copied by contents.
pub open spec fn cfg_entry_matches(entry: (Vec<u8>, Vec<ToolConfig>), m: ModuleConfig) -> bool {
    m.tools matches Option::Some(ts) && entry.0@ == m.name@ && entry.1@.len() == ts@.len()
        && (forall|j: int| 0 <= j < ts@.len() ==> tool_config_eq(ts@[j], entry.1@[j]))
}

/// Field-by-field equality of tool configurations, by contents.
pub open spec fn tool_config_eq(a: ToolConfig, b: ToolConfig) -> bool {
    &&& a.name@ == b.name@
    &&& (match a.description {
        Option::Some(d) => b.description matches Option::Some(bd) && bd@ == d@,
        Option::None => b.description is None,
    })
    &&& a.function_name@ == b.function_name@
    &&& (match a.parameters {
        Option::Some(p) => b.parameters matches Option::Some(bp) && bp@ == p@,
        Option::None => b.parameters is None,
    })
}

/// Copies a tool configuration; the carried security settings are copied
/// by contents as well.
fn copy_tool_config(c: &ToolConfig) -> (r: ToolConfig)
    ensures
        tool_config_eq(*c, r),
        r.name@ == c.name@,
{
    ToolConfig {
        name: copy_bytes(&c.name),
        description: match &c.description {
            Option::Some(d) => Option::Some(copy_bytes(d)),
            Option::None => Option::None,
        },
        function_name: copy_bytes(&c.function_name),
        parameters: match &c.parameters {
            Option::Some(p) => Option::Some(copy_bytes(p)),
            Option::None => Option::None,
        },
        security: copy_security(&c.security),
    }
}

impl ToolDiscovery {
    /// An empty discovery engine.
    pub fn new() -> (r: Self)
        ensures
            r.discovered_tools@.len() == 0,
            r.tool_configs@.len() == 0,
            table_wf(r.discovered_tools@),
    {
        ToolDiscovery { discovered_tools: Vec::new(), tool_configs: Vec::new() }
    }

    /// Records the configured tool lists, one entry per module that
    /// carries any: the module's name and its tools copied by contents.
    /// The override a later analysis sees is characterised by
    /// `spec_override` over the recorded table.
    pub fn load_tool_configs(&mut self, modules: &Vec<ModuleConfig>)
        ensures
            final(self).discovered_tools@ == old(self).discovered_tools@,
            final(self).tool_configs@.len() >= old(self).tool_configs@.len(),
            forall|k: int| 0 <= k < old(self).tool_configs@.len() ==> final(self).tool_configs@[k]
                == old(self).tool_configs@[k],
            forall|i: int|
                #![trigger modules@[i]]
                0 <= i < modules@.len() && modules@[i].tools is Some ==> exists|k: int|
                    old(self).tool_configs@.len() <= k < final(self).tool_configs@.len()
                        && cfg_entry_matches(final(self).tool_configs@[k], modules@[i]),
    {
        let ghost n0 = self.tool_configs@.len() as int;
        let mut i: usize = 0;
        while i < modules.len()
            invariant
                0 <= i <= modules@.len(),
                self.discovered_tools@ == old(self).discovered_tools@,
                self.tool_configs@.len() >= n0,
                n0 == old(self).tool_configs@.len(),
                forall|k: int| 0 <= k < n0 ==> self.tool_configs@[k] == old(self).tool_configs@[k],
                forall|ii: int|
                    #![trigger modules@[ii]]
                    0 <= ii < i && modules@[ii].tools is Some ==> exists|k: int|
                        n0 <= k < self.tool_configs@.len() && cfg_entry_matches(
                            self.tool_configs@[k],
                            modules@[ii],
                        ),
            decreases modules@.len() - i,
        {
            match &modules[i].tools {
                Option::Some(ts) => {
                    let mut copied: Vec<ToolConfig> = Vec::new();
                    let mut j: usize = 0;
                    while j < ts.len()
                        invariant
                            0 <= j <= ts@.len(),
                            copied@.len() == j,
                            forall|q: int| 0 <= q < j ==> tool_config_eq(ts@[q], copied@[q]),
                        decreases ts@.len() - j,
                    {
                        copied.push(copy_tool_config(&ts[j]));
                        j = j + 1;
                    }
                    let ghost t0 = self.tool_configs@;
                    self.tool_configs.push((copy_bytes(&modules[i].name), copied));
                    proof {
                        let t2 = self.tool_configs@;
                        assert(t2[t2.len() - 1].1@ == copied@);
                        assert(cfg_entry_matches(t2[t2.len() - 1], modules@[i as int]));
                        assert forall|ii: int|
                            0 <= ii < i + 1 && modules@[ii].tools is Some implies exists|k: int|
                            n0 <= k < t2.len() && cfg_entry_matches(t2[k], modules@[ii]) by {
                            if ii == i {
                                assert(cfg_entry_matches(t2[t2.len() - 1], modules@[ii]));
                            } else {
                                let k0 = choose|k: int|
                                    n0 <= k < t0.len() && cfg_entry_matches(t0[k], modules@[ii]);
                                assert(t2[k0] == t0[k0]);
                                assert(cfg_entry_matches(t2[k0], modules@[ii]));
                            }
                        }
                    }
                },
                Option::None => {},
            }
            i = i + 1;
        }
    }

    /// The configured override for an export, if any.
    fn find_override(&self, module_name: &[u8], function_name: &[u8]) -> (r: Option<&ToolConfig>)
        ensures
            match r {
                Some(c) => spec_override(self.tool_configs@, module_name@, function_name@)
                    matches Option::Some(sc) && *c == sc,
                None => spec_override(self.tool_configs@, module_name@, function_name@) is None,
            },
    {
        let mut i: usize = 0;
        while i < self.tool_configs.len()
            invariant
                0 <= i <= self.tool_configs@.len(),
                spec_cfg_tools_from(self.tool_configs@, module_name@, 0) == spec_cfg_tools_from(
                    self.tool_configs@,
                    module_name@,
                    i as int,
                ),
            decreases self.tool_configs@.len() - i,
        {
            if bytes_eq(self.tool_configs[i].0.as_slice(), module_name) {
                let ts = &self.tool_configs[i].1;
                let mut j: usize = 0;
                while j < ts.len()
                    invariant
                        0 <= j <= ts@.len(),
                        ts@ == self.tool_configs@[i as int].1@,
                        spec_cfg_tools_from(self.tool_configs@, module_name@, 0)
                            == Option::Some(ts@),
                        spec_tool_cfg_from(ts@, function_name@, 0) == spec_tool_cfg_from(
                            ts@,
                            function_name@,
                            j as int,
                        ),
                    decreases ts@.len() - j,
                {
                    if bytes_eq(ts[j].function_name.as_slice(), function_name) {
                        return Some(&ts[j]);
                    }
                    j = j + 1;
                }
                return None;
            }
            i = i + 1;
        }
        None
    }

    /// Classifies one export and builds its tool record, or reports that
    /// the export is unsupported. The returned record's name, pattern,
    /// description and schema follow the discovery rules exactly.
    pub fn analyze_function(
        &self,
        module_name: &[u8],
        function_name: &[u8],
        signature: FuncSignature,
    ) -> (r: Option<DiscoveredTool>)
        ensures
            r is Some <==> spec_classify(function_name@, signature.params@, signature.results@)
                is Some,
            match r {
                Some(t) => {
                    &&& Option::Some(t.pattern) == spec_classify(
                        function_name@,
                        signature.params@,
                        signature.results@,
                    )
                    &&& t.name@ == spec_tool_name(module_name@, function_name@)
                    &&& t.module_name@ == module_name@
                    &&& t.function_name@ == function_name@
                    &&& t.description@ == spec_tool_description(
                        self.tool_configs@,
                        module_name@,
                        function_name@,
                        t.pattern,
                    )
                    &&& spec_tool_schema_ok(
                        self.tool_configs@,
                        module_name@,
                        function_name@,
                        t.pattern,
                        t.schema,
                    )
                    &&& t.signature.params@ == signature.params@
                    &&& t.signature.results@ == signature.results@
                },
                None => true,
            },
    {
        if function_name.len() > 0 && function_name[0] == 0x5f {
            return None;
        }
        let known = bytes_eq(function_name, "validate_url".as_bytes()) || bytes_eq(
            function_name,
            "process_response".as_bytes(),
        ) || bytes_eq(function_name, "prepare_http_get".as_bytes()) || bytes_eq(
            function_name,
            "prepare_file_read".as_bytes(),
        ) || bytes_eq(function_name, "prepare_file_write".as_bytes()) || bytes_eq(
            function_name,
            "prepare_shell_exec".as_bytes(),
        ) || bytes_eq(function_name, "prepare_recommend_mcps".as_bytes());
        let two_i32 = signature.matches_pattern(Pattern::I32I32ToI32);
        let no_params = signature.matches_pattern(Pattern::NoParamsToI32);
        let pattern: Pattern;
        if known && two_i32 {
            pattern = Pattern::PtrLenToI32;
        } else if two_i32 {
            pattern = Pattern::I32I32ToI32;
        } else if no_params {
            pattern = Pattern::NoParamsToI32;
        } else {
            return None;
        }
        let schema_default = self.default_schema(function_name, pattern);
        let desc_default = self.default_desc(function_name, pattern);
        let generated = generate_description_with(module_name, function_name, &desc_default);
        let (description, schema): (Vec<u8>, ToolSchema) = match self.find_override(
            module_name,
            function_name,
        ) {
            Some(cfg) => {
                let d = match &cfg.description {
                    Option::Some(dd) => copy_bytes(dd),
                    Option::None => generated,
                };
                let s = match &cfg.parameters {
                    Option::Some(p) => ToolSchema::Custom(copy_bytes(p)),
                    Option::None => schema_default,
                };
                (d, s)
            },
            None => (generated, schema_default),
        };
        let name = tool_name_of(module_name, function_name);
        Some(
            DiscoveredTool {
                name,
                module_name: vstd::slice::slice_to_vec(module_name),
                function_name: vstd::slice::slice_to_vec(function_name),
                description,
                schema,
                signature,
                pattern,
            },
        )
    }

    /// The auto-generated schema for a classified export.
    fn default_schema(&self, function_name: &[u8], pattern: Pattern) -> (r: ToolSchema)
        ensures
            r == spec_default_schema(function_name@, pattern),
    {
        match pattern {
            Pattern::PtrLenToI32 => {
                if bytes_eq(function_name, "prepare_http_get".as_bytes()) {
                    ToolSchema::Url
                } else if bytes_eq(function_name, "prepare_file_read".as_bytes()) {
                    ToolSchema::Path
                } else if bytes_eq(function_name, "prepare_file_write".as_bytes()) {
                    ToolSchema::PathContent
                } else if bytes_eq(function_name, "prepare_shell_exec".as_bytes()) {
                    ToolSchema::Command
                } else if bytes_eq(function_name, "prepare_recommend_mcps".as_bytes()) {
                    ToolSchema::Task
                } else {
                    ToolSchema::Data
                }
            },
            Pattern::I32I32ToI32 => ToolSchema::IntPair,
            Pattern::NoParamsToI32 => ToolSchema::Empty,
        }
    }

    /// The fallback description for a classified export.
    fn default_desc(&self, function_name: &[u8], pattern: Pattern) -> (r: Vec<u8>)
        ensures
            r@ == spec_default_desc(function_name@, pattern),
    {
        match pattern {
            Pattern::PtrLenToI32 => {
                if bytes_eq(function_name, "prepare_http_get".as_bytes()) {
                    vstd::slice::slice_to_vec(
                        "Fetch content from a URL using async HTTP GET with WASM validation".as_bytes(),
                    )
                } else if bytes_eq(function_name, "prepare_file_read".as_bytes()) {
                    vstd::slice::slice_to_vec("Read file content with WASM path validation".as_bytes())
                } else if bytes_eq(function_name, "prepare_file_write".as_bytes()) {
                    vstd::slice::slice_to_vec(
                        "Write content to file with WASM path validation".as_bytes(),
                    )
                } else if bytes_eq(function_name, "prepare_shell_exec".as_bytes()) {
                    vstd::slice::slice_to_vec(
                        "Execute a simple shell command with WASM validation".as_bytes(),
                    )
                } else if bytes_eq(function_name, "prepare_recommend_mcps".as_bytes()) {
                    vstd::slice::slice_to_vec(
                        "Recommend relevant MCP tools based on a task description".as_bytes(),
                    )
                } else {
                    vstd::slice::slice_to_vec(
                        "Processes string data and returns an integer status".as_bytes(),
                    )
                }
            },
            Pattern::I32I32ToI32 => vstd::slice::slice_to_vec(
                "Takes two integers and returns an integer".as_bytes(),
            ),
            Pattern::NoParamsToI32 => vstd::slice::slice_to_vec(
                "Takes no parameters and returns an integer".as_bytes(),
            ),
        }
    }
}

/// The name table plus the module tag, executably.
pub fn generate_description_with(module_name: &[u8], function_name: &[u8], default: &[u8]) -> (r:
    Vec<u8>)
    ensures
        r@ == spec_generate_description(module_name@, function_name@, default@),
{
    let base: Vec<u8> = if bytes_eq(function_name, "add".as_bytes()) {
        vstd::slice::slice_to_vec("Add two numbers using WebAssembly".as_bytes())
    } else if bytes_eq(function_name, "subtract".as_bytes()) || bytes_eq(
        function_name,
        "sub".as_bytes(),
    ) {
        vstd::slice::slice_to_vec("Subtract two numbers using WebAssembly".as_bytes())
    } else if bytes_eq(function_name, "multiply".as_bytes()) || bytes_eq(
        function_name,
        "mul".as_bytes(),
    ) {
        vstd::slice::slice_to_vec("Multiply two numbers using WebAssembly".as_bytes())
    } else if bytes_eq(function_name, "divide".as_bytes()) || bytes_eq(
        function_name,
        "div".as_bytes(),
    ) {
        vstd::slice::slice_to_vec("Divide two numbers using WebAssembly".as_bytes())
    } else if bytes_eq(function_name, "validate_url".as_bytes()) {
        vstd::slice::slice_to_vec("Validate URL format using WebAssembly".as_bytes())
    } else if bytes_eq(function_name, "process_response".as_bytes()) {
        vstd::slice::slice_to_vec("Process HTTP response using WebAssembly".as_bytes())
    } else if bytes_eq(function_name, "prepare_http_get".as_bytes()) {
        vstd::slice::slice_to_vec(
            "Fetch content from a URL using async HTTP GET with WASM validation".as_bytes(),
        )
    } else if bytes_eq(function_name, "prepare_file_read".as_bytes()) {
        vstd::slice::slice_to_vec("Read file content with WASM path validation".as_bytes())
    } else if bytes_eq(function_name, "prepare_file_write".as_bytes()) {
        vstd::slice::slice_to_vec("Write content to file with WASM path validation".as_bytes())
    } else if bytes_eq(function_name, "prepare_shell_exec".as_bytes()) {
        vstd::slice::slice_to_vec("Execute a simple shell command with WASM validation".as_bytes())
    } else if bytes_eq(function_name, "prepare_recommend_mcps".as_bytes()) {
        vstd::slice::slice_to_vec(
            "Recommend relevant MCP tools based on a task description".as_bytes(),
        )
    } else if bytes_eq(function_name, "hash".as_bytes()) || bytes_eq(
        function_name,
        "sha256".as_bytes(),
    ) {
        vstd::slice::slice_to_vec("Calculate hash of input data".as_bytes())
    } else if bytes_eq(function_name, "encrypt".as_bytes()) {
        vstd::slice::slice_to_vec("Encrypt data using WebAssembly".as_bytes())
    } else if bytes_eq(function_name, "decrypt".as_bytes()) {
        vstd::slice::slice_to_vec("Decrypt data using WebAssembly".as_bytes())
    } else if bytes_eq(function_name, "compress".as_bytes()) {
        vstd::slice::slice_to_vec("Compress data using WebAssembly".as_bytes())
    } else if bytes_eq(function_name, "decompress".as_bytes()) {
        vstd::slice::slice_to_vec("Decompress data using WebAssembly".as_bytes())
    } else if contains(function_name, "validate".as_bytes()) {
        vstd::slice::slice_to_vec("Validate input data using WebAssembly".as_bytes())
    } else if contains(function_name, "process".as_bytes()) {
        vstd::slice::slice_to_vec("Process input data using WebAssembly".as_bytes())
    } else if contains(function_name, "parse".as_bytes()) {
        vstd::slice::slice_to_vec("Parse input data using WebAssembly".as_bytes())
    } else if contains(function_name, "format".as_bytes()) {
        vstd::slice::slice_to_vec("Format input data using WebAssembly".as_bytes())
    } else {
        vstd::slice::slice_to_vec(default)
    };
    let mut r = base;
    push_all(&mut r, " (from module: ".as_bytes());
    push_all(&mut r, module_name);
    push_all(&mut r, ")".as_bytes());
    r
}

/// The public tool name, executably.
pub fn tool_name_of(module_name: &[u8], function_name: &[u8]) -> (r: Vec<u8>)
    ensures
        r@ == spec_tool_name(module_name@, function_name@),
{
    if bytes_eq(module_name, "test-module".as_bytes()) {
        vstd::slice::slice_to_vec(function_name)
    } else {
        let mut folded: Vec<u8> = Vec::new();
        let mut i: usize = 0;
        while i < module_name.len()
            invariant
                0 <= i <= module_name@.len(),
                folded@.len() == i,
                forall|j: int| 0 <= j < i ==> folded@[j] == spec_hyphen_to_underscore(
                    module_name@,
                )[j],
            decreases module_name@.len() - i,
        {
            let b = module_name[i];
            if b == 0x2d {
                folded.push(0x5f);
            } else {
                folded.push(b);
            }
            i = i + 1;
        }
        proof {
            assert(folded@ =~= spec_hyphen_to_underscore(module_name@));
        }
        push_all(&mut folded, "_".as_bytes());
        let mut r = folded;
        push_all(&mut r, function_name);
        r
    }
}

/// The table key `module::function`, executably.
pub fn tool_key_of(module_name: &[u8], function_name: &[u8]) -> (r: Vec<u8>)
    ensures
        r@ == spec_tool_key(module_name@, function_name@),
{
    let mut r = vstd::slice::slice_to_vec(module_name);
    push_all(&mut r, "::".as_bytes());
    push_all(&mut r, function_name);
    r
}

/// A `module::function` key is never the synthetic key `fetch`: it holds
/// a colon, which `fetch` does not.
pub proof fn lemma_key_not_fetch(m: Seq<u8>, f: Seq<u8>)
    ensures
        spec_tool_key(m, f) != "fetch".spec_bytes(),
{
    reveal_strlit("fetch");
    reveal_strlit("::");
    broadcast use vstd::string::is_ascii_spec_bytes;

    let key = spec_tool_key(m, f);
    assert(is_ascii("::"));
    assert("::".spec_bytes()[0] == 0x3au8);
    assert(key[m.len() as int] == 0x3au8);
    assert(is_ascii("fetch"));
    let fb = "fetch".spec_bytes();
    assert(fb.len() == 5);
    assert(fb[0] == 102u8 && fb[1] == 101u8 && fb[2] == 116u8 && fb[3] == 99u8 && fb[4]
        == 104u8);
    if key == fb {
        assert(key.len() == m.len() + 2 + f.len());
        assert(0 <= m.len() < 5);
        assert(fb[m.len() as int] == 0x3au8);
        assert(false);
    }
}

/// The synthetic fetch tool's fixed face: public name and bound function
/// `fetch`, the pointer/length pattern, and the `{url}` schema.
pub open spec fn fetch_tool_ok(t: DiscoveredTool) -> bool {
    &&& t.name@ == "fetch".spec_bytes()
    &&& t.function_name@ == "fetch".spec_bytes()
    &&& t.pattern is PtrLenToI32
    &&& t.schema is Url
}

/// The tool is exactly what analysing export `decl` of module `m` yields
/// under the recorded configurations: classification, naming, description
/// and schema rules, and the export's own signature.
pub open spec fn analyzed_tool_ok(
    cfgs: Seq<(Vec<u8>, Vec<ToolConfig>)>,
    m: Seq<u8>,
    decl: crate::signature::FuncDecl,
    t: DiscoveredTool,
) -> bool {
    &&& Option::Some(t.pattern) == spec_classify(
        decl.name@,
        decl.signature.params@,
        decl.signature.results@,
    )
    &&& t.name@ == spec_tool_name(m, decl.name@)
    &&& t.module_name@ == m
    &&& t.function_name@ == decl.name@
    &&& t.description@ == spec_tool_description(cfgs, m, decl.name@, t.pattern)
    &&& spec_tool_schema_ok(cfgs, m, decl.name@, t.pattern, t.schema)
    &&& t.signature.params@ == decl.signature.params@
    &&& t.signature.results@ == decl.signature.results@
}

/// A table entry under key `k` holds a sound value: the fetch entry has
/// the fetch tool's face, and any other entry is the analysis of some
/// export already walked (module index under `hi_i`, or exactly `hi_i`
/// with export index under `hi_j`).
pub open spec fn entry_value_ok(
    cfgs: Seq<(Vec<u8>, Vec<ToolConfig>)>,
    mods: Seq<LoadedModule>,
    hi_i: int,
    hi_j: int,
    k: Seq<u8>,
    t: DiscoveredTool,
) -> bool {
    if k == "fetch".spec_bytes() {
        fetch_tool_ok(t)
    } else {
        exists|mi: int, jj: int|
            #![trigger mods[mi].exports@[jj]]
            0 <= mi < mods.len() && 0 <= jj < mods[mi].exports@.len() && (mi < hi_i || (mi == hi_i
                && jj < hi_j)) && k == spec_tool_key(
                mods[mi].metadata.name@,
                mods[mi].exports@[jj].name@,
            ) && analyzed_tool_ok(cfgs, mods[mi].metadata.name@, mods[mi].exports@[jj], t)
    }
}

/// Soundness of one entry is monotone in the walked prefix.
proof fn lemma_entry_value_mono_one(
    cfgs: Seq<(Vec<u8>, Vec<ToolConfig>)>,
    mods: Seq<LoadedModule>,
    i1: int,
    j1: int,
    i2: int,
    j2: int,
    k: Seq<u8>,
    t: DiscoveredTool,
)
    requires
        entry_value_ok(cfgs, mods, i1, j1, k, t),
        i1 < i2 || (i1 == i2 && j1 <= j2),
    ensures
        entry_value_ok(cfgs, mods, i2, j2, k, t),
{
    if k != "fetch".spec_bytes() {
        let (mi, jj) = choose|mi: int, jj: int|
            #![trigger mods[mi].exports@[jj]]
            0 <= mi < mods.len() && 0 <= jj < mods[mi].exports@.len() && (mi < i1 || (mi == i1
                && jj < j1)) && k == spec_tool_key(
                mods[mi].metadata.name@,
                mods[mi].exports@[jj].name@,
            ) && analyzed_tool_ok(cfgs, mods[mi].metadata.name@, mods[mi].exports@[jj], t);
        assert(mi < i2 || (mi == i2 && jj < j2));
    }
}

/// Soundness of every entry is monotone in the walked prefix.
proof fn lemma_entry_values_mono(
    cfgs: Seq<(Vec<u8>, Vec<ToolConfig>)>,
    mods: Seq<LoadedModule>,
    i1: int,
    j1: int,
    i2: int,
    j2: int,
    s: Seq<(Vec<u8>, DiscoveredTool)>,
)
    requires
        forall|t: int| #![trigger s[t]] 0 <= t < s.len() ==> entry_value_ok(
            cfgs,
            mods,
            i1,
            j1,
            s[t].0@,
            s[t].1,
        ),
        i1 < i2 || (i1 == i2 && j1 <= j2),
    ensures
        forall|t: int| #![trigger s[t]] 0 <= t < s.len() ==> entry_value_ok(
            cfgs,
            mods,
            i2,
            j2,
            s[t].0@,
            s[t].1,
        ),
{
    assert forall|t: int| 0 <= t < s.len() implies entry_value_ok(
        cfgs,
        mods,
        i2,
        j2,
        s[t].0@,
        s[t].1,
    ) by {
        lemma_entry_value_mono_one(cfgs, mods, i1, j1, i2, j2, s[t].0@, s[t].1);
    }
}

/// Inserting a sound pair into a table of sound entries leaves every
/// entry sound, provided each new-table entry is either the inserted pair
/// or an old entry.
proof fn lemma_entry_values_after_insert(
    cfgs: Seq<(Vec<u8>, Vec<ToolConfig>)>,
    mods: Seq<LoadedModule>,
    hi_i: int,
    hi_j: int,
    s0: Seq<(Vec<u8>, DiscoveredTool)>,
    s2: Seq<(Vec<u8>, DiscoveredTool)>,
    key: Seq<u8>,
    tool: DiscoveredTool,
)
    requires
        forall|t: int| #![trigger s0[t]] 0 <= t < s0.len() ==> entry_value_ok(
            cfgs,
            mods,
            hi_i,
            hi_j,
            s0[t].0@,
            s0[t].1,
        ),
        forall|t: int| #![trigger s2[t]] 0 <= t < s2.len() ==> ((s2[t].0@ == key && s2[t].1
            == tool) || (s2[t].0@ != key && s0.contains(s2[t]))),
        entry_value_ok(cfgs, mods, hi_i, hi_j, key, tool),
    ensures
        forall|t: int| #![trigger s2[t]] 0 <= t < s2.len() ==> entry_value_ok(
            cfgs,
            mods,
            hi_i,
            hi_j,
            s2[t].0@,
            s2[t].1,
        ),
{
    assert forall|t: int| 0 <= t < s2.len() implies entry_value_ok(
        cfgs,
        mods,
        hi_i,
        hi_j,
        s2[t].0@,
        s2[t].1,
    ) by {
        if !(s2[t].0@ == key && s2[t].1 == tool) {
            assert(s0.contains(s2[t]));
            let t0 = choose|t0: int| 0 <= t0 < s0.len() && s0[t0] == s2[t];
            assert(entry_value_ok(cfgs, mods, hi_i, hi_j, s0[t0].0@, s0[t0].1));
        }
    }
}

/// Variant-wise equality of schemas, custom JSON compared by contents.
pub open spec fn schema_eq(a: ToolSchema, b: ToolSchema) -> bool {
    match a {
        ToolSchema::Custom(raw) => b matches ToolSchema::Custom(rb) && rb@ == raw@,
        ToolSchema::IntPair => b is IntPair,
        ToolSchema::Url => b is Url,
        ToolSchema::Path => b is Path,
        ToolSchema::PathContent => b is PathContent,
        ToolSchema::Command => b is Command,
        ToolSchema::Task => b is Task,
        ToolSchema::Data => b is Data,
        ToolSchema::Empty => b is Empty,
    }
}

/// Copies a schema value.
pub fn copy_schema(s: &ToolSchema) -> (r: ToolSchema)
    ensures
        schema_eq(*s, r),
{
    match s {
        ToolSchema::Custom(raw) => ToolSchema::Custom(copy_bytes(raw)),
        ToolSchema::IntPair => ToolSchema::IntPair,
        ToolSchema::Url => ToolSchema::Url,
        ToolSchema::Path => ToolSchema::Path,
        ToolSchema::PathContent => ToolSchema::PathContent,
        ToolSchema::Command => ToolSchema::Command,
        ToolSchema::Task => ToolSchema::Task,
        ToolSchema::Data => ToolSchema::Data,
        ToolSchema::Empty => ToolSchema::Empty,
    }
}

/// One tools-list descriptor: what an RPC client sees of a tool.
pub struct ToolDescriptor {
    pub name: Vec<u8>,
    pub description: Vec<u8>,
    pub schema: ToolSchema,
}

/// The export list holds a function of the given name.
pub fn has_export_named(exports: &Vec<crate::signature::FuncDecl>, name: &[u8]) -> (r: bool)
    ensures
        r == crate::executor::spec_has_export(exports@, name@),
{
    let mut i: usize = 0;
    while i < exports.len()
        invariant
            0 <= i <= exports@.len(),
            forall|j: int| 0 <= j < i ==> exports@[j].name@ != name@,
        decreases exports@.len() - i,
    {
        if bytes_eq(exports[i].name.as_slice(), name) {
            return true;
        }
        i = i + 1;
    }
    false
}

impl ToolDiscovery {
    /// The index of the entry with the given key.
    fn find_key(&self, key: &[u8]) -> (r: Option<usize>)
        ensures
            match r {
                Some(i) => i < self.discovered_tools@.len() && self.discovered_tools@[
                    i as int].0@ == key@,
                None => forall|j: int| 0 <= j < self.discovered_tools@.len()
                    ==> self.discovered_tools@[j].0@ != key@,
            },
    {
        let mut i: usize = 0;
        while i < self.discovered_tools.len()
            invariant
                0 <= i <= self.discovered_tools@.len(),
                forall|j: int| 0 <= j < i ==> self.discovered_tools@[j].0@ != key@,
            decreases self.discovered_tools@.len() - i,
        {
            if bytes_eq(self.discovered_tools[i].0.as_slice(), key) {
                return Some(i);
            }
            i = i + 1;
        }
        None
    }

    /// Inserts a tool under a key, replacing any entry with that key.
    fn insert_tool(&mut self, key: Vec<u8>, tool: DiscoveredTool)
        requires
            table_wf(old(self).discovered_tools@),
        ensures
            table_wf(final(self).discovered_tools@),
            final(self).tool_configs@ == old(self).tool_configs@,
            old(self).discovered_tools@.len() <= final(self).discovered_tools@.len() <= old(self).discovered_tools@.len() + 1,
            spec_has_key(final(self).discovered_tools@, key@),
            forall|q: Seq<u8>| q != key@ ==> spec_has_key(final(self).discovered_tools@, q)
                == spec_has_key(old(self).discovered_tools@, q),
            exists|t: int| 0 <= t < final(self).discovered_tools@.len() && final(self).discovered_tools@[t].0@ == key@ && final(self).discovered_tools@[t].1 == tool,
            forall|t: int|
                #![trigger final(self).discovered_tools@[t]]
                0 <= t < final(self).discovered_tools@.len() ==> ((final(self).discovered_tools@[t].0@ == key@ && final(self).discovered_tools@[t].1 == tool)
                    || (final(self).discovered_tools@[t].0@ != key@ && old(self).discovered_tools@.contains(final(self).discovered_tools@[t]))),
            forall|t: int|
                #![trigger old(self).discovered_tools@[t]]
                0 <= t < old(self).discovered_tools@.len() && old(self).discovered_tools@[t].0@
                    != key@ ==> final(self).discovered_tools@.contains(
                    old(self).discovered_tools@[t],
                ),
    {
        let ghost s0 = self.discovered_tools@;
        let ghost kk = key@;
        let ghost tt = tool;
        let found = self.find_key(key.as_slice());
        match found {
            Option::Some(fi) => {
                self.discovered_tools.remove(fi);
                self.discovered_tools.push((key, tool));
                proof {
                    let s2 = self.discovered_tools@;
                    assert(s2[s2.len() - 1].0@ == kk && s2[s2.len() - 1].1 == tt);
                    assert forall|q: Seq<u8>| q != kk implies spec_has_key(s2, q) == spec_has_key(
                        s0,
                        q,
                    ) by {
                        if spec_has_key(s0, q) {
                            let j = choose|j: int| 0 <= j < s0.len() && s0[j].0@ == q;
                            if j < fi {
                                assert(s2[j].0@ == q);
                            } else {
                                assert(j != fi);
                                assert(s2[j - 1].0@ == q);
                            }
                        }
                        if spec_has_key(s2, q) {
                            let j = choose|j: int| 0 <= j < s2.len() && s2[j].0@ == q;
                            if j < s2.len() - 1 {
                                if j < fi {
                                    assert(s0[j].0@ == q);
                                } else {
                                    assert(s0[j + 1].0@ == q);
                                }
                            }
                        }
                    }
                    assert forall|t: int|
                        0 <= t < s2.len() implies ((s2[t].0@ == kk && s2[t].1 == tt) || (s2[t].0@
                        != kk && s0.contains(s2[t]))) by {
                        if t < s2.len() - 1 {
                            let t0: int = if t < fi {
                                t
                            } else {
                                t + 1
                            };
                            assert(s2[t] == s0[t0]);
                            assert(s0[t0].0@ != s0[fi as int].0@);
                        }
                    }
                    assert forall|t: int|
                        0 <= t < s0.len() && s0[t].0@ != kk implies s2.contains(s0[t]) by {
                        assert(t != fi);
                        if t < fi {
                            assert(s2[t] == s0[t]);
                        } else {
                            assert(s2[t - 1] == s0[t]);
                        }
                    }
                    assert forall|a: int, b: int|
                        0 <= a < b < self.discovered_tools@.len() implies self.discovered_tools@[
                        a].0@ != self.discovered_tools@[b].0@ by {
                        let s2 = self.discovered_tools@;
                        let a0: int = if a < fi { a } else { a + 1 };
                        if b < s2.len() - 1 {
                            let b0: int = if b < fi { b } else { b + 1 };
                            assert(s2[a] == s0[a0] && s2[b] == s0[b0]);
                        } else {
                            assert(s2[a] == s0[a0]);
                            if a0 != fi {
                                assert(s0[a0].0@ != s0[fi as int].0@);
                            }
                        }
                    }
                }
            },
            Option::None => {
                self.discovered_tools.push((key, tool));
                proof {
                    let s2 = self.discovered_tools@;
                    assert(s2[s2.len() - 1].0@ == kk && s2[s2.len() - 1].1 == tt);
                    assert forall|q: Seq<u8>| q != kk implies spec_has_key(s2, q) == spec_has_key(
                        s0,
                        q,
                    ) by {
                        if spec_has_key(s0, q) {
                            let j = choose|j: int| 0 <= j < s0.len() && s0[j].0@ == q;
                            assert(s2[j].0@ == q);
                        }
                        if spec_has_key(s2, q) {
                            let j = choose|j: int| 0 <= j < s2.len() && s2[j].0@ == q;
                            assert(j < s2.len() - 1 ==> s0[j].0@ == q);
                        }
                    }
                    assert forall|t: int|
                        0 <= t < s2.len() implies ((s2[t].0@ == kk && s2[t].1 == tt) || (s2[t].0@
                        != kk && s0.contains(s2[t]))) by {
                        if t < s2.len() - 1 {
                            assert(s2[t] == s0[t]);
                            assert(s0[t].0@ != kk);
                        }
                    }
                    assert forall|t: int|
                        0 <= t < s0.len() && s0[t].0@ != kk implies s2.contains(s0[t]) by {
                        assert(s2[t] == s0[t]);
                    }
                }
            },
        }
    }

    /// Walks every export of every loaded module, classifies each, and
    /// fills the dispatch table. A module exporting both `validate_url`
    /// and `process_response` also yields the synthetic `fetch` tool.
    /// Returns how many tools were recorded.
    ///
    /// The contract carries the tools-list shape: afterwards the table
    /// keys are unique; `fetch` is present exactly when some module
    /// exports both halves of the legacy fetch pair; every supported
    /// export is present under its `module::function` key; and nothing
    /// else is present.
    pub fn discover_tools_from_executor(&mut self, executor: &WasmExecutor) -> (r: usize)
        requires
            old(self).discovered_tools@.len() == 0,
        ensures
            table_wf(final(self).discovered_tools@),
            spec_has_key(final(self).discovered_tools@, "fetch".spec_bytes()) <==> (exists|i: int|
                #![trigger executor.modules@[i]]
                0 <= i < executor.modules@.len() && crate::executor::spec_has_export(
                    executor.modules@[i].exports@,
                    "validate_url".spec_bytes(),
                ) && crate::executor::spec_has_export(
                    executor.modules@[i].exports@,
                    "process_response".spec_bytes(),
                )),
            forall|i: int, j: int|
                #![trigger executor.modules@[i].exports@[j]]
                0 <= i < executor.modules@.len() && 0 <= j < executor.modules@[i].exports@.len()
                    && spec_classify(
                    executor.modules@[i].exports@[j].name@,
                    executor.modules@[i].exports@[j].signature.params@,
                    executor.modules@[i].exports@[j].signature.results@,
                ) is Some ==> spec_has_key(
                    final(self).discovered_tools@,
                    spec_tool_key(
                        executor.modules@[i].metadata.name@,
                        executor.modules@[i].exports@[j].name@,
                    ),
                ),
            forall|q: Seq<u8>|
                #![trigger spec_has_key(final(self).discovered_tools@, q)]
                spec_has_key(final(self).discovered_tools@, q) ==> q == "fetch".spec_bytes() || (
                exists|i: int, j: int|
                    0 <= i < executor.modules@.len() && 0 <= j
                        < executor.modules@[i].exports@.len() && q == spec_tool_key(
                        executor.modules@[i].metadata.name@,
                        executor.modules@[i].exports@[j].name@,
                    ) && spec_classify(
                        executor.modules@[i].exports@[j].name@,
                        executor.modules@[i].exports@[j].signature.params@,
                        executor.modules@[i].exports@[j].signature.results@,
                    ) is Some),
            final(self).discovered_tools@.len() <= r,
            forall|t: int|
                #![trigger final(self).discovered_tools@[t]]
                0 <= t < final(self).discovered_tools@.len() ==> entry_value_ok(
                    old(self).tool_configs@,
                    executor.modules@,
                    executor.modules@.len() as int,
                    0,
                    final(self).discovered_tools@[t].0@,
                    final(self).discovered_tools@[t].1,
                ),
    {
        let mut count: usize = 0;
        let mut i: usize = 0;
        while i < executor.modules.len()
            invariant
                table_wf(self.discovered_tools@),
                self.tool_configs@ == old(self).tool_configs@,
                0 <= i <= executor.modules@.len(),
                self.discovered_tools@.len() <= count,
                forall|t: int|
                    #![trigger self.discovered_tools@[t]]
                    0 <= t < self.discovered_tools@.len() ==> entry_value_ok(
                        old(self).tool_configs@,
                        executor.modules@,
                        i as int,
                        0,
                        self.discovered_tools@[t].0@,
                        self.discovered_tools@[t].1,
                    ),
                spec_has_key(self.discovered_tools@, "fetch".spec_bytes()) <==> (exists|mi: int|
                    #![trigger executor.modules@[mi]]
                    0 <= mi < i && crate::executor::spec_has_export(
                        executor.modules@[mi].exports@,
                        "validate_url".spec_bytes(),
                    ) && crate::executor::spec_has_export(
                        executor.modules@[mi].exports@,
                        "process_response".spec_bytes(),
                    )),
                forall|mi: int, j: int|
                    #![trigger executor.modules@[mi].exports@[j]]
                    0 <= mi < i && 0 <= j < executor.modules@[mi].exports@.len() && spec_classify(
                        executor.modules@[mi].exports@[j].name@,
                        executor.modules@[mi].exports@[j].signature.params@,
                        executor.modules@[mi].exports@[j].signature.results@,
                    ) is Some ==> spec_has_key(
                        self.discovered_tools@,
                        spec_tool_key(
                            executor.modules@[mi].metadata.name@,
                            executor.modules@[mi].exports@[j].name@,
                        ),
                    ),
                forall|q: Seq<u8>|
                    #![trigger spec_has_key(self.discovered_tools@, q)]
                    spec_has_key(self.discovered_tools@, q) ==> q == "fetch".spec_bytes() || (
                    exists|mi: int, j: int|
                        0 <= mi < i && 0 <= j < executor.modules@[mi].exports@.len() && q
                            == spec_tool_key(
                            executor.modules@[mi].metadata.name@,
                            executor.modules@[mi].exports@[j].name@,
                        ) && spec_classify(
                            executor.modules@[mi].exports@[j].name@,
                            executor.modules@[mi].exports@[j].signature.params@,
                            executor.modules@[mi].exports@[j].signature.results@,
                        ) is Some),
            decreases executor.modules@.len() - i,
        {
            let lm = &executor.modules[i];
            let has_vu = has_export_named(&lm.exports, "validate_url".as_bytes());
            let has_pr = has_export_named(&lm.exports, "process_response".as_bytes());
            if has_vu && has_pr {
                let mut fetch_desc = vstd::slice::slice_to_vec(
                    "Fetch content from a URL using WASM validation and processing (from module: ".as_bytes(),
                );
                push_all(&mut fetch_desc, lm.metadata.name.as_slice());
                push_all(&mut fetch_desc, ")".as_bytes());
                let mut fparams: Vec<crate::signature::ValueType> = Vec::new();
                fparams.push(crate::signature::ValueType::I32);
                fparams.push(crate::signature::ValueType::I32);
                let mut fresults: Vec<crate::signature::ValueType> = Vec::new();
                fresults.push(crate::signature::ValueType::I32);
                let fetch_tool = DiscoveredTool {
                    name: vstd::slice::slice_to_vec("fetch".as_bytes()),
                    module_name: copy_bytes(&lm.metadata.name),
                    function_name: vstd::slice::slice_to_vec("fetch".as_bytes()),
                    description: fetch_desc,
                    schema: ToolSchema::Url,
                    signature: FuncSignature { params: fparams, results: fresults },
                    pattern: Pattern::PtrLenToI32,
                };
                let fetch_key = vstd::slice::slice_to_vec("fetch".as_bytes());
                let ghost fkv = fetch_key@;
                let ghost ftv = fetch_tool;
                let ghost s0f = self.discovered_tools@;
                proof {
                    assert(fetch_tool_ok(ftv));
                    assert(entry_value_ok(
                        old(self).tool_configs@,
                        executor.modules@,
                        i as int,
                        0,
                        fkv,
                        ftv,
                    ));
                }
                self.insert_tool(fetch_key, fetch_tool);
                proof {
                    lemma_entry_values_after_insert(
                        old(self).tool_configs@,
                        executor.modules@,
                        i as int,
                        0,
                        s0f,
                        self.discovered_tools@,
                        fkv,
                        ftv,
                    );
                }
                if count < usize::MAX {
                    count = count + 1;
                }
                let table_len = self.discovered_tools.len();
                proof {
                    assert(self.discovered_tools@.len() == table_len);
                    assert(self.discovered_tools@.len() <= count);
                }
            }
            let mut j: usize = 0;
            while j < executor.modules[i].exports.len()
                invariant
                    table_wf(self.discovered_tools@),
                    self.tool_configs@ == old(self).tool_configs@,
                    0 <= i < executor.modules@.len(),
                    0 <= j <= executor.modules@[i as int].exports@.len(),
                    self.discovered_tools@.len() <= count,
                    forall|t: int|
                        #![trigger self.discovered_tools@[t]]
                        0 <= t < self.discovered_tools@.len() ==> entry_value_ok(
                            old(self).tool_configs@,
                            executor.modules@,
                            i as int,
                            j as int,
                            self.discovered_tools@[t].0@,
                            self.discovered_tools@[t].1,
                        ),
                    spec_has_key(self.discovered_tools@, "fetch".spec_bytes()) <==> (exists|
                        mi: int,
                    |
                        #![trigger executor.modules@[mi]]
                        0 <= mi <= i && crate::executor::spec_has_export(
                            executor.modules@[mi].exports@,
                            "validate_url".spec_bytes(),
                        ) && crate::executor::spec_has_export(
                            executor.modules@[mi].exports@,
                            "process_response".spec_bytes(),
                        )) || (exists|mi: int|
                        #![trigger executor.modules@[mi]]
                        0 <= mi < i && crate::executor::spec_has_export(
                            executor.modules@[mi].exports@,
                            "validate_url".spec_bytes(),
                        ) && crate::executor::spec_has_export(
                            executor.modules@[mi].exports@,
                            "process_response".spec_bytes(),
                        )),
                    forall|mi: int, jj: int|
                        #![trigger executor.modules@[mi].exports@[jj]]
                        0 <= mi < i && 0 <= jj < executor.modules@[mi].exports@.len()
                            && spec_classify(
                            executor.modules@[mi].exports@[jj].name@,
                            executor.modules@[mi].exports@[jj].signature.params@,
                            executor.modules@[mi].exports@[jj].signature.results@,
                        ) is Some ==> spec_has_key(
                            self.discovered_tools@,
                            spec_tool_key(
                                executor.modules@[mi].metadata.name@,
                                executor.modules@[mi].exports@[jj].name@,
                            ),
                        ),
                    forall|jj: int|
                        #![trigger executor.modules@[i as int].exports@[jj]]
                        0 <= jj < j && spec_classify(
                            executor.modules@[i as int].exports@[jj].name@,
                            executor.modules@[i as int].exports@[jj].signature.params@,
                            executor.modules@[i as int].exports@[jj].signature.results@,
                        ) is Some ==> spec_has_key(
                            self.discovered_tools@,
                            spec_tool_key(
                                executor.modules@[i as int].metadata.name@,
                                executor.modules@[i as int].exports@[jj].name@,
                            ),
                        ),
                    forall|q: Seq<u8>|
                        #![trigger spec_has_key(self.discovered_tools@, q)]
                        spec_has_key(self.discovered_tools@, q) ==> q == "fetch".spec_bytes() || (
                        exists|mi: int, jj: int|
                            0 <= mi <= i && 0 <= jj < executor.modules@[mi].exports@.len() && q
                                == spec_tool_key(
                                executor.modules@[mi].metadata.name@,
                                executor.modules@[mi].exports@[jj].name@,
                            ) && spec_classify(
                                executor.modules@[mi].exports@[jj].name@,
                                executor.modules@[mi].exports@[jj].signature.params@,
                                executor.modules@[mi].exports@[jj].signature.results@,
                            ) is Some),
                decreases executor.modules@[i as int].exports@.len() - j,
            {
                let decl = &executor.modules[i].exports[j];
                let sig = decl.signature.duplicate();
                let mname = &executor.modules[i].metadata.name;
                match self.analyze_function(mname.as_slice(), decl.name.as_slice(), sig) {
                    Option::Some(tool) => {
                        let key = tool_key_of(mname.as_slice(), decl.name.as_slice());
                        let ghost kv = key@;
                        let ghost tv = tool;
                        let ghost s0e = self.discovered_tools@;
                        proof {
                            lemma_key_not_fetch(mname@, decl.name@);
                            lemma_entry_values_mono(
                                old(self).tool_configs@,
                                executor.modules@,
                                i as int,
                                j as int,
                                i as int,
                                j + 1,
                                s0e,
                            );
                            assert(self.tool_configs@ == old(self).tool_configs@);
                            assert(analyzed_tool_ok(
                                old(self).tool_configs@,
                                mname@,
                                executor.modules@[i as int].exports@[j as int],
                                tv,
                            ));
                            assert(entry_value_ok(
                                old(self).tool_configs@,
                                executor.modules@,
                                i as int,
                                j + 1,
                                kv,
                                tv,
                            ));
                        }
                        self.insert_tool(key, tool);
                        proof {
                            lemma_entry_values_after_insert(
                                old(self).tool_configs@,
                                executor.modules@,
                                i as int,
                                j + 1,
                                s0e,
                                self.discovered_tools@,
                                kv,
                                tv,
                            );
                        }
                        if count < usize::MAX {
                            count = count + 1;
                        }
                        let table_len = self.discovered_tools.len();
                        proof {
                            assert(self.discovered_tools@.len() == table_len);
                            assert(self.discovered_tools@.len() <= count);
                        }
                    },
                    Option::None => {
                        proof {
                            lemma_entry_values_mono(
                                old(self).tool_configs@,
                                executor.modules@,
                                i as int,
                                j as int,
                                i as int,
                                j + 1,
                                self.discovered_tools@,
                            );
                        }
                    },
                }
                j = j + 1;
            }
            proof {
                lemma_entry_values_mono(
                    old(self).tool_configs@,
                    executor.modules@,
                    i as int,
                    j as int,
                    i as int + 1,
                    0,
                    self.discovered_tools@,
                );
            }
            i = i + 1;
        }
        proof {
            lemma_entry_values_mono(
                old(self).tool_configs@,
                executor.modules@,
                i as int,
                0,
                executor.modules@.len() as int,
                0,
                self.discovered_tools@,
            );
        }
        count
    }

    /// All discovered tools, keyed by `module::function` (or `fetch`).
    pub fn get_all_tools(&self) -> (r: &Vec<(Vec<u8>, DiscoveredTool)>)
        ensures
            r == &self.discovered_tools,
    {
        &self.discovered_tools
    }

    /// The tool under exactly the given key: the table entry whose key
    /// matches.
    pub fn get_tool(&self, tool_name: &[u8]) -> (r: Option<&DiscoveredTool>)
        ensures
            r is Some <==> spec_has_key(self.discovered_tools@, tool_name@),
            match r {
                Some(t) => exists|j: int|
                    #![trigger self.discovered_tools@[j]]
                    0 <= j < self.discovered_tools@.len() && self.discovered_tools@[j].0@
                        == tool_name@ && self.discovered_tools@[j].1 == *t,
                None => true,
            },
    {
        let mut i: usize = 0;
        while i < self.discovered_tools.len()
            invariant
                0 <= i <= self.discovered_tools@.len(),
                forall|j: int| 0 <= j < i ==> self.discovered_tools@[j].0@ != tool_name@,
            decreases self.discovered_tools@.len() - i,
        {
            if bytes_eq(self.discovered_tools[i].0.as_slice(), tool_name) {
                proof {
                    assert(self.discovered_tools@[i as int].0@ == tool_name@
                        && self.discovered_tools@[i as int].1 == self.discovered_tools@[
                        i as int].1);
                }
                return Some(&self.discovered_tools[i].1);
            }
            i = i + 1;
        }
        None
    }

    /// A tool by key, and failing that by public name.
    pub fn find_tool_by_name(&self, name: &[u8]) -> (r: Option<&DiscoveredTool>)
        ensures
            r is None ==> !spec_has_key(self.discovered_tools@, name@) && (forall|j: int|
                0 <= j < self.discovered_tools@.len() ==> self.discovered_tools@[j].1.name@
                    != name@),
            match r {
                Some(t) => (exists|j: int|
                    #![trigger self.discovered_tools@[j]]
                    0 <= j < self.discovered_tools@.len() && self.discovered_tools@[j].0@ == name@
                        && self.discovered_tools@[j].1 == *t) || (!spec_has_key(
                    self.discovered_tools@,
                    name@,
                ) && exists|j: int|
                    #![trigger self.discovered_tools@[j]]
                    0 <= j < self.discovered_tools@.len() && self.discovered_tools@[j].1.name@
                        == name@ && self.discovered_tools@[j].1 == *t),
                None => true,
            },
    {
        match self.get_tool(name) {
            Option::Some(t) => Some(t),
            Option::None => {
                let mut i: usize = 0;
                while i < self.discovered_tools.len()
                    invariant
                        0 <= i <= self.discovered_tools@.len(),
                        !spec_has_key(self.discovered_tools@, name@),
                        forall|j: int| 0 <= j < i ==> self.discovered_tools@[j].1.name@ != name@,
                    decreases self.discovered_tools@.len() - i,
                {
                    if bytes_eq(self.discovered_tools[i].1.name.as_slice(), name) {
                        proof {
                            assert(self.discovered_tools@[i as int].1.name@ == name@);
                        }
                        return Some(&self.discovered_tools[i].1);
                    }
                    i = i + 1;
                }
                None
            },
        }
    }

    /// The tools-list descriptors: exactly one per table entry, carrying
    /// its public name, description and schema.
    pub fn get_mcp_tools_schema(&self) -> (r: Vec<ToolDescriptor>)
        ensures
            r@.len() == self.discovered_tools@.len(),
            forall|i: int|
                #![trigger r@[i]]
                0 <= i < r@.len() ==> r@[i].name@ == self.discovered_tools@[i].1.name@
                    && r@[i].description@ == self.discovered_tools@[i].1.description@ && schema_eq(
                    self.discovered_tools@[i].1.schema,
                    r@[i].schema,
                ),
    {
        let mut r: Vec<ToolDescriptor> = Vec::new();
        let mut i: usize = 0;
        while i < self.discovered_tools.len()
            invariant
                0 <= i <= self.discovered_tools@.len(),
                r@.len() == i,
                forall|j: int|
                    #![trigger r@[j]]
                    0 <= j < i ==> r@[j].name@ == self.discovered_tools@[j].1.name@
                        && r@[j].description@ == self.discovered_tools@[j].1.description@
                        && schema_eq(self.discovered_tools@[j].1.schema, r@[j].schema),
            decreases self.discovered_tools@.len() - i,
        {
            let t = &self.discovered_tools[i].1;
            r.push(
                ToolDescriptor {
                    name: copy_bytes(&t.name),
                    description: copy_bytes(&t.description),
                    schema: copy_schema(&t.schema),
                },
            );
            i = i + 1;
        }
        r
    }

    /// The table indices of the tools of one module, in order.
    pub fn get_tools_by_module(&self, module_name: &[u8]) -> (r: Vec<usize>)
        ensures
            forall|k: int| 0 <= k < r@.len() ==> r@[k] < self.discovered_tools@.len()
                && self.discovered_tools@[r@[k] as int].1.module_name@ == module_name@,
            forall|i: int| 0 <= i < self.discovered_tools@.len()
                && self.discovered_tools@[i].1.module_name@ == module_name@ ==> exists|k: int|
                0 <= k < r@.len() && r@[k] == i,
    {
        let mut r: Vec<usize> = Vec::new();
        let mut i: usize = 0;
        while i < self.discovered_tools.len()
            invariant
                0 <= i <= self.discovered_tools@.len(),
                forall|k: int| 0 <= k < r@.len() ==> r@[k] < i
                    && self.discovered_tools@[r@[k] as int].1.module_name@ == module_name@,
                forall|j: int| 0 <= j < i && self.discovered_tools@[j].1.module_name@
                    == module_name@ ==> exists|k: int| 0 <= k < r@.len() && r@[k] == j,
            decreases self.discovered_tools@.len() - i,
        {
            if bytes_eq(self.discovered_tools[i].1.module_name.as_slice(), module_name) {
                let ghost r0 = r@;
                r.push(i);
                proof {
                    assert forall|j: int|
                        0 <= j < i + 1 && self.discovered_tools@[j].1.module_name@
                            == module_name@ implies exists|k: int|
                        0 <= k < r@.len() && r@[k] == j by {
                        if j == i {
                            assert(r@[r@.len() - 1] == j);
                        } else {
                            let k0 = choose|k: int| 0 <= k < r0.len() && r0[k] == j;
                            assert(r@[k0] == j);
                        }
                    }
                }
            }
            i = i + 1;
        }
        r
    }

    /// How many tools are discovered.
    pub fn get_tool_count(&self) -> (r: usize)
        ensures
            r == self.discovered_tools@.len(),
    {
        self.discovered_tools.len()
    }

    /// Empties the dispatch table.
    pub fn clear(&mut self)
        ensures
            final(self).discovered_tools@.len() == 0,
            final(self).tool_configs@ == old(self).tool_configs@,
    {
        self.discovered_tools = Vec::new();
    }
}

} // verus!
