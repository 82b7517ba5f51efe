//! The records that the service returns.
use vstd::prelude::*;
use crate::json::Json;
use crate::request::default_string;

verus! {

/// One compiler offered by the service. `id` is its unique key; the
/// instruction set is always held as text. `additional_fields` is set only
/// where the extended fields were asked for.
#[derive(Debug)]
pub struct Compiler {
    pub compiler_type: String,
    pub id: String,
    pub instruction_set: String,
    pub lang: String,
    pub name: String,
    pub semver: String,
    pub additional_fields: Option<AdditionalFields>,
}

impl Compiler {
    /// This record with `fields` attached as its extended fields.
    pub open spec fn attached(self, fields: AdditionalFields) -> Compiler {
        Compiler { additional_fields: Some(fields), ..self }
    }

    /// Attaches `fields` as the extended fields of this record; the base
    /// fields are kept.
    pub fn with_additional_fields(self, fields: AdditionalFields) -> (r: Compiler)
        ensures
            r == self.attached(fields),
    {
        let mut c = self;
        c.additional_fields = Some(fields);
        c
    }
}

/// The extended capability fields of a compiler. `demangler`, `exe` and
/// `nvdisasm` always hold text, empty where the service gave none; every
/// other field is `None` where the service left it out.
#[derive(Debug)]
pub struct AdditionalFields {
    pub adarts: Option<String>,
    pub alias: Option<Vec<String>>,
    pub demangler: String,
    pub demangler_type: Option<String>,
    pub disabled_filters: Option<Vec<String>>,
    pub env_vars: Option<Vec<Json>>,
    pub exe: String,
    pub execution_wrapper: Option<String>,
    pub full_version: Option<String>,
    pub group: Option<String>,
    pub group_name: Option<String>,
    pub hidden: Option<bool>,
    pub id: Option<String>,
    pub include_flag: Option<String>,
    pub include_path: Option<String>,
    pub intel_asm: Option<String>,
    pub interpreted: Option<bool>,
    pub is_sem_ver: Option<bool>,
    pub ld_path: Option<Vec<String>>,
    pub lib_path: Option<Vec<String>>,
    pub lib_path_flag: Option<String>,
    pub libs_arr: Option<Vec<String>>,
    pub license: Option<Vec<(String, Json)>>,
    pub link_flag: Option<String>,
    pub needs_multi: Option<bool>,
    pub notification: Option<String>,
    pub nvdisasm: String,
    pub objdumper: Option<String>,
    pub objdumper_type: Option<String>,
    pub opt_arg: Option<String>,
    pub options: Option<String>,
    pub post_process: Option<Vec<String>>,
    pub rpath_flag: Option<String>,
    pub supports_asm_docs: Option<bool>,
    pub supports_ast_view: Option<bool>,
    pub supports_binary: Option<bool>,
    pub supports_cfg: Option<bool>,
    pub supports_demangle: Option<bool>,
    pub supports_execute: Option<bool>,
    pub supports_intel: Option<bool>,
    pub supports_library_code_filter: Option<bool>,
    pub supports_opt_output: Option<bool>,
    pub supports_pp_view: Option<bool>,
    pub tools: Option<Vec<(String, Json)>>,
    pub unwise_options: Option<Vec<String>>,
    pub version: Option<String>,
}

impl AdditionalFields {
    /// Nothing is set: the three text fields are empty, the rest `None`.
    pub open spec fn is_absent(self) -> bool {
        &&& self.adarts is None
        &&& self.alias is None
        &&& self.demangler@ == Seq::<char>::empty()
        &&& self.demangler_type is None
        &&& self.disabled_filters is None
        &&& self.env_vars is None
        &&& self.exe@ == Seq::<char>::empty()
        &&& self.execution_wrapper is None
        &&& self.full_version is None
        &&& self.group is None
        &&& self.group_name is None
        &&& self.hidden is None
        &&& self.id is None
        &&& self.include_flag is None
        &&& self.include_path is None
        &&& self.intel_asm is None
        &&& self.interpreted is None
        &&& self.is_sem_ver is None
        &&& self.ld_path is None
        &&& self.lib_path is None
        &&& self.lib_path_flag is None
        &&& self.libs_arr is None
        &&& self.license is None
        &&& self.link_flag is None
        &&& self.needs_multi is None
        &&& self.notification is None
        &&& self.nvdisasm@ == Seq::<char>::empty()
        &&& self.objdumper is None
        &&& self.objdumper_type is None
        &&& self.opt_arg is None
        &&& self.options is None
        &&& self.post_process is None
        &&& self.rpath_flag is None
        &&& self.supports_asm_docs is None
        &&& self.supports_ast_view is None
        &&& self.supports_binary is None
        &&& self.supports_cfg is None
        &&& self.supports_demangle is None
        &&& self.supports_execute is None
        &&& self.supports_intel is None
        &&& self.supports_library_code_filter is None
        &&& self.supports_opt_output is None
        &&& self.supports_pp_view is None
        &&& self.tools is None
        &&& self.unwise_options is None
        &&& self.version is None
    }
}

impl Default for AdditionalFields {
    /// The record of an object that holds none of the extended fields.
    fn default() -> (r: AdditionalFields)
        ensures
            r.is_absent(),
    {
        AdditionalFields {
            adarts: None,
            alias: None,
            demangler: default_string(),
            demangler_type: None,
            disabled_filters: None,
            env_vars: None,
            exe: default_string(),
            execution_wrapper: None,
            full_version: None,
            group: None,
            group_name: None,
            hidden: None,
            id: None,
            include_flag: None,
            include_path: None,
            intel_asm: None,
            interpreted: None,
            is_sem_ver: None,
            ld_path: None,
            lib_path: None,
            lib_path_flag: None,
            libs_arr: None,
            license: None,
            link_flag: None,
            needs_multi: None,
            notification: None,
            nvdisasm: default_string(),
            objdumper: None,
            objdumper_type: None,
            opt_arg: None,
            options: None,
            post_process: None,
            rpath_flag: None,
            supports_asm_docs: None,
            supports_ast_view: None,
            supports_binary: None,
            supports_cfg: None,
            supports_demangle: None,
            supports_execute: None,
            supports_intel: None,
            supports_library_code_filter: None,
            supports_opt_output: None,
            supports_pp_view: None,
            tools: None,
            unwise_options: None,
            version: None,
        }
    }
}

/// A language that the service supports.
#[derive(Debug, Clone)]
pub struct Language {
    pub id: String,
    pub name: String,
    pub extensions: Vec<String>,
    pub monaco: String,
}

/// A library offered for a language; each version is an open-ended object.
#[derive(Debug)]
pub struct Library {
    pub id: String,
    pub name: String,
    pub url: String,
    pub versions: Vec<Vec<(String, Json)>>,
}

/// A code formatter.
#[derive(Debug, Clone)]
pub struct Format {
    pub exe: String,
    pub name: String,
    pub styles: Vec<String>,
    pub format_type: String,
    pub version: String,
}

/// The result of a compilation. The elements of the output arrays may be
/// any JSON value; a `null` element is kept as `None`.
#[derive(Debug)]
pub struct CompilationResponse {
    pub input_filename: String,
    pub code: i64,
    pub ok_to_cache: bool,
    pub timed_out: bool,
    pub stdout: Vec<Option<Json>>,
    pub stderr: Vec<Option<Json>>,
    pub exec_time: String,
    pub compilation_options: Vec<String>,
    pub downloads: Vec<Option<Json>>,
    pub tools: Vec<Option<Json>>,
    pub asm_size: i64,
    pub assembly: Vec<Json>,
    pub label_definitions: Json,
    pub parsing_time: String,
    pub filtered_count: i64,
    pub popular_arguments: Vec<(String, Json)>,
}

} // verus!
