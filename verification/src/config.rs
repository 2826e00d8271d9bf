//! The option set that governs transpilation and emission.

use crate::error::BundleError;
use crate::json::{
    array_value, as_flag, as_text, distinct_names, flag_value, get_member, items_view, json_merge,
    json_value, lemma_merged_is_well_formed, lemma_position_is, member_of, members_view, merged,
    object_value, position_of, text_value, well_formed, Json,
};
use serde_json::Value;
use crate::text::{optional_text, same_text};
use vstd::prelude::*;

verus! {

/// The default type library for checking the modules of a graph.
#[derive(Debug, Clone, Copy, PartialEq, Eq, Hash, Structural)]
pub enum TypeLib {
    DenoWindow,
    DenoWorker,
    UnstableDenoWindow,
    UnstableDenoWorker,
}

impl Default for TypeLib {
    fn default() -> (out: Self)
        ensures
            out == TypeLib::DenoWindow,
    {
        TypeLib::DenoWindow
    }
}

/// The library names that stand for `lib` in a configuration.
pub open spec fn type_lib_names(lib: TypeLib) -> Seq<Seq<char>> {
    match lib {
        TypeLib::DenoWindow => seq!["deno.window"@],
        TypeLib::DenoWorker => seq!["deno.worker"@],
        TypeLib::UnstableDenoWindow => seq!["deno.window"@, "deno.unstable"@],
        TypeLib::UnstableDenoWorker => seq!["deno.worker"@, "deno.unstable"@],
    }
}

/// The array of library names, as a JSON value.
pub open spec fn type_lib_value(lib: TypeLib) -> Json {
    Json::Array(type_lib_names(lib).map_values(|name: Seq<char>| Json::Text(name)))
}

impl TypeLib {
    /// The library names that stand for this choice in a configuration.
    pub fn names(&self) -> (out: Vec<String>)
        ensures
            out@.map_values(|name: String| name@) == type_lib_names(*self),
    {
        let mut out: Vec<String> = Vec::new();
        match self {
            TypeLib::DenoWindow => {
                out.push(String::from_str("deno.window"));
            },
            TypeLib::DenoWorker => {
                out.push(String::from_str("deno.worker"));
            },
            TypeLib::UnstableDenoWindow => {
                out.push(String::from_str("deno.window"));
                out.push(String::from_str("deno.unstable"));
            },
            TypeLib::UnstableDenoWorker => {
                out.push(String::from_str("deno.worker"));
                out.push(String::from_str("deno.unstable"));
            },
        }
        assert(out@.map_values(|name: String| name@) =~= type_lib_names(*self));
        out
    }

    /// The array of library names, as a JSON value.
    pub fn to_json(&self) -> (out: Value)
        ensures
            json_value(out) == type_lib_value(*self),
    {
        let names = self.names();
        let mut items: Vec<Value> = Vec::new();
        let mut i: usize = 0;
        while i < names.len()
            invariant
                i <= names.len(),
                items.len() == i,
                forall|j: int| 0 <= j < i ==> json_value(items@[j]) == Json::Text(names@[j]@),
            decreases names.len() - i,
        {
            items.push(text_value(names[i].as_str()));
            i += 1;
        }
        proof {
            assert(items_view(items@) =~= type_lib_names(*self).map_values(
                |name: Seq<char>| Json::Text(name),
            )) by {
                assert(names@.map_values(|name: String| name@) == type_lib_names(*self));
                assert forall|j: int| 0 <= j < items.len() implies items_view(items@)[j]
                    == Json::Text(type_lib_names(*self)[j]) by {
                    assert(names@.map_values(|name: String| name@)[j] == names@[j]@);
                }
            }
        }
        array_value(items)
    }
}

/// What a configuration is built for.
#[derive(Debug, Clone, Copy, PartialEq, Eq, Structural)]
pub enum ConfigType {
    /// Bundling: the emit is independent of type checking.
    Bundle,
    /// Type checking, with or without an emit by the checker.
    Check { lib: TypeLib, tsc_emit: bool },
    /// Emitting single modules.
    Emit,
    /// The base for an emit requested at run time.
    RuntimeEmit { tsc_emit: bool },
}

/// A mergeable set of compiler options, held as a JSON value.
#[derive(Debug, Clone, PartialEq, Eq)]
pub struct TsConfig(pub Value);

impl View for TsConfig {
    type V = Json;

    open spec fn view(&self) -> Json {
        json_value(self.0)
    }
}

impl TsConfig {
    /// A configuration whose base is `value`.
    pub fn new(value: Value) -> (out: Self)
        ensures
            out.0 == value,
    {
        TsConfig(value)
    }

    /// Merges `value` into the configuration: objects are merged name by
    /// name, anything else in `value` replaces what was there.
    pub fn merge(&mut self, value: &Value)
        ensures
            final(self)@ == merged(old(self)@, json_value(*value)),
            well_formed(old(self)@) && well_formed(json_value(*value)) ==> well_formed(
                final(self)@,
            ),
    {
        json_merge(&mut self.0, value);
    }
}

/// The options for bundling: no source maps, no decorator metadata, the
/// classic JSX transform.
pub open spec fn bundle_members() -> Seq<(Seq<char>, Json)> {
    seq![
        ("checkJs"@, Json::Bool(false)),
        ("emitDecoratorMetadata"@, Json::Bool(false)),
        ("importsNotUsedAsValues"@, Json::Text("remove"@)),
        ("inlineSourceMap"@, Json::Bool(false)),
        ("inlineSources"@, Json::Bool(false)),
        ("sourceMap"@, Json::Bool(false)),
        ("jsx"@, Json::Text("react"@)),
        ("jsxFactory"@, Json::Text("React.createElement"@)),
        ("jsxFragmentFactory"@, Json::Text("React.Fragment"@)),
    ]
}

/// The base options for type checking with `lib` as the type library.
pub open spec fn check_members(lib: TypeLib) -> Seq<(Seq<char>, Json)> {
    seq![
        ("allowJs"@, Json::Bool(true)),
        ("allowSyntheticDefaultImports"@, Json::Bool(true)),
        ("experimentalDecorators"@, Json::Bool(true)),
        ("incremental"@, Json::Bool(true)),
        ("jsx"@, Json::Text("react"@)),
        ("isolatedModules"@, Json::Bool(true)),
        ("lib"@, type_lib_value(lib)),
        ("module"@, Json::Text("esnext"@)),
        ("resolveJsonModule"@, Json::Bool(true)),
        ("strict"@, Json::Bool(true)),
        ("target"@, Json::Text("esnext"@)),
        ("tsBuildInfoFile"@, Json::Text("deno:///.tsbuildinfo"@)),
        ("useDefineForClassFields"@, Json::Bool(true)),
        ("useUnknownInCatchVariables"@, Json::Bool(false)),
    ]
}

/// What is laid over the checking options when the checker also emits.
pub open spec fn check_emit_members() -> Seq<(Seq<char>, Json)> {
    seq![
        ("emitDecoratorMetadata"@, Json::Bool(false)),
        ("importsNotUsedAsValues"@, Json::Text("remove"@)),
        ("inlineSourceMap"@, Json::Bool(true)),
        ("inlineSources"@, Json::Bool(true)),
        ("outDir"@, Json::Text("deno://"@)),
        ("removeComments"@, Json::Bool(true)),
    ]
}

/// What is laid over the base options when nothing is emitted.
pub open spec fn no_emit_members() -> Seq<(Seq<char>, Json)> {
    seq![
        ("noEmit"@, Json::Bool(true)),
    ]
}

/// The options for emitting single modules: source maps are inlined.
pub open spec fn emit_members() -> Seq<(Seq<char>, Json)> {
    seq![
        ("checkJs"@, Json::Bool(false)),
        ("emitDecoratorMetadata"@, Json::Bool(false)),
        ("importsNotUsedAsValues"@, Json::Text("remove"@)),
        ("inlineSourceMap"@, Json::Bool(true)),
        ("inlineSources"@, Json::Bool(true)),
        ("sourceMap"@, Json::Bool(false)),
        ("jsx"@, Json::Text("react"@)),
        ("jsxFactory"@, Json::Text("React.createElement"@)),
        ("jsxFragmentFactory"@, Json::Text("React.Fragment"@)),
        ("resolveJsonModule"@, Json::Bool(true)),
    ]
}

/// The base options for an emit requested at run time: the source map is
/// returned beside the code.
pub open spec fn runtime_emit_members() -> Seq<(Seq<char>, Json)> {
    seq![
        ("allowJs"@, Json::Bool(true)),
        ("allowSyntheticDefaultImports"@, Json::Bool(true)),
        ("checkJs"@, Json::Bool(false)),
        ("emitDecoratorMetadata"@, Json::Bool(false)),
        ("experimentalDecorators"@, Json::Bool(true)),
        ("importsNotUsedAsValues"@, Json::Text("remove"@)),
        ("incremental"@, Json::Bool(true)),
        ("isolatedModules"@, Json::Bool(true)),
        ("jsx"@, Json::Text("react"@)),
        ("jsxFactory"@, Json::Text("React.createElement"@)),
        ("jsxFragmentFactory"@, Json::Text("React.Fragment"@)),
        ("lib"@, type_lib_value(TypeLib::DenoWindow)),
        ("module"@, Json::Text("esnext"@)),
        ("removeComments"@, Json::Bool(true)),
        ("inlineSourceMap"@, Json::Bool(false)),
        ("inlineSources"@, Json::Bool(false)),
        ("sourceMap"@, Json::Bool(true)),
        ("strict"@, Json::Bool(true)),
        ("target"@, Json::Text("esnext"@)),
        ("tsBuildInfoFile"@, Json::Text("deno:///.tsbuildinfo"@)),
        ("useDefineForClassFields"@, Json::Bool(true)),
        ("useUnknownInCatchVariables"@, Json::Bool(false)),
    ]
}

/// What is laid over the run-time options when the checker emits.
pub open spec fn runtime_tsc_members() -> Seq<(Seq<char>, Json)> {
    seq![
        ("importsNotUsedAsValues"@, Json::Text("remove"@)),
        ("outDir"@, Json::Text("deno://"@)),
    ]
}

/// The configuration that `get_ts_config` builds for `config_type`.
pub open spec fn ts_config_value(config_type: ConfigType) -> Json {
    match config_type {
        ConfigType::Bundle => Json::Object(bundle_members()),
        ConfigType::Check { lib, tsc_emit } => merged(
            Json::Object(check_members(lib)),
            Json::Object(
                if tsc_emit {
                    check_emit_members()
                } else {
                    no_emit_members()
                },
            ),
        ),
        ConfigType::Emit => Json::Object(emit_members()),
        ConfigType::RuntimeEmit { tsc_emit } => merged(
            Json::Object(runtime_emit_members()),
            Json::Object(
                if tsc_emit {
                    runtime_tsc_members()
                } else {
                    no_emit_members()
                },
            ),
        ),
    }
}

fn with_member(members: Vec<(String, Value)>, name: &str, value: Value) -> (out: Vec<
    (String, Value),
>)
    ensures
        members_view(out@) == members_view(members@).push((name@, json_value(value))),
{
    let mut out = members;
    out.push((String::from_str(name), value));
    assert(members_view(out@) =~= members_view(members@).push((name@, json_value(value))));
    out
}

fn build_bundle_members() -> (out: Value)
    ensures
        json_value(out) == Json::Object(bundle_members()),
{
    let m: Vec<(String, Value)> = Vec::new();
    assert(members_view(m@) =~= Seq::empty());
    let m = with_member(m, "checkJs", flag_value(false));
    let m = with_member(m, "emitDecoratorMetadata", flag_value(false));
    let m = with_member(m, "importsNotUsedAsValues", text_value("remove"));
    let m = with_member(m, "inlineSourceMap", flag_value(false));
    let m = with_member(m, "inlineSources", flag_value(false));
    let m = with_member(m, "sourceMap", flag_value(false));
    let m = with_member(m, "jsx", text_value("react"));
    let m = with_member(m, "jsxFactory", text_value("React.createElement"));
    let m = with_member(m, "jsxFragmentFactory", text_value("React.Fragment"));
    proof {
        lemma_bundle_members_well_formed();
        assert(members_view(m@) =~= bundle_members());
    }
    object_value(m)
}

fn build_check_members(lib: TypeLib) -> (out: Value)
    ensures
        json_value(out) == Json::Object(check_members(lib)),
{
    let m: Vec<(String, Value)> = Vec::new();
    assert(members_view(m@) =~= Seq::empty());
    let m = with_member(m, "allowJs", flag_value(true));
    let m = with_member(m, "allowSyntheticDefaultImports", flag_value(true));
    let m = with_member(m, "experimentalDecorators", flag_value(true));
    let m = with_member(m, "incremental", flag_value(true));
    let m = with_member(m, "jsx", text_value("react"));
    let m = with_member(m, "isolatedModules", flag_value(true));
    let m = with_member(m, "lib", lib.to_json());
    let m = with_member(m, "module", text_value("esnext"));
    let m = with_member(m, "resolveJsonModule", flag_value(true));
    let m = with_member(m, "strict", flag_value(true));
    let m = with_member(m, "target", text_value("esnext"));
    let m = with_member(m, "tsBuildInfoFile", text_value("deno:///.tsbuildinfo"));
    let m = with_member(m, "useDefineForClassFields", flag_value(true));
    let m = with_member(m, "useUnknownInCatchVariables", flag_value(false));
    proof {
        lemma_check_members_well_formed(lib);
        assert(members_view(m@) =~= check_members(lib));
    }
    object_value(m)
}

fn build_check_emit_members() -> (out: Value)
    ensures
        json_value(out) == Json::Object(check_emit_members()),
{
    let m: Vec<(String, Value)> = Vec::new();
    assert(members_view(m@) =~= Seq::empty());
    let m = with_member(m, "emitDecoratorMetadata", flag_value(false));
    let m = with_member(m, "importsNotUsedAsValues", text_value("remove"));
    let m = with_member(m, "inlineSourceMap", flag_value(true));
    let m = with_member(m, "inlineSources", flag_value(true));
    let m = with_member(m, "outDir", text_value("deno://"));
    let m = with_member(m, "removeComments", flag_value(true));
    proof {
        lemma_check_emit_members_well_formed();
        assert(members_view(m@) =~= check_emit_members());
    }
    object_value(m)
}

fn build_no_emit_members() -> (out: Value)
    ensures
        json_value(out) == Json::Object(no_emit_members()),
{
    let m: Vec<(String, Value)> = Vec::new();
    assert(members_view(m@) =~= Seq::empty());
    let m = with_member(m, "noEmit", flag_value(true));
    proof {
        lemma_no_emit_members_well_formed();
        assert(members_view(m@) =~= no_emit_members());
    }
    object_value(m)
}

fn build_emit_members() -> (out: Value)
    ensures
        json_value(out) == Json::Object(emit_members()),
{
    let m: Vec<(String, Value)> = Vec::new();
    assert(members_view(m@) =~= Seq::empty());
    let m = with_member(m, "checkJs", flag_value(false));
    let m = with_member(m, "emitDecoratorMetadata", flag_value(false));
    let m = with_member(m, "importsNotUsedAsValues", text_value("remove"));
    let m = with_member(m, "inlineSourceMap", flag_value(true));
    let m = with_member(m, "inlineSources", flag_value(true));
    let m = with_member(m, "sourceMap", flag_value(false));
    let m = with_member(m, "jsx", text_value("react"));
    let m = with_member(m, "jsxFactory", text_value("React.createElement"));
    let m = with_member(m, "jsxFragmentFactory", text_value("React.Fragment"));
    let m = with_member(m, "resolveJsonModule", flag_value(true));
    proof {
        lemma_emit_members_well_formed();
        assert(members_view(m@) =~= emit_members());
    }
    object_value(m)
}

fn build_runtime_emit_members() -> (out: Value)
    ensures
        json_value(out) == Json::Object(runtime_emit_members()),
{
    let m: Vec<(String, Value)> = Vec::new();
    assert(members_view(m@) =~= Seq::empty());
    let m = with_member(m, "allowJs", flag_value(true));
    let m = with_member(m, "allowSyntheticDefaultImports", flag_value(true));
    let m = with_member(m, "checkJs", flag_value(false));
    let m = with_member(m, "emitDecoratorMetadata", flag_value(false));
    let m = with_member(m, "experimentalDecorators", flag_value(true));
    let m = with_member(m, "importsNotUsedAsValues", text_value("remove"));
    let m = with_member(m, "incremental", flag_value(true));
    let m = with_member(m, "isolatedModules", flag_value(true));
    let m = with_member(m, "jsx", text_value("react"));
    let m = with_member(m, "jsxFactory", text_value("React.createElement"));
    let m = with_member(m, "jsxFragmentFactory", text_value("React.Fragment"));
    let m = with_member(m, "lib", TypeLib::DenoWindow.to_json());
    let m = with_member(m, "module", text_value("esnext"));
    let m = with_member(m, "removeComments", flag_value(true));
    let m = with_member(m, "inlineSourceMap", flag_value(false));
    let m = with_member(m, "inlineSources", flag_value(false));
    let m = with_member(m, "sourceMap", flag_value(true));
    let m = with_member(m, "strict", flag_value(true));
    let m = with_member(m, "target", text_value("esnext"));
    let m = with_member(m, "tsBuildInfoFile", text_value("deno:///.tsbuildinfo"));
    let m = with_member(m, "useDefineForClassFields", flag_value(true));
    let m = with_member(m, "useUnknownInCatchVariables", flag_value(false));
    proof {
        lemma_runtime_emit_members_well_formed();
        assert(members_view(m@) =~= runtime_emit_members());
    }
    object_value(m)
}

fn build_runtime_tsc_members() -> (out: Value)
    ensures
        json_value(out) == Json::Object(runtime_tsc_members()),
{
    let m: Vec<(String, Value)> = Vec::new();
    assert(members_view(m@) =~= Seq::empty());
    let m = with_member(m, "importsNotUsedAsValues", text_value("remove"));
    let m = with_member(m, "outDir", text_value("deno://"));
    proof {
        lemma_runtime_tsc_members_well_formed();
        assert(members_view(m@) =~= runtime_tsc_members());
    }
    object_value(m)
}

/// The base configuration for `config_type`. It never fails.
pub fn get_ts_config(config_type: ConfigType) -> (out: Result<TsConfig, BundleError>)
    ensures
        out is Ok,
        out->Ok_0@ == ts_config_value(config_type),
        well_formed(out->Ok_0@),
{
    proof {
        lemma_ts_config_is_well_formed(config_type);
    }
    let ts_config = match config_type {
        ConfigType::Bundle => TsConfig::new(build_bundle_members()),
        ConfigType::Check { lib, tsc_emit } => {
            let mut ts_config = TsConfig::new(build_check_members(lib));
            if tsc_emit {
                ts_config.merge(&build_check_emit_members());
            } else {
                ts_config.merge(&build_no_emit_members());
            }
            ts_config
        },
        ConfigType::Emit => TsConfig::new(build_emit_members()),
        ConfigType::RuntimeEmit { tsc_emit } => {
            let mut ts_config = TsConfig::new(build_runtime_emit_members());
            if tsc_emit {
                ts_config.merge(&build_runtime_tsc_members());
            } else {
                ts_config.merge(&build_no_emit_members());
            }
            ts_config
        },
    };
    Ok(ts_config)
}

/// The emit options of a configuration, with the two string options still
/// as text.
#[derive(Debug, Clone, PartialEq, Eq)]
pub struct EmitConfigOptions {
    pub check_js: bool,
    pub emit_decorator_metadata: bool,
    pub imports_not_used_as_values: String,
    pub inline_source_map: bool,
    pub inline_sources: bool,
    pub source_map: bool,
    pub jsx: String,
    pub jsx_factory: String,
    pub jsx_fragment_factory: String,
    pub jsx_import_source: Option<String>,
}

/// The mathematical value of an `EmitConfigOptions`.
pub struct EmitConfigOptionsView {
    pub check_js: bool,
    pub emit_decorator_metadata: bool,
    pub imports_not_used_as_values: Seq<char>,
    pub inline_source_map: bool,
    pub inline_sources: bool,
    pub source_map: bool,
    pub jsx: Seq<char>,
    pub jsx_factory: Seq<char>,
    pub jsx_fragment_factory: Seq<char>,
    pub jsx_import_source: Option<Seq<char>>,
}

impl View for EmitConfigOptions {
    type V = EmitConfigOptionsView;

    open spec fn view(&self) -> EmitConfigOptionsView {
        EmitConfigOptionsView {
            check_js: self.check_js,
            emit_decorator_metadata: self.emit_decorator_metadata,
            imports_not_used_as_values: self.imports_not_used_as_values@,
            inline_source_map: self.inline_source_map,
            inline_sources: self.inline_sources,
            source_map: self.source_map,
            jsx: self.jsx@,
            jsx_factory: self.jsx_factory@,
            jsx_fragment_factory: self.jsx_fragment_factory@,
            jsx_import_source: optional_text(self.jsx_import_source),
        }
    }
}

/// The flag that `config` holds under `key`; `false` where it holds none.
pub open spec fn flag_member(config: Json, key: Seq<char>) -> bool {
    match member_of(config, key) {
        Some(Json::Bool(b)) => b,
        _ => false,
    }
}

/// The text that `config` holds under `key`; `default` where it holds none.
pub open spec fn text_member(config: Json, key: Seq<char>, default: Seq<char>) -> Seq<char> {
    match member_of(config, key) {
        Some(Json::Text(t)) => t,
        _ => default,
    }
}

/// The text that `config` holds under `key`, if it holds one.
pub open spec fn optional_text_member(config: Json, key: Seq<char>) -> Option<Seq<char>> {
    match member_of(config, key) {
        Some(Json::Text(t)) => Some(t),
        _ => None,
    }
}

/// The emit options that `config` holds. An option that is absent, or is not
/// of the type that the option has, takes its default: `false` for a flag,
/// `"remove"` for the handling of unused imports, no JSX mode, and the
/// factories `React.createElement` and `React.Fragment`.
pub open spec fn emit_config_options(config: Json) -> EmitConfigOptionsView {
    EmitConfigOptionsView {
        check_js: flag_member(config, "checkJs"@),
        emit_decorator_metadata: flag_member(config, "emitDecoratorMetadata"@),
        imports_not_used_as_values: text_member(config, "importsNotUsedAsValues"@, "remove"@),
        inline_source_map: flag_member(config, "inlineSourceMap"@),
        inline_sources: flag_member(config, "inlineSources"@),
        source_map: flag_member(config, "sourceMap"@),
        jsx: text_member(config, "jsx"@, ""@),
        jsx_factory: text_member(config, "jsxFactory"@, "React.createElement"@),
        jsx_fragment_factory: text_member(config, "jsxFragmentFactory"@, "React.Fragment"@),
        jsx_import_source: optional_text_member(config, "jsxImportSource"@),
    }
}

fn read_flag(config: &Value, key: &str) -> (out: bool)
    ensures
        out == flag_member(json_value(*config), key@),
{
    match get_member(config, key) {
        Some(found) => match as_flag(&found) {
            Some(flag) => flag,
            None => false,
        },
        None => false,
    }
}

fn read_optional_text(config: &Value, key: &str) -> (out: Option<String>)
    ensures
        optional_text(out) == optional_text_member(json_value(*config), key@),
{
    match get_member(config, key) {
        Some(found) => as_text(&found),
        None => None,
    }
}

fn read_text(config: &Value, key: &str, default: &str) -> (out: String)
    ensures
        out@ == text_member(json_value(*config), key@, default@),
{
    match read_optional_text(config, key) {
        Some(text) => text,
        None => String::from_str(default),
    }
}

impl EmitConfigOptions {
    /// Reads the emit options out of `config`. Every configuration has
    /// exactly one such record: what is absent or ill-typed takes its default.
    pub fn from_config(config: &TsConfig) -> (out: Self)
        ensures
            out@ == emit_config_options(config@),
    {
        EmitConfigOptions {
            check_js: read_flag(&config.0, "checkJs"),
            emit_decorator_metadata: read_flag(&config.0, "emitDecoratorMetadata"),
            imports_not_used_as_values: read_text(&config.0, "importsNotUsedAsValues", "remove"),
            inline_source_map: read_flag(&config.0, "inlineSourceMap"),
            inline_sources: read_flag(&config.0, "inlineSources"),
            source_map: read_flag(&config.0, "sourceMap"),
            jsx: read_text(&config.0, "jsx", ""),
            jsx_factory: read_text(&config.0, "jsxFactory", "React.createElement"),
            jsx_fragment_factory: read_text(&config.0, "jsxFragmentFactory", "React.Fragment"),
            jsx_import_source: read_optional_text(&config.0, "jsxImportSource"),
        }
    }
}

/// What becomes of an import that is used only for its types.
#[derive(Debug, Clone, Copy, PartialEq, Eq, Hash, Structural)]
pub enum ImportsNotUsedAsValues {
    Remove,
    Preserve,
    Error,
}

/// The policy that the text of the option stands for: `"preserve"` and
/// `"error"` name theirs, every other text removes the import.
pub open spec fn imports_policy(text: Seq<char>) -> ImportsNotUsedAsValues {
    if text == "preserve"@ {
        ImportsNotUsedAsValues::Preserve
    } else if text == "error"@ {
        ImportsNotUsedAsValues::Error
    } else {
        ImportsNotUsedAsValues::Remove
    }
}

/// Whether the JSX mode `text` asks for a transform at all.
pub open spec fn jsx_transforms(text: Seq<char>) -> bool {
    text == "react"@ || text == "react-jsx"@ || text == "react-jsxdev"@
}

/// Whether the JSX mode `text` asks for the automatic runtime.
pub open spec fn jsx_is_automatic(text: Seq<char>) -> bool {
    text == "react-jsx"@ || text == "react-jsxdev"@
}

/// Whether the JSX mode `text` asks for the development runtime.
pub open spec fn jsx_is_development(text: Seq<char>) -> bool {
    text == "react-jsxdev"@
}

/// The options that the transpiler takes for one bundle run.
#[derive(Debug, Clone, PartialEq, Eq)]
pub struct TranspilerOptions {
    pub emit_metadata: bool,
    pub imports_not_used_as_values: ImportsNotUsedAsValues,
    pub inline_source_map: bool,
    pub inline_sources: bool,
    pub source_map: bool,
    pub jsx_automatic: bool,
    pub jsx_development: bool,
    pub jsx_factory: String,
    pub jsx_fragment_factory: String,
    pub jsx_import_source: Option<String>,
    pub transform_jsx: bool,
    pub var_decl_imports: bool,
}

/// The mathematical value of an `TranspilerOptions`.
pub struct TranspilerOptionsView {
    pub emit_metadata: bool,
    pub imports_not_used_as_values: ImportsNotUsedAsValues,
    pub inline_source_map: bool,
    pub inline_sources: bool,
    pub source_map: bool,
    pub jsx_automatic: bool,
    pub jsx_development: bool,
    pub jsx_factory: Seq<char>,
    pub jsx_fragment_factory: Seq<char>,
    pub jsx_import_source: Option<Seq<char>>,
    pub transform_jsx: bool,
    pub var_decl_imports: bool,
}

impl View for TranspilerOptions {
    type V = TranspilerOptionsView;

    open spec fn view(&self) -> TranspilerOptionsView {
        TranspilerOptionsView {
            emit_metadata: self.emit_metadata,
            imports_not_used_as_values: self.imports_not_used_as_values,
            inline_source_map: self.inline_source_map,
            inline_sources: self.inline_sources,
            source_map: self.source_map,
            jsx_automatic: self.jsx_automatic,
            jsx_development: self.jsx_development,
            jsx_factory: self.jsx_factory@,
            jsx_fragment_factory: self.jsx_fragment_factory@,
            jsx_import_source: optional_text(self.jsx_import_source),
            transform_jsx: self.transform_jsx,
            var_decl_imports: self.var_decl_imports,
        }
    }
}

/// The transpiler options that the emit options `options` stand for.
pub open spec fn emit_options_of(options: EmitConfigOptionsView) -> TranspilerOptionsView {
    TranspilerOptionsView {
        emit_metadata: options.emit_decorator_metadata,
        imports_not_used_as_values: imports_policy(options.imports_not_used_as_values),
        inline_source_map: options.inline_source_map,
        inline_sources: options.inline_sources,
        source_map: options.source_map,
        jsx_automatic: jsx_is_automatic(options.jsx),
        jsx_development: jsx_is_development(options.jsx),
        jsx_factory: options.jsx_factory,
        jsx_fragment_factory: options.jsx_fragment_factory,
        jsx_import_source: options.jsx_import_source,
        transform_jsx: jsx_transforms(options.jsx),
        var_decl_imports: false,
    }
}

impl TranspilerOptions {
    /// Resolves the two string options of `options` into the transpiler's
    /// flags.
    pub fn from_emit_config(options: EmitConfigOptions) -> (out: Self)
        ensures
            out@ == emit_options_of(options@),
    {
        let imports_not_used_as_values = if same_text(
            options.imports_not_used_as_values.as_str(),
            "preserve",
        ) {
            ImportsNotUsedAsValues::Preserve
        } else if same_text(options.imports_not_used_as_values.as_str(), "error") {
            ImportsNotUsedAsValues::Error
        } else {
            ImportsNotUsedAsValues::Remove
        };
        let (transform_jsx, jsx_automatic, jsx_development) = if same_text(
            options.jsx.as_str(),
            "react",
        ) {
            (true, false, false)
        } else if same_text(options.jsx.as_str(), "react-jsx") {
            (true, true, false)
        } else if same_text(options.jsx.as_str(), "react-jsxdev") {
            (true, true, true)
        } else {
            (false, false, false)
        };
        proof {
            reveal_strlit("react");
            reveal_strlit("react-jsx");
            reveal_strlit("react-jsxdev");
            assert("react"@.len() == 5);
            assert("react-jsx"@.len() == 9);
            assert("react-jsxdev"@.len() == 12);
        }
        TranspilerOptions {
            emit_metadata: options.emit_decorator_metadata,
            imports_not_used_as_values,
            inline_source_map: options.inline_source_map,
            inline_sources: options.inline_sources,
            source_map: options.source_map,
            jsx_automatic,
            jsx_development,
            jsx_factory: options.jsx_factory,
            jsx_fragment_factory: options.jsx_fragment_factory,
            jsx_import_source: options.jsx_import_source,
            transform_jsx,
            var_decl_imports: false,
        }
    }

    /// The transpiler options of the configuration `config`.
    pub fn from_config(config: &TsConfig) -> (out: Self)
        ensures
            out@ == emit_options_of(emit_config_options(config@)),
    {
        TranspilerOptions::from_emit_config(EmitConfigOptions::from_config(config))
    }
}

impl From<TsConfig> for TranspilerOptions {
    fn from(config: TsConfig) -> (out: TranspilerOptions)
        ensures
            out@ == emit_options_of(emit_config_options(config@)),
    {
        TranspilerOptions::from_config(&config)
    }
}

impl vstd::std_specs::convert::FromSpecImpl<TsConfig> for TranspilerOptions {
    open spec fn obeys_from_spec() -> bool {
        false
    }

    open spec fn from_spec(config: TsConfig) -> TranspilerOptions {
        arbitrary()
    }
}

/// The options that the transpiler takes where none are given: source maps
/// are inlined with their sources, JSX is transformed in the classic way.
pub open spec fn default_emit_options() -> TranspilerOptionsView {
    TranspilerOptionsView {
        emit_metadata: false,
        imports_not_used_as_values: ImportsNotUsedAsValues::Remove,
        inline_source_map: true,
        inline_sources: true,
        source_map: false,
        jsx_automatic: false,
        jsx_development: false,
        jsx_factory: "React.createElement"@,
        jsx_fragment_factory: "React.Fragment"@,
        jsx_import_source: None,
        transform_jsx: true,
        var_decl_imports: false,
    }
}

impl Default for TranspilerOptions {
    fn default() -> (out: Self)
        ensures
            out@ == default_emit_options(),
    {
        TranspilerOptions {
            emit_metadata: false,
            imports_not_used_as_values: ImportsNotUsedAsValues::Remove,
            inline_source_map: true,
            inline_sources: true,
            source_map: false,
            jsx_automatic: false,
            jsx_development: false,
            jsx_factory: String::from_str("React.createElement"),
            jsx_fragment_factory: String::from_str("React.Fragment"),
            jsx_import_source: None,
            transform_jsx: true,
            var_decl_imports: false,
        }
    }
}

/// Bundling is configured to emit no source map and no decorator metadata,
/// to drop imports that are used for their types only, and to transform
/// JSX in the classic way with the factories of React.
pub proof fn lemma_bundle_emit_options()
    ensures
        emit_options_of(emit_config_options(ts_config_value(ConfigType::Bundle)))
            == (TranspilerOptionsView {
            emit_metadata: false,
            imports_not_used_as_values: ImportsNotUsedAsValues::Remove,
            inline_source_map: false,
            inline_sources: false,
            source_map: false,
            jsx_automatic: false,
            jsx_development: false,
            jsx_factory: "React.createElement"@,
            jsx_fragment_factory: "React.Fragment"@,
            jsx_import_source: None,
            transform_jsx: true,
            var_decl_imports: false,
        }),
{
    reveal_strlit("checkJs");
    reveal_strlit("emitDecoratorMetadata");
    reveal_strlit("importsNotUsedAsValues");
    reveal_strlit("inlineSourceMap");
    reveal_strlit("inlineSources");
    reveal_strlit("sourceMap");
    reveal_strlit("jsx");
    reveal_strlit("jsxFactory");
    reveal_strlit("jsxFragmentFactory");
    reveal_strlit("jsxImportSource");
    reveal_strlit("remove");
    reveal_strlit("preserve");
    reveal_strlit("error");
    reveal_strlit("react");
    reveal_strlit("react-jsx");
    reveal_strlit("react-jsxdev");
    let m = bundle_members();
    assert(m.len() == 9);
    assert("checkJs"@.len() == 7);
    assert("emitDecoratorMetadata"@.len() == 21);
    assert("importsNotUsedAsValues"@.len() == 22);
    assert("inlineSourceMap"@.len() == 15);
    assert("inlineSources"@.len() == 13);
    assert("sourceMap"@.len() == 9);
    assert("jsx"@.len() == 3);
    assert("jsxFactory"@.len() == 10);
    assert("jsxFragmentFactory"@.len() == 18);
    assert("jsxImportSource"@.len() == 15);
    assert("jsxImportSource"@[0] == 'j' && "inlineSourceMap"@[0] == 'i');
    assert("remove"@.len() == 6 && "preserve"@.len() == 8 && "error"@.len() == 5);
    assert("react"@.len() == 5 && "react-jsx"@.len() == 9 && "react-jsxdev"@.len() == 12);
    lemma_position_is(m, "checkJs"@, 0);
    lemma_position_is(m, "emitDecoratorMetadata"@, 1);
    lemma_position_is(m, "importsNotUsedAsValues"@, 2);
    lemma_position_is(m, "inlineSourceMap"@, 3);
    lemma_position_is(m, "inlineSources"@, 4);
    lemma_position_is(m, "sourceMap"@, 5);
    lemma_position_is(m, "jsx"@, 6);
    lemma_position_is(m, "jsxFactory"@, 7);
    lemma_position_is(m, "jsxFragmentFactory"@, 8);
    lemma_position_is(m, "jsxImportSource"@, 9);
}

proof fn lemma_bundle_members_well_formed()
    ensures
        distinct_names(bundle_members()),
        well_formed(Json::Object(bundle_members())),
{
    reveal_strlit("checkJs");
    reveal_strlit("emitDecoratorMetadata");
    reveal_strlit("importsNotUsedAsValues");
    reveal_strlit("inlineSourceMap");
    reveal_strlit("inlineSources");
    reveal_strlit("sourceMap");
    reveal_strlit("jsx");
    reveal_strlit("jsxFactory");
    reveal_strlit("jsxFragmentFactory");
    let m = bundle_members();
    assert(m[0].0 == "checkJs"@ && "checkJs"@.len() == 7);
    assert(m[1].0 == "emitDecoratorMetadata"@ && "emitDecoratorMetadata"@.len() == 21);
    assert(m[2].0 == "importsNotUsedAsValues"@ && "importsNotUsedAsValues"@.len() == 22);
    assert(m[3].0 == "inlineSourceMap"@ && "inlineSourceMap"@.len() == 15);
    assert(m[4].0 == "inlineSources"@ && "inlineSources"@.len() == 13);
    assert(m[5].0 == "sourceMap"@ && "sourceMap"@.len() == 9);
    assert(m[6].0 == "jsx"@ && "jsx"@.len() == 3);
    assert(m[7].0 == "jsxFactory"@ && "jsxFactory"@.len() == 10);
    assert(m[8].0 == "jsxFragmentFactory"@ && "jsxFragmentFactory"@.len() == 18);
    lemma_type_lib_value_is_well_formed(TypeLib::DenoWindow);
    assert forall|i: int| 0 <= i < m.len() implies well_formed((#[trigger] m[i]).1) by {
        if i == 0 {
            assert(well_formed(m[0].1));
        } else if i == 1 {
            assert(well_formed(m[1].1));
        } else if i == 2 {
            assert(well_formed(m[2].1));
        } else if i == 3 {
            assert(well_formed(m[3].1));
        } else if i == 4 {
            assert(well_formed(m[4].1));
        } else if i == 5 {
            assert(well_formed(m[5].1));
        } else if i == 6 {
            assert(well_formed(m[6].1));
        } else if i == 7 {
            assert(well_formed(m[7].1));
        } else if i == 8 {
            assert(well_formed(m[8].1));
        }
    }
}

proof fn lemma_check_members_well_formed(lib: TypeLib)
    ensures
        distinct_names(check_members(lib)),
        well_formed(Json::Object(check_members(lib))),
{
    reveal_strlit("allowJs");
    reveal_strlit("allowSyntheticDefaultImports");
    reveal_strlit("experimentalDecorators");
    reveal_strlit("incremental");
    reveal_strlit("jsx");
    reveal_strlit("isolatedModules");
    reveal_strlit("lib");
    reveal_strlit("module");
    reveal_strlit("resolveJsonModule");
    reveal_strlit("strict");
    reveal_strlit("target");
    reveal_strlit("tsBuildInfoFile");
    reveal_strlit("useDefineForClassFields");
    reveal_strlit("useUnknownInCatchVariables");
    let m = check_members(lib);
    assert(m[0].0 == "allowJs"@ && "allowJs"@.len() == 7);
    assert(m[1].0 == "allowSyntheticDefaultImports"@ && "allowSyntheticDefaultImports"@.len() == 28);
    assert(m[2].0 == "experimentalDecorators"@ && "experimentalDecorators"@.len() == 22);
    assert(m[3].0 == "incremental"@ && "incremental"@.len() == 11);
    assert(m[4].0 == "jsx"@ && "jsx"@.len() == 3);
    assert(m[5].0 == "isolatedModules"@ && "isolatedModules"@.len() == 15);
    assert(m[6].0 == "lib"@ && "lib"@.len() == 3);
    assert(m[7].0 == "module"@ && "module"@.len() == 6);
    assert(m[8].0 == "resolveJsonModule"@ && "resolveJsonModule"@.len() == 17);
    assert(m[9].0 == "strict"@ && "strict"@.len() == 6);
    assert(m[10].0 == "target"@ && "target"@.len() == 6);
    assert(m[11].0 == "tsBuildInfoFile"@ && "tsBuildInfoFile"@.len() == 15);
    assert(m[12].0 == "useDefineForClassFields"@ && "useDefineForClassFields"@.len() == 23);
    assert(m[13].0 == "useUnknownInCatchVariables"@ && "useUnknownInCatchVariables"@.len() == 26);
    assert("jsx"@[0] != "lib"@[0]);
    assert("isolatedModules"@[0] != "tsBuildInfoFile"@[0]);
    assert("module"@[0] != "strict"@[0]);
    assert("module"@[0] != "target"@[0]);
    assert("strict"@[0] != "target"@[0]);
    lemma_type_lib_value_is_well_formed(lib);
    assert forall|i: int| 0 <= i < m.len() implies well_formed((#[trigger] m[i]).1) by {
        if i == 0 {
            assert(well_formed(m[0].1));
        } else if i == 1 {
            assert(well_formed(m[1].1));
        } else if i == 2 {
            assert(well_formed(m[2].1));
        } else if i == 3 {
            assert(well_formed(m[3].1));
        } else if i == 4 {
            assert(well_formed(m[4].1));
        } else if i == 5 {
            assert(well_formed(m[5].1));
        } else if i == 6 {
            assert(well_formed(m[6].1));
        } else if i == 7 {
            assert(well_formed(m[7].1));
        } else if i == 8 {
            assert(well_formed(m[8].1));
        } else if i == 9 {
            assert(well_formed(m[9].1));
        } else if i == 10 {
            assert(well_formed(m[10].1));
        } else if i == 11 {
            assert(well_formed(m[11].1));
        } else if i == 12 {
            assert(well_formed(m[12].1));
        } else if i == 13 {
            assert(well_formed(m[13].1));
        }
    }
}

proof fn lemma_check_emit_members_well_formed()
    ensures
        distinct_names(check_emit_members()),
        well_formed(Json::Object(check_emit_members())),
{
    reveal_strlit("emitDecoratorMetadata");
    reveal_strlit("importsNotUsedAsValues");
    reveal_strlit("inlineSourceMap");
    reveal_strlit("inlineSources");
    reveal_strlit("outDir");
    reveal_strlit("removeComments");
    let m = check_emit_members();
    assert(m[0].0 == "emitDecoratorMetadata"@ && "emitDecoratorMetadata"@.len() == 21);
    assert(m[1].0 == "importsNotUsedAsValues"@ && "importsNotUsedAsValues"@.len() == 22);
    assert(m[2].0 == "inlineSourceMap"@ && "inlineSourceMap"@.len() == 15);
    assert(m[3].0 == "inlineSources"@ && "inlineSources"@.len() == 13);
    assert(m[4].0 == "outDir"@ && "outDir"@.len() == 6);
    assert(m[5].0 == "removeComments"@ && "removeComments"@.len() == 14);
    lemma_type_lib_value_is_well_formed(TypeLib::DenoWindow);
    assert forall|i: int| 0 <= i < m.len() implies well_formed((#[trigger] m[i]).1) by {
        if i == 0 {
            assert(well_formed(m[0].1));
        } else if i == 1 {
            assert(well_formed(m[1].1));
        } else if i == 2 {
            assert(well_formed(m[2].1));
        } else if i == 3 {
            assert(well_formed(m[3].1));
        } else if i == 4 {
            assert(well_formed(m[4].1));
        } else if i == 5 {
            assert(well_formed(m[5].1));
        }
    }
}

proof fn lemma_no_emit_members_well_formed()
    ensures
        distinct_names(no_emit_members()),
        well_formed(Json::Object(no_emit_members())),
{
    reveal_strlit("noEmit");
    let m = no_emit_members();
    assert(m[0].0 == "noEmit"@ && "noEmit"@.len() == 6);
    lemma_type_lib_value_is_well_formed(TypeLib::DenoWindow);
    assert forall|i: int| 0 <= i < m.len() implies well_formed((#[trigger] m[i]).1) by {
        if i == 0 {
            assert(well_formed(m[0].1));
        }
    }
}

proof fn lemma_emit_members_well_formed()
    ensures
        distinct_names(emit_members()),
        well_formed(Json::Object(emit_members())),
{
    reveal_strlit("checkJs");
    reveal_strlit("emitDecoratorMetadata");
    reveal_strlit("importsNotUsedAsValues");
    reveal_strlit("inlineSourceMap");
    reveal_strlit("inlineSources");
    reveal_strlit("sourceMap");
    reveal_strlit("jsx");
    reveal_strlit("jsxFactory");
    reveal_strlit("jsxFragmentFactory");
    reveal_strlit("resolveJsonModule");
    let m = emit_members();
    assert(m[0].0 == "checkJs"@ && "checkJs"@.len() == 7);
    assert(m[1].0 == "emitDecoratorMetadata"@ && "emitDecoratorMetadata"@.len() == 21);
    assert(m[2].0 == "importsNotUsedAsValues"@ && "importsNotUsedAsValues"@.len() == 22);
    assert(m[3].0 == "inlineSourceMap"@ && "inlineSourceMap"@.len() == 15);
    assert(m[4].0 == "inlineSources"@ && "inlineSources"@.len() == 13);
    assert(m[5].0 == "sourceMap"@ && "sourceMap"@.len() == 9);
    assert(m[6].0 == "jsx"@ && "jsx"@.len() == 3);
    assert(m[7].0 == "jsxFactory"@ && "jsxFactory"@.len() == 10);
    assert(m[8].0 == "jsxFragmentFactory"@ && "jsxFragmentFactory"@.len() == 18);
    assert(m[9].0 == "resolveJsonModule"@ && "resolveJsonModule"@.len() == 17);
    lemma_type_lib_value_is_well_formed(TypeLib::DenoWindow);
    assert forall|i: int| 0 <= i < m.len() implies well_formed((#[trigger] m[i]).1) by {
        if i == 0 {
            assert(well_formed(m[0].1));
        } else if i == 1 {
            assert(well_formed(m[1].1));
        } else if i == 2 {
            assert(well_formed(m[2].1));
        } else if i == 3 {
            assert(well_formed(m[3].1));
        } else if i == 4 {
            assert(well_formed(m[4].1));
        } else if i == 5 {
            assert(well_formed(m[5].1));
        } else if i == 6 {
            assert(well_formed(m[6].1));
        } else if i == 7 {
            assert(well_formed(m[7].1));
        } else if i == 8 {
            assert(well_formed(m[8].1));
        } else if i == 9 {
            assert(well_formed(m[9].1));
        }
    }
}

proof fn lemma_runtime_emit_members_well_formed()
    ensures
        distinct_names(runtime_emit_members()),
        well_formed(Json::Object(runtime_emit_members())),
{
    reveal_strlit("allowJs");
    reveal_strlit("allowSyntheticDefaultImports");
    reveal_strlit("checkJs");
    reveal_strlit("emitDecoratorMetadata");
    reveal_strlit("experimentalDecorators");
    reveal_strlit("importsNotUsedAsValues");
    reveal_strlit("incremental");
    reveal_strlit("isolatedModules");
    reveal_strlit("jsx");
    reveal_strlit("jsxFactory");
    reveal_strlit("jsxFragmentFactory");
    reveal_strlit("lib");
    reveal_strlit("module");
    reveal_strlit("removeComments");
    reveal_strlit("inlineSourceMap");
    reveal_strlit("inlineSources");
    reveal_strlit("sourceMap");
    reveal_strlit("strict");
    reveal_strlit("target");
    reveal_strlit("tsBuildInfoFile");
    reveal_strlit("useDefineForClassFields");
    reveal_strlit("useUnknownInCatchVariables");
    let m = runtime_emit_members();
    assert(m[0].0 == "allowJs"@ && "allowJs"@.len() == 7);
    assert(m[1].0 == "allowSyntheticDefaultImports"@ && "allowSyntheticDefaultImports"@.len() == 28);
    assert(m[2].0 == "checkJs"@ && "checkJs"@.len() == 7);
    assert(m[3].0 == "emitDecoratorMetadata"@ && "emitDecoratorMetadata"@.len() == 21);
    assert(m[4].0 == "experimentalDecorators"@ && "experimentalDecorators"@.len() == 22);
    assert(m[5].0 == "importsNotUsedAsValues"@ && "importsNotUsedAsValues"@.len() == 22);
    assert(m[6].0 == "incremental"@ && "incremental"@.len() == 11);
    assert(m[7].0 == "isolatedModules"@ && "isolatedModules"@.len() == 15);
    assert(m[8].0 == "jsx"@ && "jsx"@.len() == 3);
    assert(m[9].0 == "jsxFactory"@ && "jsxFactory"@.len() == 10);
    assert(m[10].0 == "jsxFragmentFactory"@ && "jsxFragmentFactory"@.len() == 18);
    assert(m[11].0 == "lib"@ && "lib"@.len() == 3);
    assert(m[12].0 == "module"@ && "module"@.len() == 6);
    assert(m[13].0 == "removeComments"@ && "removeComments"@.len() == 14);
    assert(m[14].0 == "inlineSourceMap"@ && "inlineSourceMap"@.len() == 15);
    assert(m[15].0 == "inlineSources"@ && "inlineSources"@.len() == 13);
    assert(m[16].0 == "sourceMap"@ && "sourceMap"@.len() == 9);
    assert(m[17].0 == "strict"@ && "strict"@.len() == 6);
    assert(m[18].0 == "target"@ && "target"@.len() == 6);
    assert(m[19].0 == "tsBuildInfoFile"@ && "tsBuildInfoFile"@.len() == 15);
    assert(m[20].0 == "useDefineForClassFields"@ && "useDefineForClassFields"@.len() == 23);
    assert(m[21].0 == "useUnknownInCatchVariables"@ && "useUnknownInCatchVariables"@.len() == 26);
    assert("allowJs"@[0] != "checkJs"@[0]);
    assert("experimentalDecorators"@[0] != "importsNotUsedAsValues"@[0]);
    assert("isolatedModules"@[1] != "inlineSourceMap"@[1]);
    assert("isolatedModules"@[0] != "tsBuildInfoFile"@[0]);
    assert("inlineSourceMap"@[0] != "tsBuildInfoFile"@[0]);
    assert("jsx"@[0] != "lib"@[0]);
    assert("module"@[0] != "strict"@[0]);
    assert("module"@[0] != "target"@[0]);
    assert("strict"@[0] != "target"@[0]);
    lemma_type_lib_value_is_well_formed(TypeLib::DenoWindow);
    assert forall|i: int| 0 <= i < m.len() implies well_formed((#[trigger] m[i]).1) by {
        if i == 0 {
            assert(well_formed(m[0].1));
        } else if i == 1 {
            assert(well_formed(m[1].1));
        } else if i == 2 {
            assert(well_formed(m[2].1));
        } else if i == 3 {
            assert(well_formed(m[3].1));
        } else if i == 4 {
            assert(well_formed(m[4].1));
        } else if i == 5 {
            assert(well_formed(m[5].1));
        } else if i == 6 {
            assert(well_formed(m[6].1));
        } else if i == 7 {
            assert(well_formed(m[7].1));
        } else if i == 8 {
            assert(well_formed(m[8].1));
        } else if i == 9 {
            assert(well_formed(m[9].1));
        } else if i == 10 {
            assert(well_formed(m[10].1));
        } else if i == 11 {
            assert(well_formed(m[11].1));
        } else if i == 12 {
            assert(well_formed(m[12].1));
        } else if i == 13 {
            assert(well_formed(m[13].1));
        } else if i == 14 {
            assert(well_formed(m[14].1));
        } else if i == 15 {
            assert(well_formed(m[15].1));
        } else if i == 16 {
            assert(well_formed(m[16].1));
        } else if i == 17 {
            assert(well_formed(m[17].1));
        } else if i == 18 {
            assert(well_formed(m[18].1));
        } else if i == 19 {
            assert(well_formed(m[19].1));
        } else if i == 20 {
            assert(well_formed(m[20].1));
        } else if i == 21 {
            assert(well_formed(m[21].1));
        }
    }
}

proof fn lemma_runtime_tsc_members_well_formed()
    ensures
        distinct_names(runtime_tsc_members()),
        well_formed(Json::Object(runtime_tsc_members())),
{
    reveal_strlit("importsNotUsedAsValues");
    reveal_strlit("outDir");
    let m = runtime_tsc_members();
    assert(m[0].0 == "importsNotUsedAsValues"@ && "importsNotUsedAsValues"@.len() == 22);
    assert(m[1].0 == "outDir"@ && "outDir"@.len() == 6);
    lemma_type_lib_value_is_well_formed(TypeLib::DenoWindow);
    assert forall|i: int| 0 <= i < m.len() implies well_formed((#[trigger] m[i]).1) by {
        if i == 0 {
            assert(well_formed(m[0].1));
        } else if i == 1 {
            assert(well_formed(m[1].1));
        }
    }
}

proof fn lemma_type_lib_value_is_well_formed(lib: TypeLib)
    ensures
        well_formed(type_lib_value(lib)),
{
    let names = type_lib_names(lib);
    let items = names.map_values(|name: Seq<char>| Json::Text(name));
    assert forall|i: int| 0 <= i < items.len() implies well_formed(#[trigger] items[i]) by {
        assert(items[i] == Json::Text(names[i]));
    }
}

/// Every configuration that `get_ts_config` builds is an object that names
/// each of its options once.
pub proof fn lemma_ts_config_is_well_formed(config_type: ConfigType)
    ensures
        well_formed(ts_config_value(config_type)),
{
    lemma_bundle_members_well_formed();
    lemma_check_emit_members_well_formed();
    lemma_no_emit_members_well_formed();
    lemma_emit_members_well_formed();
    lemma_runtime_emit_members_well_formed();
    lemma_runtime_tsc_members_well_formed();
    match config_type {
        ConfigType::Check { lib, tsc_emit } => {
            lemma_check_members_well_formed(lib);
            lemma_merged_is_well_formed(
                Json::Object(check_members(lib)),
                Json::Object(
                    if tsc_emit {
                        check_emit_members()
                    } else {
                        no_emit_members()
                    },
                ),
            );
        },
        ConfigType::RuntimeEmit { tsc_emit } => {
            lemma_merged_is_well_formed(
                Json::Object(runtime_emit_members()),
                Json::Object(
                    if tsc_emit {
                        runtime_tsc_members()
                    } else {
                        no_emit_members()
                    },
                ),
            );
        },
        _ => {},
    }
}

} // verus!
