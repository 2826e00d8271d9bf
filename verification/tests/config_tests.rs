use deno_bundler::config::{
    get_ts_config, ConfigType, EmitConfigOptions, TranspilerOptions, ImportsNotUsedAsValues, TsConfig,
    TypeLib,
};
use deno_bundler::json::{get_member, json_merge};
use serde_json::Value;

fn text(s: &str) -> Value {
    Value::String(s.to_string())
}

fn object(members: Vec<(&str, Value)>) -> Value {
    Value::Object(members.into_iter().map(|(k, v)| (k.to_string(), v)).collect())
}

fn same_order(a: &Value, b: &Value) -> bool {
    a == b && names(a) == names(b)
}

fn names(value: &Value) -> Vec<String> {
    match value {
        Value::Object(members) => members.iter().map(|(k, _)| k.clone()).collect(),
        _ => panic!("not an object"),
    }
}

#[test]
fn bundle_config_has_its_nine_options() {
    let config = get_ts_config(ConfigType::Bundle).unwrap();
    let expected = object(vec![
        ("checkJs", Value::Bool(false)),
        ("emitDecoratorMetadata", Value::Bool(false)),
        ("importsNotUsedAsValues", text("remove")),
        ("inlineSourceMap", Value::Bool(false)),
        ("inlineSources", Value::Bool(false)),
        ("sourceMap", Value::Bool(false)),
        ("jsx", text("react")),
        ("jsxFactory", text("React.createElement")),
        ("jsxFragmentFactory", text("React.Fragment")),
    ]);
    assert!(same_order(&config.0, &expected));
    assert_eq!(config, TsConfig::new(expected));
}

#[test]
fn bundle_config_disables_source_maps() {
    let config = get_ts_config(ConfigType::Bundle).unwrap();
    let options = TranspilerOptions::from_config(&config);
    assert!(!options.source_map);
    assert!(!options.inline_source_map);
    assert!(!options.inline_sources);
    assert!(!options.emit_metadata);
    assert!(options.transform_jsx);
    assert!(!options.jsx_automatic);
    assert!(!options.jsx_development);
    assert!(!options.var_decl_imports);
    assert_eq!(options.imports_not_used_as_values, ImportsNotUsedAsValues::Remove);
    assert_eq!(options.jsx_factory, "React.createElement");
    assert_eq!(options.jsx_fragment_factory, "React.Fragment");
    assert_eq!(options.jsx_import_source, None);
}

#[test]
fn emit_config_inlines_source_maps() {
    let config = get_ts_config(ConfigType::Emit).unwrap();
    assert_eq!(config.0.get("inlineSourceMap"), Some(&Value::Bool(true)));
    assert_eq!(config.0.get("inlineSources"), Some(&Value::Bool(true)));
    assert_eq!(config.0.get("sourceMap"), Some(&Value::Bool(false)));
    assert_eq!(config.0.get("resolveJsonModule"), Some(&Value::Bool(true)));
    assert_eq!(names(&config.0).len(), 10);
    let options: TranspilerOptions = config.into();
    assert!(options.inline_source_map);
    assert!(options.inline_sources);
    assert!(!options.source_map);
}

#[test]
fn check_config_with_emit_merges_the_emit_options() {
    let config =
        get_ts_config(ConfigType::Check { lib: TypeLib::UnstableDenoWorker, tsc_emit: true })
            .unwrap();
    assert_eq!(
        names(&config.0),
        vec![
            "allowJs",
            "allowSyntheticDefaultImports",
            "experimentalDecorators",
            "incremental",
            "jsx",
            "isolatedModules",
            "lib",
            "module",
            "resolveJsonModule",
            "strict",
            "target",
            "tsBuildInfoFile",
            "useDefineForClassFields",
            "useUnknownInCatchVariables",
            "emitDecoratorMetadata",
            "importsNotUsedAsValues",
            "inlineSourceMap",
            "inlineSources",
            "outDir",
            "removeComments",
        ]
    );
    assert_eq!(
        config.0.get("lib"),
        Some(&Value::Array(vec![text("deno.worker"), text("deno.unstable")]))
    );
    assert_eq!(config.0.get("outDir"), Some(&text("deno://")));
    assert_eq!(config.0.get("noEmit"), None);
    assert_eq!(config.0.get("tsBuildInfoFile"), Some(&text("deno:///.tsbuildinfo")));
}

#[test]
fn check_config_without_emit_sets_no_emit() {
    let config =
        get_ts_config(ConfigType::Check { lib: TypeLib::DenoWindow, tsc_emit: false }).unwrap();
    assert_eq!(config.0.get("noEmit"), Some(&Value::Bool(true)));
    assert_eq!(config.0.get("outDir"), None);
    assert_eq!(config.0.get("lib"), Some(&Value::Array(vec![text("deno.window")])));
    assert_eq!(names(&config.0).len(), 15);
}

#[test]
fn runtime_emit_config_returns_the_map_beside_the_code() {
    let config = get_ts_config(ConfigType::RuntimeEmit { tsc_emit: true }).unwrap();
    assert_eq!(config.0.get("sourceMap"), Some(&Value::Bool(true)));
    assert_eq!(config.0.get("inlineSourceMap"), Some(&Value::Bool(false)));
    assert_eq!(config.0.get("outDir"), Some(&text("deno://")));
    assert_eq!(config.0.get("importsNotUsedAsValues"), Some(&text("remove")));
    assert_eq!(config.0.get("lib"), Some(&Value::Array(vec![text("deno.window")])));
    assert_eq!(names(&config.0).len(), 23);
    let plain = get_ts_config(ConfigType::RuntimeEmit { tsc_emit: false }).unwrap();
    assert_eq!(plain.0.get("noEmit"), Some(&Value::Bool(true)));
    assert_eq!(names(&plain.0).len(), 23);
}

#[test]
fn type_lib_defaults_to_the_window() {
    assert_eq!(TypeLib::default(), TypeLib::DenoWindow);
    assert_eq!(TypeLib::DenoWorker.names(), vec!["deno.worker".to_string()]);
    assert_eq!(
        TypeLib::UnstableDenoWindow.names(),
        vec!["deno.window".to_string(), "deno.unstable".to_string()]
    );
}

#[test]
fn merge_replaces_scalars_and_arrays() {
    let mut base = object(vec![
        ("a", Value::Bool(true)),
        ("list", Value::Array(vec![text("x"), text("y")])),
        ("n", Value::Number(1.into())),
    ]);
    let overlay = object(vec![
        ("list", Value::Array(vec![text("z")])),
        ("a", text("now text")),
    ]);
    json_merge(&mut base, &overlay);
    assert_eq!(
        base,
        object(vec![
            ("a", text("now text")),
            ("list", Value::Array(vec![text("z")])),
            ("n", Value::Number(1.into())),
        ])
    );
}

#[test]
fn merge_goes_into_nested_objects() {
    let mut config = TsConfig::new(object(vec![(
        "compilerOptions",
        object(vec![("strict", Value::Bool(true)), ("target", text("es5"))]),
    )]));
    config.merge(&object(vec![
        ("compilerOptions", object(vec![("target", text("esnext")), ("jsx", text("react"))])),
        ("files", Value::Array(vec![])),
    ]));
    assert_eq!(
        config.0,
        object(vec![
            (
                "compilerOptions",
                object(vec![
                    ("strict", Value::Bool(true)),
                    ("target", text("esnext")),
                    ("jsx", text("react")),
                ])
            ),
            ("files", Value::Array(vec![])),
        ])
    );
}

#[test]
fn merge_of_a_scalar_replaces_the_whole_base() {
    let mut base = object(vec![("a", Value::Bool(true))]);
    json_merge(&mut base, &Value::Null);
    assert_eq!(base, Value::Null);
    let mut scalar = text("x");
    json_merge(&mut scalar, &object(vec![("a", Value::Bool(true))]));
    assert_eq!(scalar, object(vec![("a", Value::Bool(true))]));
    let mut nested = object(vec![("a", object(vec![("b", Value::Bool(true))]))]);
    json_merge(&mut nested, &object(vec![("a", Value::Bool(false))]));
    assert_eq!(nested, object(vec![("a", Value::Bool(false))]));
}

#[test]
fn clone_keeps_the_value() {
    let value = object(vec![
        ("a", Value::Array(vec![Value::Null, Value::Number(25.into())])),
        ("b", object(vec![("c", text("d"))])),
    ]);
    assert_eq!(value.clone(), value);
}

#[test]
fn jsx_modes_map_to_their_flags() {
    let flags = |jsx: &str| {
        let config = TsConfig::new(object(vec![("jsx", text(jsx))]));
        let options = TranspilerOptions::from_config(&config);
        (options.transform_jsx, options.jsx_automatic, options.jsx_development)
    };
    assert_eq!(flags("react"), (true, false, false));
    assert_eq!(flags("react-jsx"), (true, true, false));
    assert_eq!(flags("react-jsxdev"), (true, true, true));
    assert_eq!(flags("preserve"), (false, false, false));
    assert_eq!(flags("React"), (false, false, false));
    assert_eq!(flags(""), (false, false, false));
}

#[test]
fn unused_import_policies_map_to_their_variants() {
    let policy = |text_value: &str| {
        let config = TsConfig::new(object(vec![("importsNotUsedAsValues", text(text_value))]));
        TranspilerOptions::from_config(&config).imports_not_used_as_values
    };
    assert_eq!(policy("preserve"), ImportsNotUsedAsValues::Preserve);
    assert_eq!(policy("error"), ImportsNotUsedAsValues::Error);
    assert_eq!(policy("remove"), ImportsNotUsedAsValues::Remove);
    assert_eq!(policy("anything else"), ImportsNotUsedAsValues::Remove);
}

#[test]
fn conversion_is_total() {
    for value in [
        Value::Null,
        Value::Bool(true),
        text("x"),
        Value::Array(vec![]),
        object(vec![]),
        object(vec![("sourceMap", text("yes")), ("jsx", Value::Bool(true))]),
    ] {
        let options = EmitConfigOptions::from_config(&TsConfig::new(value));
        assert_eq!(
            options,
            EmitConfigOptions {
                check_js: false,
                emit_decorator_metadata: false,
                imports_not_used_as_values: "remove".to_string(),
                inline_source_map: false,
                inline_sources: false,
                source_map: false,
                jsx: "".to_string(),
                jsx_factory: "React.createElement".to_string(),
                jsx_fragment_factory: "React.Fragment".to_string(),
                jsx_import_source: None,
            }
        );
    }
}

#[test]
fn conversion_reads_every_option() {
    let config = TsConfig::new(object(vec![
        ("checkJs", Value::Bool(true)),
        ("emitDecoratorMetadata", Value::Bool(true)),
        ("importsNotUsedAsValues", text("error")),
        ("inlineSourceMap", Value::Bool(true)),
        ("inlineSources", Value::Bool(true)),
        ("sourceMap", Value::Bool(true)),
        ("jsx", text("react-jsx")),
        ("jsxFactory", text("h")),
        ("jsxFragmentFactory", text("Fragment")),
        ("jsxImportSource", text("preact")),
    ]));
    let raw = EmitConfigOptions::from_config(&config);
    assert!(raw.check_js);
    assert_eq!(raw.jsx, "react-jsx");
    let options = TranspilerOptions::from_emit_config(raw);
    assert_eq!(
        options,
        TranspilerOptions {
            emit_metadata: true,
            imports_not_used_as_values: ImportsNotUsedAsValues::Error,
            inline_source_map: true,
            inline_sources: true,
            source_map: true,
            jsx_automatic: true,
            jsx_development: false,
            jsx_factory: "h".to_string(),
            jsx_fragment_factory: "Fragment".to_string(),
            jsx_import_source: Some("preact".to_string()),
            transform_jsx: true,
            var_decl_imports: false,
        }
    );
}

#[test]
fn merge_keeps_the_order_of_insertion() {
    let mut base = object(vec![("b", Value::Bool(true)), ("a", Value::Bool(true))]);
    json_merge(
        &mut base,
        &object(vec![("c", Value::Null), ("a", Value::Bool(false)), ("0", Value::Null)]),
    );
    assert_eq!(names(&base), vec!["b", "a", "c", "0"]);
    assert_eq!(get_member(&base, "a"), Some(Value::Bool(false)));
    assert_eq!(get_member(&base, "z"), None);
    assert_eq!(get_member(&Value::Null, "a"), None);
}

#[test]
fn merging_the_same_overlay_twice_changes_nothing_more() {
    let overlay = object(vec![
        ("compilerOptions", object(vec![("target", text("esnext")), ("lib", Value::Array(vec![text("dom")]))])),
        ("noEmit", Value::Bool(true)),
        ("jsx", text("react-jsx")),
    ]);
    for base in [
        Value::Null,
        object(vec![]),
        object(vec![("jsx", object(vec![("x", Value::Null)])), ("compilerOptions", object(vec![("strict", Value::Bool(true))]))]),
        get_ts_config(ConfigType::Emit).unwrap().0,
    ] {
        let mut once = base.clone();
        json_merge(&mut once, &overlay);
        let mut twice = once.clone();
        json_merge(&mut twice, &overlay);
        assert!(same_order(&once, &twice));
    }
}
