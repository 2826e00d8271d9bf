use anyhow::Error as AnyError;
use deno_ast::swc::ast;
use deno_ast::swc::bundler::{Bundle, Bundler, Hook, Load, ModuleData, ModuleRecord, Resolve};
use deno_ast::swc::common::{FileName, FilePathMapping, Globals, SourceMap, Span, GLOBALS};
use deno_ast::ModuleSpecifier;
use deno_bundler::bundle::{
    BundleAction, BundleEvent, BundleOptions, BundleRun, BundleType, ModuleType,
};
use deno_bundler::config::{get_ts_config, ConfigType, TranspilerOptions, TsConfig};
use deno_bundler::hook::{BundleHook, MetaProp, MetaValue};
use serde_json::Value;
use deno_bundler::loader::BundleLoader;
use deno_bundler::minify::minify;
use deno_bundler::output::{emit, gen_code};
use deno_bundler::resolver::BundleResolver;
use deno_graph::source::{MemoryLoader, Source};
use deno_graph::{create_graph, ModuleKind};
use futures::executor::block_on;
use std::collections::HashMap;
use std::rc::Rc;

fn built(sources: &[(&'static str, &'static str)], root: &str) -> deno_graph::ModuleGraph {
    let mut loader = MemoryLoader::new(
        sources
            .iter()
            .map(|(specifier, content)| {
                (*specifier, Source::Module { specifier: *specifier, maybe_headers: None, content: *content })
            })
            .collect(),
        vec![],
    );
    block_on(create_graph(
        vec![(ModuleSpecifier::parse(root).unwrap(), ModuleKind::Esm)],
        false,
        None,
        &mut loader,
        None,
        None,
        None,
        None,
    ))
}

struct TestLoader<'a>(BundleLoader<'a>);

impl Load for TestLoader<'_> {
    fn load(&self, file_name: &FileName) -> Result<ModuleData, AnyError> {
        let specifier = match file_name {
            FileName::Url(specifier) => specifier,
            _ => unreachable!(),
        };
        let lowered = self.0.load(specifier.as_str()).map_err(|e| AnyError::msg(e.report()))?;
        Ok(ModuleData { fm: lowered.fm, module: lowered.module, helpers: Default::default() })
    }
}

struct TestResolver<'a>(BundleResolver<'a>);

impl Resolve for TestResolver<'_> {
    fn resolve(&self, referrer: &FileName, specifier: &str) -> Result<FileName, AnyError> {
        let referrer = match referrer {
            FileName::Url(referrer) => referrer,
            _ => unreachable!(),
        };
        let target =
            self.0.resolve(referrer.as_str(), specifier).map_err(|e| AnyError::msg(e.message()))?;
        Ok(FileName::Url(ModuleSpecifier::parse(&target)?))
    }
}

struct TestHook;

fn key_value(prop: &MetaProp, span: Span) -> ast::KeyValueProp {
    ast::KeyValueProp {
        key: ast::PropName::Ident(ast::Ident::new(prop.key.as_str().into(), span)),
        value: Box::new(match &prop.value {
            MetaValue::Str(text) => {
                ast::Expr::Lit(ast::Lit::Str(ast::Str { span, value: text.as_str().into(), raw: None }))
            }
            MetaValue::False => ast::Expr::Lit(ast::Lit::Bool(ast::Bool { span, value: false })),
            MetaValue::ImportMetaMain => ast::Expr::Member(ast::MemberExpr {
                span,
                obj: Box::new(ast::Expr::MetaProp(ast::MetaPropExpr {
                    span,
                    kind: ast::MetaPropKind::ImportMeta,
                })),
                prop: ast::MemberProp::Ident(ast::Ident::new("main".into(), span)),
            }),
        }),
    }
}

impl Hook for TestHook {
    fn get_import_meta_props(
        &self,
        span: Span,
        module_record: &ModuleRecord,
    ) -> Result<Vec<ast::KeyValueProp>, AnyError> {
        let props = BundleHook
            .get_import_meta_props(&module_record.file_name.to_string(), module_record.is_entry)
            .map_err(|e| AnyError::msg(e.message()))?;
        Ok(props.iter().map(|prop| key_value(prop, span)).collect())
    }
}

fn bundle(
    sources: &[(&'static str, &'static str)],
    root: &str,
    options: BundleOptions,
) -> Result<(String, Option<String>), String> {
    bundle_and(sources, root, options, |_, _, _| {})
}

fn bundle_and(
    sources: &[(&'static str, &'static str)],
    root: &str,
    options: BundleOptions,
    look: impl Fn(&Rc<SourceMap>, &Bundle, &TranspilerOptions),
) -> Result<(String, Option<String>), String> {
    let graph = built(sources, root);
    let (mut run, mut action) = BundleRun::start(&graph, options);
    let options_of_run = run.emit_options.clone();
    let globals = Globals::new();
    GLOBALS.set(&globals, || {
        let cm = Rc::new(SourceMap::new(FilePathMapping::empty()));
        let mut modules: Vec<Bundle> = Vec::new();
        loop {
            let event = match action {
                BundleAction::Merge(request) => {
                    let loader =
                        TestLoader(BundleLoader::new(&globals, cm.clone(), &options_of_run, &graph));
                    let config = deno_ast::swc::bundler::Config {
                        module: match request.config.module {
                            ModuleType::Es => deno_ast::swc::bundler::ModuleType::Es,
                            ModuleType::Iife => deno_ast::swc::bundler::ModuleType::Iife,
                        },
                        disable_fixer: request.config.disable_fixer,
                        disable_hygiene: request.config.disable_hygiene,
                        ..Default::default()
                    };
                    let mut bundler = Bundler::new(
                        &globals,
                        cm.clone(),
                        loader,
                        TestResolver(BundleResolver(&graph)),
                        config,
                        Box::new(TestHook),
                    );
                    let mut entries = HashMap::new();
                    entries.insert(
                        request.entry_name,
                        FileName::Url(ModuleSpecifier::parse(&request.entry).unwrap()),
                    );
                    match bundler.bundle(entries) {
                        Ok(merged) => {
                            modules = merged;
                            BundleEvent::Merged(Ok(modules.len()))
                        }
                        Err(error) => BundleEvent::Merged(Err(format!("{:#}", error))),
                    }
                }
                BundleAction::Minify(_) => {
                    modules = minify(&globals, &cm, std::mem::take(&mut modules));
                    BundleEvent::Minified
                }
                BundleAction::Emit(plan) => {
                    look(&cm, &modules[0], &options_of_run);
                    let (code, source_map) = emit(&cm, &modules[0], &plan);
                    BundleEvent::Emitted { code, source_map }
                }
                BundleAction::Wrap { body, .. } => BundleEvent::Wrapped(Ok(body)),
                BundleAction::Finish { code, source_map } => return Ok((code, source_map)),
                BundleAction::Abort(error) => return Err(error.report()),
            };
            action = run.step(event);
        }
    })
}

fn options(bundle_type: BundleType, minify: bool) -> BundleOptions {
    BundleOptions {
        bundle_type,
        ts_config: get_ts_config(ConfigType::Bundle).unwrap(),
        emit_ignore_directives: false,
        minify,
    }
}

fn with_flags(inline_source_map: bool, source_map: bool) -> BundleOptions {
    let mut config = get_ts_config(ConfigType::Bundle).unwrap();
    config.merge(&Value::Object(serde_json::Map::from_iter(vec![
        ("inlineSourceMap".to_string(), Value::Bool(inline_source_map)),
        ("sourceMap".to_string(), Value::Bool(source_map)),
    ])));
    BundleOptions {
        bundle_type: BundleType::Module,
        ts_config: TsConfig::new(config.0),
        emit_ignore_directives: false,
        minify: false,
    }
}

const MAIN: &str = "file:///main.ts";

const TRIVIAL: &[(&str, &str)] =
    &[("file:///main.ts", "export const answer: number = 42;\nconsole.log(answer);\n")];

const PROGRAM: &[(&str, &str)] = &[
    (
        "file:///main.ts",
        "import data from \"./data.json\" assert { type: \"json\" };\nimport { helper } from \"./dep.ts\";\nconsole.log(helper(data), import.meta.url, import.meta.main);\n",
    ),
    (
        "file:///dep.ts",
        "export function helper(value: unknown): string {\n  return JSON.stringify(value) + import.meta.url + String(import.meta.main);\n}\n",
    ),
    ("file:///data.json", "{\"a\":1,\"tpl\":\"`${x}`\"}"),
];

#[test]
fn each_shape_is_recognizable() {
    let module = bundle(TRIVIAL, MAIN, options(BundleType::Module, false)).unwrap().0;
    assert!(module.contains("const answer = 42;"));
    assert!(module.contains("export { answer"));
    assert!(!module.contains("(function"));
    let main_module = bundle(TRIVIAL, MAIN, options(BundleType::MainModule, false)).unwrap().0;
    assert!(main_module.contains("const answer = 42;"));
    assert!(main_module.contains("export { answer"));
    let classic = bundle(TRIVIAL, MAIN, options(BundleType::Classic, false)).unwrap().0;
    assert!(classic.trim_start().starts_with("(function"));
    assert!(classic.trim_end().ends_with("})();"));
    assert!(classic.contains("const answer = 42;"));
    assert!(!classic.contains("export {"));
}

#[test]
fn import_meta_is_rewritten_per_module() {
    let (code, map) = bundle(PROGRAM, MAIN, options(BundleType::Module, false)).unwrap();
    assert_eq!(map, None);
    assert!(code.contains("url: \"file:///main.ts\""));
    assert!(code.contains("main: import.meta.main"));
    assert!(code.contains("url: \"file:///dep.ts\""));
    assert!(code.contains("main: false"));
    assert_eq!(code.matches("main: import.meta.main").count(), 1);
    assert_eq!(code.matches("main: false").count(), 1);
}

#[test]
fn json_module_exports_its_parsed_value() {
    let (code, _) = bundle(PROGRAM, MAIN, options(BundleType::Module, false)).unwrap();
    assert!(code.contains("JSON.parse(`{\"a\":1,\"tpl\":\"\\`\\${x}\\`\"}`)"));
}

#[test]
fn unresolved_import_names_specifier_and_referrer() {
    let sources: &[(&str, &str)] =
        &[("file:///main.ts", "import { x } from \"./nonexistent.ts\";\nconsole.log(x);\n")];
    let error = bundle(sources, MAIN, options(BundleType::Module, false)).unwrap_err();
    assert!(error.starts_with("Unable to output during bundling.: "));
    assert!(error.contains("Cannot resolve \"./nonexistent.ts\" from \"file:///main.ts\"."));
    assert!(error.contains("./nonexistent.ts") && error.contains("file:///main.ts"));
}

#[test]
fn bundling_is_deterministic() {
    for minify in [false, true] {
        let first = bundle(PROGRAM, MAIN, options(BundleType::Module, minify)).unwrap();
        let second = bundle(PROGRAM, MAIN, options(BundleType::Module, minify)).unwrap();
        assert_eq!(first, second);
    }
}

#[test]
fn minified_bundle_is_shorter_and_keeps_its_strings() {
    let plain = bundle(PROGRAM, MAIN, options(BundleType::Module, false)).unwrap().0;
    let small = bundle(PROGRAM, MAIN, options(BundleType::Module, true)).unwrap().0;
    assert!(small.len() < plain.len());
    assert!(small.contains("file:///main.ts"));
    assert!(small.contains("JSON.parse"));
}

#[test]
fn source_map_flags_decide_where_the_map_goes() {
    let (code, map) = bundle(TRIVIAL, MAIN, with_flags(false, false)).unwrap();
    assert!(!code.contains("sourceMappingURL"));
    assert_eq!(map, None);
    for source_map in [false, true] {
        let (code, map) = bundle(TRIVIAL, MAIN, with_flags(true, source_map)).unwrap();
        assert!(code.contains("\n//# sourceMappingURL=data:application/json;base64,"));
        assert!(code.ends_with("\n"));
        assert_eq!(map, None);
    }
    let (code, map) = bundle(TRIVIAL, MAIN, with_flags(false, true)).unwrap();
    assert!(!code.contains("sourceMappingURL"));
    let map = map.unwrap();
    assert!(map.starts_with("{\"version\":3"));
    assert!(map.contains("\"mappings\""));
}

#[test]
fn header_opens_the_bundle() {
    let mut with_header = options(BundleType::Module, false);
    with_header.emit_ignore_directives = true;
    let (code, _) = bundle(TRIVIAL, MAIN, with_header).unwrap();
    assert!(code.starts_with("// deno-fmt-ignore-file\n// deno-lint-ignore-file\n"));
    assert!(code.contains("const answer = 42;"));
}

fn leak(text: String) -> &'static str {
    Box::leak(text.into_boxed_str())
}

#[test]
fn minifying_again_changes_nothing() {
    let sources: &[(&str, &str)] = &[(
        "file:///main.js",
        "function double(value) {\n  return value * 2;\n}\nvar base = 20 + 1;\nfunction show(name, value) {\n  console.log(name + \": \" + value);\n}\nshow(\"answer\", double(base));\n",
    )];
    let once = bundle(sources, "file:///main.js", options(BundleType::Module, true)).unwrap().0;
    assert_eq!(
        once,
        "function a(a){return 2*a;}var b=21;function c(a,b){console.log(a+\": \"+b);}c(\"answer\",a(b));"
    );
    let again_sources: Vec<(&'static str, &'static str)> =
        vec![("file:///main.js", leak(once.clone()))];
    let twice =
        bundle(&again_sources, "file:///main.js", options(BundleType::Module, true)).unwrap().0;
    assert_eq!(once, twice);
}

#[test]
fn dynamic_import_is_left_for_run_time() {
    let sources: &[(&str, &str)] = &[
        (
            "file:///main.ts",
            "import { a } from \"./a.ts\";\nconst lazy = import(\"./lazy.ts\");\nconsole.log(a, lazy);\n",
        ),
        ("file:///a.ts", "export const a: number = 1;\n"),
        ("file:///lazy.ts", "export default \"never merged\";\n"),
    ];
    let (code, _) = bundle(sources, MAIN, options(BundleType::Module, false)).unwrap();
    assert!(code.contains("import(\"./lazy.ts\")"));
    assert!(!code.contains("never merged"));
    assert!(code.contains("console.log("));
}

#[test]
fn colliding_top_level_names_are_kept_apart() {
    let sources: &[(&str, &str)] = &[
        (
            "file:///main.ts",
            "import { value as other } from \"./a.ts\";\nconst value = \"main\";\nconsole.log(value, other);\n",
        ),
        ("file:///a.ts", "const value = \"dep\";\nexport { value };\n"),
    ];
    let (code, _) = bundle(sources, MAIN, options(BundleType::Module, false)).unwrap();
    assert!(code.contains("\"main\""));
    assert!(code.contains("\"dep\""));
    assert_eq!(code.matches("const value = ").count(), 1);
}

#[test]
fn gen_code_renders_a_merged_bundle() {
    for (inline_source_map, source_map) in [(false, false), (true, false), (false, true)] {
        let seen = std::cell::RefCell::new(None);
        let out = bundle_and(TRIVIAL, MAIN, with_flags(inline_source_map, source_map), |cm, merged, emit_options| {
            *seen.borrow_mut() = Some(gen_code(cm, merged, emit_options, false, false));
        })
        .unwrap();
        assert_eq!(seen.into_inner(), Some(Ok(out)));
    }
    let seen = std::cell::RefCell::new(None);
    bundle_and(TRIVIAL, MAIN, options(BundleType::Module, false), |cm, merged, emit_options| {
        *seen.borrow_mut() = Some(gen_code(cm, merged, emit_options, true, true));
    })
    .unwrap();
    let (code, map) = seen.into_inner().unwrap().unwrap();
    assert!(code.starts_with("// deno-fmt-ignore-file\n// deno-lint-ignore-file\n"));
    assert!(code.contains("const answer=42"));
    assert_eq!(map, None);
}

#[test]
fn a_module_that_the_graph_could_not_parse_is_not_resolved() {
    let sources: &[(&str, &str)] = &[
        ("file:///main.ts", "import { a } from \"./a.ts\";\nconsole.log(a);\n"),
        ("file:///a.ts", "export const a = ;\n"),
    ];
    let error = bundle(sources, MAIN, options(BundleType::Module, false)).unwrap_err();
    assert!(error.starts_with("Unable to output during bundling."));
    assert!(error.contains("Cannot resolve \"./a.ts\" from \"file:///main.ts\"."));
}


