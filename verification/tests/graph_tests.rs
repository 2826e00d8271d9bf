use deno_ast::swc::common::{Globals, SourceMap};
use deno_bundler::config::{get_ts_config, ConfigType, TranspilerOptions};
use deno_bundler::error::BundleError;
use deno_bundler::graph::MediaKind;
use deno_bundler::loader::BundleLoader;
use deno_bundler::resolver::BundleResolver;
use deno_bundler::transpile::compile_text;
use deno_graph::source::{MemoryLoader, Source};
use deno_graph::{create_graph, ModuleKind, ModuleSpecifier};
use futures::executor::block_on;
use std::rc::Rc;

fn built(sources: &[(&'static str, &'static str)], roots: &[&str]) -> deno_graph::ModuleGraph {
    let mut loader = MemoryLoader::new(
        sources
            .iter()
            .map(|(specifier, content)| {
                (*specifier, Source::Module { specifier: *specifier, maybe_headers: None, content: *content })
            })
            .collect(),
        vec![],
    );
    block_on(create_graph(
        roots.iter().map(|root| (ModuleSpecifier::parse(root).unwrap(), ModuleKind::Esm)).collect(),
        false,
        None,
        &mut loader,
        None,
        None,
        None,
        None,
    ))
}

fn built_graph() -> deno_graph::ModuleGraph {
    built(
        &[
            (
                "file:///main.ts",
                "import data from \"./data.json\" assert { type: \"json\" };\nimport { a } from \"./a.ts\";\nimport \"./missing.ts\";\nconst lazy = import(\"./lazy.ts\");\nconsole.log(data, a, lazy, import.meta.url);\n",
            ),
            ("file:///a.ts", "\u{FEFF}export const a: number = 1;\n"),
            ("file:///data.json", "{\"a\":1}"),
            ("file:///lazy.ts", "export default 2;\n"),
            ("file:///view.tsx", "export const e = <div/>;\n"),
        ],
        &["file:///main.ts", "file:///view.tsx"],
    )
}

#[test]
fn loader_prepares_the_modules_of_a_built_graph() {
    let graph = built_graph();
    let options = TranspilerOptions::from_config(&get_ts_config(ConfigType::Bundle).unwrap());
    let globals = Globals::new();
    let loader = BundleLoader::new(&globals, Rc::new(SourceMap::default()), &options, &graph);
    let data = loader.prepare("file:///data.json").unwrap();
    assert_eq!(data.specifier, "file:///data.json");
    assert_eq!(data.source, "export default JSON.parse(`{\"a\":1}`);");
    assert_eq!(data.syntax, MediaKind::JavaScript);
    let a = loader.prepare("file:///a.ts").unwrap();
    assert_eq!(a.source, "export const a: number = 1;\n");
    assert_eq!(a.syntax, MediaKind::TypeScript);
    assert_eq!(loader.prepare("file:///view.tsx").unwrap().syntax, MediaKind::Tsx);
    for missing in ["file:///missing.ts", "file:///nowhere.ts", "not a url"] {
        assert_eq!(
            loader.prepare(missing),
            Err(BundleError::MissingModule { specifier: missing.to_string() })
        );
        assert!(matches!(loader.load(missing), Err(BundleError::MissingModule { .. })));
    }
}

#[test]
fn loader_parses_and_lowers_the_modules_of_a_built_graph() {
    let graph = built_graph();
    let options = TranspilerOptions::from_config(&get_ts_config(ConfigType::Bundle).unwrap());
    let globals = Globals::new();
    let loader = BundleLoader::new(&globals, Rc::new(SourceMap::default()), &options, &graph);
    for specifier in ["file:///main.ts", "file:///a.ts", "file:///data.json", "file:///view.tsx"] {
        match loader.load(specifier) {
            Ok(lowered) => {
                assert_eq!(lowered.specifier, specifier);
                assert!(!lowered.module.body.is_empty());
            }
            Err(error) => panic!("{}", error.message()),
        }
    }
    match loader.load("file:///data.json") {
        Ok(lowered) => {
            assert_eq!(&**lowered.fm.src, "export default JSON.parse(`{\"a\":1}`);")
        }
        Err(error) => panic!("{}", error.message()),
    }
}

#[test]
fn resolver_asks_the_built_graph() {
    let graph = built_graph();
    let resolver = BundleResolver(&graph);
    assert_eq!(resolver.resolve("file:///main.ts", "./data.json"), Ok("file:///data.json".to_string()));
    assert_eq!(resolver.resolve("file:///main.ts", "./a.ts"), Ok("file:///a.ts".to_string()));
    assert_eq!(resolver.resolve("file:///main.ts", "./lazy.ts"), Ok("file:///lazy.ts".to_string()));
    for (referrer, specifier) in [
        ("file:///main.ts", "./missing.ts"),
        ("file:///main.ts", "./never.ts"),
        ("file:///a.ts", "./data.json"),
        ("file:///nowhere.ts", "./a.ts"),
        ("not a url", "./a.ts"),
    ] {
        assert_eq!(
            resolver.resolve(referrer, specifier),
            Err(BundleError::Unresolved {
                specifier: specifier.to_string(),
                referrer: referrer.to_string()
            })
        );
    }
}

#[test]
fn resolution_failure_names_specifier_and_referrer() {
    let graph = built_graph();
    let resolver = BundleResolver(&graph);
    let error = resolver.resolve("file:///main.ts", "./nonexistent.ts").unwrap_err();
    assert_eq!(
        error,
        BundleError::Unresolved {
            specifier: "./nonexistent.ts".to_string(),
            referrer: "file:///main.ts".to_string(),
        }
    );
    let message = error.message();
    assert_eq!(message, "Cannot resolve \"./nonexistent.ts\" from \"file:///main.ts\".");
    assert!(message.contains("./nonexistent.ts"));
    assert!(message.contains("file:///main.ts"));
}

fn without_space(text: &str) -> String {
    text.chars().filter(|c| !c.is_whitespace()).collect()
}

#[test]
fn typed_script_compiles_to_script() {
    let code = "interface P { x: number }\nexport function f(p: P): number {\n  return p.x as number;\n}\n";
    let out = compile_text("file:///foo.ts", code.to_string()).unwrap();
    assert_eq!(without_space(&out), without_space("export function f(p) {\n  return p.x;\n}\n"));
    assert!(!out.contains("sourceMappingURL"));
    let plain = compile_text("file:///foo.js", "export const a = 1;\n".to_string()).unwrap();
    assert_eq!(without_space(&plain), "exportconsta=1;");
}

#[test]
fn compile_reports_what_it_cannot_parse() {
    assert!(compile_text("file:///foo.ts", "const = ;".to_string()).is_err());
    assert!(compile_text("not a specifier", "let a = 1;".to_string()).is_err());
    let jsx = compile_text("file:///foo.tsx", "export const e = <div/>;\n".to_string()).unwrap();
    assert!(jsx.contains("React.createElement"));
}
