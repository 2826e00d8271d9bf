use deno_bundler::bundle::{
    BundleAction, BundleEvent, BundleOptions, BundleRun, BundleStage, BundleType, BundlerConfig,
    MergeRequest, ModuleType,
};
use deno_bundler::config::{get_ts_config, ConfigType, TranspilerOptions, TsConfig};
use deno_bundler::error::{BundleError, Diagnostic, LineAndColumnDisplay, SourceRange};
use serde_json::Value;
use deno_bundler::minify::{MinifyOptions, MinifyPlan};
use deno_graph::source::{MemoryLoader, Source};
use deno_graph::{create_graph, ModuleKind, ModuleSpecifier};
use futures::executor::block_on;
use deno_bundler::output::{assemble, ignore_directives, EmitPlan};

fn options(inline_source_map: bool, source_map: bool) -> TranspilerOptions {
    let mut options = TranspilerOptions::from_config(&get_ts_config(ConfigType::Bundle).unwrap());
    options.inline_source_map = inline_source_map;
    options.source_map = source_map;
    options
}

fn code() -> Result<Vec<u8>, String> {
    Ok(b"console.log(1);\n".to_vec())
}

fn map() -> Result<Vec<u8>, String> {
    Ok(b"{\"version\":3}".to_vec())
}

#[test]
fn no_source_map_option_gives_no_map() {
    let out = assemble(code(), map(), &options(false, false)).unwrap();
    assert_eq!(out, ("console.log(1);\n".to_string(), None));
    let out = assemble(code(), Err("no map was built".to_string()), &options(false, false)).unwrap();
    assert_eq!(out, ("console.log(1);\n".to_string(), None));
}

#[test]
fn inline_source_map_is_appended_as_a_comment() {
    for source_map in [false, true] {
        let (text, returned) = assemble(code(), map(), &options(true, source_map)).unwrap();
        assert_eq!(
            text,
            "console.log(1);\n//# sourceMappingURL=data:application/json;base64,eyJ2ZXJzaW9uIjozfQ==\n"
        );
        assert_eq!(returned, None);
    }
}

#[test]
fn inline_source_map_encodes_any_bytes() {
    let (text, returned) =
        assemble(Ok(vec![]), Ok(vec![0xff, 0x00, 0x10]), &options(true, false)).unwrap();
    assert_eq!(text, "//# sourceMappingURL=data:application/json;base64,/wAQ\n");
    assert_eq!(returned, None);
    let (text, _) = assemble(Ok(vec![]), Ok(b"ab".to_vec()), &options(true, false)).unwrap();
    assert_eq!(text, "//# sourceMappingURL=data:application/json;base64,YWI=\n");
}

#[test]
fn source_map_is_returned_beside_the_code() {
    let (text, returned) = assemble(code(), map(), &options(false, true)).unwrap();
    assert_eq!(text, "console.log(1);\n");
    assert!(!text.contains("sourceMappingURL"));
    assert_eq!(returned, Some("{\"version\":3}".to_string()));
}

#[test]
fn failures_of_the_generator_fail_the_output() {
    assert_eq!(
        assemble(Err("cannot render".to_string()), map(), &options(true, true)),
        Err(BundleError::Emit { cause: "cannot render".to_string() })
    );
    assert_eq!(assemble(Ok(vec![0xff]), map(), &options(false, false)), Err(BundleError::InvalidCode));
    assert_eq!(
        assemble(code(), Err("io".to_string()), &options(false, true)),
        Err(BundleError::SourceMap { cause: "io".to_string() })
    );
    assert_eq!(
        assemble(code(), Err("io".to_string()), &options(true, false)),
        Err(BundleError::SourceMap { cause: "io".to_string() })
    );
    assert_eq!(
        assemble(code(), Ok(vec![0xc0]), &options(false, true)),
        Err(BundleError::InvalidSourceMap)
    );
}

#[test]
fn code_is_decoded_as_utf8() {
    let (text, _) = assemble(Ok("caf\u{e9} \u{1F600}".as_bytes().to_vec()), map(), &options(false, false)).unwrap();
    assert_eq!(text, "caf\u{e9} \u{1F600}");
}

#[test]
fn error_messages_name_the_stage() {
    assert_eq!(
        BundleError::Merge { cause: "x".to_string() }.message(),
        "Unable to output during bundling."
    );
    assert_eq!(
        BundleError::Emit { cause: "x".to_string() }.message(),
        "Unable to emit during bundling."
    );
    assert_eq!(BundleError::InvalidCode.message(), "Emitted code is an invalid string.");
    assert_eq!(BundleError::NoEntry.message(), "The module graph has no entry module.");
    assert_eq!(BundleError::NoBundle.message(), "The merge produced no bundle.");
    assert_eq!(BundleError::InvalidSourceMap.message(), "The source map is an invalid string.");
    assert_eq!(
        BundleError::SourceMap { cause: "x".to_string() }.message(),
        "Unable to write the source map."
    );
    assert_eq!(
        BundleError::Template { cause: "x".to_string() }.message(),
        "Unable to render the bundle."
    );
    assert_eq!(
        BundleError::OutOfTurn.message(),
        "The bundle run was not waiting for this result."
    );
    assert_eq!(BundleError::Lower { cause: "bad decorator".to_string() }.message(), "bad decorator");
}

#[test]
fn report_carries_the_cause() {
    let merge = BundleError::Merge {
        cause: "failed to resolve ./x.ts from file:///main.ts: Cannot resolve \"./x.ts\" from \"file:///main.ts\".".to_string(),
    };
    let report = merge.report();
    assert_eq!(
        report,
        "Unable to output during bundling.: failed to resolve ./x.ts from file:///main.ts: Cannot resolve \"./x.ts\" from \"file:///main.ts\"."
    );
    assert!(report.contains("./x.ts") && report.contains("file:///main.ts"));
    assert_eq!(
        BundleError::Emit { cause: "x".to_string() }.report(),
        "Unable to emit during bundling.: x"
    );
    assert_eq!(BundleError::InvalidCode.report(), "Emitted code is an invalid string.");
    assert_eq!(
        BundleError::MissingModule { specifier: "file:///a.ts".to_string() }.report(),
        "Module \"file:///a.ts\" unexpectedly missing when bundling."
    );
}

#[test]
fn diagnostic_message_shows_the_position() {
    let diagnostic = Diagnostic {
        specifier: "file:///a.ts".to_string(),
        range: SourceRange { start: 10, end: 12 },
        display_position: LineAndColumnDisplay { line_number: 3, column_number: 14 },
        kind: "Expected ';'".to_string(),
    };
    assert_eq!(diagnostic.message(), "Expected ';' at file:///a.ts:3:14");
    assert_eq!(BundleError::Parse(diagnostic).message(), "Expected ';' at file:///a.ts:3:14");
}

#[test]
fn header_keeps_formatters_and_linters_off() {
    assert_eq!(
        ignore_directives(),
        "// deno-fmt-ignore-file\n// deno-lint-ignore-file\n// This code was bundled using `deno-bundler` and it's not recommended to edit it manually\n\n"
    );
    let plan = EmitPlan::new(&options(false, true), true, false);
    assert_eq!(plan.leading_comment, Some(ignore_directives()));
    assert!(plan.build_source_map);
    assert!(!plan.minify);
    assert!(!plan.inline_sources);
    let plan = EmitPlan::new(&options(false, false), false, true);
    assert_eq!(plan.leading_comment, None);
    assert!(!plan.build_source_map);
    assert!(plan.minify);
}

#[test]
fn minify_plan_compresses_and_renames_the_top_level() {
    assert_eq!(
        MinifyPlan::for_bundle(),
        MinifyPlan {
            options: MinifyOptions { compress: true, mangle: true, mangle_top_level: true },
            run_fixer: true,
        }
    );
}

#[test]
fn shapes_map_to_module_types() {
    assert_eq!(ModuleType::from(BundleType::MainModule), ModuleType::Es);
    assert_eq!(ModuleType::from(BundleType::Module), ModuleType::Es);
    assert_eq!(ModuleType::from(BundleType::Classic), ModuleType::Iife);
    assert_eq!(BundleType::default(), BundleType::Module);
}

#[test]
fn default_options_bundle_a_minified_module() {
    let options = BundleOptions::default();
    assert_eq!(options.bundle_type, BundleType::Module);
    assert_eq!(options.ts_config, get_ts_config(ConfigType::Bundle).unwrap());
    assert!(!options.emit_ignore_directives);
    assert!(options.minify);
}

fn built(sources: &[(&'static str, &'static str)], roots: &[&str]) -> deno_graph::ModuleGraph {
    let mut loader = MemoryLoader::new(
        sources
            .iter()
            .map(|(specifier, content)| {
                (*specifier, Source::Module { specifier: *specifier, maybe_headers: None, content: *content })
            })
            .collect(),
        vec![],
    );
    block_on(create_graph(
        roots.iter().map(|root| (ModuleSpecifier::parse(root).unwrap(), ModuleKind::Esm)).collect(),
        false,
        None,
        &mut loader,
        None,
        None,
        None,
        None,
    ))
}

fn one_root() -> deno_graph::ModuleGraph {
    built(&[("file:///main.ts", "console.log(1);\n")], &["file:///main.ts"])
}

fn run_options(bundle_type: BundleType, minify: bool, config: TsConfig) -> BundleOptions {
    BundleOptions { bundle_type, ts_config: config, emit_ignore_directives: true, minify }
}

#[test]
fn a_run_goes_through_every_stage() {
    let config = get_ts_config(ConfigType::RuntimeEmit { tsc_emit: false }).unwrap();
    let (mut run, action) =
        BundleRun::start(&one_root(), run_options(BundleType::Classic, true, config));
    assert_eq!(
        action,
        BundleAction::Merge(MergeRequest {
            entry_name: "bundle".to_string(),
            entry: "file:///main.ts".to_string(),
            config: BundlerConfig {
                module: ModuleType::Iife,
                disable_fixer: true,
                disable_hygiene: true
            },
        })
    );
    assert_eq!(run.stage, BundleStage::Merging);
    assert_eq!(run.step(BundleEvent::Merged(Ok(1))), BundleAction::Minify(MinifyPlan::for_bundle()));
    let action = run.step(BundleEvent::Minified);
    assert_eq!(
        action,
        BundleAction::Emit(EmitPlan {
            leading_comment: Some(ignore_directives()),
            minify: true,
            build_source_map: true,
            inline_sources: false,
        })
    );
    let action = run.step(BundleEvent::Emitted { code: code(), source_map: map() });
    assert_eq!(
        action,
        BundleAction::Wrap { body: "console.log(1);\n".to_string(), bundle_type: BundleType::Classic }
    );
    assert_eq!(run.stage, BundleStage::Wrapping);
    let action = run.step(BundleEvent::Wrapped(Ok("(wrapped)".to_string())));
    assert_eq!(
        action,
        BundleAction::Finish {
            code: "(wrapped)".to_string(),
            source_map: Some("{\"version\":3}".to_string())
        }
    );
    assert_eq!(run.stage, BundleStage::Done);
    assert_eq!(run.step(BundleEvent::Minified), BundleAction::Abort(BundleError::OutOfTurn));
    assert_eq!(run.stage, BundleStage::Failed);
}

#[test]
fn a_run_without_minify_skips_the_minifier() {
    let config = get_ts_config(ConfigType::Bundle).unwrap();
    let (mut run, action) =
        BundleRun::start(&one_root(), run_options(BundleType::MainModule, false, config));
    match action {
        BundleAction::Merge(request) => {
            assert_eq!(
                request.config,
                BundlerConfig {
                    module: ModuleType::Es,
                    disable_fixer: false,
                    disable_hygiene: false
                }
            );
        }
        other => panic!("unexpected action {:?}", other),
    }
    let action = run.step(BundleEvent::Merged(Ok(1)));
    assert!(matches!(action, BundleAction::Emit(_)));
    let action = run.step(BundleEvent::Emitted { code: code(), source_map: Ok(vec![]) });
    assert_eq!(
        action,
        BundleAction::Wrap {
            body: "console.log(1);\n".to_string(),
            bundle_type: BundleType::MainModule
        }
    );
    assert_eq!(
        run.step(BundleEvent::Wrapped(Ok("done".to_string()))),
        BundleAction::Finish { code: "done".to_string(), source_map: None }
    );
}

#[test]
fn a_failed_stage_ends_the_run_without_output() {
    let config = get_ts_config(ConfigType::Bundle).unwrap();
    let (mut run, _) =
        BundleRun::start(&one_root(), run_options(BundleType::Module, true, config.clone()));
    assert_eq!(
        run.step(BundleEvent::Merged(Err("cannot load".to_string()))),
        BundleAction::Abort(BundleError::Merge { cause: "cannot load".to_string() })
    );
    assert_eq!(run.stage, BundleStage::Failed);
    assert_eq!(
        run.step(BundleEvent::Emitted { code: code(), source_map: map() }),
        BundleAction::Abort(BundleError::OutOfTurn)
    );

    let (mut run, _) =
        BundleRun::start(&one_root(), run_options(BundleType::Module, false, config.clone()));
    assert_eq!(run.step(BundleEvent::Merged(Ok(0))), BundleAction::Abort(BundleError::NoBundle));

    let (mut run, _) =
        BundleRun::start(&one_root(), run_options(BundleType::Module, false, config.clone()));
    run.step(BundleEvent::Merged(Ok(1)));
    assert_eq!(
        run.step(BundleEvent::Emitted { code: Err("bad node".to_string()), source_map: map() }),
        BundleAction::Abort(BundleError::Emit { cause: "bad node".to_string() })
    );

    let (mut run, _) = BundleRun::start(&one_root(), run_options(BundleType::Module, false, config));
    run.step(BundleEvent::Merged(Ok(1)));
    run.step(BundleEvent::Emitted { code: code(), source_map: map() });
    assert_eq!(
        run.step(BundleEvent::Wrapped(Err("template".to_string()))),
        BundleAction::Abort(BundleError::Template { cause: "template".to_string() })
    );
    assert_eq!(run.stage, BundleStage::Failed);
}

#[test]
fn a_graph_without_a_root_fails_the_run() {
    let graph = built(&[], &[]);
    let (run, action) = BundleRun::start(&graph, BundleOptions::default());
    assert_eq!(action, BundleAction::Abort(BundleError::NoEntry));
    assert_eq!(run.stage, BundleStage::Failed);
}

#[test]
fn repeated_runs_give_the_same_output() {
    let once = || {
        let config = TsConfig::new(Value::Object(serde_json::Map::from_iter(vec![(
            "inlineSourceMap".to_string(),
            Value::Bool(true),
        )])));
        let (mut run, first) =
            BundleRun::start(&one_root(), run_options(BundleType::Module, true, config));
        let mut actions = vec![first];
        actions.push(run.step(BundleEvent::Merged(Ok(1))));
        actions.push(run.step(BundleEvent::Minified));
        actions.push(run.step(BundleEvent::Emitted { code: code(), source_map: map() }));
        actions.push(run.step(BundleEvent::Wrapped(Ok("final".to_string()))));
        actions
    };
    assert_eq!(once(), once());
    assert_eq!(
        once().last(),
        Some(&BundleAction::Finish { code: "final".to_string(), source_map: None })
    );
}
