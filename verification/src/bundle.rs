//! The bundle run: from an entry and its options to the code and its map.
//!
//! The merge of the modules, the minifier, the code generator and the
//! template that gives the output its shape are the work of others. A run
//! says what is asked of each, and decides from what each gave back.

use crate::config::{
    emit_config_options, emit_options_of, get_ts_config, ts_config_value, ConfigType, TranspilerOptions,
    TsConfig,
};
use crate::error::BundleError;
use crate::graph::{graph_roots, roots_of};
use crate::minify::{minify_plan, MinifyPlan};
use crate::output::{assemble, generated, ignore_directives_text, EmitPlan};
use crate::text::optional_text;
use vstd::prelude::*;

verus! {

/// The shape of the output.
#[derive(Debug, Clone, Copy, PartialEq, Eq, Structural)]
pub enum BundleType {
    /// An ES module that keeps the marks of the entry module.
    MainModule,
    /// A single flat ES module.
    Module,
    /// A script that runs the program in a function that is called at once.
    Classic,
}

impl Default for BundleType {
    fn default() -> (out: Self)
        ensures
            out == BundleType::Module,
    {
        BundleType::Module
    }
}

/// The kind of module that the merge produces.
#[derive(Debug, Clone, Copy, PartialEq, Eq, Structural)]
pub enum ModuleType {
    Es,
    Iife,
}

/// The kind of module that is merged for the shape `bundle_type`: a
/// function called at once for the classic script, an ES module for the two
/// others.
pub open spec fn module_type_of(bundle_type: BundleType) -> ModuleType {
    match bundle_type {
        BundleType::Classic => ModuleType::Iife,
        BundleType::Module => ModuleType::Es,
        BundleType::MainModule => ModuleType::Es,
    }
}

impl From<BundleType> for ModuleType {
    fn from(bundle_type: BundleType) -> (out: Self) {
        match bundle_type {
            BundleType::Classic => ModuleType::Iife,
            BundleType::Module => ModuleType::Es,
            BundleType::MainModule => ModuleType::Es,
        }
    }
}

impl vstd::std_specs::convert::FromSpecImpl<BundleType> for ModuleType {
    open spec fn obeys_from_spec() -> bool {
        true
    }

    open spec fn from_spec(bundle_type: BundleType) -> ModuleType {
        module_type_of(bundle_type)
    }
}

/// The options of a bundle run.
#[derive(Debug, Clone, PartialEq, Eq)]
pub struct BundleOptions {
    pub bundle_type: BundleType,
    pub ts_config: TsConfig,
    pub emit_ignore_directives: bool,
    pub minify: bool,
}

impl Default for BundleOptions {
    fn default() -> (out: Self)
        ensures
            out.bundle_type == BundleType::Module,
            out.ts_config@ == ts_config_value(ConfigType::Bundle),
            !out.emit_ignore_directives,
            out.minify,
    {
        let ts_config = match get_ts_config(ConfigType::Bundle) {
            Ok(config) => config,
            Err(_) => TsConfig::new(crate::json::null_value()),
        };
        BundleOptions {
            bundle_type: BundleType::Module,
            ts_config,
            emit_ignore_directives: false,
            minify: true,
        }
    }
}

/// How the merge is configured.
#[derive(Debug, Clone, Copy, PartialEq, Eq, Structural)]
pub struct BundlerConfig {
    pub module: ModuleType,
    /// The merge leaves the fixer out where the minifier runs it afterwards.
    pub disable_fixer: bool,
    /// The merge leaves the renaming for hygiene out where the minifier
    /// renames afterwards.
    pub disable_hygiene: bool,
}

/// The name under which the one entry of a run is merged.
pub open spec fn entry_name() -> Seq<char> {
    "bundle"@
}

/// What is asked of the merge: the one entry, under its name, and the
/// configuration.
#[derive(Debug, Clone, PartialEq, Eq)]
pub struct MergeRequest {
    pub entry_name: String,
    pub entry: String,
    pub config: BundlerConfig,
}

/// Where a run stands.
#[derive(Debug, Clone, Copy, PartialEq, Eq, Structural)]
pub enum BundleStage {
    /// The modules are being merged.
    Merging,
    /// The merged module is being minified.
    Minifying,
    /// The code is being generated.
    Emitting,
    /// The code is being given its shape.
    Wrapping,
    /// The output was returned.
    Done,
    /// The run failed.
    Failed,
}

/// What came back from the work that the last action asked for.
#[derive(Debug, PartialEq, Eq)]
pub enum BundleEvent {
    /// The merge ended: with the number of merged modules, or its failure.
    Merged(Result<usize, String>),
    /// The minifier ended.
    Minified,
    /// The code generator ended: with the bytes of the code and of the
    /// source map, or the failure of either.
    Emitted { code: Result<Vec<u8>, String>, source_map: Result<Vec<u8>, String> },
    /// The template ended: with the final text, or its failure.
    Wrapped(Result<String, String>),
}

/// What a run asks for next, or how it ends.
#[derive(Debug, Clone, PartialEq, Eq)]
pub enum BundleAction {
    Merge(MergeRequest),
    Minify(MinifyPlan),
    Emit(EmitPlan),
    Wrap { body: String, bundle_type: BundleType },
    Finish { code: String, source_map: Option<String> },
    Abort(BundleError),
}

/// One bundle run. Its options are fixed when it starts.
#[derive(Debug, Clone, PartialEq, Eq)]
pub struct BundleRun {
    pub bundle_type: BundleType,
    pub emit_options: TranspilerOptions,
    pub emit_ignore_directives: bool,
    pub minify: bool,
    pub stage: BundleStage,
    /// The source map that is returned beside the code, once it is known.
    pub source_map: Option<String>,
}

/// The plan that a run hands to the code generator.
pub open spec fn is_emit_plan_of(plan: EmitPlan, run: BundleRun) -> bool {
    &&& optional_text(plan.leading_comment) == if run.emit_ignore_directives {
        Some(ignore_directives_text())
    } else {
        None::<Seq<char>>
    }
    &&& plan.minify == run.minify
    &&& plan.build_source_map == (run.emit_options.source_map
        || run.emit_options.inline_source_map)
    &&& plan.inline_sources == run.emit_options.inline_sources
}

/// Whether `after` and `action` are what the run `before` goes to, and asks
/// for, when `event` comes in.
///
/// A failure of any stage, and an event that the stage does not wait for,
/// end the run as failed. Output is returned only by the last stage, so no
/// partial output ever is.
pub open spec fn steps_to(
    before: BundleRun,
    event: BundleEvent,
    after: BundleRun,
    action: BundleAction,
) -> bool {
    &&& after.bundle_type == before.bundle_type
    &&& after.emit_options == before.emit_options
    &&& after.emit_ignore_directives == before.emit_ignore_directives
    &&& after.minify == before.minify
    &&& match (before.stage, event) {
        (BundleStage::Merging, BundleEvent::Merged(Err(cause))) => {
            &&& after.stage == BundleStage::Failed
            &&& after.source_map == before.source_map
            &&& action == BundleAction::Abort(BundleError::Merge { cause })
        },
        (BundleStage::Merging, BundleEvent::Merged(Ok(count))) => if count == 0 {
            &&& after.stage == BundleStage::Failed
            &&& after.source_map == before.source_map
            &&& action == BundleAction::Abort(BundleError::NoBundle)
        } else if before.minify {
            &&& after.stage == BundleStage::Minifying
            &&& after.source_map == before.source_map
            &&& action == BundleAction::Minify(minify_plan())
        } else {
            &&& after.stage == BundleStage::Emitting
            &&& after.source_map == before.source_map
            &&& action matches BundleAction::Emit(plan)
            &&& is_emit_plan_of(plan, before)
        },
        (BundleStage::Minifying, BundleEvent::Minified) => {
            &&& after.stage == BundleStage::Emitting
            &&& after.source_map == before.source_map
            &&& action matches BundleAction::Emit(plan)
            &&& is_emit_plan_of(plan, before)
        },
        (BundleStage::Emitting, BundleEvent::Emitted { code, source_map }) => match generated(
            code,
            source_map,
            before.emit_options.inline_source_map,
            before.emit_options.source_map,
        ) {
            Ok((text, map)) => {
                &&& after.stage == BundleStage::Wrapping
                &&& optional_text(after.source_map) == map
                &&& action matches BundleAction::Wrap { body, bundle_type }
                &&& body@ == text
                &&& bundle_type == before.bundle_type
            },
            Err(error) => {
                &&& after.stage == BundleStage::Failed
                &&& after.source_map == before.source_map
                &&& action == BundleAction::Abort(error)
            },
        },
        (BundleStage::Wrapping, BundleEvent::Wrapped(Ok(text))) => {
            &&& after.stage == BundleStage::Done
            &&& after.source_map is None
            &&& action matches BundleAction::Finish { code, source_map }
            &&& code == text
            &&& source_map == before.source_map
        },
        (BundleStage::Wrapping, BundleEvent::Wrapped(Err(cause))) => {
            &&& after.stage == BundleStage::Failed
            &&& after.source_map == before.source_map
            &&& action == BundleAction::Abort(BundleError::Template { cause })
        },
        _ => {
            &&& after.stage == BundleStage::Failed
            &&& after.source_map == before.source_map
            &&& action == BundleAction::Abort(BundleError::OutOfTurn)
        },
    }
}

/// Whether `run` and `action` are how a run on a graph with the roots
/// `roots` under `options` starts: the entry is the first root of the graph, the transpiler options
/// are those of the configuration, and the merge is asked for. A graph
/// without a root fails the run.
pub open spec fn starts_as(
    roots: Seq<Seq<char>>,
    options: BundleOptions,
    run: BundleRun,
    action: BundleAction,
) -> bool {
    &&& run.bundle_type == options.bundle_type
    &&& run.emit_options@ == emit_options_of(emit_config_options(options.ts_config@))
    &&& run.emit_ignore_directives == options.emit_ignore_directives
    &&& run.minify == options.minify
    &&& run.source_map is None
    &&& if roots.len() == 0 {
        &&& run.stage == BundleStage::Failed
        &&& action == BundleAction::Abort(BundleError::NoEntry)
    } else {
        &&& run.stage == BundleStage::Merging
        &&& action matches BundleAction::Merge(request)
        &&& request.entry_name@ == entry_name()
        &&& request.entry@ == roots[0]
        &&& request.config == (BundlerConfig {
            module: module_type_of(options.bundle_type),
            disable_fixer: options.minify,
            disable_hygiene: options.minify,
        })
    }
}

/// Whether two runs stand at the same point with the same options.
pub open spec fn same_run(a: BundleRun, b: BundleRun) -> bool {
    &&& a.bundle_type == b.bundle_type
    &&& a.emit_options@ == b.emit_options@
    &&& a.emit_ignore_directives == b.emit_ignore_directives
    &&& a.minify == b.minify
    &&& a.stage == b.stage
    &&& optional_text(a.source_map) == optional_text(b.source_map)
}

/// Whether two actions ask for the same, or end a run with the same.
pub open spec fn same_action(a: BundleAction, b: BundleAction) -> bool {
    match (a, b) {
        (BundleAction::Merge(x), BundleAction::Merge(y)) => {
            &&& x.entry_name@ == y.entry_name@
            &&& x.entry@ == y.entry@
            &&& x.config == y.config
        },
        (BundleAction::Minify(x), BundleAction::Minify(y)) => x == y,
        (BundleAction::Emit(x), BundleAction::Emit(y)) => {
            &&& optional_text(x.leading_comment) == optional_text(y.leading_comment)
            &&& x.minify == y.minify
            &&& x.build_source_map == y.build_source_map
            &&& x.inline_sources == y.inline_sources
        },
        (
            BundleAction::Wrap { body: x, bundle_type: s },
            BundleAction::Wrap { body: y, bundle_type: t },
        ) => x@ == y@ && s == t,
        (
            BundleAction::Finish { code: x, source_map: m },
            BundleAction::Finish { code: y, source_map: n },
        ) => x@ == y@ && optional_text(m) == optional_text(n),
        (BundleAction::Abort(x), BundleAction::Abort(y)) => x == y,
        _ => false,
    }
}

/// A run is determined by its graph and its options: two runs that start on
/// one graph under one set of options start alike.
pub proof fn lemma_start_is_determined(
    roots: Seq<Seq<char>>,
    options: BundleOptions,
    run1: BundleRun,
    action1: BundleAction,
    run2: BundleRun,
    action2: BundleAction,
)
    requires
        starts_as(roots, options, run1, action1),
        starts_as(roots, options, run2, action2),
    ensures
        same_run(run1, run2),
        same_action(action1, action2),
{
}

/// A run is determined by what comes back to it: two runs that stand alike
/// and are handed the same result go on alike, with the same plans asked
/// for and the same texts returned.
pub proof fn lemma_step_is_determined(
    before1: BundleRun,
    before2: BundleRun,
    event: BundleEvent,
    after1: BundleRun,
    action1: BundleAction,
    after2: BundleRun,
    action2: BundleAction,
)
    requires
        same_run(before1, before2),
        steps_to(before1, event, after1, action1),
        steps_to(before2, event, after2, action2),
    ensures
        same_run(after1, after2),
        same_action(action1, action2),
{
}

/// Whether a run that starts as `first` goes through `runs` and asks for
/// `actions` as the results `events` come in, one after the other.
pub open spec fn runs_through(
    first: BundleRun,
    events: Seq<BundleEvent>,
    runs: Seq<BundleRun>,
    actions: Seq<BundleAction>,
) -> bool {
    &&& runs.len() == events.len() + 1
    &&& actions.len() == events.len()
    &&& runs[0] == first
    &&& forall|i: int|
        0 <= i < events.len() ==> steps_to(
            #[trigger] runs[i],
            events[i],
            runs[i + 1],
            actions[i],
        )
}

/// Bundling is deterministic: two runs that start alike and are handed the
/// same results, one after the other, ask for the same at every turn and
/// return the same code and the same source map.
pub proof fn lemma_run_is_determined(
    first1: BundleRun,
    first2: BundleRun,
    events: Seq<BundleEvent>,
    runs1: Seq<BundleRun>,
    actions1: Seq<BundleAction>,
    runs2: Seq<BundleRun>,
    actions2: Seq<BundleAction>,
    n: int,
)
    requires
        same_run(first1, first2),
        runs_through(first1, events, runs1, actions1),
        runs_through(first2, events, runs2, actions2),
        0 <= n <= events.len(),
    ensures
        same_run(runs1[n], runs2[n]),
        forall|i: int| 0 <= i < n ==> same_action(#[trigger] actions1[i], actions2[i]),
    decreases n,
{
    if n > 0 {
        lemma_run_is_determined(first1, first2, events, runs1, actions1, runs2, actions2, n - 1);
        assert(steps_to(runs1[n - 1], events[n - 1], runs1[n], actions1[n - 1]));
        assert(steps_to(runs2[n - 1], events[n - 1], runs2[n], actions2[n - 1]));
        lemma_step_is_determined(
            runs1[n - 1],
            runs2[n - 1],
            events[n - 1],
            runs1[n],
            actions1[n - 1],
            runs2[n],
            actions2[n - 1],
        );
    }
}

/// The options of a run do not change while it runs: every module of one
/// run is transpiled under the same options.
pub proof fn lemma_step_keeps_options(
    before: BundleRun,
    event: BundleEvent,
    after: BundleRun,
    action: BundleAction,
)
    requires
        steps_to(before, event, after, action),
    ensures
        after.emit_options == before.emit_options,
        after.bundle_type == before.bundle_type,
        after.minify == before.minify,
        after.emit_ignore_directives == before.emit_ignore_directives,
{
}

/// Output is all or nothing: a step returns code only as the last stage of
/// a run, from the text that the template gave back, and a run that has
/// ended or failed returns nothing more.
pub proof fn lemma_output_only_at_the_end(
    before: BundleRun,
    event: BundleEvent,
    after: BundleRun,
    action: BundleAction,
)
    requires
        steps_to(before, event, after, action),
    ensures
        action is Finish ==> before.stage == BundleStage::Wrapping && after.stage
            == BundleStage::Done && event matches BundleEvent::Wrapped(Ok(_)),
        before.stage == BundleStage::Done || before.stage == BundleStage::Failed ==> action
            == BundleAction::Abort(BundleError::OutOfTurn) && after.stage == BundleStage::Failed,
        action is Abort <==> after.stage == BundleStage::Failed,
{
}

impl BundleRun {
    /// Starts a run on `graph` under `options`.
    pub fn start(graph: &deno_graph::ModuleGraph, options: BundleOptions) -> (out: (
        Self,
        BundleAction,
    ))
        ensures
            starts_as(graph_roots(*graph), options, out.0, out.1),
    {
        let emit_options = TranspilerOptions::from_config(&options.ts_config);
        let mut run = BundleRun {
            bundle_type: options.bundle_type,
            emit_options,
            emit_ignore_directives: options.emit_ignore_directives,
            minify: options.minify,
            stage: BundleStage::Merging,
            source_map: None,
        };
        let roots = roots_of(graph);
        if roots.len() == 0 {
            run.stage = BundleStage::Failed;
            return (run, BundleAction::Abort(BundleError::NoEntry));
        }
        let request = MergeRequest {
            entry_name: String::from_str("bundle"),
            entry: roots[0].clone(),
            config: BundlerConfig {
                module: ModuleType::from(options.bundle_type),
                disable_fixer: options.minify,
                disable_hygiene: options.minify,
            },
        };
        (run, BundleAction::Merge(request))
    }

    fn emit_action(&self) -> (out: BundleAction)
        ensures
            out matches BundleAction::Emit(plan) && is_emit_plan_of(plan, *self),
    {
        BundleAction::Emit(
            EmitPlan::new(&self.emit_options, self.emit_ignore_directives, self.minify),
        )
    }

    /// Takes what came back from the last action and says what is next.
    pub fn step(&mut self, event: BundleEvent) -> (out: BundleAction)
        ensures
            steps_to(*old(self), event, *final(self), out),
    {
        match (self.stage, event) {
            (BundleStage::Merging, BundleEvent::Merged(Err(cause))) => {
                self.stage = BundleStage::Failed;
                BundleAction::Abort(BundleError::Merge { cause })
            },
            (BundleStage::Merging, BundleEvent::Merged(Ok(count))) => {
                if count == 0 {
                    self.stage = BundleStage::Failed;
                    BundleAction::Abort(BundleError::NoBundle)
                } else if self.minify {
                    self.stage = BundleStage::Minifying;
                    BundleAction::Minify(MinifyPlan::for_bundle())
                } else {
                    self.stage = BundleStage::Emitting;
                    self.emit_action()
                }
            },
            (BundleStage::Minifying, BundleEvent::Minified) => {
                self.stage = BundleStage::Emitting;
                self.emit_action()
            },
            (BundleStage::Emitting, BundleEvent::Emitted { code, source_map }) => {
                match assemble(code, source_map, &self.emit_options) {
                    Ok((text, map)) => {
                        self.stage = BundleStage::Wrapping;
                        self.source_map = map;
                        BundleAction::Wrap { body: text, bundle_type: self.bundle_type }
                    },
                    Err(error) => {
                        self.stage = BundleStage::Failed;
                        BundleAction::Abort(error)
                    },
                }
            },
            (BundleStage::Wrapping, BundleEvent::Wrapped(Ok(text))) => {
                self.stage = BundleStage::Done;
                let mut source_map = None;
                std::mem::swap(&mut self.source_map, &mut source_map);
                BundleAction::Finish { code: text, source_map }
            },
            (BundleStage::Wrapping, BundleEvent::Wrapped(Err(cause))) => {
                self.stage = BundleStage::Failed;
                BundleAction::Abort(BundleError::Template { cause })
            },
            (_, _) => {
                self.stage = BundleStage::Failed;
                BundleAction::Abort(BundleError::OutOfTurn)
            },
        }
    }
}

/// Why a set of options could not be built.
#[derive(Debug, Clone, PartialEq, Eq)]
pub enum BundleOptionsBuilderError {
    /// A field that has no default was not set.
    UninitializedField(String),
    /// The options are not valid together.
    ValidationError(String),
}

/// Builds `BundleOptions` field by field. A field that is not set takes the
/// value that the default options have.
#[derive(Debug, Clone, PartialEq, Eq)]
pub struct BundleOptionsBuilder {
    pub bundle_type: Option<BundleType>,
    pub ts_config: Option<TsConfig>,
    pub emit_ignore_directives: Option<bool>,
    pub minify: Option<bool>,
}

impl Default for BundleOptionsBuilder {
    fn default() -> (out: Self)
        ensures
            out.bundle_type is None,
            out.ts_config is None,
            out.emit_ignore_directives is None,
            out.minify is None,
    {
        BundleOptionsBuilder {
            bundle_type: None,
            ts_config: None,
            emit_ignore_directives: None,
            minify: None,
        }
    }
}

impl BundleOptionsBuilder {
    /// Sets the shape of the output.
    pub fn bundle_type(self, value: BundleType) -> (out: Self)
        ensures
            out == (BundleOptionsBuilder { bundle_type: Some(value), ..self }),
    {
        BundleOptionsBuilder { bundle_type: Some(value), ..self }
    }

    /// Sets the configuration.
    pub fn ts_config(self, value: TsConfig) -> (out: Self)
        ensures
            out == (BundleOptionsBuilder { ts_config: Some(value), ..self }),
    {
        BundleOptionsBuilder { ts_config: Some(value), ..self }
    }

    /// Sets whether the output opens with the header comment.
    pub fn emit_ignore_directives(self, value: bool) -> (out: Self)
        ensures
            out == (BundleOptionsBuilder { emit_ignore_directives: Some(value), ..self }),
    {
        BundleOptionsBuilder { emit_ignore_directives: Some(value), ..self }
    }

    /// Sets whether the output is minified.
    pub fn minify(self, value: bool) -> (out: Self)
        ensures
            out == (BundleOptionsBuilder { minify: Some(value), ..self }),
    {
        BundleOptionsBuilder { minify: Some(value), ..self }
    }

    /// The options that were set, with the defaults for the rest. It never
    /// fails.
    pub fn build(self) -> (out: Result<BundleOptions, BundleOptionsBuilderError>)
        ensures
            out matches Ok(options) && {
                &&& options.bundle_type == match self.bundle_type {
                    Some(value) => value,
                    None => BundleType::Module,
                }
                &&& match self.ts_config {
                    Some(value) => options.ts_config == value,
                    None => options.ts_config@ == ts_config_value(ConfigType::Bundle),
                }
                &&& options.emit_ignore_directives == match self.emit_ignore_directives {
                    Some(value) => value,
                    None => false,
                }
                &&& options.minify == match self.minify {
                    Some(value) => value,
                    None => true,
                }
            },
    {
        let defaults = BundleOptions::default();
        Ok(
            BundleOptions {
                bundle_type: match self.bundle_type {
                    Some(value) => value,
                    None => defaults.bundle_type,
                },
                ts_config: match self.ts_config {
                    Some(value) => value,
                    None => defaults.ts_config,
                },
                emit_ignore_directives: match self.emit_ignore_directives {
                    Some(value) => value,
                    None => defaults.emit_ignore_directives,
                },
                minify: match self.minify {
                    Some(value) => value,
                    None => defaults.minify,
                },
            },
        )
    }
}

} // verus!
