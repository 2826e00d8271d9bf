//! The minifier: what is asked of it, and the pass over the merged bundles.

use crate::output::lies_in;
use deno_ast::swc::bundler::Bundle;
use deno_ast::swc::common::{Globals, Mark, SourceMap, GLOBALS};
use deno_ast::swc::transforms::fixer;
use deno_ast::swc::visit::VisitMutWith;
use swc_ecma_minifier::option::{ExtraOptions, MangleOptions};
use std::rc::Rc;
use vstd::prelude::*;

verus! {

/// The options of the minifier.
#[derive(Debug, Clone, Copy, PartialEq, Eq, Structural)]
pub struct MinifyOptions {
    /// Whether dead code is dropped and constants are folded.
    pub compress: bool,
    /// Whether identifiers are renamed to shorter ones.
    pub mangle: bool,
    /// Whether the renaming reaches the bindings of the top level. Deeper
    /// bindings of a merged module are left to the merge, which has made
    /// them unique.
    pub mangle_top_level: bool,
}

/// What is done to each bundle that is minified: the optimizer runs with
/// `options`, and then the fixer restores what the rewrite broke.
#[derive(Debug, Clone, Copy, PartialEq, Eq, Structural)]
pub struct MinifyPlan {
    pub options: MinifyOptions,
    pub run_fixer: bool,
}

/// The one plan that bundles are minified with: compression, renaming at
/// the top level, and the fixer after them.
pub open spec fn minify_plan() -> MinifyPlan {
    MinifyPlan {
        options: MinifyOptions { compress: true, mangle: true, mangle_top_level: true },
        run_fixer: true,
    }
}

impl MinifyPlan {
    /// The plan for minifying a bundle. It is the same for every bundle.
    pub fn for_bundle() -> (out: MinifyPlan)
        ensures
            out == minify_plan(),
    {
        MinifyPlan {
            options: MinifyOptions { compress: true, mangle: true, mangle_top_level: true },
            run_fixer: true,
        }
    }
}

/// The identity of a bundle as it is shown: its field `id`.
pub uninterp spec fn bundle_id(bundle: Bundle) -> Seq<char>;

/// The kind of a bundle as it is shown with `{:?}`: its field `kind`.
pub uninterp spec fn bundle_kind(bundle: Bundle) -> Seq<char>;

/// Whether the marks and syntax contexts of the tree of `bundle` are known
/// to have been made within `globals`. It is learnt of what the minifier
/// hands back; of a bundle that the merge made within these globals the
/// caller vouches.
pub uninterp spec fn made_within(globals: Globals, bundle: Bundle) -> bool;

/// Whether `after` is what the optimizer of swc has made of `before` under
/// `options`. The optimizer draws fresh marks, so one bundle may be
/// optimized to more than one.
pub uninterp spec fn optimized_as(before: Bundle, options: MinifyOptions, after: Bundle) -> bool;

/// Whether `after` is what the fixer of swc has made of `before`.
pub uninterp spec fn fixed_as(before: Bundle, after: Bundle) -> bool;

/// Whether the bundle is fit for the minifier: its marks were made within
/// `globals`, and its spans lie in files of `cm`.
pub open spec fn fits(globals: Globals, cm: SourceMap, bundle: Bundle) -> bool {
    made_within(globals, bundle) && lies_in(cm, bundle)
}

/// Calls `swc_ecma_minifier::optimize` on the module of the bundle, within
/// `globals` and with two fresh marks, and puts the module that comes back
/// in its place. The kind and the id of the bundle are moved, not touched.
/// What comes back stays within the globals, and its spans are spans of
/// what went in.
#[verifier::external_body]
fn optimize_bundle(globals: &Globals, cm: &Rc<SourceMap>, bundle: Bundle, options: MinifyOptions) -> (out:
    Bundle)
    requires
        fits(*globals, **cm, bundle),
    ensures
        optimized_as(bundle, options, out),
        bundle_id(out) == bundle_id(bundle),
        bundle_kind(out) == bundle_kind(bundle),
        fits(*globals, **cm, out),
{
    let Bundle { kind, id, module } = bundle;
    let mangle = MangleOptions { top_level: options.mangle_top_level, ..Default::default() };
    let minify = swc_ecma_minifier::option::MinifyOptions {
        compress: if options.compress { Some(Default::default()) } else { None },
        mangle: if options.mangle { Some(mangle) } else { None },
        ..Default::default()
    };
    let module = GLOBALS.set(globals, || {
        let extra = ExtraOptions { unresolved_mark: Mark::fresh(Mark::root()), top_level_mark: Mark::fresh(Mark::root()) };
        swc_ecma_minifier::optimize(module.into(), cm.clone(), None, None, &minify, &extra).expect_module()
    });
    Bundle { kind, id, module }
}

/// Runs the fixer of swc over the module of the bundle, in place: it puts
/// back the parentheses that a rewrite has made necessary. The kind and the
/// id of the bundle are not touched, no mark is made, and no span but of
/// what was there.
#[verifier::external_body]
fn fix_bundle(globals: &Globals, bundle: Bundle) -> (out: Bundle)
    requires
        made_within(*globals, bundle),
    ensures
        fixed_as(bundle, out),
        bundle_id(out) == bundle_id(bundle),
        bundle_kind(out) == bundle_kind(bundle),
        made_within(*globals, out),
        forall|cm: SourceMap| lies_in(cm, bundle) ==> #[trigger] lies_in(cm, out),
{
    let mut bundle = bundle;
    GLOBALS.set(globals, || bundle.module.visit_mut_with(&mut fixer(None)));
    bundle
}

/// Whether `after` is what minifying `before` as `plan` says has given: the
/// optimizer has made a bundle of it, and the fixer has made `after` of
/// that where the plan asks for the fixer.
pub open spec fn minified_as(before: Bundle, plan: MinifyPlan, after: Bundle) -> bool {
    exists|mid: Bundle|
        {
            &&& #[trigger] optimized_as(before, plan.options, mid)
            &&& if plan.run_fixer {
                fixed_as(mid, after)
            } else {
                mid == after
            }
        }
}

/// Minifies one bundle as `plan` says: the optimizer, then the fixer where
/// the plan asks for it.
pub fn minify_bundle(globals: &Globals, cm: &Rc<SourceMap>, bundle: Bundle, plan: MinifyPlan) -> (out:
    Bundle)
    requires
        fits(*globals, **cm, bundle),
    ensures
        minified_as(bundle, plan, out),
        bundle_id(out) == bundle_id(bundle),
        bundle_kind(out) == bundle_kind(bundle),
        fits(*globals, **cm, out),
{
    let optimized = optimize_bundle(globals, cm, bundle, plan.options);
    let ghost mid = optimized;
    if plan.run_fixer {
        let out = fix_bundle(globals, optimized);
        assert(optimized_as(bundle, plan.options, mid) && fixed_as(mid, out));
        out
    } else {
        assert(optimized_as(bundle, plan.options, mid));
        optimized
    }
}

/// Minifies every bundle with the one plan, in order: as many bundles come
/// back as went in, each what the optimizer and the fixer have made of the
/// one in its place, under the kind and the id that it had.
pub fn minify(globals: &Globals, cm: &Rc<SourceMap>, modules: Vec<Bundle>) -> (out: Vec<Bundle>)
    requires
        forall|i: int| 0 <= i < modules@.len() ==> fits(*globals, **cm, #[trigger] modules@[i]),
    ensures
        out@.len() == modules@.len(),
        forall|i: int|
            0 <= i < out@.len() ==> {
                &&& minified_as(modules@[i], minify_plan(), #[trigger] out@[i])
                &&& bundle_id(out@[i]) == bundle_id(modules@[i])
                &&& bundle_kind(out@[i]) == bundle_kind(modules@[i])
                &&& fits(*globals, **cm, out@[i])
            },
{
    let plan = MinifyPlan::for_bundle();
    let mut rest = modules;
    let mut out: Vec<Bundle> = Vec::new();
    while rest.len() > 0
        invariant
            plan == minify_plan(),
            out@.len() + rest@.len() == modules@.len(),
            forall|k: int| 0 <= k < rest@.len() ==> #[trigger] rest@[k] == modules@[out@.len() + k],
            forall|i: int| 0 <= i < modules@.len() ==> fits(*globals, **cm, #[trigger] modules@[i]),
            forall|i: int|
                0 <= i < out@.len() ==> {
                    &&& minified_as(modules@[i], minify_plan(), #[trigger] out@[i])
                    &&& bundle_id(out@[i]) == bundle_id(modules@[i])
                    &&& bundle_kind(out@[i]) == bundle_kind(modules@[i])
                    &&& fits(*globals, **cm, out@[i])
                },
        decreases rest@.len(),
    {
        let ghost before = rest@;
        let ghost done = out@;
        let bundle = rest.remove(0);
        assert(bundle == modules@[out@.len() as int]);
        assert forall|k: int| 0 <= k < rest@.len() implies #[trigger] rest@[k] == modules@[out@.len()
            + 1 + k] by {
            assert(rest@[k] == before[k + 1]);
        }
        let small = minify_bundle(globals, cm, bundle, plan);
        out.push(small);
        assert forall|i: int| 0 <= i < out@.len() implies {
            &&& minified_as(modules@[i], minify_plan(), #[trigger] out@[i])
            &&& bundle_id(out@[i]) == bundle_id(modules@[i])
            &&& bundle_kind(out@[i]) == bundle_kind(modules@[i])
            &&& fits(*globals, **cm, out@[i])
        } by {
            if i < done.len() {
                assert(out@[i] == done[i]);
            }
        }
    }
    out
}

} // verus!
