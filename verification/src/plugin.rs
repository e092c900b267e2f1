//! Plugin contract and execution engine.
//!
//! A plugin is a named, phase-tagged bundle of lifecycle hooks. The engine
//! owns the phase-sorted plugin list and drives one operation per hook
//! category:
//!
//! - first-match hooks (`resolve_model`, `load_template`): the first plugin
//!   returning a present value wins;
//! - sequential transform hooks (`transform_params`, `transform_result`):
//!   the value threads through every plugin in order, aborting on the first
//!   failure without rolling back earlier transforms;
//! - notification hooks (`on_request_start`, `on_request_end`, `on_error`):
//!   run for their side effects; the first failure is reported;
//! - the stream transform hook: a fold over the delivered chunk sequence,
//!   the last-registered plugin applied outermost.
//!
//! Every hook of the [`Plugin`] trait has a ghost counterpart (`s_`-prefixed)
//! that pins down, over ghost images, what the executable hook returns; the
//! engine's contracts are folds of those counterparts over the sorted list.

use vstd::prelude::*;

use crate::error::{AiError, AiErrorV};
use crate::types::{
    dv_res, Message, RequestContext, RequestContextV, TextChunk, TextChunkV, TextParams,
    TextParamsV, TextResult, TextResultV,
};

verus! {

/// Plugin execution phase.
#[derive(Debug, Clone, Copy, PartialEq, Eq, Structural)]
pub enum PluginPhase {
    /// Execute before normal plugins.
    Pre,
    /// Execute in normal order.
    Normal,
    /// Execute after normal plugins.
    Post,
}

/// Sort key of a phase: `Pre` before `Normal` before `Post`.
pub open spec fn phase_rank(p: PluginPhase) -> int {
    match p {
        PluginPhase::Pre => 0,
        PluginPhase::Normal => 1,
        PluginPhase::Post => 2,
    }
}

/// A bundle of lifecycle hooks participating in the request lifecycle.
///
/// Each executable hook is pinned to its ghost counterpart, so a verified
/// implementation behaves as a function of the plugin value and the hook's
/// arguments. Hooks that want to opt out return the documented pass-through
/// value: `Ok(None)` for the first-match hooks, the input itself for the
/// transform hooks, success for the notification hooks.
pub trait Plugin: Sized {
    /// Ghost image of the plugin's name.
    spec fn s_name(&self) -> Seq<char>;

    /// The phase this plugin runs in.
    spec fn s_phase(&self) -> PluginPhase;

    /// What `resolve_model` returns, over ghost images.
    spec fn s_resolve_model(&self, model_id: Seq<char>, ctx: RequestContextV) -> Result<
        Option<Seq<char>>,
        AiErrorV,
    >;

    /// What `load_template` returns, over ghost images.
    spec fn s_load_template(&self, template_name: Seq<char>, ctx: RequestContextV) -> Result<
        Option<Seq<crate::types::MessageV>>,
        AiErrorV,
    >;

    /// What `transform_params` returns, over ghost images.
    spec fn s_transform_params(&self, params: TextParamsV, ctx: RequestContextV) -> Result<
        TextParamsV,
        AiErrorV,
    >;

    /// What `transform_result` returns, over ghost images.
    spec fn s_transform_result(&self, result: TextResultV, ctx: RequestContextV) -> Result<
        TextResultV,
        AiErrorV,
    >;

    /// The failure `on_request_start` reports, if any.
    spec fn s_on_request_start(&self, ctx: RequestContextV) -> Option<AiErrorV>;

    /// The failure `on_request_end` reports, if any.
    spec fn s_on_request_end(&self, ctx: RequestContextV, result: TextResultV) -> Option<
        AiErrorV,
    >;

    /// The failure `on_error` reports, if any.
    spec fn s_on_error(&self, error: AiErrorV, ctx: RequestContextV) -> Option<AiErrorV>;

    /// What the stream transform does to a delivered chunk sequence.
    spec fn s_transform_chunks(&self, chunks: Seq<TextChunkV>) -> Seq<TextChunkV>;

    /// Plugin name.
    fn name(&self) -> (r: String)
        ensures
            r@ == self.s_name(),
    ;

    /// Plugin execution phase.
    fn enforce(&self) -> (r: PluginPhase)
        ensures
            r == self.s_phase(),
    ;

    /// Intercept model selection; `Ok(None)` leaves it to later plugins.
    fn resolve_model(&self, model_id: &str, ctx: &RequestContext) -> (r: Result<
        Option<String>,
        AiError,
    >)
        ensures
            dv_res(r) == self.s_resolve_model(model_id@, ctx.deep_view()),
    ;

    /// Provide a message template; `Ok(None)` leaves it to later plugins.
    fn load_template(&self, template_name: &str, ctx: &RequestContext) -> (r: Result<
        Option<Vec<Message>>,
        AiError,
    >)
        ensures
            dv_res(r) == self.s_load_template(template_name@, ctx.deep_view()),
    ;

    /// Transform request parameters before they reach the backend.
    fn transform_params(&self, params: TextParams, ctx: &RequestContext) -> (r: Result<
        TextParams,
        AiError,
    >)
        ensures
            dv_res(r) == self.s_transform_params(params.deep_view(), ctx.deep_view()),
    ;

    /// Transform the result after it came back from the backend.
    fn transform_result(&self, result: TextResult, ctx: &RequestContext) -> (r: Result<
        TextResult,
        AiError,
    >)
        ensures
            dv_res(r) == self.s_transform_result(result.deep_view(), ctx.deep_view()),
    ;

    /// Side-effect hook fired when a request starts.
    fn on_request_start(&self, ctx: &RequestContext) -> (r: Result<(), AiError>)
        ensures
            match r {
                Ok(_) => self.s_on_request_start(ctx.deep_view()) is None,
                Err(e) => self.s_on_request_start(ctx.deep_view()) == Some(e.deep_view()),
            },
    ;

    /// Side-effect hook fired when a request ends successfully.
    fn on_request_end(&self, ctx: &RequestContext, result: &TextResult) -> (r: Result<
        (),
        AiError,
    >)
        ensures
            match r {
                Ok(_) => self.s_on_request_end(ctx.deep_view(), result.deep_view()) is None,
                Err(e) => self.s_on_request_end(ctx.deep_view(), result.deep_view()) == Some(
                    e.deep_view(),
                ),
            },
    ;

    /// Side-effect hook fired when the backend call fails.
    fn on_error(&self, error: &AiError, ctx: &RequestContext) -> (r: Result<(), AiError>)
        ensures
            match r {
                Ok(_) => self.s_on_error(error.deep_view(), ctx.deep_view()) is None,
                Err(e) => self.s_on_error(error.deep_view(), ctx.deep_view()) == Some(
                    e.deep_view(),
                ),
            },
    ;

    /// Transform a delivered stream, modelled as its chunk sequence.
    fn transform_chunks(&self, chunks: Vec<TextChunk>) -> (r: Vec<TextChunk>)
        ensures
            r.deep_view() == self.s_transform_chunks(chunks.deep_view()),
    ;
}

/// The plugins of `s` whose phase has rank `r`, in their original order.
pub open spec fn of_rank<P: Plugin>(s: Seq<P>, r: int) -> Seq<P>
    decreases s.len(),
{
    if s.len() == 0 {
        Seq::empty()
    } else {
        of_rank(s.drop_last(), r) + if phase_rank(s.last().s_phase()) == r {
            seq![s.last()]
        } else {
            Seq::empty()
        }
    }
}

/// The stable phase sort: all `Pre` plugins, then all `Normal`, then all
/// `Post`, each group in registration order.
pub open spec fn phase_ordered<P: Plugin>(s: Seq<P>) -> Seq<P> {
    of_rank(s, 0) + of_rank(s, 1) + of_rank(s, 2)
}

/// First-match fold for `resolve_model`: the first present value wins; if no
/// plugin resolves, the requested model id stands.
pub open spec fn first_resolved<P: Plugin>(
    s: Seq<P>,
    model_id: Seq<char>,
    ctx: RequestContextV,
) -> Result<Seq<char>, AiErrorV>
    decreases s.len(),
{
    if s.len() == 0 {
        Ok(model_id)
    } else {
        match s.first().s_resolve_model(model_id, ctx) {
            Err(e) => Err(e),
            Ok(Some(m)) => Ok(m),
            Ok(None) => first_resolved(s.drop_first(), model_id, ctx),
        }
    }
}

/// First-match fold for `load_template`: the first present template wins; if
/// no plugin provides one, there is none.
pub open spec fn first_template<P: Plugin>(
    s: Seq<P>,
    template_name: Seq<char>,
    ctx: RequestContextV,
) -> Result<Option<Seq<crate::types::MessageV>>, AiErrorV>
    decreases s.len(),
{
    if s.len() == 0 {
        Ok(None)
    } else {
        match s.first().s_load_template(template_name, ctx) {
            Err(e) => Err(e),
            Ok(Some(m)) => Ok(Some(m)),
            Ok(None) => first_template(s.drop_first(), template_name, ctx),
        }
    }
}

/// Sequential fold for `transform_params`: the value threads through every
/// plugin in order; the first failure aborts the chain.
pub open spec fn chain_params<P: Plugin>(
    s: Seq<P>,
    params: TextParamsV,
    ctx: RequestContextV,
) -> Result<TextParamsV, AiErrorV>
    decreases s.len(),
{
    if s.len() == 0 {
        Ok(params)
    } else {
        match s.first().s_transform_params(params, ctx) {
            Err(e) => Err(e),
            Ok(p) => chain_params(s.drop_first(), p, ctx),
        }
    }
}

/// Sequential fold for `transform_result`: the value threads through every
/// plugin in order; the first failure aborts the chain.
pub open spec fn chain_result<P: Plugin>(
    s: Seq<P>,
    result: TextResultV,
    ctx: RequestContextV,
) -> Result<TextResultV, AiErrorV>
    decreases s.len(),
{
    if s.len() == 0 {
        Ok(result)
    } else {
        match s.first().s_transform_result(result, ctx) {
            Err(e) => Err(e),
            Ok(v) => chain_result(s.drop_first(), v, ctx),
        }
    }
}

/// The first failure among the `on_request_start` hooks, if any.
pub open spec fn first_start_failure<P: Plugin>(s: Seq<P>, ctx: RequestContextV) -> Option<
    AiErrorV,
>
    decreases s.len(),
{
    if s.len() == 0 {
        None
    } else {
        match s.first().s_on_request_start(ctx) {
            Some(e) => Some(e),
            None => first_start_failure(s.drop_first(), ctx),
        }
    }
}

/// The first failure among the `on_request_end` hooks, if any.
pub open spec fn first_end_failure<P: Plugin>(
    s: Seq<P>,
    ctx: RequestContextV,
    result: TextResultV,
) -> Option<AiErrorV>
    decreases s.len(),
{
    if s.len() == 0 {
        None
    } else {
        match s.first().s_on_request_end(ctx, result) {
            Some(e) => Some(e),
            None => first_end_failure(s.drop_first(), ctx, result),
        }
    }
}

/// The first failure among the `on_error` hooks, if any.
pub open spec fn first_error_failure<P: Plugin>(
    s: Seq<P>,
    error: AiErrorV,
    ctx: RequestContextV,
) -> Option<AiErrorV>
    decreases s.len(),
{
    if s.len() == 0 {
        None
    } else {
        match s.first().s_on_error(error, ctx) {
            Some(e) => Some(e),
            None => first_error_failure(s.drop_first(), error, ctx),
        }
    }
}

/// Stream transform fold: each plugin wraps the previous plugin's stream, so
/// the last plugin in the list is applied outermost.
pub open spec fn fold_chunks<P: Plugin>(s: Seq<P>, chunks: Seq<TextChunkV>) -> Seq<TextChunkV>
    decreases s.len(),
{
    if s.len() == 0 {
        chunks
    } else {
        s.last().s_transform_chunks(fold_chunks(s.drop_last(), chunks))
    }
}

/// Every plugin that `of_rank` selects has exactly that rank.
pub proof fn lemma_of_rank_ranks<P: Plugin>(s: Seq<P>, r: int)
    ensures
        forall|i: int|
            0 <= i < of_rank(s, r).len() ==> phase_rank(
                #[trigger] of_rank(s, r)[i].s_phase(),
            ) == r,
    decreases s.len(),
{
    if s.len() == 0 {
    } else {
        lemma_of_rank_ranks(s.drop_last(), r);
        let a = of_rank(s.drop_last(), r);
        assert forall|i: int|
            0 <= i < of_rank(s, r).len() implies phase_rank(
            #[trigger] of_rank(s, r)[i].s_phase(),
        ) == r by {
            if i < a.len() {
                assert(of_rank(s, r)[i] == a[i]);
            } else {
                assert(of_rank(s, r)[i] == s.last());
            }
        }
    }
}

/// The three per-phase groups together hold every plugin once.
pub proof fn lemma_phase_ordered_len<P: Plugin>(s: Seq<P>)
    ensures
        phase_ordered(s).len() == s.len(),
    decreases s.len(),
{
    if s.len() == 0 {
    } else {
        lemma_phase_ordered_len(s.drop_last());
    }
}

/// Law: the engine runs plugins in phase order. In the sorted list the
/// phase rank never decreases; within one phase the registration order is
/// kept, because `phase_ordered` is by construction the concatenation of
/// the three per-phase subsequences.
pub proof fn lemma_phase_ordered_sorted<P: Plugin>(s: Seq<P>)
    ensures
        forall|i: int, j: int|
            0 <= i <= j < phase_ordered(s).len() ==> phase_rank(
                #[trigger] phase_ordered(s)[i].s_phase(),
            ) <= phase_rank(#[trigger] phase_ordered(s)[j].s_phase()),
{
    lemma_of_rank_ranks(s, 0);
    lemma_of_rank_ranks(s, 1);
    lemma_of_rank_ranks(s, 2);
    let n0 = of_rank(s, 0).len() as int;
    let n1 = of_rank(s, 1).len() as int;
    let n2 = of_rank(s, 2).len() as int;
    assert forall|i: int|
        0 <= i < phase_ordered(s).len() implies phase_rank(
        #[trigger] phase_ordered(s)[i].s_phase(),
    ) == (if i < n0 {
        0int
    } else if i < n0 + n1 {
        1int
    } else {
        2int
    }) by {
        if i < n0 {
            assert(phase_ordered(s)[i] == of_rank(s, 0)[i]);
        } else if i < n0 + n1 {
            assert(phase_ordered(s)[i] == of_rank(s, 1)[i - n0]);
        } else {
            assert(phase_ordered(s)[i] == of_rank(s, 2)[i - n0 - n1]);
        }
    }
}

/// Law: when every plugin has the same phase, sorting keeps the
/// registration order exactly.
pub proof fn lemma_of_rank_all<P: Plugin>(s: Seq<P>, r: int)
    requires
        forall|i: int| 0 <= i < s.len() ==> phase_rank(#[trigger] s[i].s_phase()) == r,
    ensures
        of_rank(s, r) =~= s,
        forall|q: int| q != r ==> (#[trigger] of_rank(s, q)).len() == 0,
    decreases s.len(),
{
    if s.len() == 0 {
        assert forall|q: int| q != r implies (#[trigger] of_rank(s, q)).len() == 0 by {}
    } else {
        assert(s[s.len() - 1] == s.last());
        assert forall|i: int|
            0 <= i < s.drop_last().len() implies phase_rank(
            #[trigger] s.drop_last()[i].s_phase(),
        ) == r by {
            assert(s.drop_last()[i] == s[i]);
        }
        lemma_of_rank_all(s.drop_last(), r);
        assert(of_rank(s, r) =~= s.drop_last() + seq![s.last()]);
        assert(s.drop_last() + seq![s.last()] =~= s);
        assert forall|q: int| q != r implies (#[trigger] of_rank(s, q)).len() == 0 by {
            assert(of_rank(s.drop_last(), q).len() == 0);
        }
    }
}

/// Law: when every plugin has the same phase, sorting keeps the
/// registration order exactly.
pub proof fn lemma_phase_ordered_same_phase<P: Plugin>(s: Seq<P>, r: int)
    requires
        forall|i: int| 0 <= i < s.len() ==> phase_rank(#[trigger] s[i].s_phase()) == r,
        0 <= r <= 2,
    ensures
        phase_ordered(s) =~= s,
{
    lemma_of_rank_all(s, r);
    if r == 0 {
        assert(phase_ordered(s) =~= s);
    } else if r == 1 {
        assert(phase_ordered(s) =~= s);
    } else {
        assert(phase_ordered(s) =~= s);
    }
}

/// Law: first-match precedence. If plugin `i` is the first whose
/// `resolve_model` answers with a present value, that value is the engine's
/// answer, whatever the later plugins would say.
pub proof fn lemma_first_match_precedence<P: Plugin>(
    s: Seq<P>,
    i: int,
    model_id: Seq<char>,
    ctx: RequestContextV,
    m: Seq<char>,
)
    requires
        0 <= i < s.len(),
        s[i].s_resolve_model(model_id, ctx) == Ok::<Option<Seq<char>>, AiErrorV>(Some(m)),
        forall|j: int|
            0 <= j < i ==> #[trigger] s[j].s_resolve_model(model_id, ctx) == Ok::<
                Option<Seq<char>>,
                AiErrorV,
            >(None),
    ensures
        first_resolved(s, model_id, ctx) == Ok::<Seq<char>, AiErrorV>(m),
    decreases i,
{
    if i == 0 {
    } else {
        assert(s.first() == s[0]);
        assert forall|j: int|
            0 <= j < i - 1 implies #[trigger] s.drop_first()[j].s_resolve_model(model_id, ctx)
            == Ok::<Option<Seq<char>>, AiErrorV>(None) by {
            assert(s.drop_first()[j] == s[j + 1]);
        }
        assert(s.drop_first()[i - 1] == s[i]);
        lemma_first_match_precedence(s.drop_first(), i - 1, model_id, ctx, m);
    }
}

/// Law: first-match precedence holds for templates exactly as it does for
/// model resolution: the first plugin whose `load_template` answers with a
/// present template decides.
pub proof fn lemma_first_template_precedence<P: Plugin>(
    s: Seq<P>,
    i: int,
    template_name: Seq<char>,
    ctx: RequestContextV,
    t: Seq<crate::types::MessageV>,
)
    requires
        0 <= i < s.len(),
        s[i].s_load_template(template_name, ctx) == Ok::<
            Option<Seq<crate::types::MessageV>>,
            AiErrorV,
        >(Some(t)),
        forall|j: int|
            0 <= j < i ==> #[trigger] s[j].s_load_template(template_name, ctx) == Ok::<
                Option<Seq<crate::types::MessageV>>,
                AiErrorV,
            >(None),
    ensures
        first_template(s, template_name, ctx) == Ok::<
            Option<Seq<crate::types::MessageV>>,
            AiErrorV,
        >(Some(t)),
    decreases i,
{
    if i == 0 {
    } else {
        assert(s.first() == s[0]);
        assert forall|j: int|
            0 <= j < i - 1 implies #[trigger] s.drop_first()[j].s_load_template(
            template_name,
            ctx,
        ) == Ok::<Option<Seq<crate::types::MessageV>>, AiErrorV>(None) by {
            assert(s.drop_first()[j] == s[j + 1]);
        }
        assert(s.drop_first()[i - 1] == s[i]);
        lemma_first_template_precedence(s.drop_first(), i - 1, template_name, ctx, t);
    }
}

/// Law: stream transforms compose. Folding the chunks through `s1 + s2`
/// equals folding them through `s1` and handing the outcome to `s2`: the
/// later plugins wrap the earlier plugins' stream.
pub proof fn lemma_fold_chunks_append<P: Plugin>(
    s1: Seq<P>,
    s2: Seq<P>,
    chunks: Seq<TextChunkV>,
)
    ensures
        fold_chunks(s1 + s2, chunks) == fold_chunks(s2, fold_chunks(s1, chunks)),
    decreases s2.len(),
{
    if s2.len() == 0 {
        assert(s1 + s2 =~= s1);
    } else {
        assert((s1 + s2).last() == s2.last());
        assert((s1 + s2).drop_last() =~= s1 + s2.drop_last());
        lemma_fold_chunks_append(s1, s2.drop_last(), chunks);
    }
}

/// Law: sequential parameter transforms are associative in effect. Running
/// the chain over `s1 + s2` equals running it over `s1` and feeding what
/// comes out to the chain over `s2`; in particular, applying plugins
/// `[a, b]` and then `c` gives the same parameters as `[a, b, c]` in one
/// pass.
pub proof fn lemma_chain_params_append<P: Plugin>(
    s1: Seq<P>,
    s2: Seq<P>,
    params: TextParamsV,
    ctx: RequestContextV,
)
    ensures
        chain_params(s1 + s2, params, ctx) == (match chain_params(s1, params, ctx) {
            Ok(p) => chain_params(s2, p, ctx),
            Err(e) => Err(e),
        }),
    decreases s1.len(),
{
    if s1.len() == 0 {
        assert(s1 + s2 =~= s2);
    } else {
        assert((s1 + s2).first() == s1.first());
        assert((s1 + s2).drop_first() =~= s1.drop_first() + s2);
        match s1.first().s_transform_params(params, ctx) {
            Err(e) => {},
            Ok(p) => {
                lemma_chain_params_append(s1.drop_first(), s2, p, ctx);
            },
        }
    }
}

/// Law: sequential result transforms are associative in effect, exactly as
/// [`lemma_chain_params_append`] states for parameter transforms.
pub proof fn lemma_chain_result_append<P: Plugin>(
    s1: Seq<P>,
    s2: Seq<P>,
    result: TextResultV,
    ctx: RequestContextV,
)
    ensures
        chain_result(s1 + s2, result, ctx) == (match chain_result(s1, result, ctx) {
            Ok(v) => chain_result(s2, v, ctx),
            Err(e) => Err(e),
        }),
    decreases s1.len(),
{
    if s1.len() == 0 {
        assert(s1 + s2 =~= s2);
    } else {
        assert((s1 + s2).first() == s1.first());
        assert((s1 + s2).drop_first() =~= s1.drop_first() + s2);
        match s1.first().s_transform_result(result, ctx) {
            Err(e) => {},
            Ok(v) => {
                lemma_chain_result_append(s1.drop_first(), s2, v, ctx);
            },
        }
    }
}

/// Plugin execution engine: the phase-sorted plugin list and one driver per
/// hook category. The engine holds no per-request state.
#[derive(Debug)]
pub struct PluginEngine<P: Plugin> {
    plugins: Vec<P>,
}

impl<P: Plugin> View for PluginEngine<P> {
    type V = Seq<P>;

    closed spec fn view(&self) -> Seq<P> {
        self.plugins@
    }
}

impl<P: Plugin> PluginEngine<P> {
    /// Create a new plugin engine: sorts the plugins by phase, keeping the
    /// registration order within each phase.
    pub fn new(plugins: Vec<P>) -> (r: PluginEngine<P>)
        ensures
            r@ == phase_ordered(plugins@),
    {
        let ghost orig = plugins@;
        let mut rest = plugins;
        let mut pre: Vec<P> = Vec::new();
        let mut normal: Vec<P> = Vec::new();
        let mut post: Vec<P> = Vec::new();
        let ghost mut k: int = 0;
        while rest.len() > 0
            invariant
                0 <= k <= orig.len(),
                rest@ == orig.skip(k),
                pre@ == of_rank(orig.take(k), 0),
                normal@ == of_rank(orig.take(k), 1),
                post@ == of_rank(orig.take(k), 2),
            decreases rest.len(),
        {
            let p = rest.remove(0);
            proof {
                assert(p == orig[k]);
                assert(rest@ =~= orig.skip(k + 1));
                assert(orig.take(k + 1).drop_last() =~= orig.take(k));
                assert(orig.take(k + 1).last() == orig[k]);
            }
            match p.enforce() {
                PluginPhase::Pre => pre.push(p),
                PluginPhase::Normal => normal.push(p),
                PluginPhase::Post => post.push(p),
            }
            proof {
                k = k + 1;
            }
        }
        proof {
            assert(orig.take(k) =~= orig);
        }
        let mut sorted = pre;
        sorted.append(&mut normal);
        sorted.append(&mut post);
        PluginEngine { plugins: sorted }
    }

    /// The plugins, in execution order.
    pub fn plugins(&self) -> (r: &Vec<P>)
        ensures
            r@ == self@,
    {
        &self.plugins
    }

    /// Resolve the model id: the first plugin with a present answer wins; if
    /// none answers, the requested id is kept.
    pub fn resolve_model(&self, model_id: &str, ctx: &RequestContext) -> (r: Result<
        String,
        AiError,
    >)
        ensures
            dv_res(r) == first_resolved(self@, model_id@, ctx.deep_view()),
    {
        let ghost all = self@;
        let n = self.plugins.len();
        let mut i: usize = 0;
        proof {
            assert(all.skip(0) =~= all);
        }
        while i < n
            invariant
                0 <= i <= n,
                n == all.len(),
                self@ == all,
                first_resolved(all, model_id@, ctx.deep_view()) == first_resolved(
                    all.skip(i as int),
                    model_id@,
                    ctx.deep_view(),
                ),
            decreases n - i,
        {
            proof {
                assert(all.skip(i as int).first() == all[i as int]);
                assert(all.skip(i as int).drop_first() =~= all.skip(i + 1));
            }
            match self.plugins[i].resolve_model(model_id, ctx) {
                Err(e) => {
                    return Err(e);
                },
                Ok(Some(m)) => {
                    return Ok(m);
                },
                Ok(None) => {},
            }
            i += 1;
        }
        proof {
            assert(all.skip(n as int) =~= Seq::<P>::empty());
        }
        Ok(model_id.to_owned())
    }

    /// Load a template: the first plugin with a present answer wins; if none
    /// answers, there is no template.
    pub fn load_template(&self, template_name: &str, ctx: &RequestContext) -> (r: Result<
        Option<Vec<Message>>,
        AiError,
    >)
        ensures
            dv_res(r) == first_template(self@, template_name@, ctx.deep_view()),
    {
        let ghost all = self@;
        let n = self.plugins.len();
        let mut i: usize = 0;
        proof {
            assert(all.skip(0) =~= all);
        }
        while i < n
            invariant
                0 <= i <= n,
                n == all.len(),
                self@ == all,
                first_template(all, template_name@, ctx.deep_view()) == first_template(
                    all.skip(i as int),
                    template_name@,
                    ctx.deep_view(),
                ),
            decreases n - i,
        {
            proof {
                assert(all.skip(i as int).first() == all[i as int]);
                assert(all.skip(i as int).drop_first() =~= all.skip(i + 1));
            }
            match self.plugins[i].load_template(template_name, ctx) {
                Err(e) => {
                    return Err(e);
                },
                Ok(Some(m)) => {
                    return Ok(Some(m));
                },
                Ok(None) => {},
            }
            i += 1;
        }
        proof {
            assert(all.skip(n as int) =~= Seq::<P>::empty());
        }
        Ok(None)
    }

    /// Thread the parameters through every plugin in order; the first
    /// failure aborts the chain, and transforms already applied by earlier
    /// plugins are not rolled back.
    #[verifier::loop_isolation(false)]
    pub fn transform_params(&self, params: TextParams, ctx: &RequestContext) -> (r: Result<
        TextParams,
        AiError,
    >)
        ensures
            dv_res(r) == chain_params(self@, params.deep_view(), ctx.deep_view()),
    {
        let ghost all = self@;
        let ghost p0 = params.deep_view();
        let n = self.plugins.len();
        let mut cur = params;
        let mut i: usize = 0;
        proof {
            assert(all.skip(0) =~= all);
        }
        while i < n
            invariant
                0 <= i <= n,
                n == all.len(),
                self@ == all,
                chain_params(all, p0, ctx.deep_view()) == chain_params(
                    all.skip(i as int),
                    cur.deep_view(),
                    ctx.deep_view(),
                ),
            decreases n - i,
        {
            proof {
                assert(all.skip(i as int).first() == all[i as int]);
                assert(all.skip(i as int).drop_first() =~= all.skip(i + 1));
            }
            match self.plugins[i].transform_params(cur, ctx) {
                Err(e) => {
                    return Err(e);
                },
                Ok(p) => {
                    cur = p;
                },
            }
            i += 1;
        }
        proof {
            assert(all.skip(n as int) =~= Seq::<P>::empty());
        }
        Ok(cur)
    }

    /// Thread the result through every plugin in order; the first failure
    /// aborts the chain.
    #[verifier::loop_isolation(false)]
    pub fn transform_result(&self, result: TextResult, ctx: &RequestContext) -> (r: Result<
        TextResult,
        AiError,
    >)
        ensures
            dv_res(r) == chain_result(self@, result.deep_view(), ctx.deep_view()),
    {
        let ghost all = self@;
        let ghost r0 = result.deep_view();
        let n = self.plugins.len();
        let mut cur = result;
        let mut i: usize = 0;
        proof {
            assert(all.skip(0) =~= all);
        }
        while i < n
            invariant
                0 <= i <= n,
                n == all.len(),
                self@ == all,
                chain_result(all, r0, ctx.deep_view()) == chain_result(
                    all.skip(i as int),
                    cur.deep_view(),
                    ctx.deep_view(),
                ),
            decreases n - i,
        {
            proof {
                assert(all.skip(i as int).first() == all[i as int]);
                assert(all.skip(i as int).drop_first() =~= all.skip(i + 1));
            }
            match self.plugins[i].transform_result(cur, ctx) {
                Err(e) => {
                    return Err(e);
                },
                Ok(v) => {
                    cur = v;
                },
            }
            i += 1;
        }
        proof {
            assert(all.skip(n as int) =~= Seq::<P>::empty());
        }
        Ok(cur)
    }

    /// Fire every `on_request_start` hook; the first failure is reported and
    /// later hooks are not run.
    pub fn on_request_start(&self, ctx: &RequestContext) -> (r: Result<(), AiError>)
        ensures
            match r {
                Ok(_) => first_start_failure(self@, ctx.deep_view()) is None,
                Err(e) => first_start_failure(self@, ctx.deep_view()) == Some(e.deep_view()),
            },
    {
        let ghost all = self@;
        let n = self.plugins.len();
        let mut i: usize = 0;
        proof {
            assert(all.skip(0) =~= all);
        }
        while i < n
            invariant
                0 <= i <= n,
                n == all.len(),
                self@ == all,
                first_start_failure(all, ctx.deep_view()) == first_start_failure(
                    all.skip(i as int),
                    ctx.deep_view(),
                ),
            decreases n - i,
        {
            proof {
                assert(all.skip(i as int).first() == all[i as int]);
                assert(all.skip(i as int).drop_first() =~= all.skip(i + 1));
            }
            match self.plugins[i].on_request_start(ctx) {
                Err(e) => {
                    return Err(e);
                },
                Ok(_) => {},
            }
            i += 1;
        }
        proof {
            assert(all.skip(n as int) =~= Seq::<P>::empty());
        }
        Ok(())
    }

    /// Fire every `on_request_end` hook; the first failure is reported and
    /// later hooks are not run.
    pub fn on_request_end(&self, ctx: &RequestContext, result: &TextResult) -> (r: Result<
        (),
        AiError,
    >)
        ensures
            match r {
                Ok(_) => first_end_failure(self@, ctx.deep_view(), result.deep_view()) is None,
                Err(e) => first_end_failure(self@, ctx.deep_view(), result.deep_view()) == Some(
                    e.deep_view(),
                ),
            },
    {
        let ghost all = self@;
        let n = self.plugins.len();
        let mut i: usize = 0;
        proof {
            assert(all.skip(0) =~= all);
        }
        while i < n
            invariant
                0 <= i <= n,
                n == all.len(),
                self@ == all,
                first_end_failure(all, ctx.deep_view(), result.deep_view()) == first_end_failure(
                    all.skip(i as int),
                    ctx.deep_view(),
                    result.deep_view(),
                ),
            decreases n - i,
        {
            proof {
                assert(all.skip(i as int).first() == all[i as int]);
                assert(all.skip(i as int).drop_first() =~= all.skip(i + 1));
            }
            match self.plugins[i].on_request_end(ctx, result) {
                Err(e) => {
                    return Err(e);
                },
                Ok(_) => {},
            }
            i += 1;
        }
        proof {
            assert(all.skip(n as int) =~= Seq::<P>::empty());
        }
        Ok(())
    }

    /// Fire every `on_error` hook; the first failure is reported and later
    /// hooks are not run. Callers discard the report: a broken
    /// error-reporting plugin never masks the original failure.
    pub fn on_error(&self, error: &AiError, ctx: &RequestContext) -> (r: Result<(), AiError>)
        ensures
            match r {
                Ok(_) => first_error_failure(self@, error.deep_view(), ctx.deep_view()) is None,
                Err(e) => first_error_failure(self@, error.deep_view(), ctx.deep_view()) == Some(
                    e.deep_view(),
                ),
            },
    {
        let ghost all = self@;
        let n = self.plugins.len();
        let mut i: usize = 0;
        proof {
            assert(all.skip(0) =~= all);
        }
        while i < n
            invariant
                0 <= i <= n,
                n == all.len(),
                self@ == all,
                first_error_failure(all, error.deep_view(), ctx.deep_view())
                    == first_error_failure(all.skip(i as int), error.deep_view(), ctx.deep_view()),
            decreases n - i,
        {
            proof {
                assert(all.skip(i as int).first() == all[i as int]);
                assert(all.skip(i as int).drop_first() =~= all.skip(i + 1));
            }
            match self.plugins[i].on_error(error, ctx) {
                Err(e) => {
                    return Err(e);
                },
                Ok(_) => {},
            }
            i += 1;
        }
        proof {
            assert(all.skip(n as int) =~= Seq::<P>::empty());
        }
        Ok(())
    }

    /// Apply every stream transform in execution order: the chunk sequence
    /// passes through the first plugin first, so the last plugin is applied
    /// outermost.
    pub fn apply_stream_transforms(&self, chunks: Vec<TextChunk>) -> (r: Vec<TextChunk>)
        ensures
            r.deep_view() == fold_chunks(self@, chunks.deep_view()),
    {
        let ghost all = self@;
        let ghost c0 = chunks.deep_view();
        let n = self.plugins.len();
        let mut cur = chunks;
        let mut i: usize = 0;
        proof {
            assert(all.skip(0) =~= all);
        }
        while i < n
            invariant
                0 <= i <= n,
                n == all.len(),
                self@ == all,
                cur.deep_view() == fold_chunks(all.take(i as int), c0),
            decreases n - i,
        {
            proof {
                assert(all.take(i + 1).drop_last() =~= all.take(i as int));
                assert(all.take(i + 1).last() == all[i as int]);
            }
            cur = self.plugins[i].transform_chunks(cur);
            i += 1;
        }
        proof {
            assert(all.take(n as int) =~= all);
        }
        cur
    }
}

/// The documented pass-through behavior of every hook, as one plugin: it
/// resolves nothing, provides no template, transforms nothing and never
/// fails. It is also the plugin type of an engine built with no plugins.
#[derive(Debug, Clone, Copy, PartialEq, Eq, Structural)]
pub struct NoopPlugin;

impl Plugin for NoopPlugin {
    open spec fn s_name(&self) -> Seq<char> {
        "noop"@
    }

    open spec fn s_phase(&self) -> PluginPhase {
        PluginPhase::Normal
    }

    open spec fn s_resolve_model(&self, model_id: Seq<char>, ctx: RequestContextV) -> Result<
        Option<Seq<char>>,
        AiErrorV,
    > {
        Ok(None)
    }

    open spec fn s_load_template(&self, template_name: Seq<char>, ctx: RequestContextV) -> Result<
        Option<Seq<crate::types::MessageV>>,
        AiErrorV,
    > {
        Ok(None)
    }

    open spec fn s_transform_params(&self, params: TextParamsV, ctx: RequestContextV) -> Result<
        TextParamsV,
        AiErrorV,
    > {
        Ok(params)
    }

    open spec fn s_transform_result(&self, result: TextResultV, ctx: RequestContextV) -> Result<
        TextResultV,
        AiErrorV,
    > {
        Ok(result)
    }

    open spec fn s_on_request_start(&self, ctx: RequestContextV) -> Option<AiErrorV> {
        None
    }

    open spec fn s_on_request_end(&self, ctx: RequestContextV, result: TextResultV) -> Option<
        AiErrorV,
    > {
        None
    }

    open spec fn s_on_error(&self, error: AiErrorV, ctx: RequestContextV) -> Option<AiErrorV> {
        None
    }

    open spec fn s_transform_chunks(&self, chunks: Seq<TextChunkV>) -> Seq<TextChunkV> {
        chunks
    }

    fn name(&self) -> (r: String)
        ensures
            r@ == self.s_name(),
    {
        String::from_str("noop")
    }

    fn enforce(&self) -> (r: PluginPhase)
        ensures
            r == self.s_phase(),
    {
        PluginPhase::Normal
    }

    fn resolve_model(&self, model_id: &str, ctx: &RequestContext) -> (r: Result<
        Option<String>,
        AiError,
    >)
        ensures
            dv_res(r) == self.s_resolve_model(model_id@, ctx.deep_view()),
    {
        Ok(None)
    }

    fn load_template(&self, template_name: &str, ctx: &RequestContext) -> (r: Result<
        Option<Vec<Message>>,
        AiError,
    >)
        ensures
            dv_res(r) == self.s_load_template(template_name@, ctx.deep_view()),
    {
        Ok(None)
    }

    fn transform_params(&self, params: TextParams, ctx: &RequestContext) -> (r: Result<
        TextParams,
        AiError,
    >)
        ensures
            dv_res(r) == self.s_transform_params(params.deep_view(), ctx.deep_view()),
    {
        Ok(params)
    }

    fn transform_result(&self, result: TextResult, ctx: &RequestContext) -> (r: Result<
        TextResult,
        AiError,
    >)
        ensures
            dv_res(r) == self.s_transform_result(result.deep_view(), ctx.deep_view()),
    {
        Ok(result)
    }

    fn on_request_start(&self, ctx: &RequestContext) -> (r: Result<(), AiError>)
        ensures
            match r {
                Ok(_) => self.s_on_request_start(ctx.deep_view()) is None,
                Err(e) => self.s_on_request_start(ctx.deep_view()) == Some(e.deep_view()),
            },
    {
        Ok(())
    }

    fn on_request_end(&self, ctx: &RequestContext, result: &TextResult) -> (r: Result<
        (),
        AiError,
    >)
        ensures
            match r {
                Ok(_) => self.s_on_request_end(ctx.deep_view(), result.deep_view()) is None,
                Err(e) => self.s_on_request_end(ctx.deep_view(), result.deep_view()) == Some(
                    e.deep_view(),
                ),
            },
    {
        Ok(())
    }

    fn on_error(&self, error: &AiError, ctx: &RequestContext) -> (r: Result<(), AiError>)
        ensures
            match r {
                Ok(_) => self.s_on_error(error.deep_view(), ctx.deep_view()) is None,
                Err(e) => self.s_on_error(error.deep_view(), ctx.deep_view()) == Some(
                    e.deep_view(),
                ),
            },
    {
        Ok(())
    }

    fn transform_chunks(&self, chunks: Vec<TextChunk>) -> (r: Vec<TextChunk>)
        ensures
            r.deep_view() == self.s_transform_chunks(chunks.deep_view()),
    {
        chunks
    }
}

} // verus!
