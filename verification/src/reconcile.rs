//! Bringing the provider's subscriptions in line with the desired ones.
//!
//! Reconciling lists what the provider holds and creates what is missing,
//! one binding after the other in the order in which they are desired. A
//! create that fails is noted and the next one is tried all the same.
//!
//! The calls themselves are the caller's to make: a [`Reconciler`] says
//! which call comes next and takes the reply to it.

use crate::json::{Json, JsonValue};
use crate::provider::{
    answer_of, answer_view, created_from, created_in, listed_from, listed_in, read_reply,
    subscribe_call, subscribe_request, subscriptions_call, subscriptions_request, Fault, Reply,
    Request, RequestView, Token, UpstreamError,
};
use crate::subscription::{
    binding_views, satisfies, subscription_views, BindingView, DesiredBinding, Subscription,
    SubscriptionView,
};
use vstd::prelude::*;

verus! {

/// Whether one of `existing` is the subscription that `binding` asks for.
pub open spec fn satisfied(existing: Seq<SubscriptionView>, binding: BindingView) -> bool {
    exists|i: int| 0 <= i < existing.len() && satisfies(#[trigger] existing[i], binding)
}

/// Whether `subscription` is what one of `desired` asks for.
pub open spec fn wanted(subscription: SubscriptionView, desired: Seq<BindingView>) -> bool {
    exists|j: int| 0 <= j < desired.len() && satisfies(subscription, #[trigger] desired[j])
}

/// The test that a binding passes when none of `existing` satisfies it.
pub open spec fn unsatisfied_by(existing: Seq<SubscriptionView>) -> spec_fn(BindingView) -> bool {
    |binding: BindingView| !satisfied(existing, binding)
}

/// The test that a subscription passes when one of `desired` asks for it.
pub open spec fn wanted_by(desired: Seq<BindingView>) -> spec_fn(SubscriptionView) -> bool {
    |subscription: SubscriptionView| wanted(subscription, desired)
}

/// Those of `desired` that none of `existing` satisfies, in the order of
/// `desired`.
pub open spec fn missing(
    existing: Seq<SubscriptionView>,
    desired: Seq<BindingView>,
) -> Seq<BindingView> {
    desired.filter(unsatisfied_by(existing))
}

/// Those of `existing` that one of `desired` asks for, in the order of
/// `existing`.
pub open spec fn kept(
    existing: Seq<SubscriptionView>,
    desired: Seq<BindingView>,
) -> Seq<SubscriptionView> {
    existing.filter(wanted_by(desired))
}

/// Whether one of `existing` is the subscription that `binding` asks for.
pub fn is_satisfied(existing: &Vec<Subscription>, binding: &DesiredBinding) -> (r: bool)
    ensures
        r == satisfied(subscription_views(existing@), binding@),
{
    let ghost views = subscription_views(existing@);
    let mut i: usize = 0;
    while i < existing.len()
        invariant
            i <= existing.len(),
            views == subscription_views(existing@),
            forall|k: int| 0 <= k < i ==> !satisfies(#[trigger] views[k], binding@),
        decreases existing.len() - i,
    {
        if existing[i].satisfies(binding) {
            assert(satisfies(views[i as int], binding@));
            return true;
        }
        i += 1;
    }
    false
}

/// Whether `subscription` is what one of `desired` asks for.
pub fn is_wanted(subscription: &Subscription, desired: &Vec<DesiredBinding>) -> (r: bool)
    ensures
        r == wanted(subscription@, binding_views(desired@)),
{
    let ghost views = binding_views(desired@);
    let mut j: usize = 0;
    while j < desired.len()
        invariant
            j <= desired.len(),
            views == binding_views(desired@),
            forall|k: int| 0 <= k < j ==> !satisfies(subscription@, #[trigger] views[k]),
        decreases desired.len() - j,
    {
        if subscription.satisfies(&desired[j]) {
            assert(satisfies(subscription@, views[j as int]));
            return true;
        }
        j += 1;
    }
    false
}

/// Those of `desired` that are yet to be created, given that the provider
/// holds `existing`.
pub fn missing_bindings(existing: &Vec<Subscription>, desired: &Vec<DesiredBinding>) -> (r: Vec<
    DesiredBinding,
>)
    ensures
        binding_views(r@) == missing(subscription_views(existing@), binding_views(desired@)),
{
    let ghost held = subscription_views(existing@);
    let ghost all = binding_views(desired@);
    let mut found: Vec<DesiredBinding> = Vec::new();
    let mut i: usize = 0;
    proof {
        reveal(Seq::filter);
        assert(all.take(0).filter(unsatisfied_by(held)) =~= binding_views(found@));
    }
    while i < desired.len()
        invariant
            i <= desired.len(),
            held == subscription_views(existing@),
            all == binding_views(desired@),
            binding_views(found@) == all.take(i as int).filter(unsatisfied_by(held)),
        decreases desired.len() - i,
    {
        let ghost before = binding_views(found@);
        proof {
            all.take(i as int).lemma_filter_push(all[i as int], unsatisfied_by(held));
            assert(all.take(i as int).push(all[i as int]) =~= all.take(i + 1));
        }
        if !is_satisfied(existing, &desired[i]) {
            found.push(desired[i].duplicate());
            assert(binding_views(found@) =~= before.push(all[i as int]));
        }
        i += 1;
    }
    assert(all.take(desired.len() as int) =~= all);
    found
}

/// Those of `existing` that `desired` asks for.
pub fn kept_subscriptions(existing: &Vec<Subscription>, desired: &Vec<DesiredBinding>) -> (r: Vec<
    Subscription,
>)
    ensures
        subscription_views(r@) == kept(subscription_views(existing@), binding_views(desired@)),
{
    let ghost held = subscription_views(existing@);
    let ghost all = binding_views(desired@);
    let mut found: Vec<Subscription> = Vec::new();
    let mut i: usize = 0;
    proof {
        reveal(Seq::filter);
        assert(held.take(0).filter(wanted_by(all)) =~= subscription_views(found@));
    }
    while i < existing.len()
        invariant
            i <= existing.len(),
            held == subscription_views(existing@),
            all == binding_views(desired@),
            subscription_views(found@) == held.take(i as int).filter(wanted_by(all)),
        decreases existing.len() - i,
    {
        let ghost before = subscription_views(found@);
        proof {
            held.take(i as int).lemma_filter_push(held[i as int], wanted_by(all));
            assert(held.take(i as int).push(held[i as int]) =~= held.take(i + 1));
        }
        if is_wanted(&existing[i], desired) {
            found.push(existing[i].duplicate());
            assert(subscription_views(found@) =~= before.push(held[i as int]));
        }
        i += 1;
    }
    assert(held.take(existing.len() as int) =~= held);
    found
}

/// A binding whose subscription could not be created, and why.
#[derive(Clone, Debug, PartialEq, Eq)]
pub struct Failure {
    pub binding: DesiredBinding,
    pub error: UpstreamError,
}

impl View for Failure {
    type V = (BindingView, UpstreamError);

    open spec fn view(&self) -> (BindingView, UpstreamError) {
        (self.binding@, self.error)
    }
}

/// The views of `failures`, in their order.
pub open spec fn failure_views(failures: Seq<Failure>) -> Seq<(BindingView, UpstreamError)> {
    Seq::new(failures.len(), |i: int| failures[i]@)
}

/// What reconciling came to.
#[derive(Clone, Debug, PartialEq, Eq)]
pub struct Report {
    /// The subscriptions that were there already and are desired.
    pub kept: Vec<Subscription>,
    /// The subscriptions that were created, in the order of their creation.
    pub created: Vec<Subscription>,
    /// The bindings whose creation failed, in the order of the attempts.
    pub failed: Vec<Failure>,
}

pub struct ReportView {
    pub kept: Seq<SubscriptionView>,
    pub created: Seq<SubscriptionView>,
    pub failed: Seq<(BindingView, UpstreamError)>,
}

impl View for Report {
    type V = ReportView;

    open spec fn view(&self) -> ReportView {
        ReportView {
            kept: subscription_views(self.kept@),
            created: subscription_views(self.created@),
            failed: failure_views(self.failed@),
        }
    }
}

impl ReportView {
    /// The desired subscriptions that exist: those kept, then those created.
    pub open spec fn subscriptions(self) -> Seq<SubscriptionView> {
        self.kept + self.created
    }
}

impl Report {
    /// The desired subscriptions that exist: those kept, then those created.
    pub fn subscriptions(&self) -> (r: Vec<Subscription>)
        ensures
            subscription_views(r@) == self@.subscriptions(),
    {
        let mut all: Vec<Subscription> = Vec::new();
        let mut i: usize = 0;
        while i < self.kept.len()
            invariant
                i <= self.kept.len(),
                all@.len() == i,
                forall|k: int| 0 <= k < i ==> (#[trigger] all@[k])@ == self.kept@[k]@,
            decreases self.kept.len() - i,
        {
            all.push(self.kept[i].duplicate());
            i += 1;
        }
        let mut j: usize = 0;
        while j < self.created.len()
            invariant
                j <= self.created.len(),
                all@.len() == self.kept.len() + j,
                forall|k: int|
                    0 <= k < self.kept.len() ==> (#[trigger] all@[k])@ == self.kept@[k]@,
                forall|k: int|
                    self.kept.len() <= k < all@.len() ==> (#[trigger] all@[k])@
                        == self.created@[k - self.kept.len()]@,
            decreases self.created.len() - j,
        {
            all.push(self.created[j].duplicate());
            j += 1;
        }
        assert(subscription_views(all@) =~= self@.subscriptions());
        all
    }
}

/// `report` with the outcome of trying to create `binding` added to it.
pub open spec fn record(
    report: ReportView,
    binding: BindingView,
    outcome: Result<SubscriptionView, UpstreamError>,
) -> ReportView {
    match outcome {
        Ok(subscription) => ReportView { created: report.created.push(subscription), ..report },
        Err(error) => ReportView { failed: report.failed.push((binding, error)), ..report },
    }
}

/// Where reconciling stands between two calls.
pub struct Reconciler {
    token: Token,
    stage: Stage,
}

enum Stage {
    Listing { desired: Vec<DesiredBinding> },
    Creating { pending: Vec<DesiredBinding>, report: Report },
}

pub enum ReconcilerView {
    /// The call that lists the provider's subscriptions is under way.
    Listing { token: Seq<char>, desired: Seq<BindingView> },
    /// The call that creates the first of `pending` is under way; `report`
    /// holds what came of the bindings before it.
    Creating { token: Seq<char>, pending: Seq<BindingView>, report: ReportView },
}

impl View for Reconciler {
    type V = ReconcilerView;

    closed spec fn view(&self) -> ReconcilerView {
        match self.stage {
            Stage::Listing { desired } => ReconcilerView::Listing {
                token: self.token@,
                desired: binding_views(desired@),
            },
            Stage::Creating { pending, report } => ReconcilerView::Creating {
                token: self.token@,
                pending: binding_views(pending@),
                report: report@,
            },
        }
    }
}

/// What a reconciler asks of its caller.
pub enum Progress {
    /// Send `request` and hand the reply to `reconciler`.
    Call { reconciler: Reconciler, request: Request },
    /// Reconciling is over. It fails as a whole only where the provider's
    /// subscriptions could not be listed.
    Done(Result<Report, UpstreamError>),
}

pub enum ProgressView {
    Call { reconciler: ReconcilerView, request: RequestView },
    Done(Result<ReportView, UpstreamError>),
}

impl View for Progress {
    type V = ProgressView;

    open spec fn view(&self) -> ProgressView {
        match self {
            Progress::Call { reconciler, request } => ProgressView::Call {
                reconciler: reconciler@,
                request: request@,
            },
            Progress::Done(Ok(report)) => ProgressView::Done(Ok(report@)),
            Progress::Done(Err(error)) => ProgressView::Done(Err(*error)),
        }
    }
}

/// What comes next when `pending` are yet to be created and `report` holds
/// what came of the bindings before them: the creation of the first of
/// `pending`, or the end where nothing is pending.
pub open spec fn proceed(
    token: Seq<char>,
    pending: Seq<BindingView>,
    report: ReportView,
) -> ProgressView {
    if pending.len() == 0 {
        ProgressView::Done(Ok(report))
    } else {
        ProgressView::Call {
            reconciler: ReconcilerView::Creating { token, pending, report },
            request: subscribe_call(token, pending[0]),
        }
    }
}

/// The first step of reconciling `desired`: the call that lists what the
/// provider holds.
pub open spec fn started(token: Seq<char>, desired: Seq<BindingView>) -> ProgressView {
    ProgressView::Call {
        reconciler: ReconcilerView::Listing { token, desired },
        request: subscriptions_call(token),
    }
}

/// What comes next when `answer` came back for the call that `state` had
/// under way.
///
/// Where the list call fails, reconciling fails. Where it yields the
/// provider's subscriptions, those that are desired are kept and the
/// missing ones become pending. The answer to a create call is recorded
/// for the first pending binding, as a subscription or as a failure, and
/// the rest stay pending.
pub open spec fn advanced(state: ReconcilerView, answer: Result<JsonValue, Fault>) -> ProgressView {
    match state {
        ReconcilerView::Listing { token, desired } => match listed_in(answer) {
            Err(error) => ProgressView::Done(Err(error)),
            Ok(existing) => proceed(
                token,
                missing(existing, desired),
                ReportView {
                    kept: kept(existing, desired),
                    created: Seq::empty(),
                    failed: Seq::empty(),
                },
            ),
        },
        ReconcilerView::Creating { token, pending, report } => proceed(
            token,
            pending.drop_first(),
            record(report, pending[0], created_in(answer)),
        ),
    }
}

impl Reconciler {
    #[verifier::type_invariant]
    spec fn busy(self) -> bool {
        match self.stage {
            Stage::Listing { .. } => true,
            Stage::Creating { pending, .. } => pending@.len() > 0,
        }
    }

    /// Starts reconciling `desired` on behalf of the holder of `token`.
    pub fn start(token: Token, desired: Vec<DesiredBinding>) -> (r: Progress)
        ensures
            r@ == started(token@, binding_views(desired@)),
    {
        let request = subscriptions_request(&token);
        Progress::Call {
            reconciler: Reconciler { token, stage: Stage::Listing { desired } },
            request,
        }
    }

    fn proceed(token: Token, pending: Vec<DesiredBinding>, report: Report) -> (r: Progress)
        ensures
            r@ == proceed(token@, binding_views(pending@), report@),
    {
        if pending.len() == 0 {
            Progress::Done(Ok(report))
        } else {
            let request = subscribe_request(&token, &pending[0]);
            Progress::Call {
                reconciler: Reconciler { token, stage: Stage::Creating { pending, report } },
                request,
            }
        }
    }

    /// Takes the answer to the call that was under way and says what comes
    /// next.
    pub fn advance_with(self, answer: Result<Json, Fault>) -> (r: Progress)
        ensures
            r@ == advanced(self@, answer_view(answer)),
    {
        proof {
            use_type_invariant(&self);
        }
        let Reconciler { token, stage } = self;
        match stage {
            Stage::Listing { desired } => match listed_from(answer) {
                Err(error) => Progress::Done(Err(error)),
                Ok(existing) => {
                    let pending = missing_bindings(&existing, &desired);
                    let kept = kept_subscriptions(&existing, &desired);
                    let report = Report { kept, created: Vec::new(), failed: Vec::new() };
                    assert(report@.created =~= Seq::empty());
                    assert(report@.failed =~= Seq::empty());
                    Reconciler::proceed(token, pending, report)
                },
            },
            Stage::Creating { pending, report } => {
                let mut pending = pending;
                let mut report = report;
                let ghost before = binding_views(pending@);
                let ghost so_far = report@;
                let binding = pending.remove(0);
                assert(binding_views(pending@) =~= before.drop_first());
                match created_from(answer) {
                    Ok(subscription) => {
                        report.created.push(subscription);
                        assert(report@.created =~= so_far.created.push(subscription@));
                    },
                    Err(error) => {
                        report.failed.push(Failure { binding, error });
                        assert(report@.failed =~= so_far.failed.push((before[0], error)));
                    },
                }
                Reconciler::proceed(token, pending, report)
            },
        }
    }

    /// Takes the reply to the call that was under way and says what comes
    /// next.
    pub fn advance(self, reply: &Reply) -> (r: Progress)
        ensures
            r@ == advanced(self@, answer_of(*reply)),
    {
        let answer = read_reply(reply);
        self.advance_with(answer)
    }
}

/// Where reconciling stands after `answers` came back, one for each call
/// that was asked for, starting from `progress`. Answers that come after
/// the end change nothing.
pub open spec fn run(progress: ProgressView, answers: Seq<Result<JsonValue, Fault>>) -> ProgressView
    decreases answers.len(),
{
    if answers.len() == 0 {
        progress
    } else {
        match progress {
            ProgressView::Call { reconciler, .. } => run(
                advanced(reconciler, answers.first()),
                answers.drop_first(),
            ),
            ProgressView::Done(_) => progress,
        }
    }
}

/// `report` with the outcomes of creating `pending` added to it, where
/// `answers` came back for the create calls in their order.
pub open spec fn settled(
    report: ReportView,
    pending: Seq<BindingView>,
    answers: Seq<Result<JsonValue, Fault>>,
) -> ReportView
    decreases pending.len(),
{
    if pending.len() == 0 || answers.len() == 0 {
        report
    } else {
        settled(
            record(report, pending.first(), created_in(answers.first())),
            pending.drop_first(),
            answers.drop_first(),
        )
    }
}

proof fn filter_keeps_all<A>(s: Seq<A>, test: spec_fn(A) -> bool)
    requires
        forall|i: int| 0 <= i < s.len() ==> test(#[trigger] s[i]),
    ensures
        s.filter(test) == s,
    decreases s.len(),
{
    reveal(Seq::filter);
    if s.len() > 0 {
        filter_keeps_all(s.drop_last(), test);
        assert(s.drop_last().push(s.last()) =~= s);
    }
}

proof fn filter_keeps_none<A>(s: Seq<A>, test: spec_fn(A) -> bool)
    requires
        forall|i: int| 0 <= i < s.len() ==> !test(#[trigger] s[i]),
    ensures
        s.filter(test) == Seq::<A>::empty(),
    decreases s.len(),
{
    reveal(Seq::filter);
    if s.len() > 0 {
        filter_keeps_none(s.drop_last(), test);
    } else {
        assert(s =~= Seq::<A>::empty());
    }
}

/// What is missing and what is kept, said without the order: a binding is
/// missing exactly when it is desired and no existing subscription has
/// both its kind of event and its address, and a subscription is kept
/// exactly when it exists and some desired binding asks for it.
pub proof fn missing_and_kept_are_exact(
    existing: Seq<SubscriptionView>,
    desired: Seq<BindingView>,
)
    ensures
        forall|binding: BindingView| #[trigger]
            missing(existing, desired).contains(binding) <==> desired.contains(binding)
                && !satisfied(existing, binding),
        forall|subscription: SubscriptionView| #[trigger]
            kept(existing, desired).contains(subscription) <==> existing.contains(subscription)
                && wanted(subscription, desired),
{
    let lacking = missing(existing, desired);
    assert forall|binding: BindingView| #[trigger]
        lacking.contains(binding) <==> desired.contains(binding) && !satisfied(
            existing,
            binding,
        ) by {
        if lacking.contains(binding) {
            let i = choose|i: int| 0 <= i < lacking.len() && lacking[i] == binding;
            desired.lemma_filter_pred(unsatisfied_by(existing), i);
            desired.lemma_filter_contains_rev(unsatisfied_by(existing), binding);
        }
        if desired.contains(binding) && !satisfied(existing, binding) {
            let j = choose|j: int| 0 <= j < desired.len() && desired[j] == binding;
            assert(unsatisfied_by(existing)(desired[j]));
            desired.lemma_filter_contains(unsatisfied_by(existing), j);
        }
    }
    let staying = kept(existing, desired);
    assert forall|subscription: SubscriptionView| #[trigger]
        staying.contains(subscription) <==> existing.contains(subscription) && wanted(
            subscription,
            desired,
        ) by {
        if staying.contains(subscription) {
            let i = choose|i: int| 0 <= i < staying.len() && staying[i] == subscription;
            existing.lemma_filter_pred(wanted_by(desired), i);
            existing.lemma_filter_contains_rev(wanted_by(desired), subscription);
        }
        if existing.contains(subscription) && wanted(subscription, desired) {
            let j = choose|j: int| 0 <= j < existing.len() && existing[j] == subscription;
            assert(wanted_by(desired)(existing[j]));
            existing.lemma_filter_contains(wanted_by(desired), j);
        }
    }
}

/// A subscription for the same kind of event that posts to another
/// address does not stand in for the desired one: the binding is missing
/// and will be created.
pub proof fn other_target_leaves_binding_missing(
    existing: SubscriptionView,
    binding: BindingView,
)
    requires
        existing.target_url != binding.target_url,
    ensures
        !satisfies(existing, binding),
        missing(seq![existing], seq![binding]) == seq![binding],
        kept(seq![existing], seq![binding]) == Seq::<SubscriptionView>::empty(),
{
    let held = seq![existing];
    let desired = seq![binding];
    assert(!satisfied(held, binding));
    assert(unsatisfied_by(held)(binding));
    filter_keeps_all(desired, unsatisfied_by(held));
    assert(!wanted(existing, desired));
    assert(!wanted_by(desired)(existing));
    filter_keeps_none(held, wanted_by(desired));
}

/// Every pending binding gets its create call, whatever came of the ones
/// before it: after as many answers as there are pending bindings,
/// reconciling is over and reports each outcome.
pub proof fn every_pending_binding_is_tried(
    token: Seq<char>,
    pending: Seq<BindingView>,
    report: ReportView,
    answers: Seq<Result<JsonValue, Fault>>,
)
    requires
        answers.len() == pending.len(),
    ensures
        run(proceed(token, pending, report), answers) == ProgressView::Done(
            Ok(settled(report, pending, answers)),
        ),
    decreases pending.len(),
{
    if pending.len() > 0 {
        let next = record(report, pending.first(), created_in(answers.first()));
        every_pending_binding_is_tried(token, pending.drop_first(), next, answers.drop_first());
    }
}

/// No outcome is lost: in the report, every create that succeeded stands
/// among the created subscriptions and every create that failed among the
/// failures, with its binding; what the report held before stays, and
/// nothing else is added.
pub proof fn failures_and_successes_are_both_reported(
    report: ReportView,
    pending: Seq<BindingView>,
    answers: Seq<Result<JsonValue, Fault>>,
)
    requires
        answers.len() == pending.len(),
    ensures
        settled(report, pending, answers).kept == report.kept,
        report.created.is_prefix_of(settled(report, pending, answers).created),
        report.failed.is_prefix_of(settled(report, pending, answers).failed),
        settled(report, pending, answers).created.len() + settled(
            report,
            pending,
            answers,
        ).failed.len() == report.created.len() + report.failed.len() + pending.len(),
        forall|i: int|
            0 <= i < pending.len() ==> match created_in(#[trigger] answers[i]) {
                Ok(subscription) => settled(report, pending, answers).created.contains(
                    subscription,
                ),
                Err(error) => settled(report, pending, answers).failed.contains(
                    (pending[i], error),
                ),
            },
    decreases pending.len(),
{
    if pending.len() > 0 {
        let next = record(report, pending.first(), created_in(answers.first()));
        let rest = pending.drop_first();
        let later = answers.drop_first();
        let end = settled(report, pending, answers);
        failures_and_successes_are_both_reported(next, rest, later);
        assert(end == settled(next, rest, later));
        match created_in(answers.first()) {
            Ok(subscription) => {
                assert(next.created[report.created.len() as int] == subscription);
                assert(end.created[report.created.len() as int] == subscription);
            },
            Err(error) => {
                assert(next.failed[report.failed.len() as int] == (pending.first(), error));
                assert(end.failed[report.failed.len() as int] == (pending.first(), error));
            },
        }
        assert forall|i: int| 0 <= i < pending.len() implies match created_in(
            #[trigger] answers[i],
        ) {
            Ok(subscription) => end.created.contains(subscription),
            Err(error) => end.failed.contains((pending[i], error)),
        } by {
            if i > 0 {
                assert(answers[i] == later[i - 1]);
                assert(pending[i] == rest[i - 1]);
            }
        }
    }
}

/// Reconciling a second time changes nothing. Let the first run have
/// created every missing binding, the provider have answered each create
/// with a subscription for the pair it was asked for, and the provider now
/// hold what it held before and those. Then, for the same desired bindings,
/// nothing is missing, the first answer to the second run ends it, and it
/// reports the subscriptions of the first run and none created or failed.
pub proof fn reconciling_again_changes_nothing(
    token: Seq<char>,
    held: Seq<SubscriptionView>,
    desired: Seq<BindingView>,
    created: Seq<SubscriptionView>,
    answer: Result<JsonValue, Fault>,
)
    requires
        created.len() == missing(held, desired).len(),
        forall|i: int|
            0 <= i < created.len() ==> satisfies(#[trigger] created[i], missing(held, desired)[i]),
        listed_in(answer) == Ok::<Seq<SubscriptionView>, UpstreamError>(held + created),
    ensures
        missing(held + created, desired) == Seq::<BindingView>::empty(),
        kept(held + created, desired) == kept(held, desired) + created,
        run(started(token, desired), seq![answer]) == ProgressView::Done(
            Ok(
                ReportView {
                    kept: kept(held, desired) + created,
                    created: Seq::empty(),
                    failed: Seq::empty(),
                },
            ),
        ),
{
    let now = held + created;
    let lacking = missing(held, desired);
    assert forall|j: int| 0 <= j < desired.len() implies !unsatisfied_by(now)(
        #[trigger] desired[j],
    ) by {
        if satisfied(held, desired[j]) {
            let i = choose|i: int| 0 <= i < held.len() && satisfies(#[trigger] held[i], desired[j]);
            assert(now[i] == held[i]);
            assert(satisfies(now[i], desired[j]));
        } else {
            assert(unsatisfied_by(held)(desired[j]));
            desired.lemma_filter_contains(unsatisfied_by(held), j);
            let i = choose|i: int| 0 <= i < lacking.len() && lacking[i] == desired[j];
            assert(now[held.len() + i] == created[i]);
            assert(satisfies(now[held.len() + i], desired[j]));
        }
    }
    filter_keeps_none(desired, unsatisfied_by(now));
    assert forall|i: int| 0 <= i < created.len() implies wanted_by(desired)(
        #[trigger] created[i],
    ) by {
        assert(lacking.contains(lacking[i]));
        desired.lemma_filter_contains_rev(unsatisfied_by(held), lacking[i]);
        let j = choose|j: int| 0 <= j < desired.len() && desired[j] == lacking[i];
        assert(satisfies(created[i], desired[j]));
    }
    filter_keeps_all(created, wanted_by(desired));
    Seq::filter_distributes_over_add(held, created, wanted_by(desired));
    let first = advanced(ReconcilerView::Listing { token, desired }, answer);
    assert(seq![answer].first() == answer);
    assert(run(first, seq![answer].drop_first()) == first);
}

} // verus!
