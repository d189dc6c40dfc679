//! What happens before the listener takes calls: the settings are checked,
//! the service signs in, makes sure that the provider offers the kinds of
//! event it wants, and reconciles its subscriptions.
//!
//! The steps come one after the other and each failure ends the start, but
//! for two: the catalog call is tried a second time, and a subscription
//! that could not be created is reported and does not keep the service
//! from starting.

use crate::config::{Config, ConfigError, Credentials, CredentialsView};
use crate::json::{Json, JsonValue};
use crate::provider::{
    answer_of, answer_view, events_call, events_request, kinds_from, kinds_in, listed_in,
    among_is_contains, read_reply, sign_in_call, sign_in_request, text_views, token_from,
    token_in, AuthError, Fault, Reply, Request, RequestView, Token, UpstreamError,
};
use crate::reconcile::{
    advanced, started, Progress, ProgressView, Reconciler, ReconcilerView, Report, ReportView,
};
use crate::subscription::{
    binding_views, desired_bindings, desired_for, BindingView, DesiredBinding,
};
use crate::text::is_among;
use vstd::prelude::*;

verus! {

/// Why the service did not start.
#[derive(Clone, Copy, Debug, PartialEq, Eq, Structural)]
pub enum StartupError {
    Config(ConfigError),
    Auth(AuthError),
    Upstream(UpstreamError),
}

/// The place of the first of `desired` whose kind of event is not among
/// `kinds`.
pub open spec fn first_unknown(kinds: Seq<Seq<char>>, desired: Seq<BindingView>) -> Option<int>
    decreases desired.len(),
{
    if desired.len() == 0 {
        None
    } else {
        match first_unknown(kinds, desired.drop_last()) {
            Some(i) => Some(i),
            None => if kinds.contains(desired.last().event_kind) {
                None
            } else {
                Some(desired.len() - 1)
            },
        }
    }
}

/// Whether `kind` is among `kinds`.
pub fn offers(kinds: &Vec<String>, kind: &str) -> (r: bool)
    ensures
        r == text_views(kinds@).contains(kind@),
{
    proof {
        among_is_contains(kind@, kinds@);
    }
    is_among(kind, kinds)
}

/// The place of the first of `desired` whose kind of event the catalog
/// `kinds` lacks.
pub fn find_unknown(kinds: &Vec<String>, desired: &Vec<DesiredBinding>) -> (r: Option<usize>)
    ensures
        match r {
            Some(i) => first_unknown(text_views(kinds@), binding_views(desired@)) == Some(
                i as int,
            ),
            None => first_unknown(text_views(kinds@), binding_views(desired@)) is None,
        },
{
    let ghost all = binding_views(desired@);
    let mut i: usize = 0;
    while i < desired.len()
        invariant
            i <= desired.len(),
            all == binding_views(desired@),
            first_unknown(text_views(kinds@), all.take(i as int)) is None,
        decreases desired.len() - i,
    {
        proof {
            assert(all.take(i + 1).drop_last() =~= all.take(i as int));
        }
        if !offers(kinds, desired[i].event_kind.as_str()) {
            proof {
                known_prefix_stays(text_views(kinds@), all, i + 1);
            }
            return Some(i);
        }
        i += 1;
    }
    assert(all.take(desired.len() as int) =~= all);
    None
}

proof fn known_prefix_stays(kinds: Seq<Seq<char>>, desired: Seq<BindingView>, n: int)
    requires
        0 <= n <= desired.len(),
        first_unknown(kinds, desired.take(n)) is Some,
    ensures
        first_unknown(kinds, desired) == first_unknown(kinds, desired.take(n)),
    decreases desired.len() - n,
{
    if n < desired.len() {
        assert(desired.take(n + 1).drop_last() =~= desired.take(n));
        known_prefix_stays(kinds, desired, n + 1);
    } else {
        assert(desired.take(n) =~= desired);
    }
}

/// Where the start stands between two calls.
pub struct Startup {
    stage: Stage,
}

enum Stage {
    SigningIn { desired: Vec<DesiredBinding> },
    FetchingCatalog { desired: Vec<DesiredBinding>, token: Token, retried: bool },
    Reconciling { reconciler: Reconciler },
}

pub enum StartupView {
    /// The sign-in call is under way.
    SigningIn { desired: Seq<BindingView> },
    /// The catalog call is under way, for the second time where `retried`.
    FetchingCatalog { desired: Seq<BindingView>, token: Seq<char>, retried: bool },
    /// A call of the reconciler is under way.
    Reconciling { reconciler: ReconcilerView },
}

impl View for Startup {
    type V = StartupView;

    closed spec fn view(&self) -> StartupView {
        match self.stage {
            Stage::SigningIn { desired } => StartupView::SigningIn {
                desired: binding_views(desired@),
            },
            Stage::FetchingCatalog { desired, token, retried } => StartupView::FetchingCatalog {
                desired: binding_views(desired@),
                token: token@,
                retried,
            },
            Stage::Reconciling { reconciler } => StartupView::Reconciling {
                reconciler: reconciler@,
            },
        }
    }
}

/// What the start asks of its caller.
pub enum Step {
    /// Send `request` and hand the reply to `startup`.
    Call { startup: Startup, request: Request },
    /// The start is over: take calls. The report says which subscriptions
    /// exist and which could not be created.
    Serve(Report),
    /// The start failed: do not take calls.
    Abort(StartupError),
}

pub enum StepView {
    Call { startup: StartupView, request: RequestView },
    Serve(ReportView),
    Abort(StartupError),
}

impl View for Step {
    type V = StepView;

    open spec fn view(&self) -> StepView {
        match self {
            Step::Call { startup, request } => StepView::Call {
                startup: startup@,
                request: request@,
            },
            Step::Serve(report) => StepView::Serve(report@),
            Step::Abort(error) => StepView::Abort(*error),
        }
    }
}

/// The first step of a start: the sign-in call.
pub open spec fn begun(credentials: CredentialsView, desired: Seq<BindingView>) -> StepView {
    StepView::Call {
        startup: StartupView::SigningIn { desired },
        request: sign_in_call(credentials),
    }
}

/// What a step of the reconciler means for the start.
pub open spec fn reconciling(progress: ProgressView) -> StepView {
    match progress {
        ProgressView::Call { reconciler, request } => StepView::Call {
            startup: StartupView::Reconciling { reconciler },
            request,
        },
        ProgressView::Done(Ok(report)) => StepView::Serve(report),
        ProgressView::Done(Err(error)) => StepView::Abort(StartupError::Upstream(error)),
    }
}

/// What comes next when `answer` came back for the call that `state` had
/// under way.
///
/// A failed sign-in ends the start. A failed catalog call is made once
/// more and ends the start when it fails again. A catalog that lacks the
/// kind of event of a desired binding ends the start. Otherwise
/// reconciling begins, and the start ends as reconciling does.
pub open spec fn stepped(state: StartupView, answer: Result<JsonValue, Fault>) -> StepView {
    match state {
        StartupView::SigningIn { desired } => match token_in(answer) {
            Err(error) => StepView::Abort(StartupError::Auth(error)),
            Ok(token) => StepView::Call {
                startup: StartupView::FetchingCatalog { desired, token, retried: false },
                request: events_call(token),
            },
        },
        StartupView::FetchingCatalog { desired, token, retried } => match kinds_in(answer) {
            Err(error) => if retried {
                StepView::Abort(StartupError::Upstream(error))
            } else {
                StepView::Call {
                    startup: StartupView::FetchingCatalog { desired, token, retried: true },
                    request: events_call(token),
                }
            },
            Ok(kinds) => match first_unknown(kinds, desired) {
                Some(i) => StepView::Abort(
                    StartupError::Config(ConfigError::UnknownEventKind { binding: i as usize }),
                ),
                None => reconciling(started(token, desired)),
            },
        },
        StartupView::Reconciling { reconciler } => reconciling(advanced(reconciler, answer)),
    }
}

impl Startup {
    /// Begins the start of a service set up by `config`.
    pub fn begin(config: &Config) -> (r: Step)
        ensures
            r@ == begun(config@.credentials, desired_for(config@.public_base_url)),
    {
        Startup::begin_with(config.credentials(), desired_bindings(config.public_base_url()))
    }

    /// Begins a start that signs in with `credentials` and wants `desired`.
    pub fn begin_with(credentials: &Credentials, desired: Vec<DesiredBinding>) -> (r: Step)
        ensures
            r@ == begun(credentials@, binding_views(desired@)),
    {
        let request = sign_in_request(credentials);
        Step::Call { startup: Startup { stage: Stage::SigningIn { desired } }, request }
    }

    fn reconciling(progress: Progress) -> (r: Step)
        ensures
            r@ == reconciling(progress@),
    {
        match progress {
            Progress::Call { reconciler, request } => Step::Call {
                startup: Startup { stage: Stage::Reconciling { reconciler } },
                request,
            },
            Progress::Done(Ok(report)) => Step::Serve(report),
            Progress::Done(Err(error)) => Step::Abort(StartupError::Upstream(error)),
        }
    }

    /// Takes the answer to the call that was under way and says what comes
    /// next.
    pub fn advance_with(self, answer: Result<Json, Fault>) -> (r: Step)
        ensures
            r@ == stepped(self@, answer_view(answer)),
    {
        match self.stage {
            Stage::SigningIn { desired } => match token_from(answer) {
                Err(error) => Step::Abort(StartupError::Auth(error)),
                Ok(token) => {
                    let request = events_request(&token);
                    Step::Call {
                        startup: Startup {
                            stage: Stage::FetchingCatalog { desired, token, retried: false },
                        },
                        request,
                    }
                },
            },
            Stage::FetchingCatalog { desired, token, retried } => match kinds_from(answer) {
                Err(error) => {
                    if retried {
                        Step::Abort(StartupError::Upstream(error))
                    } else {
                        let request = events_request(&token);
                        Step::Call {
                            startup: Startup {
                                stage: Stage::FetchingCatalog { desired, token, retried: true },
                            },
                            request,
                        }
                    }
                },
                Ok(kinds) => match find_unknown(&kinds, &desired) {
                    Some(i) => Step::Abort(
                        StartupError::Config(ConfigError::UnknownEventKind { binding: i }),
                    ),
                    None => Startup::reconciling(Reconciler::start(token, desired)),
                },
            },
            Stage::Reconciling { reconciler } => Startup::reconciling(
                reconciler.advance_with(answer),
            ),
        }
    }

    /// Takes the reply to the call that was under way and says what comes
    /// next.
    pub fn advance(self, reply: &Reply) -> (r: Step)
        ensures
            r@ == stepped(self@, answer_of(*reply)),
    {
        let answer = read_reply(reply);
        self.advance_with(answer)
    }
}

/// Where the start stands after `answers` came back, one for each call
/// that was asked for, starting from `step`. Answers that come after the
/// end change nothing.
pub open spec fn run(step: StepView, answers: Seq<Result<JsonValue, Fault>>) -> StepView
    decreases answers.len(),
{
    if answers.len() == 0 {
        step
    } else {
        match step {
            StepView::Call { startup, .. } => run(
                stepped(startup, answers.first()),
                answers.drop_first(),
            ),
            _ => step,
        }
    }
}

/// The place among the answers of the one to the list call: the catalog
/// call comes before it, once or twice.
pub open spec fn listing_place(answers: Seq<Result<JsonValue, Fault>>) -> int {
    if kinds_in(answers[1]) is Ok {
        2
    } else {
        3
    }
}

/// The listener takes no call before the start is through: a start that
/// comes to serve has signed in, has seen a catalog that offers the kind of
/// event of every desired binding, at the first or the second try, and has
/// listed the provider's subscriptions.
pub proof fn serving_comes_after_every_step(
    credentials: CredentialsView,
    desired: Seq<BindingView>,
    answers: Seq<Result<JsonValue, Fault>>,
)
    requires
        run(begun(credentials, desired), answers) is Serve,
    ensures
        answers.len() > listing_place(answers),
        token_in(answers[0]) is Ok,
        kinds_in(answers[listing_place(answers) - 1]) matches Ok(kinds) && first_unknown(
            kinds,
            desired,
        ) is None,
        listed_in(answers[listing_place(answers)]) is Ok,
{
    let first = begun(credentials, desired);
    assert(answers.len() > 0);
    let second = stepped(first->startup, answers.first());
    let rest = answers.drop_first();
    assert(run(first, answers) == run(second, rest));
    assert(token_in(answers[0]) is Ok);
    assert(rest.len() > 0);
    assert(rest.first() == answers[1]);
    let third = stepped(second->startup, rest.first());
    let later = rest.drop_first();
    assert(run(second, rest) == run(third, later));
    if kinds_in(answers[1]) is Ok {
        assert(later.len() > 0);
        assert(later.first() == answers[2]);
        let fourth = stepped(third->startup, later.first());
        assert(run(third, later) == run(fourth, later.drop_first()));
    } else {
        assert(later.len() > 0);
        assert(later.first() == answers[2]);
        let fourth = stepped(third->startup, later.first());
        let last = later.drop_first();
        assert(run(third, later) == run(fourth, last));
        assert(kinds_in(answers[2]) is Ok);
        assert(last.len() > 0);
        assert(last.first() == answers[3]);
        let fifth = stepped(fourth->startup, last.first());
        assert(run(fourth, last) == run(fifth, last.drop_first()));
    }
}

} // verus!
