//! Webhook subscriptions: the ones that the provider holds and the ones
//! that this service wants.

use crate::ingress::{kind_of, path_of, Route};
use crate::text::same_text;
use vstd::prelude::*;
use vstd::string::StringExecFns;

verus! {

/// A subscription as the provider holds it: events of one kind are posted
/// to one address.
#[derive(Clone, Debug, PartialEq, Eq)]
pub struct Subscription {
    /// The name that the provider gave it.
    pub id: String,
    pub event_kind: String,
    pub target_url: String,
}

pub struct SubscriptionView {
    pub id: Seq<char>,
    pub event_kind: Seq<char>,
    pub target_url: Seq<char>,
}

impl View for Subscription {
    type V = SubscriptionView;

    open spec fn view(&self) -> SubscriptionView {
        SubscriptionView {
            id: self.id@,
            event_kind: self.event_kind@,
            target_url: self.target_url@,
        }
    }
}

/// The views of `subscriptions`, in their order.
pub open spec fn subscription_views(subscriptions: Seq<Subscription>) -> Seq<SubscriptionView> {
    Seq::new(subscriptions.len(), |i: int| subscriptions[i]@)
}

/// A subscription that this service wants to exist.
#[derive(Clone, Debug, PartialEq, Eq)]
pub struct DesiredBinding {
    pub event_kind: String,
    pub target_url: String,
}

pub struct BindingView {
    pub event_kind: Seq<char>,
    pub target_url: Seq<char>,
}

impl View for DesiredBinding {
    type V = BindingView;

    open spec fn view(&self) -> BindingView {
        BindingView { event_kind: self.event_kind@, target_url: self.target_url@ }
    }
}

/// The views of `bindings`, in their order.
pub open spec fn binding_views(bindings: Seq<DesiredBinding>) -> Seq<BindingView> {
    Seq::new(bindings.len(), |i: int| bindings[i]@)
}

/// Whether `subscription` is the one that `binding` asks for: it is for
/// the same kind of event and posts to the same address. One of the two
/// alone does not do.
pub open spec fn satisfies(subscription: SubscriptionView, binding: BindingView) -> bool {
    subscription.event_kind == binding.event_kind && subscription.target_url == binding.target_url
}

impl Subscription {
    /// Whether this is the subscription that `binding` asks for.
    pub fn satisfies(&self, binding: &DesiredBinding) -> (r: bool)
        ensures
            r == satisfies(self@, binding@),
    {
        same_text(self.event_kind.as_str(), binding.event_kind.as_str()) && same_text(
            self.target_url.as_str(),
            binding.target_url.as_str(),
        )
    }

    /// A copy of this subscription.
    pub fn duplicate(&self) -> (r: Subscription)
        ensures
            r@ == self@,
    {
        Subscription {
            id: self.id.clone(),
            event_kind: self.event_kind.clone(),
            target_url: self.target_url.clone(),
        }
    }
}

impl DesiredBinding {
    /// A copy of this binding.
    pub fn duplicate(&self) -> (r: DesiredBinding)
        ensures
            r@ == self@,
    {
        DesiredBinding {
            event_kind: self.event_kind.clone(),
            target_url: self.target_url.clone(),
        }
    }
}

/// The binding that has the events of `route` posted to this service, which
/// the world reaches under `public_base`.
pub open spec fn binding_for(route: Route, public_base: Seq<char>) -> BindingView {
    BindingView { event_kind: kind_of(route).unwrap(), target_url: public_base + path_of(route) }
}

/// The bindings that this service wants: one for each kind of event, each
/// posting to the route that takes that kind.
pub open spec fn desired_for(public_base: Seq<char>) -> Seq<BindingView> {
    seq![
        binding_for(Route::StartedTracking, public_base),
        binding_for(Route::StoppedTracking, public_base),
    ]
}

/// The binding that has started trackings posted to this service.
pub fn started_binding(public_base: &str) -> (r: DesiredBinding)
    ensures
        r@ == binding_for(Route::StartedTracking, public_base@),
{
    DesiredBinding {
        event_kind: String::from_str("trackingStarted"),
        target_url: String::from_str(public_base).concat(Route::StartedTracking.path()),
    }
}

/// The binding that has stopped trackings posted to this service.
pub fn stopped_binding(public_base: &str) -> (r: DesiredBinding)
    ensures
        r@ == binding_for(Route::StoppedTracking, public_base@),
{
    DesiredBinding {
        event_kind: String::from_str("trackingStopped"),
        target_url: String::from_str(public_base).concat(Route::StoppedTracking.path()),
    }
}

/// The bindings that this service wants when the world reaches it under
/// `public_base`.
pub fn desired_bindings(public_base: &str) -> (r: Vec<DesiredBinding>)
    ensures
        binding_views(r@) == desired_for(public_base@),
{
    let mut bindings: Vec<DesiredBinding> = Vec::new();
    bindings.push(started_binding(public_base));
    bindings.push(stopped_binding(public_base));
    assert(binding_views(bindings@) =~= desired_for(public_base@));
    bindings
}

} // verus!
