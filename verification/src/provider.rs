//! The calls that this service makes to the provider: what is sent, and
//! what is made of the answer.
//!
//! Sending is left to the caller. This module builds each request as a
//! value and reads each reply from the status and the bytes that came back.

use crate::config::{Credentials, CredentialsView};
use crate::decode::{read_text, text_in};
use crate::endpoint::{auth, base_url, bearer_prefix, url};
use crate::json::{Json, JsonValue, Member};
use crate::subscription::{
    subscription_views, BindingView, DesiredBinding, Subscription, SubscriptionView,
};
use crate::text::{among, is_among};
use crate::wire::{parse, parsed};
use vstd::prelude::*;

verus! {

/// The views of `texts`, in their order.
pub open spec fn text_views(texts: Seq<String>) -> Seq<Seq<char>> {
    Seq::new(texts.len(), |i: int| texts[i]@)
}

/// The capability that sign-in yields and every later call presents.
#[derive(Clone, Debug, PartialEq, Eq)]
pub struct Token {
    pub value: String,
}

impl View for Token {
    type V = Seq<char>;

    open spec fn view(&self) -> Seq<char> {
        self.value@
    }
}

impl Token {
    /// A copy of this token.
    pub fn duplicate(&self) -> (r: Token)
        ensures
            r@ == self@,
    {
        Token { value: self.value.clone() }
    }
}

/// How a request is made.
#[derive(Clone, Copy, Debug, PartialEq, Eq, Structural)]
pub enum Verb {
    Get,
    Post,
}

/// A call to the provider, ready to be sent. It cannot be printed: the body
/// of the sign-in call holds the secrets.
#[derive(PartialEq, Eq)]
pub struct Request {
    pub verb: Verb,
    pub url: String,
    /// The value of the `Authorization` header, where the call carries one.
    pub authorization: Option<String>,
    /// The JSON document to send, where the call carries one.
    pub body: Option<Json>,
}

pub struct RequestView {
    pub verb: Verb,
    pub url: Seq<char>,
    pub authorization: Option<Seq<char>>,
    pub body: Option<JsonValue>,
}

impl View for Request {
    type V = RequestView;

    open spec fn view(&self) -> RequestView {
        RequestView {
            verb: self.verb,
            url: self.url@,
            authorization: match self.authorization {
                Some(a) => Some(a@),
                None => None,
            },
            body: match self.body {
                Some(b) => Some(b@),
                None => None,
            },
        }
    }
}

/// What came back for a request.
#[derive(Clone, Debug, PartialEq, Eq)]
pub enum Reply {
    /// Nothing came back: the provider could not be reached, or the call
    /// ran out of time.
    Unreachable,
    /// The provider answered with `status` and `body`.
    Answered { status: u16, body: Vec<u8> },
}

/// Why a call to the provider yielded nothing.
#[derive(Clone, Copy, Debug, PartialEq, Eq, Structural)]
pub enum Fault {
    /// Nothing came back.
    Unreachable,
    /// The provider answered with a status that does not mean success.
    Status(u16),
    /// The provider's answer is not the document that the call expects.
    Malformed,
}

/// Sign-in failed.
#[derive(Clone, Copy, Debug, PartialEq, Eq, Structural)]
pub struct AuthError {
    pub fault: Fault,
}

/// A call other than sign-in failed.
#[derive(Clone, Copy, Debug, PartialEq, Eq, Structural)]
pub struct UpstreamError {
    pub fault: Fault,
}

/// Whether `status` means success.
pub open spec fn is_success(status: u16) -> bool {
    200 <= status < 300
}

/// The document that an answer with `status` carries, whose body reads as
/// `doc`, where `None` stands for a body that is not JSON. A status that
/// does not mean success goes before an unreadable body.
pub open spec fn answer(status: u16, doc: Option<JsonValue>) -> Result<JsonValue, Fault> {
    if !is_success(status) {
        Err(Fault::Status(status))
    } else {
        match doc {
            Some(d) => Ok(d),
            None => Err(Fault::Malformed),
        }
    }
}

/// The document that `reply` carries.
pub open spec fn answer_of(reply: Reply) -> Result<JsonValue, Fault> {
    match reply {
        Reply::Unreachable => Err(Fault::Unreachable),
        Reply::Answered { status, body } => answer(status, parsed(body@)),
    }
}

/// The view of a document or a fault.
pub open spec fn answer_view(r: Result<Json, Fault>) -> Result<JsonValue, Fault> {
    match r {
        Ok(doc) => Ok(doc@),
        Err(fault) => Err(fault),
    }
}

/// Settles what an answer with `status` carries, once its body was read as
/// `doc`, where `None` stands for a body that is not JSON.
pub fn settle(status: u16, doc: Option<Json>) -> (r: Result<Json, Fault>)
    ensures
        answer_view(r) == answer(
            status,
            match doc {
                Some(d) => Some(d@),
                None => None,
            },
        ),
{
    if status < 200 || status >= 300 {
        Err(Fault::Status(status))
    } else {
        match doc {
            Some(d) => Ok(d),
            None => Err(Fault::Malformed),
        }
    }
}

/// Reads the document that `reply` carries.
pub fn read_reply(reply: &Reply) -> (r: Result<Json, Fault>)
    ensures
        answer_view(r) == answer_of(*reply),
{
    match reply {
        Reply::Unreachable => Err(Fault::Unreachable),
        Reply::Answered { status, body } => settle(*status, parse(body.as_slice())),
    }
}

/// The object whose two entries name `first.1` as `first.0` and `second.1`
/// as `second.0`.
pub open spec fn pair_of_texts(
    first: (Seq<char>, Seq<char>),
    second: (Seq<char>, Seq<char>),
) -> JsonValue {
    JsonValue::Object(
        seq![(first.0, JsonValue::Text(first.1)), (second.0, JsonValue::Text(second.1))],
    )
}

/// Builds the object of two entries.
fn object_of_two(first: Member, second: Member) -> (r: Json)
    ensures
        r@ == JsonValue::Object(seq![(first.name@, first.value@), (second.name@, second.value@)]),
{
    let mut members: Vec<Member> = Vec::new();
    members.push(first);
    members.push(second);
    let doc = Json::Object(members);
    assert(doc@->Object_0 =~= seq![(first.name@, first.value@), (second.name@, second.value@)]);
    doc
}

/// The call that trades `credentials` for a token.
pub open spec fn sign_in_call(credentials: CredentialsView) -> RequestView {
    RequestView {
        verb: Verb::Post,
        url: base_url() + "/developer/sign-in"@,
        authorization: None,
        body: Some(
            pair_of_texts(
                ("apiKey"@, credentials.api_key),
                ("apiSecret"@, credentials.api_secret),
            ),
        ),
    }
}

/// The call that lists the kinds of event that the provider offers.
pub open spec fn events_call(token: Seq<char>) -> RequestView {
    RequestView {
        verb: Verb::Get,
        url: base_url() + "/webhooks/event"@,
        authorization: Some(bearer_prefix() + token),
        body: None,
    }
}

/// The call that lists the subscriptions that the provider holds.
pub open spec fn subscriptions_call(token: Seq<char>) -> RequestView {
    RequestView {
        verb: Verb::Get,
        url: base_url() + "/webhooks/subscription"@,
        authorization: Some(bearer_prefix() + token),
        body: None,
    }
}

/// The call that creates the subscription that `binding` asks for.
pub open spec fn subscribe_call(token: Seq<char>, binding: BindingView) -> RequestView {
    RequestView {
        verb: Verb::Post,
        url: base_url() + "/webhooks/subscription"@,
        authorization: Some(bearer_prefix() + token),
        body: Some(
            pair_of_texts(("event"@, binding.event_kind), ("targetUrl"@, binding.target_url)),
        ),
    }
}

/// Builds the call that trades `credentials` for a token.
pub fn sign_in_request(credentials: &Credentials) -> (r: Request)
    ensures
        r@ == sign_in_call(credentials@),
{
    let body = object_of_two(
        Member::text("apiKey", credentials.api_key()),
        Member::text("apiSecret", credentials.api_secret()),
    );
    Request {
        verb: Verb::Post,
        url: url("/developer/sign-in"),
        authorization: None,
        body: Some(body),
    }
}

/// Builds the call that lists the kinds of event that the provider offers.
pub fn events_request(token: &Token) -> (r: Request)
    ensures
        r@ == events_call(token@),
{
    Request {
        verb: Verb::Get,
        url: url("/webhooks/event"),
        authorization: Some(auth(token.value.as_str())),
        body: None,
    }
}

/// Builds the call that lists the subscriptions that the provider holds.
pub fn subscriptions_request(token: &Token) -> (r: Request)
    ensures
        r@ == subscriptions_call(token@),
{
    Request {
        verb: Verb::Get,
        url: url("/webhooks/subscription"),
        authorization: Some(auth(token.value.as_str())),
        body: None,
    }
}

/// Builds the call that creates the subscription that `binding` asks for.
pub fn subscribe_request(token: &Token, binding: &DesiredBinding) -> (r: Request)
    ensures
        r@ == subscribe_call(token@, binding@),
{
    let body = object_of_two(
        Member::text("event", binding.event_kind.as_str()),
        Member::text("targetUrl", binding.target_url.as_str()),
    );
    Request {
        verb: Verb::Post,
        url: url("/webhooks/subscription"),
        authorization: Some(auth(token.value.as_str())),
        body: Some(body),
    }
}

/// The token that the answer to sign-in holds in `token`.
pub open spec fn token_in(answer: Result<JsonValue, Fault>) -> Result<Seq<char>, AuthError> {
    match answer {
        Ok(doc) => match text_in(doc, "token"@) {
            Some(value) => Ok(value),
            None => Err(AuthError { fault: Fault::Malformed }),
        },
        Err(fault) => Err(AuthError { fault }),
    }
}

/// The view of a token or the failure to get one.
pub open spec fn token_view(r: Result<Token, AuthError>) -> Result<Seq<char>, AuthError> {
    match r {
        Ok(token) => Ok(token@),
        Err(e) => Err(e),
    }
}

/// Takes the token out of the answer to sign-in.
pub fn token_from(answer: Result<Json, Fault>) -> (r: Result<Token, AuthError>)
    ensures
        token_view(r) == token_in(answer_view(answer)),
{
    match answer {
        Ok(doc) => match read_text(&doc, "token") {
            Some(value) => Ok(Token { value }),
            None => Err(AuthError { fault: Fault::Malformed }),
        },
        Err(fault) => Err(AuthError { fault }),
    }
}

/// Reads the reply to sign-in: a token, unless the provider was not
/// reached, refused, or answered with something else than a token.
pub fn token_of(reply: &Reply) -> (r: Result<Token, AuthError>)
    ensures
        token_view(r) == token_in(answer_of(*reply)),
{
    token_from(read_reply(reply))
}

/// The texts that the array `doc` lists, in its order.
pub open spec fn texts_of(doc: JsonValue) -> Option<Seq<Seq<char>>> {
    match doc {
        JsonValue::Array(items) => if forall|i: int|
            0 <= i < items.len() ==> (#[trigger] items[i]) is Text {
            Some(Seq::new(items.len(), |i: int| items[i]->Text_0))
        } else {
            None
        },
        _ => None,
    }
}

/// `texts` as a set that keeps an order: each text once, at the place of
/// its first occurrence among the others.
pub open spec fn without_repeats(texts: Seq<Seq<char>>) -> Seq<Seq<char>>
    decreases texts.len(),
{
    if texts.len() == 0 {
        texts
    } else {
        let before = without_repeats(texts.drop_last());
        if before.contains(texts.last()) {
            before
        } else {
            before.push(texts.last())
        }
    }
}

/// `without_repeats` yields a set: no text stands in it twice, and it
/// holds a text exactly when `texts` does.
pub proof fn without_repeats_is_a_set(texts: Seq<Seq<char>>)
    ensures
        without_repeats(texts).no_duplicates(),
        forall|text: Seq<char>| #[trigger]
            without_repeats(texts).contains(text) <==> texts.contains(text),
    decreases texts.len(),
{
    let all = without_repeats(texts);
    if texts.len() > 0 {
        let shorter = texts.drop_last();
        let before = without_repeats(shorter);
        without_repeats_is_a_set(shorter);
        assert forall|text: Seq<char>| #[trigger] all.contains(text) <==> texts.contains(
            text,
        ) by {
            if all.contains(text) {
                let i = choose|i: int| 0 <= i < all.len() && all[i] == text;
                if i < before.len() {
                    assert(before[i] == text);
                    assert(before.contains(text));
                    let j = choose|j: int| 0 <= j < shorter.len() && shorter[j] == text;
                    assert(texts[j] == text);
                } else {
                    assert(texts[texts.len() - 1] == text);
                }
            }
            if texts.contains(text) {
                let j = choose|j: int| 0 <= j < texts.len() && texts[j] == text;
                if j < shorter.len() {
                    assert(shorter[j] == text);
                    assert(before.contains(text));
                    let i = choose|i: int| 0 <= i < before.len() && before[i] == text;
                    assert(all[i] == text);
                } else if before.contains(text) {
                } else {
                    assert(all[all.len() - 1] == text);
                }
            }
        }
    }
}

/// Whether a text is among some texts, said of their views.
pub proof fn among_is_contains(text: Seq<char>, texts: Seq<String>)
    ensures
        among(text, texts) == text_views(texts).contains(text),
{
    let views = text_views(texts);
    if among(text, texts) {
        let i = choose|i: int| 0 <= i < texts.len() && (#[trigger] texts[i])@ == text;
        assert(views[i] == text);
    }
    if views.contains(text) {
        let i = choose|i: int| 0 <= i < views.len() && views[i] == text;
        assert(texts[i]@ == text);
    }
}

/// The kinds of event that the answer to the catalog call lists in
/// `events`. The catalog is a set: a kind that the provider lists more than
/// once stands in it once, where it was listed first.
pub open spec fn kinds_in(answer: Result<JsonValue, Fault>) -> Result<
    Seq<Seq<char>>,
    UpstreamError,
> {
    match answer {
        Ok(doc) => match doc.member("events"@) {
            Some(list) => match texts_of(list) {
                Some(kinds) => Ok(without_repeats(kinds)),
                None => Err(UpstreamError { fault: Fault::Malformed }),
            },
            None => Err(UpstreamError { fault: Fault::Malformed }),
        },
        Err(fault) => Err(UpstreamError { fault }),
    }
}

/// The view of a list of kinds or the failure to get one.
pub open spec fn kinds_view(r: Result<Vec<String>, UpstreamError>) -> Result<
    Seq<Seq<char>>,
    UpstreamError,
> {
    match r {
        Ok(kinds) => Ok(text_views(kinds@)),
        Err(e) => Err(e),
    }
}

/// Reads an array of texts.
pub fn decode_texts(doc: &Json) -> (r: Option<Vec<String>>)
    ensures
        r is Some <==> texts_of(doc@) is Some,
        r matches Some(texts) ==> texts_of(doc@) == Some(text_views(texts@)),
{
    match doc {
        Json::Array(items) => {
            let ghost values = doc@->Array_0;
            let mut texts: Vec<String> = Vec::new();
            let mut i: usize = 0;
            while i < items.len()
                invariant
                    i <= items.len(),
                    doc@ == JsonValue::Array(values),
                    values.len() == items@.len(),
                    forall|k: int| 0 <= k < items@.len() ==> #[trigger] values[k] == items@[k]@,
                    texts@.len() == i,
                    forall|k: int|
                        0 <= k < i ==> (#[trigger] values[k]) == JsonValue::Text(texts@[k]@),
                decreases items.len() - i,
            {
                match &items[i] {
                    Json::Text(t) => {
                        texts.push(t.clone());
                    },
                    _ => {
                        assert(!(values[i as int] is Text));
                        return None;
                    },
                }
                i += 1;
            }
            assert(texts_of(doc@).unwrap() =~= text_views(texts@));
            Some(texts)
        },
        _ => None,
    }
}

/// Leaves out of `texts` every text that stands in it before.
pub fn drop_repeats(texts: &Vec<String>) -> (r: Vec<String>)
    ensures
        text_views(r@) == without_repeats(text_views(texts@)),
        text_views(r@).no_duplicates(),
{
    let ghost all = text_views(texts@);
    let mut kept: Vec<String> = Vec::new();
    let mut i: usize = 0;
    assert(text_views(kept@) =~= without_repeats(all.take(0)));
    while i < texts.len()
        invariant
            i <= texts.len(),
            all == text_views(texts@),
            text_views(kept@) == without_repeats(all.take(i as int)),
        decreases texts.len() - i,
    {
        let ghost before = text_views(kept@);
        proof {
            assert(all.take(i + 1).drop_last() =~= all.take(i as int));
            assert(all.take(i + 1).last() == texts@[i as int]@);
            among_is_contains(texts@[i as int]@, kept@);
        }
        if !is_among(texts[i].as_str(), &kept) {
            kept.push(texts[i].clone());
            assert(text_views(kept@) =~= before.push(texts@[i as int]@));
        }
        i += 1;
    }
    proof {
        assert(all.take(texts.len() as int) =~= all);
        without_repeats_is_a_set(all);
    }
    kept
}

/// Takes the kinds of event out of the answer to the catalog call. No kind
/// stands in the result twice.
pub fn kinds_from(answer: Result<Json, Fault>) -> (r: Result<Vec<String>, UpstreamError>)
    ensures
        kinds_view(r) == kinds_in(answer_view(answer)),
        r matches Ok(kinds) ==> text_views(kinds@).no_duplicates(),
{
    match answer {
        Ok(doc) => match doc.member("events") {
            Some(list) => match decode_texts(list) {
                Some(listed) => Ok(drop_repeats(&listed)),
                None => Err(UpstreamError { fault: Fault::Malformed }),
            },
            None => Err(UpstreamError { fault: Fault::Malformed }),
        },
        Err(fault) => Err(UpstreamError { fault }),
    }
}

/// Reads the reply to the catalog call: the kinds of event on offer, each
/// once.
pub fn kinds_of(reply: &Reply) -> (r: Result<Vec<String>, UpstreamError>)
    ensures
        kinds_view(r) == kinds_in(answer_of(*reply)),
        r matches Ok(kinds) ==> text_views(kinds@).no_duplicates(),
{
    kinds_from(read_reply(reply))
}

/// The subscription that `doc` describes.
pub open spec fn subscription_of(doc: JsonValue) -> Option<SubscriptionView> {
    match (text_in(doc, "id"@), text_in(doc, "event"@), text_in(doc, "targetUrl"@)) {
        (Some(id), Some(event_kind), Some(target_url)) => Some(
            SubscriptionView { id, event_kind, target_url },
        ),
        _ => None,
    }
}

/// The subscriptions that the array `doc` lists, in its order.
pub open spec fn subscriptions_of(doc: JsonValue) -> Option<Seq<SubscriptionView>> {
    match doc {
        JsonValue::Array(items) => if forall|i: int|
            0 <= i < items.len() ==> (#[trigger] subscription_of(items[i])) is Some {
            Some(Seq::new(items.len(), |i: int| subscription_of(items[i]).unwrap()))
        } else {
            None
        },
        _ => None,
    }
}

/// The subscription that the answer to a create call describes.
pub open spec fn created_in(answer: Result<JsonValue, Fault>) -> Result<
    SubscriptionView,
    UpstreamError,
> {
    match answer {
        Ok(doc) => match subscription_of(doc) {
            Some(subscription) => Ok(subscription),
            None => Err(UpstreamError { fault: Fault::Malformed }),
        },
        Err(fault) => Err(UpstreamError { fault }),
    }
}

/// The subscriptions that the answer to the list call holds in
/// `subscriptions`.
pub open spec fn listed_in(answer: Result<JsonValue, Fault>) -> Result<
    Seq<SubscriptionView>,
    UpstreamError,
> {
    match answer {
        Ok(doc) => match doc.member("subscriptions"@) {
            Some(list) => match subscriptions_of(list) {
                Some(subscriptions) => Ok(subscriptions),
                None => Err(UpstreamError { fault: Fault::Malformed }),
            },
            None => Err(UpstreamError { fault: Fault::Malformed }),
        },
        Err(fault) => Err(UpstreamError { fault }),
    }
}

/// The view of a subscription or the failure to get one.
pub open spec fn created_view(r: Result<Subscription, UpstreamError>) -> Result<
    SubscriptionView,
    UpstreamError,
> {
    match r {
        Ok(subscription) => Ok(subscription@),
        Err(e) => Err(e),
    }
}

/// The view of a list of subscriptions or the failure to get one.
pub open spec fn listed_view(r: Result<Vec<Subscription>, UpstreamError>) -> Result<
    Seq<SubscriptionView>,
    UpstreamError,
> {
    match r {
        Ok(subscriptions) => Ok(subscription_views(subscriptions@)),
        Err(e) => Err(e),
    }
}

/// Decodes one subscription.
pub fn decode_subscription(doc: &Json) -> (r: Option<Subscription>)
    ensures
        r is Some <==> subscription_of(doc@) is Some,
        r matches Some(s) ==> subscription_of(doc@) == Some(s@),
{
    let id = read_text(doc, "id");
    let event_kind = read_text(doc, "event");
    let target_url = read_text(doc, "targetUrl");
    match (id, event_kind, target_url) {
        (Some(id), Some(event_kind), Some(target_url)) => Some(
            Subscription { id, event_kind, target_url },
        ),
        _ => None,
    }
}

/// Decodes an array of subscriptions.
pub fn decode_subscriptions(doc: &Json) -> (r: Option<Vec<Subscription>>)
    ensures
        r is Some <==> subscriptions_of(doc@) is Some,
        r matches Some(list) ==> subscriptions_of(doc@) == Some(subscription_views(list@)),
{
    match doc {
        Json::Array(items) => {
            let ghost values = doc@->Array_0;
            let mut list: Vec<Subscription> = Vec::new();
            let mut i: usize = 0;
            while i < items.len()
                invariant
                    i <= items.len(),
                    doc@ == JsonValue::Array(values),
                    values.len() == items@.len(),
                    forall|k: int| 0 <= k < items@.len() ==> #[trigger] values[k] == items@[k]@,
                    list@.len() == i,
                    forall|k: int|
                        0 <= k < i ==> subscription_of(#[trigger] values[k]) == Some(list@[k]@),
                decreases items.len() - i,
            {
                match decode_subscription(&items[i]) {
                    Some(subscription) => {
                        list.push(subscription);
                    },
                    None => {
                        assert(subscription_of(values[i as int]) is None);
                        return None;
                    },
                }
                i += 1;
            }
            assert(subscriptions_of(doc@).unwrap() =~= subscription_views(list@));
            Some(list)
        },
        _ => None,
    }
}

/// Takes the subscription out of the answer to a create call.
pub fn created_from(answer: Result<Json, Fault>) -> (r: Result<Subscription, UpstreamError>)
    ensures
        created_view(r) == created_in(answer_view(answer)),
{
    match answer {
        Ok(doc) => match decode_subscription(&doc) {
            Some(subscription) => Ok(subscription),
            None => Err(UpstreamError { fault: Fault::Malformed }),
        },
        Err(fault) => Err(UpstreamError { fault }),
    }
}

/// Reads the reply to a create call: the subscription that now exists.
pub fn created_of(reply: &Reply) -> (r: Result<Subscription, UpstreamError>)
    ensures
        created_view(r) == created_in(answer_of(*reply)),
{
    created_from(read_reply(reply))
}

/// Takes the subscriptions out of the answer to the list call.
pub fn listed_from(answer: Result<Json, Fault>) -> (r: Result<Vec<Subscription>, UpstreamError>)
    ensures
        listed_view(r) == listed_in(answer_view(answer)),
{
    match answer {
        Ok(doc) => match doc.member("subscriptions") {
            Some(list) => match decode_subscriptions(list) {
                Some(subscriptions) => Ok(subscriptions),
                None => Err(UpstreamError { fault: Fault::Malformed }),
            },
            None => Err(UpstreamError { fault: Fault::Malformed }),
        },
        Err(fault) => Err(UpstreamError { fault }),
    }
}

/// Reads the reply to the list call: the subscriptions that the provider
/// holds.
pub fn listed_of(reply: &Reply) -> (r: Result<Vec<Subscription>, UpstreamError>)
    ensures
        listed_view(r) == listed_in(answer_of(*reply)),
{
    listed_from(read_reply(reply))
}

} // verus!
