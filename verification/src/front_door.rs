//! The front door: each request goes either to the liveness endpoint or to the
//! static assets, and a request that names no asset is answered with the
//! fallback document.
//!
//! The front door reads no file itself. It says what to read next, and the
//! caller hands back what it found.

use vstd::prelude::*;
use crate::cors::states_policy;
use crate::health::{health_check, health_reply};
use crate::reply::{not_found_reply, ok_reply, Reply, ReplyView, STATUS_OK};

verus! {

/// The directory under which the static assets lie.
pub const ASSET_ROOT: &'static str = "static";

/// The document that is sent in place of an asset that does not exist.
pub const FALLBACK_DOCUMENT: &'static str = "static/index.html";

/// Where a request goes.
#[derive(Debug, Clone, Copy, PartialEq, Eq, Structural)]
pub enum Route {
    /// The liveness endpoint.
    Health,
    /// The static assets.
    Asset,
}

/// The one path of the liveness endpoint.
pub open spec fn health_path() -> Seq<char> {
    "/api/health"@
}

/// Whether `path` lies under the prefix that is set aside for endpoints.
pub open spec fn has_api_prefix(path: Seq<char>) -> bool {
    "/api"@.is_prefix_of(path)
}

/// Where the request for `path` goes: the liveness endpoint for exactly its
/// own path, the static assets for every other path.
pub open spec fn route_of(path: Seq<char>) -> Route {
    if path == health_path() {
        Route::Health
    } else {
        Route::Asset
    }
}

/// A document read from the static assets, with the content type that the
/// reader gave it.
#[derive(Debug, PartialEq, Eq)]
pub struct Asset {
    pub content_type: String,
    pub bytes: Vec<u8>,
}

/// An asset as mathematical data.
pub ghost struct AssetView {
    pub content_type: Seq<char>,
    pub bytes: Seq<u8>,
}

impl View for Asset {
    type V = AssetView;

    open spec fn view(&self) -> AssetView {
        AssetView { content_type: self.content_type@, bytes: self.bytes@ }
    }
}

/// What the caller does next.
#[derive(Debug, PartialEq, Eq)]
pub enum Action {
    /// Send this reply; the request is done.
    Send(Reply),
    /// Look the request's path up under the asset root and report the result
    /// to `on_asset`.
    ReadAsset,
    /// Read the fallback document and report the result to `on_fallback`.
    ReadFallback,
}

/// An action as mathematical data.
pub ghost enum ActionView {
    Send(ReplyView),
    ReadAsset,
    ReadFallback,
}

impl View for Action {
    type V = ActionView;

    open spec fn view(&self) -> ActionView {
        match self {
            Action::Send(reply) => ActionView::Send(reply@),
            Action::ReadAsset => ActionView::ReadAsset,
            Action::ReadFallback => ActionView::ReadFallback,
        }
    }
}

/// The view of an asset that may be missing.
pub open spec fn found_view(found: Option<Asset>) -> Option<AssetView> {
    match found {
        Some(asset) => Some(asset@),
        None => None,
    }
}

/// The successful reply that sends an asset as it is.
pub open spec fn asset_reply(asset: AssetView) -> ReplyView {
    ok_reply(asset.content_type, asset.bytes)
}

/// The first step: the liveness endpoint answers at once, every other path
/// is looked up among the assets.
pub open spec fn after_request(path: Seq<char>) -> ActionView {
    match route_of(path) {
        Route::Health => ActionView::Send(health_reply()),
        Route::Asset => ActionView::ReadAsset,
    }
}

/// The second step: an asset that was found is sent, for one that was not
/// the fallback document is read.
pub open spec fn after_asset(found: Option<AssetView>) -> ActionView {
    match found {
        Some(asset) => ActionView::Send(asset_reply(asset)),
        None => ActionView::ReadFallback,
    }
}

/// The last step: the fallback document is sent in place of the asset. Only
/// where it is missing too is there nothing to send.
pub open spec fn after_fallback(fallback: Option<AssetView>) -> ReplyView {
    match fallback {
        Some(document) => asset_reply(document),
        None => not_found_reply(),
    }
}

/// The reply that the three steps arrive at for a request, given what the
/// asset root holds for its path and what the fallback document is.
pub open spec fn answer(
    path: Seq<char>,
    found: Option<AssetView>,
    fallback: Option<AssetView>,
) -> ReplyView {
    match after_request(path) {
        ActionView::Send(reply) => reply,
        _ => match after_asset(found) {
            ActionView::Send(reply) => reply,
            _ => after_fallback(fallback),
        },
    }
}

/// Whether two texts are the same, decided on their bytes.
fn same_text(left: &str, right: &str) -> (same: bool)
    ensures
        same == (left@ == right@),
{
    let a = left.as_bytes();
    let b = right.as_bytes();
    if a.len() != b.len() {
        return false;
    }
    let mut at: usize = 0;
    while at < a.len()
        invariant
            at <= a.len(),
            a.len() == b.len(),
            a@ == vstd::utf8::encode_utf8(left@),
            b@ == vstd::utf8::encode_utf8(right@),
            a@.subrange(0, at as int) == b@.subrange(0, at as int),
        decreases a.len() - at,
    {
        if a[at] != b[at] {
            return false;
        }
        assert(a@.subrange(0, at + 1) =~= a@.subrange(0, at as int).push(a@[at as int]));
        assert(b@.subrange(0, at + 1) =~= b@.subrange(0, at as int).push(b@[at as int]));
        at = at + 1;
    }
    proof {
        assert(a@ =~= a@.subrange(0, at as int));
        assert(b@ =~= b@.subrange(0, at as int));
        vstd::utf8::encode_utf8_decode_utf8(left@);
        vstd::utf8::encode_utf8_decode_utf8(right@);
    }
    true
}

/// Decides where the request for `path` goes. `path` is the path of the
/// request's target, without the query. Nothing else is looked at: the method,
/// the query, the header lines and the body of a request play no part.
pub fn dispatch(path: &str) -> (route: Route)
    ensures
        route == route_of(path@),
{
    if same_text(path, "/api/health") {
        Route::Health
    } else {
        Route::Asset
    }
}

/// Takes a request in: answers the liveness endpoint at once and asks for the
/// asset otherwise.
pub fn on_request(path: &str) -> (action: Action)
    ensures
        action@ == after_request(path@),
{
    match dispatch(path) {
        Route::Health => Action::Send(health_check()),
        Route::Asset => Action::ReadAsset,
    }
}

/// Takes the result of the asset lookup in: sends the asset unchanged where
/// there is one and asks for the fallback document otherwise.
pub fn on_asset(found: Option<Asset>) -> (action: Action)
    ensures
        action@ == after_asset(found_view(found)),
{
    match found {
        Some(asset) => Action::Send(Reply::ok(asset.content_type.as_str(), asset.bytes)),
        None => Action::ReadFallback,
    }
}

/// Takes the fallback document in and sends it unchanged. Where the
/// fallback is missing as well, the reply says that nothing was found.
pub fn on_fallback(fallback: Option<Asset>) -> (reply: Reply)
    ensures
        reply@ == after_fallback(found_view(fallback)),
{
    match fallback {
        Some(document) => Reply::ok(document.content_type.as_str(), document.bytes),
        None => Reply::not_found(),
    }
}

/// Answers a request in one call, for a caller that holds both lookups
/// already: runs the three steps in order.
pub fn respond(path: &str, found: Option<Asset>, fallback: Option<Asset>) -> (reply: Reply)
    ensures
        reply@ == answer(path@, found_view(found), found_view(fallback)),
{
    match on_request(path) {
        Action::Send(reply) => reply,
        _ => match on_asset(found) {
            Action::Send(reply) => reply,
            _ => on_fallback(fallback),
        },
    }
}

/// The path of the liveness endpoint lies under the endpoint prefix, so a
/// path outside that prefix always goes to the static assets.
pub proof fn outside_prefix_goes_to_assets(path: Seq<char>)
    requires
        !has_api_prefix(path),
    ensures
        route_of(path) == Route::Asset,
        after_request(path) == ActionView::ReadAsset,
{
    reveal_strlit("/api");
    reveal_strlit("/api/health");
    if path == health_path() {
        assert("/api"@ =~= path.subrange(0, 4));
    }
}

/// Every request for the path of the liveness endpoint gets the same reply:
/// the fixed report, whatever the asset root and the fallback hold.
pub proof fn health_answer_is_fixed(
    path: Seq<char>,
    found: Option<AssetView>,
    fallback: Option<AssetView>,
)
    requires
        path == health_path(),
    ensures
        answer(path, found, fallback) == health_reply(),
        answer(path, found, fallback).status == STATUS_OK,
{
}

/// A request outside the endpoint prefix is answered from the assets: with
/// the asset, byte for byte and under its own content type, where the path
/// names one; with the fallback document otherwise. Either way the reply is a
/// success, as long as there is a fallback document to fall back on.
pub proof fn asset_answer_is_asset_or_fallback(
    path: Seq<char>,
    found: Option<AssetView>,
    fallback: Option<AssetView>,
)
    requires
        !has_api_prefix(path),
        found is Some || fallback is Some,
    ensures
        found is Some ==> answer(path, found, fallback) == asset_reply(found->0),
        found is None ==> answer(path, found, fallback) == asset_reply(fallback->0),
        answer(path, found, fallback).status == STATUS_OK,
        found is Some ==> answer(path, found, fallback).body == (found->0).bytes,
        found is None ==> answer(path, found, fallback).body == (fallback->0).bytes,
{
    outside_prefix_goes_to_assets(path);
}

/// Every reply that the front door arrives at states the cross-origin
/// policy, whichever route the request took and whatever was found.
pub proof fn every_answer_states_policy(
    path: Seq<char>,
    found: Option<AssetView>,
    fallback: Option<AssetView>,
)
    ensures
        states_policy(answer(path, found, fallback).headers),
{
    let reply = answer(path, found, fallback);
    let policy = crate::cors::policy_headers();
    assert forall|i: int| 0 <= i < policy.len() implies reply.headers.contains(
        #[trigger] policy[i],
    ) by {
        if reply.headers.len() == policy.len() {
            assert(reply.headers[i] == policy[i]);
        } else {
            assert(reply.headers[i + 1] == policy[i]);
        }
    }
}

} // verus!
