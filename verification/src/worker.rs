//! Connection worker: the frame-processing chain of one stream
//! connection. Each text frame runs Decoder -> Router -> Store to
//! completion before the next frame is taken, and every per-frame
//! failure (decode, schema, unknown type) is contained at the frame
//! boundary: it never stops the stream, and it never touches the
//! store.

use crate::envelope::{decode_frame, ContentValue, DecodeError, EnvelopeSpec};
use crate::envelope::envelope_spec;
use crate::events::{route_event, route_spec, EventView, RouteData, RouteResult, UserView};
use crate::events::WebsocketEvent;
use crate::store::{upsert_effect, PresenceStore, UserRecordView};
use vstd::prelude::*;
use vstd::string::StringExecFns;

verus! {

/// Whether the url crate accepts a string as a URL; acceptance is a
/// function of the characters alone.
pub uninterp spec fn url_parse_ok(s: Seq<char>) -> bool;

/// Relies on url::Url::parse: it accepts or refuses a string on its
/// characters alone, and returns no other observable effect here.
#[verifier::external_body]
fn url_is_valid(s: &str) -> (r: bool)
    ensures
        r == url_parse_ok(s@),
{
    url::Url::parse(s).is_ok()
}

/// Everything a transport needs to open one stream connection.
pub struct ConnectionRequest {
    /// The endpoint with the session token embedded.
    pub url: String,
    /// The identifying User-Agent header value.
    pub user_agent: String,
}

/// A fatal configuration error: the pipeline never starts on it.
#[derive(Clone, Copy, PartialEq, Eq, Structural, Debug)]
pub enum ConfigError {
    /// The endpoint built from the token is not a valid URL.
    InvalidEndpoint,
}

/// Build the connection request for a session token: the stream
/// endpoint with the token embedded, and the client's User-Agent.
/// An endpoint the URL grammar refuses is a fatal configuration
/// error, surfaced before any connection is attempted.
pub fn prepare_connection(auth_token: &str) -> (r: Result<ConnectionRequest, ConfigError>)
    ensures
        match r {
            Ok(req) => req.url@ == "wss://pipeline.vrchat.cloud/?authToken="@ + auth_token@
                && url_parse_ok(req.url@) && req.user_agent@ == "botan_core/0.1.0"@,
            Err(e) => e == ConfigError::InvalidEndpoint && !url_parse_ok(
                "wss://pipeline.vrchat.cloud/?authToken="@ + auth_token@,
            ),
        },
{
    let mut url = String::from_str("wss://pipeline.vrchat.cloud/?authToken=");
    url.append(auth_token);
    if url_is_valid(url.as_str()) {
        Ok(ConnectionRequest { url, user_agent: String::from_str("botan_core/0.1.0") })
    } else {
        Err(ConfigError::InvalidEndpoint)
    }
}

/// One frame as the transport hands it over: a text frame's bytes, or
/// any other kind (binary, ping, pong, close), which carries no event.
pub enum Frame {
    Text(Vec<u8>),
    NonText,
}

/// Spec-level frame.
pub enum FrameData {
    Text(Seq<u8>),
    NonText,
}

impl View for Frame {
    type V = FrameData;

    open spec fn view(&self) -> FrameData {
        match self {
            Frame::Text(b) => FrameData::Text(b@),
            Frame::NonText => FrameData::NonText,
        }
    }
}

/// What processing one frame came to. Every variant but `Persisted`
/// leaves the store untouched; none of them ends the connection.
#[derive(Clone, Copy, PartialEq, Eq, Structural, Debug)]
pub enum FrameOutcome {
    /// A snapshot-bearing event was routed and merged.
    Persisted,
    /// The event was accepted but carries no snapshot to persist.
    NoSnapshot,
    /// The type string belongs to no known schema; dropped.
    UnknownType,
    /// The content does not fit the type's schema; dropped.
    SchemaMismatch,
    /// The frame was rejected at the decode stage; dropped.
    DecodeFailed(DecodeError),
    /// Not a text frame; nothing to do.
    NonText,
}

/// The snapshot an event asks the store to merge: every variant
/// carries one except `friend-offline`, which has none.
pub open spec fn event_snapshot(e: EventView) -> Option<UserView> {
    match e {
        EventView::FriendAdd(a) => Some(a.user),
        EventView::FriendDelete(d) => Some(d.user),
        EventView::FriendOnline(o) => Some(o.user),
        EventView::FriendActive(a) => Some(a.user),
        EventView::FriendOffline(o) => None,
        EventView::FriendUpdate(u) => Some(u.user),
        EventView::FriendLocation(l) => Some(l.user),
    }
}

/// The store contents after one routed event.
pub open spec fn event_effect(db: Seq<UserRecordView>, e: EventView, now: int) -> Seq<
    UserRecordView,
> {
    match event_snapshot(e) {
        Some(u) => upsert_effect(db, u, now),
        None => db,
    }
}

/// The store contents after one frame.
#[verifier::opaque]
pub open spec fn frame_effect(db: Seq<UserRecordView>, f: FrameData, now: int) -> Seq<
    UserRecordView,
> {
    match f {
        FrameData::NonText => db,
        FrameData::Text(bytes) => match envelope_spec(bytes) {
            EnvelopeSpec::BadFrame => db,
            EnvelopeSpec::BadContent => db,
            EnvelopeSpec::Frame(ty, c) => match route_spec(ty, c) {
                RouteData::Event(e) => event_effect(db, e, now),
                RouteData::UnknownType => db,
                RouteData::SchemaMismatch => db,
            },
        },
    }
}

/// The outcome one frame comes to.
#[verifier::opaque]
pub open spec fn frame_outcome_spec(f: FrameData) -> FrameOutcome {
    match f {
        FrameData::NonText => FrameOutcome::NonText,
        FrameData::Text(bytes) => match envelope_spec(bytes) {
            EnvelopeSpec::BadFrame => FrameOutcome::DecodeFailed(DecodeError::MalformedFrame),
            EnvelopeSpec::BadContent => FrameOutcome::DecodeFailed(DecodeError::MalformedContent),
            EnvelopeSpec::Frame(ty, c) => match route_spec(ty, c) {
                RouteData::Event(e) => match event_snapshot(e) {
                    Some(u) => FrameOutcome::Persisted,
                    None => FrameOutcome::NoSnapshot,
                },
                RouteData::UnknownType => FrameOutcome::UnknownType,
                RouteData::SchemaMismatch => FrameOutcome::SchemaMismatch,
            },
        },
    }
}

/// The store contents after a run of frames, each processed to
/// completion before the next.
pub open spec fn frames_effect(db: Seq<UserRecordView>, fs: Seq<FrameData>, now: int) -> Seq<
    UserRecordView,
>
    decreases fs.len(),
{
    if fs.len() == 0 {
        db
    } else {
        frames_effect(frame_effect(db, fs[0], now), fs.subrange(1, fs.len() as int), now)
    }
}

/// Spec view of a frame vector.
pub open spec fn frames_view(fs: Seq<Frame>) -> Seq<FrameData> {
    Seq::new(fs.len(), |k: int| fs[k]@)
}

/// A frame the decoder rejects never touches the store, so the frame
/// after it is processed exactly as if the rejected frame had not
/// arrived.
pub proof fn lemma_decode_failure_isolated(
    db: Seq<UserRecordView>,
    bad: Seq<u8>,
    next: FrameData,
    now: int,
)
    requires
        envelope_spec(bad) is BadFrame || envelope_spec(bad) is BadContent,
    ensures
        frames_effect(db, seq![FrameData::Text(bad), next], now) == frames_effect(
            db,
            seq![next],
            now,
        ),
{
    reveal(frame_effect);
    let two = seq![FrameData::Text(bad), next];
    let one = seq![next];
    assert(frame_effect(db, two[0], now) == db);
    assert(two.subrange(1, 2) =~= one);
    assert(one.subrange(1, 1) =~= Seq::<FrameData>::empty());
}

/// A `friend-offline` event carries no snapshot, so it never changes
/// the Users table.
pub proof fn lemma_offline_changes_nothing(db: Seq<UserRecordView>, e: EventView, now: int)
    requires
        e is FriendOffline,
    ensures
        event_effect(db, e, now) == db,
{
}

/// The connection worker's frame chain. The struct itself is
/// stateless: all durable effect lives in the store it is handed.
pub struct PipelineHandler {}

impl PipelineHandler {
    pub fn new() -> (h: PipelineHandler) {
        PipelineHandler {  }
    }

    /// Route one decoded `(event_type, content)` pair and apply its
    /// domain action to the store: an upsert of the carried snapshot,
    /// or nothing. A `friend-offline` event, an unknown type and a
    /// schema mismatch all leave the store exactly unchanged.
    pub fn process_websocket_event(
        &self,
        store: &mut PresenceStore,
        event_type: &[u8],
        content: &ContentValue,
        now_ms: i64,
    ) -> (oc: FrameOutcome)
        requires
            old(store).wf(),
        ensures
            final(store).wf(),
            ({
                match route_spec(event_type@, content@) {
                    RouteData::Event(e) => final(store)@ == event_effect(
                        old(store)@,
                        e,
                        now_ms as int,
                    ) && oc == (match event_snapshot(e) {
                        Some(u) => FrameOutcome::Persisted,
                        None => FrameOutcome::NoSnapshot,
                    }),
                    RouteData::UnknownType => final(store)@ == old(store)@ && oc
                        == FrameOutcome::UnknownType,
                    RouteData::SchemaMismatch => final(store)@ == old(store)@ && oc
                        == FrameOutcome::SchemaMismatch,
                }
            }),
    {
        match route_event(event_type, content) {
            RouteResult::UnknownType => FrameOutcome::UnknownType,
            RouteResult::SchemaMismatch => FrameOutcome::SchemaMismatch,
            RouteResult::Event(ev) => match ev {
                WebsocketEvent::FriendOffline(_e) => FrameOutcome::NoSnapshot,
                WebsocketEvent::FriendAdd(e) => {
                    store.upsert_user(&e.user, now_ms);
                    FrameOutcome::Persisted
                },
                WebsocketEvent::FriendDelete(e) => {
                    store.upsert_user(&e.user, now_ms);
                    FrameOutcome::Persisted
                },
                WebsocketEvent::FriendOnline(e) => {
                    store.upsert_user(&e.user, now_ms);
                    FrameOutcome::Persisted
                },
                WebsocketEvent::FriendActive(e) => {
                    store.upsert_user(&e.user, now_ms);
                    FrameOutcome::Persisted
                },
                WebsocketEvent::FriendUpdate(e) => {
                    store.upsert_user(&e.user, now_ms);
                    FrameOutcome::Persisted
                },
                WebsocketEvent::FriendLocation(e) => {
                    store.upsert_user(&e.user, now_ms);
                    FrameOutcome::Persisted
                },
            },
        }
    }

    /// Process one frame through Decoder -> Router -> Store. Every
    /// failure is contained at the frame boundary: the outcome says
    /// what happened, the store changes only when a snapshot-bearing
    /// event was accepted, and no outcome ends the connection.
    pub fn handle_frame(&self, store: &mut PresenceStore, frame: &Frame, now_ms: i64) -> (oc:
        FrameOutcome)
        requires
            old(store).wf(),
        ensures
            final(store).wf(),
            final(store)@ == frame_effect(old(store)@, frame@, now_ms as int),
            oc == frame_outcome_spec(frame@),
    {
        proof {
            reveal(frame_effect);
            reveal(frame_outcome_spec);
        }
        match frame {
            Frame::NonText => FrameOutcome::NonText,
            Frame::Text(bytes) => match decode_frame(bytes.as_slice()) {
                Err(e) => FrameOutcome::DecodeFailed(e),
                Ok(env) => self.process_websocket_event(
                    store,
                    env.event_type.as_slice(),
                    &env.content,
                    now_ms,
                ),
            },
        }
    }

    /// Process a run of frames in order, one to completion before the
    /// next. The store ends exactly as the per-frame effects compose,
    /// and the outcomes report each frame's fate: in particular, a
    /// decode failure on one frame never prevents the frames after it
    /// from being processed.
    #[verifier::rlimit(100)]
    pub fn process_frames(&self, store: &mut PresenceStore, frames: &Vec<Frame>, now_ms: i64) -> (
        ocs: Vec<FrameOutcome>)
        requires
            old(store).wf(),
        ensures
            final(store).wf(),
            final(store)@ == frames_effect(old(store)@, frames_view(frames@), now_ms as int),
            ocs@.len() == frames@.len(),
            forall|k: int| 0 <= k < frames@.len() ==> ocs@[k] == frame_outcome_spec(frames@[k]@),
    {
        let mut ocs: Vec<FrameOutcome> = Vec::new();
        let mut idx: usize = 0;
        let ghost fs = frames_view(frames@);
        proof {
            assert(fs.subrange(0, fs.len() as int) =~= fs);
        }
        while idx < frames.len()
            invariant
                idx <= frames.len(),
                store.wf(),
                fs == frames_view(frames@),
                fs.len() == frames@.len(),
                frames_effect(old(store)@, fs, now_ms as int) == frames_effect(
                    store@,
                    fs.subrange(idx as int, fs.len() as int),
                    now_ms as int,
                ),
                ocs@.len() == idx,
                forall|k: int| 0 <= k < idx ==> ocs@[k] == frame_outcome_spec(frames@[k]@),
            decreases frames.len() - idx,
        {
            let ghost pre = store@;
            let ghost rest = fs.subrange(idx as int, fs.len() as int);
            let oc = self.handle_frame(store, &frames[idx], now_ms);
            ocs.push(oc);
            proof {
                assert(rest[0] == fs[idx as int]);
                assert(store@ == frame_effect(pre, rest[0], now_ms as int));
                assert(frames_effect(pre, rest, now_ms as int) == frames_effect(
                    store@,
                    rest.subrange(1, rest.len() as int),
                    now_ms as int,
                ));
                assert(rest.subrange(1, rest.len() as int) =~= fs.subrange(
                    idx + 1,
                    fs.len() as int,
                ));
            }
            idx = idx + 1;
        }
        proof {
            assert(fs.subrange(fs.len() as int, fs.len() as int) =~= Seq::<FrameData>::empty());
        }
        ocs
    }
}

} // verus!
