//! Event router: maps a decoded `(event_type, content)` pair onto a
//! typed presence event. Each event type has a fixed schema over the
//! content object; a content that does not fit the schema, or a type
//! string no schema owns, is dropped by the caller, never escalated.
//!
//! A user snapshot carries the fields the store tracks: `id` and
//! `displayName` are required strings, `username` is optional,
//! `bio` and `statusDescription` default to empty, `status` is a
//! required string.

use crate::envelope::{ContentData, ContentValue};
use crate::json::{
    bytes_eq, copy_bytes, json_top, obj_get, obj_lookup, parse_top, FieldData, JsonField, JsonObj,
    JsonTop, TopData,
};
use vstd::prelude::*;

verus! {

/// The member key `id`.
pub open spec fn id_key() -> Seq<u8> {
    seq![0x69u8, 0x64]
}

/// The member key `username`.
pub open spec fn username_key() -> Seq<u8> {
    seq![0x75u8, 0x73, 0x65, 0x72, 0x6e, 0x61, 0x6d, 0x65]
}

/// The member key `displayName`.
pub open spec fn display_name_key() -> Seq<u8> {
    seq![0x64u8, 0x69, 0x73, 0x70, 0x6c, 0x61, 0x79, 0x4e, 0x61, 0x6d, 0x65]
}

/// The member key `bio`.
pub open spec fn bio_key() -> Seq<u8> {
    seq![0x62u8, 0x69, 0x6f]
}

/// The member key `status`.
pub open spec fn status_key() -> Seq<u8> {
    seq![0x73u8, 0x74, 0x61, 0x74, 0x75, 0x73]
}

/// The member key `statusDescription`.
pub open spec fn status_description_key() -> Seq<u8> {
    seq![0x73u8, 0x74, 0x61, 0x74, 0x75, 0x73, 0x44, 0x65, 0x73, 0x63, 0x72, 0x69, 0x70, 0x74, 0x69, 0x6f, 0x6e]
}

/// The member key `userId`.
pub open spec fn user_id_key() -> Seq<u8> {
    seq![0x75u8, 0x73, 0x65, 0x72, 0x49, 0x64]
}

/// The member key `user`.
pub open spec fn user_key() -> Seq<u8> {
    seq![0x75u8, 0x73, 0x65, 0x72]
}

/// The member key `platform`.
pub open spec fn platform_key() -> Seq<u8> {
    seq![0x70u8, 0x6c, 0x61, 0x74, 0x66, 0x6f, 0x72, 0x6d]
}

/// The member key `location`.
pub open spec fn location_key() -> Seq<u8> {
    seq![0x6cu8, 0x6f, 0x63, 0x61, 0x74, 0x69, 0x6f, 0x6e]
}

/// The member key `worldId`.
pub open spec fn world_id_key() -> Seq<u8> {
    seq![0x77u8, 0x6f, 0x72, 0x6c, 0x64, 0x49, 0x64]
}

/// The member key `canRequestInvite`.
pub open spec fn can_request_invite_key() -> Seq<u8> {
    seq![0x63u8, 0x61, 0x6e, 0x52, 0x65, 0x71, 0x75, 0x65, 0x73, 0x74, 0x49, 0x6e, 0x76, 0x69, 0x74, 0x65]
}

/// The member key `travelingToLocation`.
pub open spec fn traveling_to_location_key() -> Seq<u8> {
    seq![0x74u8, 0x72, 0x61, 0x76, 0x65, 0x6c, 0x69, 0x6e, 0x67, 0x54, 0x6f, 0x4c, 0x6f, 0x63, 0x61, 0x74, 0x69, 0x6f, 0x6e]
}

/// The member key `friend-add`.
pub open spec fn friend_add_tag() -> Seq<u8> {
    seq![0x66u8, 0x72, 0x69, 0x65, 0x6e, 0x64, 0x2d, 0x61, 0x64, 0x64]
}

/// The member key `friend-delete`.
pub open spec fn friend_delete_tag() -> Seq<u8> {
    seq![0x66u8, 0x72, 0x69, 0x65, 0x6e, 0x64, 0x2d, 0x64, 0x65, 0x6c, 0x65, 0x74, 0x65]
}

/// The member key `friend-online`.
pub open spec fn friend_online_tag() -> Seq<u8> {
    seq![0x66u8, 0x72, 0x69, 0x65, 0x6e, 0x64, 0x2d, 0x6f, 0x6e, 0x6c, 0x69, 0x6e, 0x65]
}

/// The member key `friend-active`.
pub open spec fn friend_active_tag() -> Seq<u8> {
    seq![0x66u8, 0x72, 0x69, 0x65, 0x6e, 0x64, 0x2d, 0x61, 0x63, 0x74, 0x69, 0x76, 0x65]
}

/// The member key `friend-offline`.
pub open spec fn friend_offline_tag() -> Seq<u8> {
    seq![0x66u8, 0x72, 0x69, 0x65, 0x6e, 0x64, 0x2d, 0x6f, 0x66, 0x66, 0x6c, 0x69, 0x6e, 0x65]
}

/// The member key `friend-update`.
pub open spec fn friend_update_tag() -> Seq<u8> {
    seq![0x66u8, 0x72, 0x69, 0x65, 0x6e, 0x64, 0x2d, 0x75, 0x70, 0x64, 0x61, 0x74, 0x65]
}

/// The member key `friend-location`.
pub open spec fn friend_location_tag() -> Seq<u8> {
    seq![0x66u8, 0x72, 0x69, 0x65, 0x6e, 0x64, 0x2d, 0x6c, 0x6f, 0x63, 0x61, 0x74, 0x69, 0x6f, 0x6e]
}


/// Spec-level user snapshot.
pub struct UserView {
    pub id: Seq<u8>,
    pub username: Option<Seq<u8>>,
    pub display_name: Seq<u8>,
    pub bio: Seq<u8>,
    pub status: Seq<u8>,
    pub status_description: Seq<u8>,
}

/// A remote user's identity snapshot as one event carries it.
pub struct User {
    pub id: Vec<u8>,
    pub username: Option<Vec<u8>>,
    pub display_name: Vec<u8>,
    pub bio: Vec<u8>,
    pub status: Vec<u8>,
    pub status_description: Vec<u8>,
}

/// View of an optional byte string.
pub open spec fn opt_bytes_view(v: Option<Vec<u8>>) -> Option<Seq<u8>> {
    match v {
        Some(b) => Some(b@),
        None => None,
    }
}

impl View for User {
    type V = UserView;

    open spec fn view(&self) -> UserView {
        UserView {
            id: self.id@,
            username: opt_bytes_view(self.username),
            display_name: self.display_name@,
            bio: self.bio@,
            status: self.status@,
            status_description: self.status_description@,
        }
    }
}

pub struct FriendAddView {
    pub user_id: Seq<u8>,
    pub user: UserView,
}

pub struct FriendAddEvent {
    pub user_id: Vec<u8>,
    pub user: User,
}

impl View for FriendAddEvent {
    type V = FriendAddView;

    open spec fn view(&self) -> FriendAddView {
        FriendAddView { user_id: self.user_id@, user: self.user@ }
    }
}

pub struct FriendDeleteView {
    pub user: UserView,
}

pub struct FriendDeleteEvent {
    pub user: User,
}

impl View for FriendDeleteEvent {
    type V = FriendDeleteView;

    open spec fn view(&self) -> FriendDeleteView {
        FriendDeleteView { user: self.user@ }
    }
}

pub struct FriendOnlineView {
    pub user_id: Seq<u8>,
    pub platform: Option<Seq<u8>>,
    pub location: Option<Seq<u8>>,
    pub can_request_invite: bool,
    pub user: UserView,
}

pub struct FriendOnlineEvent {
    pub user_id: Vec<u8>,
    pub platform: Option<Vec<u8>>,
    pub location: Option<Vec<u8>>,
    pub can_request_invite: bool,
    pub user: User,
}

impl View for FriendOnlineEvent {
    type V = FriendOnlineView;

    open spec fn view(&self) -> FriendOnlineView {
        FriendOnlineView {
            user_id: self.user_id@,
            platform: opt_bytes_view(self.platform),
            location: opt_bytes_view(self.location),
            can_request_invite: self.can_request_invite,
            user: self.user@,
        }
    }
}

pub struct FriendActiveView {
    pub user_id: Seq<u8>,
    pub platform: Option<Seq<u8>>,
    pub user: UserView,
}

pub struct FriendActiveEvent {
    pub user_id: Vec<u8>,
    pub platform: Option<Vec<u8>>,
    pub user: User,
}

impl View for FriendActiveEvent {
    type V = FriendActiveView;

    open spec fn view(&self) -> FriendActiveView {
        FriendActiveView {
            user_id: self.user_id@,
            platform: opt_bytes_view(self.platform),
            user: self.user@,
        }
    }
}

pub struct FriendOfflineView {
    pub user_id: Seq<u8>,
    pub platform: Option<Seq<u8>>,
}

pub struct FriendOfflineEvent {
    pub user_id: Vec<u8>,
    pub platform: Option<Vec<u8>>,
}

impl View for FriendOfflineEvent {
    type V = FriendOfflineView;

    open spec fn view(&self) -> FriendOfflineView {
        FriendOfflineView { user_id: self.user_id@, platform: opt_bytes_view(self.platform) }
    }
}

pub struct FriendUpdateView {
    pub user_id: Seq<u8>,
    pub user: UserView,
}

pub struct FriendUpdateEvent {
    pub user_id: Vec<u8>,
    pub user: User,
}

impl View for FriendUpdateEvent {
    type V = FriendUpdateView;

    open spec fn view(&self) -> FriendUpdateView {
        FriendUpdateView { user_id: self.user_id@, user: self.user@ }
    }
}

pub struct FriendLocationView {
    pub user_id: Seq<u8>,
    pub location: Option<Seq<u8>>,
    pub traveling_to_location: Option<Seq<u8>>,
    pub world_id: Seq<u8>,
    pub can_request_invite: bool,
    pub user: UserView,
}

pub struct FriendLocationEvent {
    pub user_id: Vec<u8>,
    pub location: Option<Vec<u8>>,
    pub traveling_to_location: Option<Vec<u8>>,
    pub world_id: Vec<u8>,
    pub can_request_invite: bool,
    pub user: User,
}

impl View for FriendLocationEvent {
    type V = FriendLocationView;

    open spec fn view(&self) -> FriendLocationView {
        FriendLocationView {
            user_id: self.user_id@,
            location: opt_bytes_view(self.location),
            traveling_to_location: opt_bytes_view(self.traveling_to_location),
            world_id: self.world_id@,
            can_request_invite: self.can_request_invite,
            user: self.user@,
        }
    }
}

/// Spec-level tagged union over the seven presence event variants.
pub enum EventView {
    FriendAdd(FriendAddView),
    FriendDelete(FriendDeleteView),
    FriendOnline(FriendOnlineView),
    FriendActive(FriendActiveView),
    FriendOffline(FriendOfflineView),
    FriendUpdate(FriendUpdateView),
    FriendLocation(FriendLocationView),
}

/// Tagged union over the seven presence event variants.
pub enum WebsocketEvent {
    FriendAdd(FriendAddEvent),
    FriendDelete(FriendDeleteEvent),
    FriendOnline(FriendOnlineEvent),
    FriendActive(FriendActiveEvent),
    FriendOffline(FriendOfflineEvent),
    FriendUpdate(FriendUpdateEvent),
    FriendLocation(FriendLocationEvent),
}

impl View for WebsocketEvent {
    type V = EventView;

    open spec fn view(&self) -> EventView {
        match self {
            WebsocketEvent::FriendAdd(e) => EventView::FriendAdd(e@),
            WebsocketEvent::FriendDelete(e) => EventView::FriendDelete(e@),
            WebsocketEvent::FriendOnline(e) => EventView::FriendOnline(e@),
            WebsocketEvent::FriendActive(e) => EventView::FriendActive(e@),
            WebsocketEvent::FriendOffline(e) => EventView::FriendOffline(e@),
            WebsocketEvent::FriendUpdate(e) => EventView::FriendUpdate(e@),
            WebsocketEvent::FriendLocation(e) => EventView::FriendLocation(e@),
        }
    }
}

/// Required string member: present and a string, else no value.
pub open spec fn req_str(f: Seq<(Seq<u8>, FieldData)>, key: Seq<u8>) -> Option<Seq<u8>> {
    match obj_lookup(f, key) {
        Some(FieldData::Str(v)) => Some(v),
        _ => None,
    }
}

/// Optional string member: absent or null is an accepted absence,
/// a string is its value, any other shape is a mismatch (`None`).
pub open spec fn opt_str(f: Seq<(Seq<u8>, FieldData)>, key: Seq<u8>) -> Option<Option<Seq<u8>>> {
    match obj_lookup(f, key) {
        None => Some(None),
        Some(FieldData::Null) => Some(None),
        Some(FieldData::Str(v)) => Some(Some(v)),
        Some(_) => None,
    }
}

/// Required boolean member.
pub open spec fn req_bool(f: Seq<(Seq<u8>, FieldData)>, key: Seq<u8>) -> Option<bool> {
    match obj_lookup(f, key) {
        Some(FieldData::Bool(b)) => Some(b),
        _ => None,
    }
}

/// The user snapshot a member list describes, if it fits the schema.
pub open spec fn user_of_fields(f: Seq<(Seq<u8>, FieldData)>) -> Option<UserView> {
    match (
        req_str(f, id_key()),
        opt_str(f, username_key()),
        req_str(f, display_name_key()),
        opt_str(f, bio_key()),
        req_str(f, status_key()),
        opt_str(f, status_description_key()),
    ) {
        (Some(id), Some(un), Some(dn), Some(bio), Some(st), Some(sd)) => Some(
            UserView {
                id: id,
                username: un,
                display_name: dn,
                bio: match bio {
                    Some(b) => b,
                    None => Seq::empty(),
                },
                status: st,
                status_description: match sd {
                    Some(d) => d,
                    None => Seq::empty(),
                },
            },
        ),
        _ => None,
    }
}

/// The user snapshot a `user` member value describes: it must be a
/// nested object fitting the snapshot schema.
pub open spec fn user_of_field(fd: FieldData) -> Option<UserView> {
    match fd {
        FieldData::Composite(raw) => match json_top(raw) {
            Some(TopData::Obj(uf)) => user_of_fields(uf),
            _ => None,
        },
        _ => None,
    }
}

/// The `user` member of an event content object.
pub open spec fn user_member(f: Seq<(Seq<u8>, FieldData)>) -> Option<UserView> {
    match obj_lookup(f, user_key()) {
        Some(fd) => user_of_field(fd),
        None => None,
    }
}

pub open spec fn friend_add_of(f: Seq<(Seq<u8>, FieldData)>) -> Option<FriendAddView> {
    match (req_str(f, user_id_key()), user_member(f)) {
        (Some(uid), Some(u)) => Some(FriendAddView { user_id: uid, user: u }),
        _ => None,
    }
}

pub open spec fn friend_delete_of(f: Seq<(Seq<u8>, FieldData)>) -> Option<FriendDeleteView> {
    match user_member(f) {
        Some(u) => Some(FriendDeleteView { user: u }),
        None => None,
    }
}

pub open spec fn friend_online_of(f: Seq<(Seq<u8>, FieldData)>) -> Option<FriendOnlineView> {
    match (
        req_str(f, user_id_key()),
        opt_str(f, platform_key()),
        opt_str(f, location_key()),
        req_bool(f, can_request_invite_key()),
        user_member(f),
    ) {
        (Some(uid), Some(p), Some(l), Some(c), Some(u)) => Some(
            FriendOnlineView {
                user_id: uid,
                platform: p,
                location: l,
                can_request_invite: c,
                user: u,
            },
        ),
        _ => None,
    }
}

pub open spec fn friend_active_of(f: Seq<(Seq<u8>, FieldData)>) -> Option<FriendActiveView> {
    match (req_str(f, user_id_key()), opt_str(f, platform_key()), user_member(f)) {
        (Some(uid), Some(p), Some(u)) => Some(
            FriendActiveView { user_id: uid, platform: p, user: u },
        ),
        _ => None,
    }
}

pub open spec fn friend_offline_of(f: Seq<(Seq<u8>, FieldData)>) -> Option<FriendOfflineView> {
    match (req_str(f, user_id_key()), opt_str(f, platform_key())) {
        (Some(uid), Some(p)) => Some(FriendOfflineView { user_id: uid, platform: p }),
        _ => None,
    }
}

pub open spec fn friend_update_of(f: Seq<(Seq<u8>, FieldData)>) -> Option<FriendUpdateView> {
    match (req_str(f, user_id_key()), user_member(f)) {
        (Some(uid), Some(u)) => Some(FriendUpdateView { user_id: uid, user: u }),
        _ => None,
    }
}

pub open spec fn friend_location_of(f: Seq<(Seq<u8>, FieldData)>) -> Option<FriendLocationView> {
    match (
        req_str(f, user_id_key()),
        opt_str(f, location_key()),
        opt_str(f, traveling_to_location_key()),
        req_str(f, world_id_key()),
        req_bool(f, can_request_invite_key()),
        user_member(f),
    ) {
        (Some(uid), Some(l), Some(t), Some(w), Some(c), Some(u)) => Some(
            FriendLocationView {
                user_id: uid,
                location: l,
                traveling_to_location: t,
                world_id: w,
                can_request_invite: c,
                user: u,
            },
        ),
        _ => None,
    }
}

/// Spec-level routing outcome.
pub enum RouteData {
    Event(EventView),
    UnknownType,
    SchemaMismatch,
}

/// The routing table: which event (if any) a `(type, content)` pair
/// yields. A known type whose content does not fit its schema is a
/// mismatch; a type string outside the table is unknown. Both are
/// dropped by the caller, never escalated.
pub open spec fn route_spec(ty: Seq<u8>, c: ContentData) -> RouteData {
    if ty == friend_add_tag() {
        match c {
            ContentData::Obj(f) => match friend_add_of(f) {
                Some(e) => RouteData::Event(EventView::FriendAdd(e)),
                None => RouteData::SchemaMismatch,
            },
            ContentData::Other => RouteData::SchemaMismatch,
        }
    } else if ty == friend_delete_tag() {
        match c {
            ContentData::Obj(f) => match friend_delete_of(f) {
                Some(e) => RouteData::Event(EventView::FriendDelete(e)),
                None => RouteData::SchemaMismatch,
            },
            ContentData::Other => RouteData::SchemaMismatch,
        }
    } else if ty == friend_online_tag() {
        match c {
            ContentData::Obj(f) => match friend_online_of(f) {
                Some(e) => RouteData::Event(EventView::FriendOnline(e)),
                None => RouteData::SchemaMismatch,
            },
            ContentData::Other => RouteData::SchemaMismatch,
        }
    } else if ty == friend_active_tag() {
        match c {
            ContentData::Obj(f) => match friend_active_of(f) {
                Some(e) => RouteData::Event(EventView::FriendActive(e)),
                None => RouteData::SchemaMismatch,
            },
            ContentData::Other => RouteData::SchemaMismatch,
        }
    } else if ty == friend_offline_tag() {
        match c {
            ContentData::Obj(f) => match friend_offline_of(f) {
                Some(e) => RouteData::Event(EventView::FriendOffline(e)),
                None => RouteData::SchemaMismatch,
            },
            ContentData::Other => RouteData::SchemaMismatch,
        }
    } else if ty == friend_update_tag() {
        match c {
            ContentData::Obj(f) => match friend_update_of(f) {
                Some(e) => RouteData::Event(EventView::FriendUpdate(e)),
                None => RouteData::SchemaMismatch,
            },
            ContentData::Other => RouteData::SchemaMismatch,
        }
    } else if ty == friend_location_tag() {
        match c {
            ContentData::Obj(f) => match friend_location_of(f) {
                Some(e) => RouteData::Event(EventView::FriendLocation(e)),
                None => RouteData::SchemaMismatch,
            },
            ContentData::Other => RouteData::SchemaMismatch,
        }
    } else {
        RouteData::UnknownType
    }
}

/// Executable routing outcome.
pub enum RouteResult {
    Event(WebsocketEvent),
    UnknownType,
    SchemaMismatch,
}

impl View for RouteResult {
    type V = RouteData;

    open spec fn view(&self) -> RouteData {
        match self {
            RouteResult::Event(e) => RouteData::Event(e@),
            RouteResult::UnknownType => RouteData::UnknownType,
            RouteResult::SchemaMismatch => RouteData::SchemaMismatch,
        }
    }
}

/// Owned bytes of `id`.
pub fn id_key_x() -> (k: Vec<u8>)
    ensures
        k@ == id_key(),
{
    let k: Vec<u8> = vec![0x69u8, 0x64];
    proof {
        assert(k@ =~= id_key());
    }
    k
}

/// Owned bytes of `username`.
pub fn username_key_x() -> (k: Vec<u8>)
    ensures
        k@ == username_key(),
{
    let k: Vec<u8> = vec![0x75u8, 0x73, 0x65, 0x72, 0x6e, 0x61, 0x6d, 0x65];
    proof {
        assert(k@ =~= username_key());
    }
    k
}

/// Owned bytes of `displayName`.
pub fn display_name_key_x() -> (k: Vec<u8>)
    ensures
        k@ == display_name_key(),
{
    let k: Vec<u8> = vec![0x64u8, 0x69, 0x73, 0x70, 0x6c, 0x61, 0x79, 0x4e, 0x61, 0x6d, 0x65];
    proof {
        assert(k@ =~= display_name_key());
    }
    k
}

/// Owned bytes of `bio`.
pub fn bio_key_x() -> (k: Vec<u8>)
    ensures
        k@ == bio_key(),
{
    let k: Vec<u8> = vec![0x62u8, 0x69, 0x6f];
    proof {
        assert(k@ =~= bio_key());
    }
    k
}

/// Owned bytes of `status`.
pub fn status_key_x() -> (k: Vec<u8>)
    ensures
        k@ == status_key(),
{
    let k: Vec<u8> = vec![0x73u8, 0x74, 0x61, 0x74, 0x75, 0x73];
    proof {
        assert(k@ =~= status_key());
    }
    k
}

/// Owned bytes of `statusDescription`.
pub fn status_description_key_x() -> (k: Vec<u8>)
    ensures
        k@ == status_description_key(),
{
    let k: Vec<u8> = vec![0x73u8, 0x74, 0x61, 0x74, 0x75, 0x73, 0x44, 0x65, 0x73, 0x63, 0x72, 0x69, 0x70, 0x74, 0x69, 0x6f, 0x6e];
    proof {
        assert(k@ =~= status_description_key());
    }
    k
}

/// Owned bytes of `userId`.
pub fn user_id_key_x() -> (k: Vec<u8>)
    ensures
        k@ == user_id_key(),
{
    let k: Vec<u8> = vec![0x75u8, 0x73, 0x65, 0x72, 0x49, 0x64];
    proof {
        assert(k@ =~= user_id_key());
    }
    k
}

/// Owned bytes of `user`.
pub fn user_key_x() -> (k: Vec<u8>)
    ensures
        k@ == user_key(),
{
    let k: Vec<u8> = vec![0x75u8, 0x73, 0x65, 0x72];
    proof {
        assert(k@ =~= user_key());
    }
    k
}

/// Owned bytes of `platform`.
pub fn platform_key_x() -> (k: Vec<u8>)
    ensures
        k@ == platform_key(),
{
    let k: Vec<u8> = vec![0x70u8, 0x6c, 0x61, 0x74, 0x66, 0x6f, 0x72, 0x6d];
    proof {
        assert(k@ =~= platform_key());
    }
    k
}

/// Owned bytes of `location`.
pub fn location_key_x() -> (k: Vec<u8>)
    ensures
        k@ == location_key(),
{
    let k: Vec<u8> = vec![0x6cu8, 0x6f, 0x63, 0x61, 0x74, 0x69, 0x6f, 0x6e];
    proof {
        assert(k@ =~= location_key());
    }
    k
}

/// Owned bytes of `worldId`.
pub fn world_id_key_x() -> (k: Vec<u8>)
    ensures
        k@ == world_id_key(),
{
    let k: Vec<u8> = vec![0x77u8, 0x6f, 0x72, 0x6c, 0x64, 0x49, 0x64];
    proof {
        assert(k@ =~= world_id_key());
    }
    k
}

/// Owned bytes of `canRequestInvite`.
pub fn can_request_invite_key_x() -> (k: Vec<u8>)
    ensures
        k@ == can_request_invite_key(),
{
    let k: Vec<u8> = vec![0x63u8, 0x61, 0x6e, 0x52, 0x65, 0x71, 0x75, 0x65, 0x73, 0x74, 0x49, 0x6e, 0x76, 0x69, 0x74, 0x65];
    proof {
        assert(k@ =~= can_request_invite_key());
    }
    k
}

/// Owned bytes of `travelingToLocation`.
pub fn traveling_to_location_key_x() -> (k: Vec<u8>)
    ensures
        k@ == traveling_to_location_key(),
{
    let k: Vec<u8> = vec![0x74u8, 0x72, 0x61, 0x76, 0x65, 0x6c, 0x69, 0x6e, 0x67, 0x54, 0x6f, 0x4c, 0x6f, 0x63, 0x61, 0x74, 0x69, 0x6f, 0x6e];
    proof {
        assert(k@ =~= traveling_to_location_key());
    }
    k
}

/// Owned bytes of `friend-add`.
pub fn friend_add_tag_x() -> (k: Vec<u8>)
    ensures
        k@ == friend_add_tag(),
{
    let k: Vec<u8> = vec![0x66u8, 0x72, 0x69, 0x65, 0x6e, 0x64, 0x2d, 0x61, 0x64, 0x64];
    proof {
        assert(k@ =~= friend_add_tag());
    }
    k
}

/// Owned bytes of `friend-delete`.
pub fn friend_delete_tag_x() -> (k: Vec<u8>)
    ensures
        k@ == friend_delete_tag(),
{
    let k: Vec<u8> = vec![0x66u8, 0x72, 0x69, 0x65, 0x6e, 0x64, 0x2d, 0x64, 0x65, 0x6c, 0x65, 0x74, 0x65];
    proof {
        assert(k@ =~= friend_delete_tag());
    }
    k
}

/// Owned bytes of `friend-online`.
pub fn friend_online_tag_x() -> (k: Vec<u8>)
    ensures
        k@ == friend_online_tag(),
{
    let k: Vec<u8> = vec![0x66u8, 0x72, 0x69, 0x65, 0x6e, 0x64, 0x2d, 0x6f, 0x6e, 0x6c, 0x69, 0x6e, 0x65];
    proof {
        assert(k@ =~= friend_online_tag());
    }
    k
}

/// Owned bytes of `friend-active`.
pub fn friend_active_tag_x() -> (k: Vec<u8>)
    ensures
        k@ == friend_active_tag(),
{
    let k: Vec<u8> = vec![0x66u8, 0x72, 0x69, 0x65, 0x6e, 0x64, 0x2d, 0x61, 0x63, 0x74, 0x69, 0x76, 0x65];
    proof {
        assert(k@ =~= friend_active_tag());
    }
    k
}

/// Owned bytes of `friend-offline`.
pub fn friend_offline_tag_x() -> (k: Vec<u8>)
    ensures
        k@ == friend_offline_tag(),
{
    let k: Vec<u8> = vec![0x66u8, 0x72, 0x69, 0x65, 0x6e, 0x64, 0x2d, 0x6f, 0x66, 0x66, 0x6c, 0x69, 0x6e, 0x65];
    proof {
        assert(k@ =~= friend_offline_tag());
    }
    k
}

/// Owned bytes of `friend-update`.
pub fn friend_update_tag_x() -> (k: Vec<u8>)
    ensures
        k@ == friend_update_tag(),
{
    let k: Vec<u8> = vec![0x66u8, 0x72, 0x69, 0x65, 0x6e, 0x64, 0x2d, 0x75, 0x70, 0x64, 0x61, 0x74, 0x65];
    proof {
        assert(k@ =~= friend_update_tag());
    }
    k
}

/// Owned bytes of `friend-location`.
pub fn friend_location_tag_x() -> (k: Vec<u8>)
    ensures
        k@ == friend_location_tag(),
{
    let k: Vec<u8> = vec![0x66u8, 0x72, 0x69, 0x65, 0x6e, 0x64, 0x2d, 0x6c, 0x6f, 0x63, 0x61, 0x74, 0x69, 0x6f, 0x6e];
    proof {
        assert(k@ =~= friend_location_tag());
    }
    k
}


/// Required string member of a content object.
pub fn get_req_str(o: &JsonObj, key: &[u8]) -> (r: Option<Vec<u8>>)
    ensures
        match r {
            Some(v) => req_str(o@, key@) == Some(v@),
            None => req_str(o@, key@) is None,
        },
{
    match obj_get(o, key) {
        Some(JsonField::Str(v)) => Some(copy_bytes(v)),
        _ => None,
    }
}

/// Optional string member of a content object.
pub fn get_opt_str(o: &JsonObj, key: &[u8]) -> (r: Option<Option<Vec<u8>>>)
    ensures
        match r {
            Some(v) => opt_str(o@, key@) == Some(opt_bytes_view(v)),
            None => opt_str(o@, key@) is None,
        },
{
    match obj_get(o, key) {
        None => Some(None),
        Some(JsonField::Null) => Some(None),
        Some(JsonField::Str(v)) => Some(Some(copy_bytes(v))),
        Some(_) => None,
    }
}

/// Required boolean member of a content object.
pub fn get_req_bool(o: &JsonObj, key: &[u8]) -> (r: Option<bool>)
    ensures
        match r {
            Some(b) => req_bool(o@, key@) == Some(b),
            None => req_bool(o@, key@) is None,
        },
{
    match obj_get(o, key) {
        Some(JsonField::Bool(b)) => Some(*b),
        _ => None,
    }
}

/// Extract the user snapshot from a nested user object.
pub fn user_from_obj(o: &JsonObj) -> (r: Option<User>)
    ensures
        match r {
            Some(u) => user_of_fields(o@) == Some(u@),
            None => user_of_fields(o@) is None,
        },
{
    let id = get_req_str(o, id_key_x().as_slice());
    let un = get_opt_str(o, username_key_x().as_slice());
    let dn = get_req_str(o, display_name_key_x().as_slice());
    let bio = get_opt_str(o, bio_key_x().as_slice());
    let st = get_req_str(o, status_key_x().as_slice());
    let sd = get_opt_str(o, status_description_key_x().as_slice());
    match (id, un, dn, bio, st, sd) {
        (Some(id), Some(un), Some(dn), Some(bio), Some(st), Some(sd)) => {
            let bio_v: Vec<u8> = match bio {
                Some(b) => b,
                None => Vec::new(),
            };
            let sd_v: Vec<u8> = match sd {
                Some(d) => d,
                None => Vec::new(),
            };
            Some(
                User {
                    id,
                    username: un,
                    display_name: dn,
                    bio: bio_v,
                    status: st,
                    status_description: sd_v,
                },
            )
        },
        _ => None,
    }
}

/// Extract the user snapshot from the `user` member of a content
/// object.
pub fn user_from_member(o: &JsonObj) -> (r: Option<User>)
    ensures
        match r {
            Some(u) => user_member(o@) == Some(u@),
            None => user_member(o@) is None,
        },
{
    match obj_get(o, user_key_x().as_slice()) {
        Some(JsonField::Composite(raw)) => match parse_top(raw.as_slice()) {
            Some(JsonTop::Obj(uo)) => user_from_obj(&uo),
            _ => None,
        },
        _ => None,
    }
}

pub fn extract_friend_add(o: &JsonObj) -> (r: Option<FriendAddEvent>)
    ensures
        match r {
            Some(e) => friend_add_of(o@) == Some(e@),
            None => friend_add_of(o@) is None,
        },
{
    match (get_req_str(o, user_id_key_x().as_slice()), user_from_member(o)) {
        (Some(uid), Some(u)) => Some(FriendAddEvent { user_id: uid, user: u }),
        _ => None,
    }
}

pub fn extract_friend_delete(o: &JsonObj) -> (r: Option<FriendDeleteEvent>)
    ensures
        match r {
            Some(e) => friend_delete_of(o@) == Some(e@),
            None => friend_delete_of(o@) is None,
        },
{
    match user_from_member(o) {
        Some(u) => Some(FriendDeleteEvent { user: u }),
        None => None,
    }
}

pub fn extract_friend_online(o: &JsonObj) -> (r: Option<FriendOnlineEvent>)
    ensures
        match r {
            Some(e) => friend_online_of(o@) == Some(e@),
            None => friend_online_of(o@) is None,
        },
{
    match (
        get_req_str(o, user_id_key_x().as_slice()),
        get_opt_str(o, platform_key_x().as_slice()),
        get_opt_str(o, location_key_x().as_slice()),
        get_req_bool(o, can_request_invite_key_x().as_slice()),
        user_from_member(o),
    ) {
        (Some(uid), Some(p), Some(l), Some(c), Some(u)) => Some(
            FriendOnlineEvent {
                user_id: uid,
                platform: p,
                location: l,
                can_request_invite: c,
                user: u,
            },
        ),
        _ => None,
    }
}

pub fn extract_friend_active(o: &JsonObj) -> (r: Option<FriendActiveEvent>)
    ensures
        match r {
            Some(e) => friend_active_of(o@) == Some(e@),
            None => friend_active_of(o@) is None,
        },
{
    match (
        get_req_str(o, user_id_key_x().as_slice()),
        get_opt_str(o, platform_key_x().as_slice()),
        user_from_member(o),
    ) {
        (Some(uid), Some(p), Some(u)) => Some(
            FriendActiveEvent { user_id: uid, platform: p, user: u },
        ),
        _ => None,
    }
}

pub fn extract_friend_offline(o: &JsonObj) -> (r: Option<FriendOfflineEvent>)
    ensures
        match r {
            Some(e) => friend_offline_of(o@) == Some(e@),
            None => friend_offline_of(o@) is None,
        },
{
    match (
        get_req_str(o, user_id_key_x().as_slice()),
        get_opt_str(o, platform_key_x().as_slice()),
    ) {
        (Some(uid), Some(p)) => Some(FriendOfflineEvent { user_id: uid, platform: p }),
        _ => None,
    }
}

pub fn extract_friend_update(o: &JsonObj) -> (r: Option<FriendUpdateEvent>)
    ensures
        match r {
            Some(e) => friend_update_of(o@) == Some(e@),
            None => friend_update_of(o@) is None,
        },
{
    match (get_req_str(o, user_id_key_x().as_slice()), user_from_member(o)) {
        (Some(uid), Some(u)) => Some(FriendUpdateEvent { user_id: uid, user: u }),
        _ => None,
    }
}

pub fn extract_friend_location(o: &JsonObj) -> (r: Option<FriendLocationEvent>)
    ensures
        match r {
            Some(e) => friend_location_of(o@) == Some(e@),
            None => friend_location_of(o@) is None,
        },
{
    match (
        get_req_str(o, user_id_key_x().as_slice()),
        get_opt_str(o, location_key_x().as_slice()),
        get_opt_str(o, traveling_to_location_key_x().as_slice()),
        get_req_str(o, world_id_key_x().as_slice()),
        get_req_bool(o, can_request_invite_key_x().as_slice()),
        user_from_member(o),
    ) {
        (Some(uid), Some(l), Some(t), Some(w), Some(c), Some(u)) => Some(
            FriendLocationEvent {
                user_id: uid,
                location: l,
                traveling_to_location: t,
                world_id: w,
                can_request_invite: c,
                user: u,
            },
        ),
        _ => None,
    }
}

/// Route one decoded frame: the typed event on success, or which of
/// the two drop reasons applies.
pub fn route_event(event_type: &[u8], content: &ContentValue) -> (r: RouteResult)
    ensures
        r@ == route_spec(event_type@, content@),
{
    if bytes_eq(event_type, friend_add_tag_x().as_slice()) {
        match content {
            ContentValue::Obj(o) => match extract_friend_add(o) {
                Some(e) => RouteResult::Event(WebsocketEvent::FriendAdd(e)),
                None => RouteResult::SchemaMismatch,
            },
            ContentValue::Other => RouteResult::SchemaMismatch,
        }
    } else if bytes_eq(event_type, friend_delete_tag_x().as_slice()) {
        match content {
            ContentValue::Obj(o) => match extract_friend_delete(o) {
                Some(e) => RouteResult::Event(WebsocketEvent::FriendDelete(e)),
                None => RouteResult::SchemaMismatch,
            },
            ContentValue::Other => RouteResult::SchemaMismatch,
        }
    } else if bytes_eq(event_type, friend_online_tag_x().as_slice()) {
        match content {
            ContentValue::Obj(o) => match extract_friend_online(o) {
                Some(e) => RouteResult::Event(WebsocketEvent::FriendOnline(e)),
                None => RouteResult::SchemaMismatch,
            },
            ContentValue::Other => RouteResult::SchemaMismatch,
        }
    } else if bytes_eq(event_type, friend_active_tag_x().as_slice()) {
        match content {
            ContentValue::Obj(o) => match extract_friend_active(o) {
                Some(e) => RouteResult::Event(WebsocketEvent::FriendActive(e)),
                None => RouteResult::SchemaMismatch,
            },
            ContentValue::Other => RouteResult::SchemaMismatch,
        }
    } else if bytes_eq(event_type, friend_offline_tag_x().as_slice()) {
        match content {
            ContentValue::Obj(o) => match extract_friend_offline(o) {
                Some(e) => RouteResult::Event(WebsocketEvent::FriendOffline(e)),
                None => RouteResult::SchemaMismatch,
            },
            ContentValue::Other => RouteResult::SchemaMismatch,
        }
    } else if bytes_eq(event_type, friend_update_tag_x().as_slice()) {
        match content {
            ContentValue::Obj(o) => match extract_friend_update(o) {
                Some(e) => RouteResult::Event(WebsocketEvent::FriendUpdate(e)),
                None => RouteResult::SchemaMismatch,
            },
            ContentValue::Other => RouteResult::SchemaMismatch,
        }
    } else if bytes_eq(event_type, friend_location_tag_x().as_slice()) {
        match content {
            ContentValue::Obj(o) => match extract_friend_location(o) {
                Some(e) => RouteResult::Event(WebsocketEvent::FriendLocation(e)),
                None => RouteResult::SchemaMismatch,
            },
            ContentValue::Other => RouteResult::SchemaMismatch,
        }
    } else {
        RouteResult::UnknownType
    }
}

} // verus!
