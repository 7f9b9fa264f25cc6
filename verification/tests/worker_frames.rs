use botan_core::envelope::DecodeError;
use botan_core::store::PresenceStore;
use botan_core::worker::{Frame, FrameOutcome, PipelineHandler};

fn add_frame(id: &str, name: &str) -> Frame {
    let text = format!(
        r#"{{"type":"friend-add","content":{{"userId":"{id}","user":{{"id":"{id}","displayName":"{name}","status":"active","statusDescription":""}}}}}}"#
    );
    Frame::Text(text.into_bytes())
}

#[test]
fn friend_add_persists_snapshot() {
    let handler = PipelineHandler::new();
    let mut store = PresenceStore::new();
    let oc = handler.handle_frame(&mut store, &add_frame("usr_1", "Ann"), 10);
    assert_eq!(oc, FrameOutcome::Persisted);
    assert_eq!(store.find_user(b"usr_1").unwrap().display_name, b"Ann".to_vec());
}

#[test]
fn friend_offline_changes_nothing() {
    let handler = PipelineHandler::new();
    let mut store = PresenceStore::new();
    handler.handle_frame(&mut store, &add_frame("usr_1", "Ann"), 10);
    let offline = Frame::Text(
        br#"{"type":"friend-offline","content":{"userId":"usr_1","platform":"web"}}"#.to_vec(),
    );
    let oc = handler.handle_frame(&mut store, &offline, 11);
    assert_eq!(oc, FrameOutcome::NoSnapshot);
    assert_eq!(store.len(), 1);
    assert_eq!(store.find_user(b"usr_1").unwrap().display_name, b"Ann".to_vec());
}

#[test]
fn unknown_type_is_dropped() {
    let handler = PipelineHandler::new();
    let mut store = PresenceStore::new();
    let frame = Frame::Text(br#"{"type":"world-updated","content":{}}"#.to_vec());
    assert_eq!(handler.handle_frame(&mut store, &frame, 1), FrameOutcome::UnknownType);
    assert_eq!(store.len(), 0);
}

#[test]
fn schema_mismatch_is_dropped() {
    let handler = PipelineHandler::new();
    let mut store = PresenceStore::new();
    let frame = Frame::Text(br#"{"type":"friend-add","content":{"userId":7}}"#.to_vec());
    assert_eq!(handler.handle_frame(&mut store, &frame, 1), FrameOutcome::SchemaMismatch);
    assert_eq!(store.len(), 0);
}

#[test]
fn decode_failure_does_not_block_next_frame() {
    let handler = PipelineHandler::new();
    let mut store = PresenceStore::new();
    let frames = vec![
        Frame::Text(b"{broken".to_vec()),
        add_frame("usr_2", "Bea"),
    ];
    let outcomes = handler.process_frames(&mut store, &frames, 5);
    assert_eq!(outcomes[0], FrameOutcome::DecodeFailed(DecodeError::MalformedFrame));
    assert_eq!(outcomes[1], FrameOutcome::Persisted);
    assert_eq!(store.find_user(b"usr_2").unwrap().display_name, b"Bea".to_vec());
}

#[test]
fn string_then_object_content_end_with_final_name() {
    let handler = PipelineHandler::new();
    let mut store = PresenceStore::new();
    let first = Frame::Text(
        br#"{"type":"friend-add","content":"{\"userId\":\"usr_1\",\"user\":{\"id\":\"usr_1\",\"displayName\":\"Ann\",\"status\":\"active\"}}"}"#
            .to_vec(),
    );
    let second = Frame::Text(
        br#"{"type":"friend-update","content":{"userId":"usr_1","user":{"id":"usr_1","displayName":"Annie","status":"active"}}}"#
            .to_vec(),
    );
    let outcomes = handler.process_frames(&mut store, &vec![first, second], 42);
    assert_eq!(outcomes, vec![FrameOutcome::Persisted, FrameOutcome::Persisted]);
    assert_eq!(store.len(), 1);
    assert_eq!(store.find_user(b"usr_1").unwrap().display_name, b"Annie".to_vec());
}

#[test]
fn non_text_frames_are_ignored() {
    let handler = PipelineHandler::new();
    let mut store = PresenceStore::new();
    assert_eq!(handler.handle_frame(&mut store, &Frame::NonText, 0), FrameOutcome::NonText);
    assert_eq!(store.len(), 0);
}

#[test]
fn events_with_optional_fields_route() {
    let handler = PipelineHandler::new();
    let mut store = PresenceStore::new();
    let online = Frame::Text(
        br#"{"type":"friend-online","content":{"userId":"usr_3","platform":null,"location":"wrld_1:1","canRequestInvite":true,"user":{"id":"usr_3","displayName":"Cid","status":"join me","bio":"hi"}}}"#
            .to_vec(),
    );
    assert_eq!(handler.handle_frame(&mut store, &online, 1), FrameOutcome::Persisted);
    let location = Frame::Text(
        br#"{"type":"friend-location","content":{"userId":"usr_3","location":"wrld_2:5","travelingToLocation":null,"worldId":"wrld_2","canRequestInvite":false,"user":{"id":"usr_3","displayName":"Cid","status":"busy"}}}"#
            .to_vec(),
    );
    assert_eq!(handler.handle_frame(&mut store, &location, 2), FrameOutcome::Persisted);
    assert_eq!(store.find_user(b"usr_3").unwrap().status, b"busy".to_vec());
    let missing_invite = Frame::Text(
        br#"{"type":"friend-online","content":{"userId":"usr_3","user":{"id":"usr_3","displayName":"Cid","status":"busy"}}}"#
            .to_vec(),
    );
    assert_eq!(handler.handle_frame(&mut store, &missing_invite, 3), FrameOutcome::SchemaMismatch);
}

#[test]
fn friend_delete_and_active_persist() {
    let handler = PipelineHandler::new();
    let mut store = PresenceStore::new();
    let delete = Frame::Text(
        br#"{"type":"friend-delete","content":{"user":{"id":"usr_4","displayName":"Dee","status":"offline"}}}"#
            .to_vec(),
    );
    assert_eq!(handler.handle_frame(&mut store, &delete, 1), FrameOutcome::Persisted);
    let active = Frame::Text(
        br#"{"type":"friend-active","content":{"userId":"usr_4","platform":"standalonewindows","user":{"id":"usr_4","displayName":"Dee","status":"active"}}}"#
            .to_vec(),
    );
    assert_eq!(handler.handle_frame(&mut store, &active, 2), FrameOutcome::Persisted);
    assert_eq!(store.len(), 1);
    assert_eq!(store.find_user(b"usr_4").unwrap().status, b"active".to_vec());
}
