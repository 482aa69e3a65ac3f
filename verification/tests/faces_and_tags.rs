use machinebox::facebox::{decode_check, decode_similar, Facebox};
use machinebox::json::{decode_ack, parse_raw_response};
use machinebox::tagbox;
use machinebox::tagbox::Tagbox;
use machinebox::Kind;

#[test]
fn face_check_decodes_a_matched_face() {
    let body = r#"{
        "success": true,
        "faces": [{
            "rect": {"top": 0, "left": 17, "width": 120, "height": 122},
            "id": "file6.jpg",
            "name": "John Lennon",
            "matched": true,
            "confidence": 0.97
        }]
    }"#;
    let reply = decode_check(body).unwrap();
    assert_eq!(reply.faces.len(), 1);
    assert_eq!(reply.faces[0].matched, true);
    assert_eq!(reply.faces[0].name.as_deref(), Some("John Lennon"));
    assert_eq!(reply.faces[0].rect.left, 17);
    assert_eq!(reply.faces[0].confidence, "0.97");
}

#[test]
fn face_check_failure_carries_the_error() {
    let body = r#"{"success":false,"error":"bad image"}"#;
    match decode_check(body) {
        Err(e) => match &e.kind {
            Kind::Service(m) => assert_eq!(m, "bad image"),
            _ => panic!("expected a service failure"),
        },
        Ok(_) => panic!("a rejecting envelope must not pass"),
    }
}

#[test]
fn malformed_body_is_a_decode_failure() {
    match decode_check("{not json") {
        Err(e) => assert!(matches!(e.kind, Kind::Decode(_))),
        Ok(_) => panic!("malformed JSON must not decode"),
    }
    match parse_raw_response("{not json") {
        Err(e) => assert!(matches!(e.kind, Kind::Decode(_))),
        Ok(_) => panic!("malformed JSON must not decode"),
    }
}

#[test]
fn missing_success_is_a_decode_failure() {
    match decode_check(r#"{"faces":[]}"#) {
        Err(e) => assert!(matches!(e.kind, Kind::Decode(_))),
        Ok(_) => panic!("an envelope without a success flag must not decode"),
    }
    match decode_ack(r#"{"error":"whatever"}"#) {
        Err(e) => assert!(matches!(e.kind, Kind::Decode(_))),
        Ok(_) => panic!("an envelope without a success flag must not decode"),
    }
}

#[test]
fn success_with_null_error_still_decodes() {
    let reply = decode_check(r#"{"success":true,"error":null}"#).unwrap();
    assert_eq!(reply.faces.len(), 0);
}

#[test]
fn face_with_null_name_decodes() {
    let body = r#"{
        "success": true,
        "faces": [{
            "rect": {"top": 0, "left": 1, "width": 2, "height": 3},
            "id": null,
            "name": null,
            "matched": false,
            "confidence": 0.5
        }]
    }"#;
    let reply = decode_check(body).unwrap();
    assert_eq!(reply.faces[0].id, None);
    assert_eq!(reply.faces[0].name, None);
}

#[test]
fn tag_with_null_confidence_decodes() {
    let body = r#"{"success":true,"tags":[{"tag":"sky","confidence":null}]}"#;
    let reply = tagbox::decode_check(body).unwrap();
    assert_eq!(reply.tags[0].confidence, None);
}

#[test]
fn success_ignores_a_populated_error() {
    let body = r#"{"success":true,"error":"spurious"}"#;
    let reply = decode_check(body).unwrap();
    assert_eq!(reply.faces.len(), 0);
}

#[test]
fn mistyped_success_is_a_decode_failure() {
    match decode_check(r#"{"success":"yes"}"#) {
        Err(e) => assert!(matches!(e.kind, Kind::Decode(_))),
        Ok(_) => panic!("a mistyped success flag must not decode"),
    }
}

#[test]
fn mistyped_payload_beats_a_failing_envelope() {
    let body = r#"{"success":false,"error":"no","faces":"zero"}"#;
    match decode_check(body) {
        Err(e) => assert!(matches!(e.kind, Kind::Decode(_))),
        Ok(_) => panic!("a mistyped payload must not decode"),
    }
}

#[test]
fn face_similar_decodes() {
    let body = r#"{
        "success": true,
        "similar": [{"id": "file1.jpg", "name": "Paul McCartney"}]
    }"#;
    let reply = decode_similar(body).unwrap();
    assert_eq!(reply.similar.len(), 1);
    assert_eq!(reply.similar[0].id, "file1.jpg");
    assert_eq!(reply.similar[0].name, "Paul McCartney");
}

#[test]
fn facebox_builds_its_endpoints() {
    let fb = Facebox::new("http://fb");
    assert_eq!(fb.check_endpoint(), "http://fb/facebox/check");
    assert_eq!(fb.similar_endpoint(), "http://fb/facebox/similar");
    assert_eq!(fb.similar_id_endpoint("f1"), "http://fb/facebox/similar?id=f1");
    assert_eq!(fb.state_endpoint(), "http://fb/facebox/state");
    assert_eq!(fb.teach_endpoint(), "http://fb/facebox/teach");
    assert_eq!(fb.teach_id_endpoint("f1"), "http://fb/facebox/teach/f1");
    assert_eq!(fb.rename_all_endpoint(), "http://fb/facebox/rename");
    assert_eq!(fb.url(), "http://fb");
}

#[test]
fn tag_check_decodes_both_lists() {
    let body = r#"{
        "success": true,
        "tags": [{"tag": "camping", "confidence": 0.96}],
        "custom_tags": [{"tag": "my tent", "id": "tent1.jpg"}]
    }"#;
    let reply = tagbox::decode_check(body).unwrap();
    assert_eq!(reply.tags.len(), 1);
    assert_eq!(reply.tags[0].tag, "camping");
    assert_eq!(reply.tags[0].confidence.as_deref(), Some("0.96"));
    assert_eq!(reply.custom_tags.len(), 1);
    assert_eq!(reply.custom_tags[0].id.as_deref(), Some("tent1.jpg"));
    assert_eq!(reply.custom_tags[0].confidence, None);
}

#[test]
fn tag_check_defaults_absent_lists() {
    let reply = tagbox::decode_check(r#"{"success":true}"#).unwrap();
    assert_eq!(reply.tags.len(), 0);
    assert_eq!(reply.custom_tags.len(), 0);
}

#[test]
fn tag_teach_failure_carries_the_error() {
    match tagbox::decode_teach(r#"{"success":false,"error":"cannot teach"}"#) {
        Err(e) => match &e.kind {
            Kind::Service(m) => assert_eq!(m, "cannot teach"),
            _ => panic!("expected a service failure"),
        },
        Ok(_) => panic!("a rejecting envelope must not pass"),
    }
    assert!(tagbox::decode_teach(r#"{"success":true}"#).is_ok());
}

#[test]
fn tag_similar_decodes() {
    let body = r#"{"success":true,"similar":[{"tag":"dog","confidence":0.6}]}"#;
    let similar = tagbox::decode_similar(body).unwrap();
    assert_eq!(similar.len(), 1);
    assert_eq!(similar[0].tag, "dog");
    assert_eq!(similar[0].confidence.as_deref(), Some("0.6"));
}

#[test]
fn tagbox_builds_its_endpoints() {
    let tb = Tagbox::new("http://tb");
    assert_eq!(tb.check_endpoint(), "http://tb/tagbox/check");
    assert_eq!(tb.teach_endpoint(), "http://tb/tagbox/teach");
    assert_eq!(tb.teach_id_endpoint("t1"), "http://tb/tagbox/teach/t1");
    assert_eq!(tb.similar_endpoint(), "http://tb/tagbox/similar");
    assert_eq!(tb.state_endpoint(), "http://tb/tagbox/state");
}
