use machinebox::utils::require_ok;
use machinebox::videobox::{decode_analysis, decode_video, CheckOptionsBuilder, Status, Videobox};
use machinebox::Kind;

#[test]
fn check_url() {
    let vb = Videobox::new("http://vb");
    assert_eq!(vb.check_endpoint(), "http://vb/videobox/check");
    let opts = CheckOptionsBuilder::new()
        .result_duration("1h0m0s")
        .skip_frames(2)
        .skip_seconds(3)
        .frame_width(100)
        .frame_height(120)
        .facebox_threshold("0.75")
        .tagbox_threshold("0.7")
        .nudebox_threshold("0.2")
        .finish();
    let pairs = opts.pairs();
    assert_eq!(pairs.len(), 8);
    assert!(pairs.contains(&("resultDuration".to_string(), "1h0m0s".to_string())));
    assert!(pairs.contains(&("skipframes".to_string(), "2".to_string())));
    assert!(pairs.contains(&("skipseconds".to_string(), "3".to_string())));
    assert!(pairs.contains(&("frameWidth".to_string(), "100".to_string())));
    assert!(pairs.contains(&("frameHeight".to_string(), "120".to_string())));
    assert!(pairs.contains(&("faceboxThreshold".to_string(), "0.75".to_string())));
    assert!(pairs.contains(&("tagboxThreshold".to_string(), "0.7".to_string())));
    assert!(pairs.contains(&("nudeboxThreshold".to_string(), "0.2".to_string())));
    let body = r#"{
            "success": true,
            "id": "video-id"
        }"#;
    let res = decode_video(body);
    assert!(res.is_ok());
}

#[test]
fn delete() {
    let vb = Videobox::new("http://vb");
    assert_eq!(
        vb.results_endpoint("5a50b8067eced76bad103c53dd0f5226"),
        "http://vb/videobox/results/5a50b8067eced76bad103c53dd0f5226"
    );
    let res = require_ok(200, String::new());
    assert!(res.is_ok());
}

#[test]
fn results() {
    let vb = Videobox::new("http://vb");
    assert_eq!(
        vb.results_endpoint("5a50b8067eced76bad103c53dd0f5226"),
        "http://vb/videobox/results/5a50b8067eced76bad103c53dd0f5226"
    );
    let res = decode_analysis(RESULTS_PAYLOAD);
    assert!(res.is_ok());
    let analysis = res.unwrap();
    assert_eq!(analysis.facebox.unwrap().faces.len(), 1);
    assert_eq!(analysis.tagbox.unwrap().tags.len(), 3);
}

#[test]
fn status() {
    let vb = Videobox::new("http://vb");
    assert_eq!(
        vb.status_endpoint("5a50b8067eced76bad103c53dd0f5226"),
        "http://vb/videobox/status/5a50b8067eced76bad103c53dd0f5226"
    );
    let body = r#"{
            "success": true,
            "id": "5a50b8067eced76bad103c53dd0f5226",
            "status": "processing"
            }"#;
    let res = decode_video(body);
    assert!(res.is_ok());
    let video = res.unwrap();
    assert_eq!(video.id, "5a50b8067eced76bad103c53dd0f5226");
    assert_eq!(video.status, Status::Processing);
}

#[test]
fn video_defaults_fill_absent_fields() {
    let body = r#"{"success": true, "id": "v1"}"#;
    let video = decode_video(body).unwrap();
    assert_eq!(video.status, Status::Unknown);
    assert_eq!(video.download_total, 0);
    assert_eq!(video.download_complete, 0);
    assert_eq!(video.download_complete_estimate, "unknown");
    assert_eq!(video.frames_count, 0);
    assert_eq!(video.frames_complete, 0);
    assert_eq!(video.last_frame_base64, "");
    assert_eq!(video.milliseconds_complete, 0);
    assert_eq!(video.expires, "");
}

#[test]
fn video_failure_carries_the_error() {
    let body = r#"{"success": false, "id": "v1", "error": "no such video"}"#;
    match decode_video(body) {
        Err(e) => match &e.kind {
            Kind::Service(m) => assert_eq!(m, "no such video"),
            _ => panic!("expected a service failure"),
        },
        Ok(_) => panic!("a rejecting envelope must not pass"),
    }
}

#[test]
fn malformed_status_body_is_a_decode_failure() {
    match decode_video("{not json") {
        Err(e) => assert!(matches!(e.kind, Kind::Decode(_))),
        Ok(_) => panic!("malformed JSON must not decode"),
    }
}

#[test]
fn video_with_null_optionals_uses_defaults() {
    let body = r#"{"success": true, "id": "v1", "status": null, "downloadTotal": null, "expires": null}"#;
    let video = decode_video(body).unwrap();
    assert_eq!(video.status, Status::Unknown);
    assert_eq!(video.download_total, 0);
    assert_eq!(video.expires, "");
}

#[test]
fn video_without_id_fails_to_decode() {
    match decode_video(r#"{"success": true}"#) {
        Err(e) => assert!(matches!(e.kind, Kind::Decode(_))),
        Ok(_) => panic!("a video response without an id must not decode"),
    }
}

#[test]
fn status_names_parse() {
    assert_eq!(Status::from_str("pending"), Ok(Status::Pending));
    assert_eq!(Status::from_str("downloading"), Ok(Status::Downloading));
    assert_eq!(Status::from_str("processing"), Ok(Status::Processing));
    assert_eq!(Status::from_str("complete"), Ok(Status::Complete));
    assert_eq!(Status::from_str("failed"), Ok(Status::Failed));
    assert_eq!(Status::from_str("unknown"), Ok(Status::Unknown));
    assert_eq!(Status::from_str("resting"), Err(()));
}

#[test]
fn options_builder_replaces_a_repeated_key() {
    let opts = CheckOptionsBuilder::new()
        .tagbox_include("all")
        .skip_frames(2)
        .tagbox_include("custom")
        .finish();
    let pairs = opts.pairs();
    assert_eq!(pairs.len(), 2);
    assert!(pairs.contains(&("tagboxInclude".to_string(), "custom".to_string())));
    assert!(!pairs.contains(&("tagboxInclude".to_string(), "all".to_string())));
}

#[test]
fn options_builder_renders_negative_numbers() {
    let opts = CheckOptionsBuilder::new().frame_concurrency(-4).finish();
    assert!(opts.pairs().contains(&("frameConcurrency".to_string(), "-4".to_string())));
}

#[test]
fn analysis_failure_carries_the_error() {
    let body = r#"{"success": false, "ready": false, "error": "not ready"}"#;
    match decode_analysis(body) {
        Err(e) => match &e.kind {
            Kind::Service(m) => assert_eq!(m, "not ready"),
            _ => panic!("expected a service failure"),
        },
        Ok(_) => panic!("a rejecting envelope must not pass"),
    }
}

const RESULTS_PAYLOAD: &str = r#"
 {
	"success": true,
	"ready": true,
	"facebox": {
		"faces": [
			{
				"key": "Unknown faces",
				"instances": [
					{
						"start": 24,
						"end": 144,
						"start_ms": 1000,
						"end_ms": 6006
					},
					{
						"start": 336,
						"end": 528,
						"start_ms": 14013,
						"end_ms": 22022
					},
					{
						"start": 720,
						"end": 720,
						"start_ms": 30029,
						"end_ms": 30029
					}
				]
			}
		],
		"errorsCount": 0
	},
	"tagbox": {
		"tags": [
			{
				"key": "candle",
				"instances": [
					{
						"start": 168,
						"end": 168,
						"start_ms": 7006,
						"end_ms": 7006
					},
					{
						"start": 216,
						"end": 216,
						"start_ms": 9009,
						"end_ms": 9009
					},
					{
						"start": 312,
						"end": 312,
						"start_ms": 13012,
						"end_ms": 13012
					}
				]
			},
			{
				"key": "crutch",
				"instances": [
					{
						"start": 504,
						"end": 504,
						"start_ms": 21021,
						"end_ms": 21021
					}
				]
			},
			{
				"key": "miniskirt",
				"instances": [
					{
						"start": 72,
						"end": 72,
						"start_ms": 3003,
						"end_ms": 3003
					}
				]
			}
		],
		"errorsCount": 0
	},
	"nudebox": {
		"nudity": [
			{
				"key": "greater than 0.5 chance of nuditiy",
				"instances": [
					{
						"start": 264,
						"end": 312,
						"start_ms": 11011,
						"end_ms": 13012
					},
					{
						"start": 360,
						"end": 360,
						"start_ms": 15014,
						"end_ms": 15014
					},
					{
						"start": 408,
						"end": 408,
						"start_ms": 17017,
						"end_ms": 17017
					},
					{
						"start": 456,
						"end": 552,
						"start_ms": 19019,
						"end_ms": 23023
					},
					{
						"start": 720,
						"end": 720,
						"start_ms": 30029,
						"end_ms": 30029
					}
				]
			}
		],
		"errorsCount": 0
	}
}"#;
