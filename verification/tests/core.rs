use machinebox::info::{decode_health, decode_info, health_endpoint, info_endpoint};
use machinebox::info::{liveness_endpoint, readiness_endpoint};
use machinebox::utils::{accept_download, require_ok, status_is_ok, write_blob};
use machinebox::utils::{i64_string, join_url, u64_string, RawBoxResponse, URLWrapper};
use machinebox::{Error, Kind};

#[test]
fn info_parses() {
    let body = r#"
            {
	"success": true,
	"name":    "tagbox",
	"version": 1,
	"build":   "27d1d38",
	"status":  "ready",
	"plan": "pro"
}"#;
    assert_eq!(info_endpoint("http://boxes"), "http://boxes/info");
    let info = decode_info(body).unwrap();
    assert_eq!(info.success, true);
    assert_eq!(info.name, "tagbox");
    assert_eq!(info.version, 1);
    assert_eq!(info.build, "27d1d38");
    assert_eq!(info.status, "ready");
    assert_eq!(info.plan, "pro");
}

#[test]
fn health_parses_no_error() {
    let body = r#"
            {
	"success": true,
	"hostname": "83b1a33ef322",
	"metadata": {
		"boxname": "facebox",
		"build": "18f2361"
	},
	"errors": []
}"#;
    assert_eq!(health_endpoint("http://boxes"), "http://boxes/healthz");
    let health = decode_health(body).unwrap();
    assert_eq!(health.success, true);
    assert_eq!(health.hostname, "83b1a33ef322");
    assert_eq!(health.errors, vec![]);
}

#[test]
fn health_parses_with_error() {
    let body = r#"
            {
	"success": false,
	"hostname": "83b1a33ef322",
	"metadata": {
		"boxname": "facebox",
		"build": "18f2361"
	},
        "errors": [{
            "error": "Something went wrong",
            "description": "Something went wrong"
        }]
    }"#;
    let health = decode_health(body).unwrap();
    assert_eq!(health.success, false);
    assert_eq!(health.hostname, "83b1a33ef322");
    assert_eq!(health.errors[0].error, "Something went wrong");
    assert_eq!(health.errors[0].description, "Something went wrong");
}

#[test]
fn islive_checks_statuscode() {
    assert_eq!(liveness_endpoint("http://boxes"), "http://boxes/liveness");
    let live = status_is_ok(200);
    assert_eq!(live, true);
}

#[test]
fn ready_checks_statuscode() {
    assert_eq!(readiness_endpoint("http://boxes"), "http://boxes/readyz");
    let ready = status_is_ok(200);
    assert_eq!(ready, true);
}

#[test]
fn ready_checks_statuscode_fail() {
    let ready = status_is_ok(503);
    assert_eq!(ready, false);
}

#[test]
fn failing_status_embeds_status_and_body() {
    let r = require_ok(404, "not found".to_string());
    match r {
        Err(e) => match &e.kind {
            Kind::Service(m) => assert_eq!(m, "HTTP 404: not found"),
            _ => panic!("expected a service failure"),
        },
        Ok(_) => panic!("a failing status must not pass"),
    }
}

#[test]
fn ok_status_hands_the_body_on() {
    let r = require_ok(200, "payload".to_string());
    assert_eq!(r.unwrap(), "payload");
}

#[test]
fn decimal_rendering_is_exact() {
    assert_eq!(u64_string(0), "0");
    assert_eq!(u64_string(7), "7");
    assert_eq!(u64_string(503), "503");
    assert_eq!(u64_string(18446744073709551615), "18446744073709551615");
    assert_eq!(i64_string(-12), "-12");
    assert_eq!(i64_string(0), "0");
    assert_eq!(i64_string(-9223372036854775808), "-9223372036854775808");
}

#[test]
fn download_counts_zero_bytes() {
    let mut sink: Vec<u8> = vec![];
    let n = accept_download(200, vec![], &mut sink).unwrap();
    assert_eq!(n, 0);
    assert!(sink.is_empty());
}

#[test]
fn download_counts_one_byte() {
    let mut sink: Vec<u8> = vec![];
    let n = accept_download(200, vec![b'x'], &mut sink).unwrap();
    assert_eq!(n, 1);
    assert_eq!(sink, b"x");
}

#[test]
fn download_counts_ten_bytes() {
    let mut sink: Vec<u8> = vec![];
    let n = accept_download(200, b"1234512345".to_vec(), &mut sink).unwrap();
    assert_eq!(n, 10);
    assert_eq!(sink, b"1234512345");
}

#[test]
fn download_counts_a_large_blob() {
    let body: Vec<u8> = (0..70000u32).map(|i| (i % 251) as u8).collect();
    let mut sink: Vec<u8> = vec![];
    let n = accept_download(200, body.clone(), &mut sink).unwrap();
    assert_eq!(n, 70000);
    assert_eq!(sink, body);
}

#[test]
fn download_failure_reports_status_and_body() {
    let mut sink: Vec<u8> = vec![];
    let r = accept_download(404, b"not found".to_vec(), &mut sink);
    assert!(sink.is_empty());
    match r {
        Err(e) => match &e.kind {
            Kind::Service(m) => assert_eq!(m, "HTTP 404: not found"),
            _ => panic!("expected a service failure"),
        },
        Ok(_) => panic!("a failing status must not pass"),
    }
}

#[test]
fn blob_append_keeps_earlier_bytes() {
    let mut sink: Vec<u8> = b"head".to_vec();
    let n = write_blob(&mut sink, &b"tail".to_vec());
    assert_eq!(n, 4);
    assert_eq!(sink, b"headtail");
}

#[test]
fn raw_response_success_is_ok() {
    let r = RawBoxResponse { success: true, error: None };
    assert!(r.into_result().is_ok());
}

#[test]
fn raw_response_failure_uses_fallback_message() {
    let r = RawBoxResponse { success: false, error: None };
    match r.into_result() {
        Err(e) => match &e.kind {
            Kind::Service(m) => assert_eq!(m, "Request failed"),
            _ => panic!("expected a service failure"),
        },
        Ok(_) => panic!("a rejecting envelope must not pass"),
    }
}

#[test]
fn raw_response_failure_keeps_its_message() {
    let r = RawBoxResponse { success: false, error: Some("no luck".to_string()) };
    match r.into_result() {
        Err(e) => match &e.kind {
            Kind::Service(m) => assert_eq!(m, "no luck"),
            _ => panic!("expected a service failure"),
        },
        Ok(_) => panic!("a rejecting envelope must not pass"),
    }
}

#[test]
fn error_accessors_report_the_message() {
    let e = Error::transport("connection refused".to_string());
    assert_eq!(e.message(), "connection refused");
    let e = Error::decode("bad json".to_string());
    assert_eq!(e.message(), "bad json");
    let e = Error::service("said no".to_string());
    assert_eq!(e.message(), "said no");
}

#[test]
fn url_join_concatenates() {
    assert_eq!(join_url("http://a", "/b"), "http://a/b");
    let w = URLWrapper { url: "http://a/b".to_string() };
    assert_eq!(w.url, "http://a/b");
}

#[test]
fn download_failure_replaces_invalid_utf8_in_the_message() {
    let mut sink: Vec<u8> = vec![];
    let r = accept_download(500, vec![b'a', 0xff, b'b'], &mut sink);
    match r {
        Err(e) => match &e.kind {
            Kind::Service(m) => assert_eq!(m, "HTTP 500: a\u{fffd}b"),
            _ => panic!("expected a service failure"),
        },
        Ok(_) => panic!("a failing status must not pass"),
    }
}
