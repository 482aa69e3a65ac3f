use machinebox::suggestionbox::{decode_model, decode_model_list, decode_model_stats};
use machinebox::suggestionbox::{decode_prediction, Feature, FeatureType, ModelBuilder};
use machinebox::suggestionbox::{PredictionRequest, Reward, Suggestionbox};
use machinebox::utils::{accept_download, require_ok};
use machinebox::Kind;

const MODEL_BODY: &str = r#"{
            "id": "model1",
            "name": "Articles",
            "choices": [],
            "options": {
                "reward_expiration_seconds": 120,
                "ngrams": 1,
                "skipgrams": 0,
                "epsilon": 0.3
            }
    }"#;

#[test]
fn create_model() {
    let sb = Suggestionbox::new("http://sb");
    assert_eq!(sb.models_endpoint(), "http://sb/suggestionbox/models");
    let model = ModelBuilder::new()
        .named("test")
        .id("testmodel")
        .choice("choice1", vec![Feature::text("foo", "bar")])
        .choice("choice2", vec![Feature::text("baz", "foo")])
        .finish();
    assert_eq!(model.name, "test");
    assert_eq!(model.id.as_deref(), Some("testmodel"));
    assert_eq!(model.choices.len(), 2);
    let body = r#"{
	"success": true,
	"id": "model1",
	"name": "Articles",
	"options": {
		"reward_expiration_seconds": 120,
		"ngrams": 1,
		"skipgrams": 0,
		"epsilon": 0.3
	}
}"#;
    let res = decode_model(body);
    assert!(res.is_ok());
    if let Ok(outmodel) = res {
        assert_eq!(outmodel.id, Some("model1".to_string()));
        assert_eq!(outmodel.name, "Articles");
        assert_eq!(outmodel.options.unwrap().reward_expiration_seconds, 120);
    }
}

#[test]
fn get_model() {
    let sb = Suggestionbox::new("http://sb");
    assert_eq!(sb.model_endpoint("model1"), "http://sb/suggestionbox/models/model1");
    let res = decode_model(MODEL_BODY);
    assert!(res.is_ok());
    if let Ok(outmodel) = res {
        assert_eq!(outmodel.id, Some("model1".to_string()));
        assert_eq!(outmodel.name, "Articles");
        let opts = outmodel.options.unwrap();
        assert_eq!(opts.reward_expiration_seconds, 120);
        assert_eq!(opts.ngrams, 1_i32);
    }
}

#[test]
fn get_model_reports_failure() {
    let res = require_ok(404, String::new());
    assert!(res.is_err());
}

#[test]
fn list_models() {
    let body = r#"{
            "success": true,
            "models": [
                {
                    "id": "model1",
                    "name": "Articles",
                    "choices": [],
                    "options": {
                        "reward_expiration_seconds": 120,
                        "ngrams": 1,
                        "skipgrams": 0,
                        "epsilon": 0.3
                    }
                }
            ]
        }
        "#;
    let res = decode_model_list(body);
    assert!(res.is_ok());
    if let Ok(models) = res {
        assert_eq!(models.len(), 1);
        let m0 = &models[0];
        assert_eq!(m0.id, Some("model1".to_owned()));
        assert_eq!(m0.name, "Articles");
        if let Some(ref opts) = m0.options {
            assert_eq!(opts.ngrams, 1_i32);
        }
    }
}

#[test]
fn list_models_reports_failure() {
    let res = require_ok(500, String::new());
    assert!(res.is_err());
}

#[test]
fn get_model_stats() {
    let sb = Suggestionbox::new("http://sb");
    assert_eq!(sb.stats_endpoint("model1"), "http://sb/suggestionbox/models/model1/stats");
    let body = r#"{
            "predictions": 100,
            "rewards": 80,
            "reward_ratio": 0.8,
            "explores": 30,
            "exploits": 70,
            "explore_ratio": 0.3
        }"#;
    let res = decode_model_stats(body);
    assert!(res.is_ok());
    if let Ok(stats) = res {
        assert_eq!(stats.predictions, 100);
        assert_eq!(stats.rewards, 80);
        assert_eq!(stats.reward_ratio, "0.8");
        assert_eq!(stats.explores, 30);
        assert_eq!(stats.exploits, 70);
        assert_eq!(stats.explore_ratio, "0.3");
    }
}

#[test]
fn get_model_stats_reports_failure() {
    let res = require_ok(500, String::new());
    assert!(res.is_err());
}

#[test]
fn predict() {
    let sb = Suggestionbox::new("http://sb");
    assert_eq!(sb.predict_endpoint("model1"), "http://sb/suggestionbox/models/model1/predict");
    let request = PredictionRequest { inputs: Vec::new() };
    assert_eq!(request.inputs.len(), 0);
    let body = r#"{
            "choices": [
                {
                    "id": "choice3",
                    "score": 0.60,
                    "reward_id": "ad17da8d1d8bef78678dad"
                },
                {
                    "id": "choice1",
                    "score": 0.30,
                    "reward_id": "bef78678dadad17da8d1d8"
                },
                {
                    "id": "choice2",
                    "score": 0.10,
                    "reward_id": "8678dad8d1d8ad1bef77da"
                }
            ]
        }"#;
    let res = decode_prediction(body);
    assert!(res.is_ok());
    if let Ok(prediction) = res {
        assert_eq!(prediction.choices.len(), 3);
        assert_eq!(prediction.choices[0].id, "choice3");
        assert_eq!(prediction.choices[1].score, "0.3");
        assert_eq!(prediction.choices[2].reward_id, "8678dad8d1d8ad1bef77da");
    }
}

#[test]
fn predict_reports_failure() {
    let res = require_ok(404, String::new());
    assert!(res.is_err());
}

#[test]
fn reward() {
    let sb = Suggestionbox::new("http://sb");
    assert_eq!(sb.rewards_endpoint("model1"), "http://sb/suggestionbox/models/model1/rewards");
    let reward = Reward { reward_id: "8678dad8d1d8ad1bef77da".to_string(), value: "1".to_string() };
    assert_eq!(reward.reward_id, "8678dad8d1d8ad1bef77da");
    let res = require_ok(200, String::new());
    assert!(res.is_ok());
}

#[test]
fn reward_reports_failure() {
    let res = require_ok(404, String::new());
    assert!(res.is_err());
}

#[test]
fn download_state() {
    let sb = Suggestionbox::new("http://sb");
    assert_eq!(sb.state_model_endpoint("model1"), "http://sb/suggestionbox/state/model1");
    let mut buf: Vec<u8> = vec![];
    let res = accept_download(200, b"1234512345".to_vec(), &mut buf);
    assert!(res.is_ok());
    if let Ok(bytecount) = res {
        assert_eq!(bytecount, 10);
    }
    assert_eq!(buf, b"1234512345");
}

#[test]
fn download_state_reports_error() {
    let mut buf: Vec<u8> = vec![];
    let res = accept_download(404, Vec::new(), &mut buf);
    assert!(res.is_err());
}

#[test]
fn post_state() {
    let sb = Suggestionbox::new("http://sb");
    assert_eq!(sb.state_endpoint(), "http://sb/suggestionbox/state");
    let res = decode_model(MODEL_BODY);
    assert!(res.is_ok());
    if let Ok(model) = res {
        assert_eq!(model.id, Some("model1".to_owned()));
        assert_eq!(model.name, "Articles");
    }
}

#[test]
fn post_state_reports_failure() {
    let res = require_ok(500, String::new());
    assert!(res.is_err());
}

#[test]
fn post_state_url() {
    let res = decode_model(MODEL_BODY);
    assert!(res.is_ok());
    if let Ok(model) = res {
        assert_eq!(model.id, Some("model1".to_owned()));
        assert_eq!(model.name, "Articles");
    }
}

#[test]
fn post_state_url_reports_error() {
    let res = require_ok(500, String::new());
    assert!(res.is_err());
}

#[test]
fn model_list_rejection_is_a_service_error() {
    match decode_model_list(r#"{"success":false,"error":"listing broke","models":[]}"#) {
        Err(e) => match &e.kind {
            Kind::Service(m) => assert_eq!(m, "listing broke"),
            _ => panic!("expected a service failure"),
        },
        Ok(_) => panic!("a rejecting envelope must not pass"),
    }
}

#[test]
fn model_with_null_options_has_none() {
    let model = decode_model(r#"{"id":null,"name":"m","options":null}"#).unwrap();
    assert_eq!(model.id, None);
    assert!(model.options.is_none());
    assert_eq!(model.choices.len(), 0);
}

#[test]
fn model_list_without_success_flag_fails() {
    match decode_model_list(r#"{"models":[]}"#) {
        Err(e) => assert!(matches!(e.kind, Kind::Decode(_))),
        Ok(_) => panic!("a listing without a success flag must not decode"),
    }
}

#[test]
fn model_without_name_fails() {
    match decode_model(r#"{"id":"m1"}"#) {
        Err(e) => assert!(matches!(e.kind, Kind::Decode(_))),
        Ok(_) => panic!("a model without a name must not decode"),
    }
}

#[test]
fn feature_shortcuts_set_their_types() {
    let f = Feature::text("title", "A headline");
    assert_eq!(f.key, "title");
    assert_eq!(f.value, "A headline");
    assert!(matches!(f.feature_type, FeatureType::Text));
    let f = Feature::number("age", "28");
    assert_eq!(f.value, "28");
    assert!(matches!(f.feature_type, FeatureType::Number));
    let f = Feature::keyword("city", "London");
    assert!(matches!(f.feature_type, FeatureType::Keyword));
    let f = Feature::list("colours", vec!["red", "green", "blue"]);
    assert_eq!(f.value, "red,green,blue");
    assert!(matches!(f.feature_type, FeatureType::List));
    let f = Feature::list("empty", vec![]);
    assert_eq!(f.value, "");
    let f = Feature::image_url("pic", "http://img");
    assert_eq!(f.value, "http://img");
    assert!(matches!(f.feature_type, FeatureType::ImageURL));
    let f = Feature::image_base64("pic", "aGk=");
    assert_eq!(f.value, "aGk=");
    assert!(matches!(f.feature_type, FeatureType::ImageBase64));
}

#[test]
fn model_with_choices_round_trips_feature_types() {
    let body = r#"{
        "name": "m",
        "choices": [{
            "id": "c1",
            "features": [{"key": "k", "value": "v", "type": "keyword"}]
        }]
    }"#;
    let model = decode_model(body).unwrap();
    assert_eq!(model.choices.len(), 1);
    assert_eq!(model.choices[0].features[0].key, "k");
    assert!(matches!(model.choices[0].features[0].feature_type, FeatureType::Keyword));
    let bad = r#"{
        "name": "m",
        "choices": [{
            "id": "c1",
            "features": [{"key": "k", "value": "v", "type": "nonsense"}]
        }]
    }"#;
    assert!(decode_model(bad).is_err());
}
