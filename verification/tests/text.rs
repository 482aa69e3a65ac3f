use machinebox::textbox::{decode_analysis, Textbox};
use machinebox::Kind;

#[test]
fn analysis_decodes_sentences_and_keywords() {
    let body = r#"{
        "sentences": [{
            "text": "Pretty good weather today.",
            "start": 0,
            "end": 26,
            "sentiment": 0.75,
            "entities": [{"type": "time", "text": "today", "start": 20, "end": 25}]
        }],
        "keywords": [{"keyword": "weather"}, {"keyword": "today"}]
    }"#;
    let analysis = decode_analysis(body).unwrap();
    assert_eq!(analysis.sentences.len(), 1);
    assert_eq!(analysis.sentences[0].text, "Pretty good weather today.");
    assert_eq!(analysis.sentences[0].sentiment, "0.75");
    assert_eq!(analysis.sentences[0].entities[0].entity_type, "time");
    assert_eq!(analysis.sentences[0].entities[0].start, 20);
    assert_eq!(analysis.keywords.len(), 2);
    assert_eq!(analysis.keywords[1].keyword, "today");
}

#[test]
fn analysis_without_sentences_fails() {
    match decode_analysis(r#"{"keywords": []}"#) {
        Err(e) => assert!(matches!(e.kind, Kind::Decode(_))),
        Ok(_) => panic!("an analysis without sentences must not decode"),
    }
}

#[test]
fn analysis_with_null_sentences_fails() {
    match decode_analysis(r#"{"sentences": null, "keywords": []}"#) {
        Err(e) => assert!(matches!(e.kind, Kind::Decode(_))),
        Ok(_) => panic!("null sentences must not decode"),
    }
}

#[test]
fn textbox_builds_its_endpoint() {
    let tb = Textbox::new("http://tb");
    assert_eq!(tb.check_endpoint(), "http://tb/textbox/check");
    assert_eq!(tb.url(), "http://tb");
}
