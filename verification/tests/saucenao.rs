use reverse_image_search::engines::saucenao::{
    item_result, results_from_body, SauceNao, SauceStage,
};
use reverse_image_search::engines::Step;
use reverse_image_search::error::{Error, ErrorKind};
use reverse_image_search::network::{FormField, Method, Response};
use reverse_image_search::types::{SearchOptions, Similarity};

const BODY: &str = r#"{"header":{"status":0,"results_returned":3},"results":[
{"header":{"similarity":"93.27","thumbnail":"https://img/t1.jpg","index_id":5,"index_name":"Index #5: Pixiv"},
 "data":{"ext_urls":["//www.pixiv.net/a","https://mirror/a"],"title":"Work","author_name":"Artist","author_url":"https://www.pixiv.net/u/1","created_at":"2020-01-01"}},
{"header":{"similarity":"41.5","thumbnail":"https://img/t2.jpg","index_id":-9,"index_name":"Index #9"},
 "data":{"source":"http://src/b","title":null}},
{"header":{"similarity":"n/a","thumbnail":"https://img/t3.jpg","index_id":21,"index_name":"Index #21"},
 "data":{}}
]}"#;

fn response(status: u16, body: &str) -> Response {
    Response {
        status,
        url: String::new(),
        location: None,
        body: body.to_string(),
        data: body.as_bytes().to_vec(),
    }
}

fn options(min: Option<u32>) -> SearchOptions {
    SearchOptions {
        proxy: None,
        timeout: None,
        min_similarity: min.map(Similarity::from_hundredths),
        hide_explicit: false,
    }
}

#[test]
fn saucenao_fields_are_mapped() {
    let results = results_from_body(BODY, &None).unwrap();
    assert_eq!(results.len(), 3);
    let r = &results[0];
    assert_eq!(r.title.as_deref(), Some("Work"));
    assert_eq!(r.url, "https://www.pixiv.net/a");
    assert_eq!(r.thumbnail.as_deref(), Some("https://img/t1.jpg"));
    assert_eq!(r.similarity.unwrap().hundredths(), 9_327);
    assert_eq!(r.source, "Index #5: Pixiv");
    assert_eq!(r.index.as_deref(), Some("5"));
    let info = r.additional_info.as_ref().unwrap();
    assert_eq!(info.author.as_deref(), Some("Artist"));
    assert_eq!(info.author_url.as_deref(), Some("https://www.pixiv.net/u/1"));
    assert_eq!(info.created_at.as_deref(), Some("2020-01-01"));
    assert!(info.source_url.is_none());
    assert_eq!(info.ext_urls, vec!["https://mirror/a".to_string()]);
    let r = &results[1];
    assert!(r.title.is_none());
    assert_eq!(r.url, "http://src/b");
    assert_eq!(r.index.as_deref(), Some("-9"));
    assert_eq!(r.additional_info.as_ref().unwrap().source_url.as_deref(), Some("http://src/b"));
    let r = &results[2];
    assert_eq!(r.url, "");
    assert_eq!(r.similarity.unwrap().hundredths(), 0);
}

#[test]
fn saucenao_results_are_held_to_the_threshold() {
    let kept = results_from_body(BODY, &Some(Similarity::from_hundredths(5_000))).unwrap();
    assert_eq!(kept.len(), 1);
    assert_eq!(kept[0].similarity.unwrap().hundredths(), 9_327);
    let kept = results_from_body(BODY, &Some(Similarity::from_hundredths(4_150))).unwrap();
    assert_eq!(kept.len(), 2);
    let kept = results_from_body(BODY, &Some(Similarity::from_hundredths(0))).unwrap();
    assert_eq!(kept.len(), 3);
}

#[test]
fn saucenao_negative_status_is_surfaced() {
    let body = r#"{"header":{"status":-2,"message":"Search Rate Too High."}}"#;
    match results_from_body(body, &None).unwrap_err() {
        Error::UpstreamApi { code, message } => {
            assert_eq!(code, -2);
            assert_eq!(message, "Search Rate Too High.");
        }
        other => panic!("unexpected error {:?}", other),
    }
    let body = r#"{"header":{"status":-1},"results":null}"#;
    match results_from_body(body, &None).unwrap_err() {
        Error::UpstreamApi { code, message } => {
            assert_eq!(code, -1);
            assert_eq!(message, "Unknown error");
        }
        other => panic!("unexpected error {:?}", other),
    }
}

#[test]
fn saucenao_responses_of_the_wrong_shape_are_extraction_errors() {
    for body in [
        "not json",
        "[]",
        "{}",
        r#"{"header":{}}"#,
        r#"{"header":{"status":"0"}}"#,
        r#"{"header":{"status":1.5}}"#,
        r#"{"header":{"status":0,"message":7}}"#,
        r#"{"header":{"status":0},"results":{}}"#,
        r#"{"header":{"status":0},"results":[{}]}"#,
        r#"{"header":{"status":-1},"results":[{"header":{},"data":{}}]}"#,
        r#"{"header":{"status":0},"results":[{"header":{"similarity":"1","thumbnail":"t","index_id":1,"index_name":"n"},"data":7}]}"#,
        r#"{"header":{"status":0},"results":[{"header":{"similarity":"1","thumbnail":"t","index_id":1,"index_name":"n"},"data":{"ext_urls":[1]}}]}"#,
        r#"{"header":{"status":0},"results":[{"header":{"similarity":1,"thumbnail":"t","index_id":1,"index_name":"n"},"data":{}}]}"#,
    ] {
        assert_eq!(results_from_body(body, &None).unwrap_err().kind(), ErrorKind::Extraction, "{}", body);
    }
    assert!(results_from_body(r#"{"header":{"status":0}}"#, &None).unwrap().is_empty());
    assert!(results_from_body(r#"{"header":{"status":3},"results":[]}"#, &None).unwrap().is_empty());
}

#[test]
fn saucenao_item_from_plain_values() {
    let r = item_result(
        "80",
        "t".into(),
        7,
        "n".into(),
        Some(vec![]),
        None,
        None,
        None,
        Some("//s/x".into()),
        None,
    );
    assert_eq!(r.url, "https://s/x");
    assert_eq!(r.similarity.unwrap().hundredths(), 8_000);
    assert!(r.additional_info.unwrap().ext_urls.is_empty());
}

#[test]
fn saucenao_url_search_asks_the_api() {
    let (stage, request) = SauceNao::new(None).begin_url("http://img/a b.png");
    assert_eq!(request.method, Method::Get);
    assert_eq!(request.url, "https://saucenao.com/search.php");
    assert_eq!(
        request.query,
        vec![
            ("url".to_string(), "http://img/a b.png".to_string()),
            ("output_type".to_string(), "2".to_string()),
            ("numres".to_string(), "16".to_string()),
        ]
    );
    assert_eq!(request.headers.len(), 4);
    assert_eq!(request.headers[3], ("referer".to_string(), "https://saucenao.com/".to_string()));
    match stage {
        SauceStage::Asked(url) => {
            assert_eq!(url, "https://saucenao.com/search.php?url=http://img/a b.png")
        }
        other => panic!("unexpected stage {:?}", other),
    }
    let (_, request) = SauceNao::new(Some("KEY".into())).begin_url("u");
    assert_eq!(request.query[3], ("api_key".to_string(), "KEY".to_string()));
}

fn text_fields(form: &[FormField]) -> Vec<(String, String)> {
    form.iter()
        .filter_map(|f| match f {
            FormField::Text { name, value } => Some((name.clone(), value.clone())),
            _ => None,
        })
        .collect()
}

#[test]
fn saucenao_upload_asks_for_a_stricter_default() {
    let engine = SauceNao::new(None);
    let (stage, request) = engine.begin_bytes(&[1, 2], &options(None));
    assert!(matches!(stage, SauceStage::Asked(ref url) if url.is_empty()));
    assert_eq!(request.method, Method::Post);
    assert_eq!(
        text_fields(&request.form),
        vec![
            ("output_type".to_string(), "2".to_string()),
            ("numres".to_string(), "16".to_string()),
            ("api_key".to_string(), "".to_string()),
            ("dbmask".to_string(), "999".to_string()),
            ("minsim".to_string(), "80".to_string()),
        ]
    );
    match &request.form[5] {
        FormField::File { name, file_name, mime, data } => {
            assert_eq!(name, "file");
            assert_eq!(file_name, "image.png");
            assert_eq!(mime, "image/png");
            assert_eq!(data, &vec![1, 2]);
        }
        other => panic!("unexpected field {:?}", other),
    }
    let (_, request) = SauceNao::new(Some("K".into())).begin_base64("AQI=", &options(Some(6_550))).unwrap();
    let fields = text_fields(&request.form);
    assert_eq!(fields[2].1, "K");
    assert_eq!(fields[4].1, "65.5");
    assert_eq!(engine.begin_base64("!", &options(None)).unwrap_err().kind(), ErrorKind::Decode);
}

#[test]
fn saucenao_response_ends_the_search() {
    let engine = SauceNao::new(None);
    let (stage, _) = engine.begin_url("u");
    let (stage, step) = engine.advance(stage, &response(200, BODY), &options(Some(5_000)));
    assert!(matches!(stage, SauceStage::Closed));
    match step {
        Step::Done(url, results) => {
            assert_eq!(url, "https://saucenao.com/search.php?url=u");
            assert_eq!(results.len(), 1);
        }
        other => panic!("unexpected step {:?}", other),
    }
    let (_, step) = engine.advance(SauceStage::Asked(String::new()), &response(503, "x"), &options(None));
    match step {
        Step::Fail(Error::HttpStatus { status, body }) => {
            assert_eq!(status, 503);
            assert_eq!(body.as_deref(), Some("x"));
        }
        other => panic!("unexpected step {:?}", other),
    }
    let (_, step) = engine.advance(SauceStage::Asked(String::new()), &response(429, ""), &options(None));
    assert!(matches!(step, Step::Fail(Error::HttpStatus { status: 429, .. })));
}
