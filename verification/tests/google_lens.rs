use reverse_image_search::engines::google_lens::{
    best_result, carve_json, results_from_document, similar_result, GoogleLens, LensStage,
};
use reverse_image_search::engines::Step;
use reverse_image_search::error::ErrorKind;
use reverse_image_search::json::Json;
use reverse_image_search::network::{FormField, Method, Response};
use reverse_image_search::types::{SearchOptions, Similarity};

fn response(status: u16, body: &str) -> Response {
    Response {
        status,
        url: String::new(),
        location: None,
        body: body.to_string(),
        data: body.as_bytes().to_vec(),
    }
}

fn no_threshold() -> SearchOptions {
    SearchOptions { proxy: None, timeout: None, min_similarity: None, hide_explicit: false }
}

const DATA: &str = r#"[[null,[null,null,null,null,null,null,null,null,[null,null,null,null,null,null,null,null,[[null,null,null,null,null,null,null,null,null,null,null,null,[[["thumb-a",null,null,null,null,null,null,[null,"US$ 1,234.50",null,null,null,"USD"]],97.5,null,"Similar one",null,"https://shop.example/a",null,null,null,null,null,null,null,null,"shop.example"],[["thumb-b"],12,null,"Similar two",null,"https://shop.example/b"]]]],null,null,null,[[["Best title",null,[["best-thumb",null,null,null,"https://best.example/page"]]]]]]]]]"#;

#[test]
fn lens_carve_function_block() {
    let script = "var a=1;(function(){var m={\"k\":[1,2]};var n=m;window.x=1;});";
    assert_eq!(carve_json(script).unwrap(), "{\"k\":[1,2]}");
    // The closing brace is put back even where none was cut off.
    let script = "(function(){var m={\"k\":[1,2]});";
    assert_eq!(carve_json(script).unwrap(), "{\"k\":[1,2]}");
    let script = "(function(){var m=[1]";
    assert_eq!(carve_json(script).unwrap(), "[1]}");
}

#[test]
fn lens_carve_callback_with_data_member() {
    let script = "AF_initDataCallback({key: 'ds:1', data: [[1,2],[3]] , sideChannel: {}});";
    // Only what follows the last comma is left standing.
    assert_eq!(carve_json(script).unwrap(), "[[1,2],[3]] ");
    let script = "AF_initDataCallback({data:[7],sideChannel: {}});";
    assert_eq!(carve_json(script).unwrap(), "[7]");
}

#[test]
fn lens_carve_callback_with_bare_list() {
    let script = "AF_initDataCallback(x, [[1,2]], y)";
    assert_eq!(carve_json(script).unwrap(), "[[1,2]]");
}

#[test]
fn lens_carve_fails_without_a_known_shape() {
    assert_eq!(carve_json("console.log(1)"), None);
    assert_eq!(carve_json("AF_initDataCallback({data: [1,2]})"), None);
    assert_eq!(carve_json("AF_initDataCallback([[1,2)"), None);
}

#[test]
fn lens_results_come_from_fixed_positions() {
    // With a best match in the first block the similar items are read
    // from the second block, which this document lacks.
    let doc = Json::parse(DATA).unwrap();
    let results = results_from_document(&doc, &None);
    assert_eq!(results.len(), 1);
    assert_eq!(results[0].title.as_deref(), Some("Best title"));
    assert_eq!(results[0].url, "https://best.example/page");
    assert_eq!(results[0].thumbnail.as_deref(), Some("best-thumb"));
    assert_eq!(results[0].similarity.unwrap().hundredths(), 10_000);
    assert_eq!(results[0].source, "Google Lens");
}

#[test]
fn lens_similar_items_are_read_when_there_is_no_best_match() {
    let text = r#"[[null,[null,null,null,null,null,null,null,null,[null,null,null,null,null,null,null,null,[[null,null,null,null,null,null,null,null,null,null,null,null,[[["thumb-a",null,null,null,null,null,null,[null,"US$ 1,234.50",null,null,null,"USD"]],97.5,null,"Similar one",null,"https://shop.example/a",null,null,null,null,null,null,null,null,"shop.example"],[["thumb-b"],12,null,"Similar two",null,"https://shop.example/b"]]]]]]]]"#;
    let doc = Json::parse(text).unwrap();
    let results = results_from_document(&doc, &None);
    assert_eq!(results.len(), 2);
    assert_eq!(results[0].title.as_deref(), Some("Similar one"));
    assert_eq!(results[0].url, "https://shop.example/a");
    assert_eq!(results[0].thumbnail.as_deref(), Some("thumb-a"));
    assert_eq!(results[0].similarity.unwrap().hundredths(), 9_750);
    let info = results[0].additional_info.as_ref().unwrap();
    assert_eq!(info.source_url.as_deref(), Some("shop.example"));
    assert_eq!(info.tags, vec!["价格: 1234.50".to_string(), "货币: USD".to_string()]);
    assert_eq!(results[1].similarity.unwrap().hundredths(), 1_200);
    assert!(results[1].additional_info.as_ref().unwrap().tags.is_empty());

    let kept = results_from_document(&doc, &Some(Similarity::from_hundredths(5_000)));
    assert_eq!(kept.len(), 1);
    assert_eq!(kept[0].title.as_deref(), Some("Similar one"));
}

#[test]
fn lens_builders_fill_the_schema() {
    let best = best_result(Some("t".into()), None, None);
    assert_eq!(best.url, "");
    assert_eq!(best.similarity.unwrap().hundredths(), 10_000);
    let similar = similar_result(None, None, None, Some("u".into()), None, None, Some("EUR".into()));
    assert_eq!(similar.url, "u");
    assert!(similar.similarity.is_none());
    assert_eq!(similar.additional_info.unwrap().tags, vec!["货币: EUR".to_string()]);
}

#[test]
fn lens_malformed_inline_json_is_an_extraction_error() {
    let html = "<html><body><script>AF_initDataCallback({key: 'ds:1', data: [[1,2,, sideChannel: {}});</script></body></html>";
    let lens = GoogleLens::new();
    let e = lens.parse_page(html, &None).unwrap_err();
    assert_eq!(e.kind(), ErrorKind::Extraction);
    let e = lens.get_prerender_script(html).unwrap_err();
    assert_eq!(e.kind(), ErrorKind::Extraction);
}

#[test]
fn lens_page_without_data_script_is_an_extraction_error() {
    let lens = GoogleLens::new();
    let e = lens.parse_page("<html><script>var x = 1;</script></html>", &None).unwrap_err();
    assert_eq!(e.kind(), ErrorKind::Extraction);
}

#[test]
fn lens_challenge_page_is_told_apart() {
    let lens = GoogleLens::new();
    let e = lens
        .parse_page("<html>Our systems have detected unusual traffic from your network</html>", &None)
        .unwrap_err();
    assert_eq!(e.kind(), ErrorKind::UpstreamChallenge);
}

#[test]
fn lens_page_with_data_gives_results() {
    let html = format!(
        "<html><head><script>var a;</script><script>AF_initDataCallback({{key: 'ds:1', data: {} , sideChannel: {{}}}});</script></head></html>",
        DATA
    );
    let lens = GoogleLens::new();
    let results = lens.parse_page(&html, &None).unwrap();
    assert_eq!(results.len(), 1);
    assert_eq!(results[0].title.as_deref(), Some("Best title"));
}

#[test]
fn lens_search_by_url_is_one_round_trip() {
    let lens = GoogleLens::new();
    let (stage, request) = lens.begin_url("http://img.example/a.png");
    assert_eq!(request.method, Method::Get);
    assert_eq!(
        request.url,
        "https://lens.google.com/uploadbyurl?url=http://img.example/a.png&hl=en&gl=us"
    );
    assert_eq!(request.headers, vec![("referer".to_string(), "https://lens.google.com".to_string())]);
    assert!(request.follow_redirects);
    let html = format!(
        "<script>AF_initDataCallback({{key: 'ds:1', data: {} , sideChannel: {{}}}});</script>",
        DATA
    );
    let (stage, step) = lens.advance(stage, &response(200, &html), &no_threshold(), 0);
    assert!(matches!(stage, LensStage::Closed));
    match step {
        Step::Done(url, results) => {
            assert_eq!(
                url,
                "https://lens.google.com/uploadbyurl?url=http://img.example/a.png&hl=en&gl=us"
            );
            assert_eq!(results.len(), 1);
        }
        other => panic!("unexpected step {:?}", other),
    }
}

#[test]
fn lens_upload_follows_the_redirect_with_fresh_parameters() {
    let lens = GoogleLens::new();
    let (stage, request) = lens.begin_bytes(&[1, 2, 3]);
    assert_eq!(request.url, "https://lens.google.com");
    assert!(!request.follow_redirects);
    let (stage, step) = lens.advance(stage, &response(200, ""), &no_threshold(), 0);
    let upload = match step {
        Step::Send(r) => r,
        other => panic!("unexpected step {:?}", other),
    };
    assert_eq!(upload.method, Method::Post);
    assert_eq!(upload.url, "https://lens.google.com/upload");
    assert_eq!(
        upload.query,
        vec![("hl".to_string(), "en".to_string()), ("gl".to_string(), "us".to_string())]
    );
    assert_eq!(upload.form.len(), 2);
    match &upload.form[0] {
        FormField::File { name, file_name, mime, data } => {
            assert_eq!(name, "encoded_image");
            assert_eq!(file_name, "image.jpg");
            assert_eq!(mime, "image/jpeg");
            assert_eq!(data, &vec![1, 2, 3]);
        }
        other => panic!("unexpected field {:?}", other),
    }
    let redirect = Response {
        status: 302,
        url: String::new(),
        location: Some("https://lens.google.com/search?p=abc".to_string()),
        body: String::new(),
        data: Vec::new(),
    };
    let (stage, step) = lens.advance(stage, &redirect, &no_threshold(), 1_700_000_000_123);
    let follow = match step {
        Step::Send(r) => r,
        other => panic!("unexpected step {:?}", other),
    };
    assert_eq!(
        follow.url,
        "https://lens.google.com/search?p=abc&qsubts=1700000000123&biw=1920&bih=911"
    );
    assert_eq!(follow.headers.len(), 9);
    assert_eq!(follow.headers[0], ("referer".to_string(), "https://lens.google.com/upload".to_string()));
    let (_, step) = lens.advance(stage, &response(503, "busy"), &no_threshold(), 0);
    match step {
        Step::Fail(e) => assert_eq!(e.status(), Some(503)),
        other => panic!("unexpected step {:?}", other),
    }
}

#[test]
fn lens_redirect_without_query_gets_a_question_mark() {
    let lens = GoogleLens::new();
    assert_eq!(
        lens.follow_url("https://lens.google.com/search", 42),
        "https://lens.google.com/search?qsubts=42&biw=1920&bih=911"
    );
}

#[test]
fn lens_upload_without_redirect_fails() {
    let lens = GoogleLens::new();
    let (_, step) = lens.advance(LensStage::Uploading, &response(200, "ok"), &no_threshold(), 0);
    match step {
        Step::Fail(e) => assert_eq!(e.kind(), ErrorKind::Extraction),
        other => panic!("unexpected step {:?}", other),
    }
    let (_, step) = lens.advance(LensStage::Uploading, &response(302, ""), &no_threshold(), 0);
    match step {
        Step::Fail(e) => assert_eq!(e.kind(), ErrorKind::Extraction),
        other => panic!("unexpected step {:?}", other),
    }
    let (_, step) = lens.advance(LensStage::Uploading, &response(503, ""), &no_threshold(), 0);
    match step {
        Step::Fail(e) => {
            assert_eq!(e.kind(), ErrorKind::HttpStatus);
            assert_eq!(e.status(), Some(503));
        }
        other => panic!("unexpected step {:?}", other),
    }
}

#[test]
fn lens_base64_input_is_decoded_or_rejected() {
    let lens = GoogleLens::new();
    let (stage, _) = lens.begin_base64("AQID").unwrap();
    match stage {
        LensStage::Priming(bytes) => assert_eq!(bytes, vec![1, 2, 3]),
        other => panic!("unexpected stage {:?}", other),
    }
    assert_eq!(lens.begin_base64("***").unwrap_err().kind(), ErrorKind::Decode);
}
