use reverse_image_search::engines::ascii2d::Ascii2d;
use reverse_image_search::engines::google::Google;
use reverse_image_search::engines::google_lens::GoogleLens;
use reverse_image_search::engines::iqdb::Iqdb;
use reverse_image_search::engines::saucenao::SauceNao;
use reverse_image_search::engines::soutubot::Soutubot;
use reverse_image_search::engines::yandex::Yandex;
use reverse_image_search::engines::{Clock, ImageSearch, Step};
use reverse_image_search::error::{Error, ErrorKind};
use reverse_image_search::network::{Method, Response};
use reverse_image_search::types::{SearchOptions, SearchResult, Similarity};

const NOW: Clock = Clock { secs: 1_700_000_000, millis: 1_700_000_000_123 };

fn response(status: u16, body: &str) -> Response {
    Response {
        status,
        url: "https://answer.example/page".to_string(),
        location: None,
        body: body.to_string(),
        data: body.as_bytes().to_vec(),
    }
}

fn options(min: Option<u32>) -> SearchOptions {
    SearchOptions {
        proxy: None,
        timeout: None,
        min_similarity: min.map(Similarity::from_hundredths),
        hide_explicit: false,
    }
}

fn fails_with_the_status<E: ImageSearch>(engine: &E, status: u16) {
    let (stage, _) = engine.search_url("http://img.example/a.png", &options(None), &NOW);
    let (_, step) = engine.resume(stage, &response(status, "unavailable"), &options(None), &NOW);
    match step {
        Step::Fail(Error::HttpStatus { status: carried, body }) => {
            assert_eq!(carried, status, "{}", engine.name());
            assert_eq!(body.as_deref(), Some("unavailable"));
        }
        other => panic!("{}: unexpected step {:?}", engine.name(), other),
    }
    let (stage, _) = engine.search_bytes(&[1, 2, 3], &options(None), &NOW);
    let (_, step) = engine.resume(stage, &response(status, "unavailable"), &options(None), &NOW);
    match step {
        Step::Fail(e) => {
            assert_eq!(e.kind(), ErrorKind::HttpStatus);
            assert_eq!(e.status(), Some(status));
        }
        other => panic!("{}: unexpected step {:?}", engine.name(), other),
    }
}

#[test]
fn every_engine_fails_with_the_status_of_an_unavailable_upstream() {
    for status in [503u16, 500, 404, 429, 301, 199, 300] {
        fails_with_the_status(&Ascii2d::new(), status);
        fails_with_the_status(&Google::new(), status);
        fails_with_the_status(&GoogleLens::new(), status);
        fails_with_the_status(&Iqdb::new(), status);
        fails_with_the_status(&SauceNao::new(None), status);
        fails_with_the_status(&Soutubot::new(), status);
        fails_with_the_status(&Yandex::default(), status);
    }
}

#[test]
fn status_check_passes_success_only() {
    assert!(response(200, "").check().is_ok());
    assert!(response(204, "").check().is_ok());
    assert!(response(299, "").check().is_ok());
    for status in [199u16, 300, 302, 404, 503] {
        match response(status, "why").check().unwrap_err() {
            Error::HttpStatus { status: carried, body } => {
                assert_eq!(carried, status);
                assert_eq!(body.as_deref(), Some("why"));
            }
            other => panic!("unexpected error {:?}", other),
        }
    }
}

fn decodes_base64<E: ImageSearch>(engine: &E) {
    assert!(engine.search_base64("AQID", &options(None), &NOW).is_ok(), "{}", engine.name());
    let e = match engine.search_base64("not base64", &options(None), &NOW) {
        Err(e) => e,
        Ok(_) => panic!("{}: a malformed text was taken", engine.name()),
    };
    assert_eq!(e.kind(), ErrorKind::Decode, "{}", engine.name());
}

#[test]
fn engines_take_base64_as_bytes() {
    decodes_base64(&Ascii2d::new());
    decodes_base64(&GoogleLens::new());
    decodes_base64(&Iqdb::new());
    decodes_base64(&SauceNao::new(None));
    decodes_base64(&Soutubot::new());
    decodes_base64(&Yandex::default());
    // This engine sends the text on as a data URL and decodes nothing.
    let (_, request) = Google::new().search_base64("not base64", &options(None), &NOW).unwrap();
    assert_eq!(request.method, Method::Get);
    assert!(request.url.contains("data:image/jpeg;base64,not base64"));
}

#[test]
fn soutubot_takes_base64_through_the_default() {
    let engine = Soutubot::new();
    let (_, by_base64) = engine.search_base64("AQID", &options(None), &NOW).unwrap();
    let (_, by_bytes) = engine.search_bytes(&[1, 2, 3], &options(None), &NOW);
    assert_eq!(format!("{:?}", by_base64), format!("{:?}", by_bytes));
}

fn scores(results: &[SearchResult]) -> Vec<Option<u32>> {
    results.iter().map(|r| r.similarity.map(|s| s.hundredths())).collect()
}

fn done<E: ImageSearch>(engine: &E, body: &str, min: Option<u32>) -> Vec<SearchResult> {
    let (stage, _) = engine.search_bytes(&[1], &options(min), &NOW);
    match engine.resume(stage, &response(200, body), &options(min), &NOW).1 {
        Step::Done(_, results) => results,
        other => panic!("{}: unexpected step {:?}", engine.name(), other),
    }
}

#[test]
fn no_result_scores_below_the_threshold() {
    let sauce = r#"{"header":{"status":0},"results":[
        {"header":{"similarity":"49.99","thumbnail":"t","index_id":1,"index_name":"n"},"data":{}},
        {"header":{"similarity":"50","thumbnail":"t","index_id":1,"index_name":"n"},"data":{}},
        {"header":{"similarity":"99.1","thumbnail":"t","index_id":1,"index_name":"n"},"data":{}}]}"#;
    assert_eq!(scores(&done(&SauceNao::new(None), sauce, Some(5_000))), vec![Some(5_000), Some(9_910)]);
    assert_eq!(
        scores(&done(&SauceNao::new(None), sauce, None)),
        vec![Some(4_999), Some(5_000), Some(9_910)]
    );
    let soutu = r#"{"data":[{"similarity":49.99},{"similarity":50},{"similarity":99.1}]}"#;
    assert_eq!(scores(&done(&Soutubot::new(), soutu, Some(5_000))), vec![Some(5_000), Some(9_910)]);
    assert_eq!(scores(&done(&Soutubot::new(), soutu, Some(10_000))), vec![]);
    let iqdb = "<div id=\"pages\"><div><table><tr><th>Your image</th></tr></table></div>\
<div><table><tr><td><a href=\"http://h/1\">a</a></td></tr><tr><td>b</td></tr><tr><td>c</td></tr><tr><td>49% similarity</td></tr></table></div>\
<div><table><tr><td><a href=\"http://h/2\">a</a></td></tr><tr><td>b</td></tr><tr><td>c</td></tr><tr><td>51% similarity</td></tr></table></div>\
<div><table><tr><td><a href=\"http://h/3\">a</a></td></tr><tr><td>b</td></tr><tr><td>c</td></tr><tr><td>unknown</td></tr></table></div></div>";
    let kept = done(&Iqdb::new(), iqdb, Some(5_000));
    assert_eq!(scores(&kept), vec![Some(5_100), None]);
    assert_eq!(kept[0].index.as_deref(), Some("0"));
    assert_eq!(kept[1].index.as_deref(), Some("1"));
}

#[test]
fn engine_names_are_fixed() {
    assert_eq!(ImageSearch::name(&Ascii2d::new()), "ASCII2D");
    assert_eq!(ImageSearch::name(&Google::new()), "Google");
    assert_eq!(ImageSearch::name(&GoogleLens::new()), "Google Lens");
    assert_eq!(ImageSearch::name(&Iqdb::new()), "IQDB");
    assert_eq!(ImageSearch::name(&SauceNao::new(None)), "SauceNAO");
    assert_eq!(ImageSearch::name(&Soutubot::new()), "Soutubot");
    assert_eq!(ImageSearch::name(&Yandex::default()), "Yandex");
}

#[test]
fn no_result_has_a_protocol_relative_url() {
    let yandex = "<div class=\"Root\" id=\"CbirSites_infinite\" data-state='{\"sites\":[{\"url\":\"//site.example/p\",\"domain\":\"site.example\"}]}'></div>";
    let results = done(&Yandex::default(), yandex, None);
    assert_eq!(results[0].url, "https://site.example/p");

    let google = "<div id=\"search\"><div class=\"g\"><a href=\"//site.example/p\"><h3>t</h3></a><img id=\"dimg_1\"></div></div>\
<script>var a='data:image/png;base64,AA';var b='dimg_1';</script>";
    let (stage, _) = reverse_image_search::Google::new().search_bytes(&[1], &options(None), &NOW);
    let (stage, _) = reverse_image_search::Google::new().resume(stage, &response(200, ""), &options(None), &NOW);
    match reverse_image_search::Google::new().resume(stage, &response(200, google), &options(None), &NOW).1 {
        Step::Done(url, results) => {
            assert_eq!(url, "https://answer.example/page");
            assert_eq!(results[0].url, "https://site.example/p");
            assert_eq!(results[0].thumbnail.as_deref(), Some("data:image/png;base64,AA"));
        }
        other => panic!("unexpected step {:?}", other),
    }

    let lens = "<script>AF_initDataCallback({data: [[null,[null,null,null,null,null,null,null,null,[null,null,null,null,null,null,null,null,[[null,null,null,null,null,null,null,null,null,null,null,null,[[[\"t\"],90,null,\"x\",null,\"//site.example/p\"]]]]]]]] , sideChannel: {}});</script>";
    let (stage, _) = GoogleLens::new().search_url("u", &options(None), &NOW);
    match GoogleLens::new().resume(stage, &response(200, lens), &options(None), &NOW).1 {
        Step::Done(_, results) => assert_eq!(results[0].url, "https://site.example/p"),
        other => panic!("unexpected step {:?}", other),
    }

    let sauce = r#"{"header":{"status":0},"results":[
        {"header":{"similarity":"90","thumbnail":"t","index_id":1,"index_name":"n"},"data":{"ext_urls":["//site.example/p"]}}]}"#;
    assert_eq!(done(&SauceNao::new(None), sauce, None)[0].url, "https://site.example/p");
}

#[test]
fn every_kind_of_error_is_told_apart() {
    assert_eq!(Error::Transport("connection refused".into()).kind(), ErrorKind::Transport);
    assert_eq!(Error::HttpStatus { status: 503, body: None }.kind(), ErrorKind::HttpStatus);
    assert_eq!(Error::UpstreamChallenge("blocked".into()).kind(), ErrorKind::UpstreamChallenge);
    assert_eq!(Error::Decode("bad".into()).kind(), ErrorKind::Decode);
    assert_eq!(Error::Extraction("shape".into()).kind(), ErrorKind::Extraction);
    assert_eq!(Error::UpstreamApi { code: -1, message: "m".into() }.kind(), ErrorKind::UpstreamApi);
    assert_eq!(Error::HttpStatus { status: 503, body: None }.status(), Some(503));
    assert_eq!(Error::Transport("x".into()).status(), None);
}

#[test]
fn errors_read_as_their_kind_and_payload() {
    assert_eq!(Error::Transport("refused".into()).describe(), "Transport error: refused");
    assert_eq!(Error::HttpStatus { status: 503, body: Some("x".into()) }.describe(), "HTTP status 503");
    assert_eq!(
        Error::UpstreamChallenge("captcha".into()).describe(),
        "The upstream blocked the request: captcha"
    );
    assert_eq!(Error::Decode("bad".into()).describe(), "Base64 decode error: bad");
    assert_eq!(Error::Extraction("shape".into()).describe(), "Invalid response: shape");
    assert_eq!(
        Error::UpstreamApi { code: -2, message: "Too fast".into() }.describe(),
        "Search engine error -2: Too fast"
    );
    assert_eq!(
        Error::UpstreamApi { code: i64::MIN, message: String::new() }.describe(),
        format!("Search engine error {}: ", i64::MIN)
    );
}
