use reverse_image_search::engines::iqdb::{table_entry, Iqdb, IqdbStage};
use reverse_image_search::engines::Step;
use reverse_image_search::error::ErrorKind;
use reverse_image_search::network::{FormField, Method, Response};
use reverse_image_search::types::{SearchOptions, Similarity};

const PAGE: &str = "<html><body><div id=\"pages\" class=\"pages\">\
<div><table><tr><th>Your image</th></tr><tr><td class=\"image\"><img src=\"/thu/thu_1.jpg\"></td></tr><tr><td>x</td></tr></table></div>\
<div><table><tr><th>No relevant matches</th></tr><tr><td>nothing</td></tr></table></div>\
<div><table><tr><th>Best match</th></tr>\
<tr><td class=\"image\"><a href=\"//danbooru.donmai.us/posts/1\"><img src=\"/danbooru/a.jpg\" alt=\"x\"></a></td></tr>\
<tr><td><img alt=\"icon\" src=\"/icon/danbooru.ico\"> Danbooru </td></tr>\
<tr><td>600×800 [Safe]</td></tr>\
<tr><td>96% similarity</td></tr></table></div>\
</div></body></html>";

fn response(status: u16, body: &str) -> Response {
    Response {
        status,
        url: String::new(),
        location: None,
        body: body.to_string(),
        data: body.as_bytes().to_vec(),
    }
}

fn no_threshold() -> SearchOptions {
    SearchOptions { proxy: None, timeout: None, min_similarity: None, hide_explicit: false }
}

#[test]
fn iqdb_only_the_populated_table_gives_a_result() {
    let results = Iqdb::new().parse_results(PAGE, &None).unwrap();
    assert_eq!(results.len(), 1);
    let r = &results[0];
    assert_eq!(r.title.as_deref(), Some("[Danbooru] 600×800 [Safe]"));
    assert_eq!(r.url, "https://danbooru.donmai.us/posts/1");
    assert_eq!(r.thumbnail.as_deref(), Some("https://iqdb.org/danbooru/a.jpg"));
    assert_eq!(r.similarity.unwrap().hundredths(), 9_600);
    assert_eq!(r.source, "IQDB");
    assert_eq!(r.index.as_deref(), Some("0"));
}

#[test]
fn iqdb_results_below_the_threshold_are_left_out() {
    let iqdb = Iqdb::new();
    let kept = iqdb.parse_results(PAGE, &Some(Similarity::from_hundredths(9_600))).unwrap();
    assert_eq!(kept.len(), 1);
    let none = iqdb.parse_results(PAGE, &Some(Similarity::from_hundredths(9_601))).unwrap();
    assert!(none.is_empty());
}

#[test]
fn iqdb_page_with_only_the_echoed_image_has_no_results() {
    let page = "<div id=\"pages\"><div><table><tr><th>Your image</th></tr></table></div></div>";
    assert!(Iqdb::new().parse_results(page, &None).unwrap().is_empty());
    let empty = "<div id=\"pages\"></div>";
    assert!(Iqdb::new().parse_results(empty, &None).unwrap().is_empty());
}

#[test]
fn iqdb_page_without_the_container_is_an_extraction_error() {
    let e = Iqdb::new().parse_results("<html><body>oops</body></html>", &None).unwrap_err();
    assert_eq!(e.kind(), ErrorKind::Extraction);
}

#[test]
fn iqdb_malformed_tables_are_skipped() {
    let page = "<div id=\"pages\"><div><table><tr><th>Your image</th></tr></table></div>\
<div><table></table></div>\
<div><table><tr><th>Best match</th></tr><tr><td><a href=\"/x\">a</a></td></tr><tr><td>b</td></tr></table></div>\
<div><table><tr><td>no link</td></tr><tr><td>b</td></tr><tr><td>c</td></tr><tr><td>d</td></tr></table></div>\
<div><table><tr><td><a href=\"http://h/1\">a</a></td></tr><tr><td>b</td></tr><tr><td>10×10</td></tr><tr><td>about right</td></tr></table></div>\
</div>";
    let results = Iqdb::new().parse_results(page, &None).unwrap();
    assert_eq!(results.len(), 1);
    assert_eq!(results[0].url, "http://h/1");
    assert_eq!(results[0].title.as_deref(), Some("[] 10×10"));
    assert!(results[0].thumbnail.is_none());
    assert!(results[0].similarity.is_none());
}

#[test]
fn iqdb_entry_from_plain_values() {
    let r = table_entry(
        "//h/p",
        Some("/t.jpg".into()),
        Some("  Site \n".into()),
        Some("1×2".into()),
        Some("87.5% similarity".into()),
        3,
    );
    assert_eq!(r.url, "https://h/p");
    assert_eq!(r.title.as_deref(), Some("[Site] 1×2"));
    assert_eq!(r.thumbnail.as_deref(), Some("https://iqdb.org/t.jpg"));
    assert_eq!(r.similarity.unwrap().hundredths(), 8_750);
    assert_eq!(r.index.as_deref(), Some("3"));
    let r = table_entry("http://h/p", None, None, None, Some("87.5%".into()), 0);
    assert_eq!(r.url, "http://h/p");
    assert_eq!(r.title.as_deref(), Some("[] "));
    assert!(r.similarity.is_none());
}

#[test]
fn iqdb_requests_carry_the_image() {
    let iqdb = Iqdb::new();
    let (stage, request) = iqdb.begin_url("http://img/a.png");
    assert_eq!(stage, IqdbStage::Asked);
    assert_eq!(request.method, Method::Post);
    assert_eq!(request.url, "https://iqdb.org");
    match &request.form[0] {
        FormField::Text { name, value } => {
            assert_eq!(name, "url");
            assert_eq!(value, "http://img/a.png");
        }
        other => panic!("unexpected field {:?}", other),
    }
    let (_, request) = iqdb.begin_bytes(&[9, 8]);
    match &request.form[0] {
        FormField::File { name, file_name, mime, data } => {
            assert_eq!(name, "file");
            assert_eq!(file_name, "image.jpg");
            assert_eq!(mime, "image/jpeg");
            assert_eq!(data, &vec![9, 8]);
        }
        other => panic!("unexpected field {:?}", other),
    }
    let (_, request) = iqdb.begin_base64("CQg=").unwrap();
    match &request.form[0] {
        FormField::File { data, .. } => assert_eq!(data, &vec![9, 8]),
        other => panic!("unexpected field {:?}", other),
    }
    assert_eq!(iqdb.begin_base64("CQg").unwrap_err().kind(), ErrorKind::Decode);
}

#[test]
fn iqdb_response_ends_the_search() {
    let iqdb = Iqdb::new();
    let (stage, step) = iqdb.advance(IqdbStage::Asked, &response(200, PAGE), &no_threshold());
    assert_eq!(stage, IqdbStage::Closed);
    match step {
        Step::Done(url, results) => {
            assert_eq!(url, "");
            assert_eq!(results.len(), 1);
        }
        other => panic!("unexpected step {:?}", other),
    }
    let (_, step) = iqdb.advance(IqdbStage::Asked, &response(503, "down"), &no_threshold());
    match step {
        Step::Fail(e) => {
            assert_eq!(e.kind(), ErrorKind::HttpStatus);
            assert_eq!(e.status(), Some(503));
        }
        other => panic!("unexpected step {:?}", other),
    }
    let (_, step) = iqdb.advance(IqdbStage::Closed, &response(200, PAGE), &no_threshold());
    assert!(matches!(step, Step::Fail(_)));
}
