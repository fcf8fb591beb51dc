use reverse_image_search::engines::google::{
    block, find_image, Google, GoogleResponse, GoogleStage, GoogleStep,
};
use reverse_image_search::error::ErrorKind;
use reverse_image_search::network::{Method, Response};

const PAGE: &str = "<html><body><div id=\"search\">\
<div class=\"g\"><a href=\"https://a.example/1\"><h3>Title One</h3></a><img id=\"dimg_1\" src=\"x\"></div>\
<div class=\"g\"><h3>No link</h3></div>\
<div class=\"g\"><a href=\"https://b.example/2\"><h3>Title Two</h3></a></div></div>\
<a aria-label=\"Page 2\" href=\"/search?q=x&amp;start=10\">2</a>\
<a aria-label=\"Page 3\" href=\"/search?q=x&amp;start=20\">3</a>\
<a aria-label=\"Page 4\">4</a>\
<script>(function(){var s='data:image/jpeg;base64,AAAA\\x3d\\x3d';var ii=['dimg_1'];})();</script>\
</body></html>";

const BARE: &str = "<html><body><div id=\"search\">\
<div class=\"g\"><a href=\"https://a.example/1\"><h3>Title One</h3></a></div></div></body></html>";

fn response(status: u16, url: &str, body: &str) -> Response {
    Response {
        status,
        url: url.to_string(),
        location: None,
        body: body.to_string(),
        data: body.as_bytes().to_vec(),
    }
}

fn page(current_page: usize, pages: &[&str]) -> GoogleResponse {
    GoogleResponse {
        results: Vec::new(),
        pages: pages.iter().map(|p| p.to_string()).collect(),
        current_page,
        url: pages[0].to_string(),
    }
}

#[test]
fn google_blocks_links_and_thumbnails_are_joined() {
    let r = Google::new().parse_response(PAGE, "https://www.google.com/s", 1).unwrap();
    assert_eq!(r.url, "https://www.google.com/s");
    assert_eq!(r.current_page, 1);
    assert_eq!(
        r.pages,
        vec![
            "https://www.google.com/s".to_string(),
            "https://www.google.com/search?q=x&start=10".to_string(),
            "https://www.google.com/search?q=x&start=20".to_string(),
        ]
    );
    assert_eq!(r.results.len(), 2);
    assert_eq!(r.results[0].title.as_deref(), Some("Title One"));
    assert_eq!(r.results[0].url, "https://a.example/1");
    assert_eq!(r.results[0].thumbnail.as_deref(), Some("data:image/jpeg;base64,AAAA=="));
    assert_eq!(r.results[0].index.as_deref(), Some("0"));
    assert_eq!(r.results[0].source, "Google");
    assert!(r.results[0].similarity.is_none());
    assert_eq!(r.results[1].title.as_deref(), Some("Title Two"));
    assert!(r.results[1].thumbnail.is_none());
    assert_eq!(r.results[1].index.as_deref(), Some("2"));
}

#[test]
fn google_challenge_page_is_told_apart() {
    let e = Google::new()
        .parse_response("<html>Our systems have detected unusual traffic</html>", "u", 1)
        .unwrap_err();
    assert_eq!(e.kind(), ErrorKind::UpstreamChallenge);
}

#[test]
fn google_page_without_results_container_is_an_extraction_error() {
    let e = Google::new().parse_response("<html><body></body></html>", "u", 1).unwrap_err();
    assert_eq!(e.kind(), ErrorKind::Extraction);
    let r = Google::new().parse_response("<div id=\"search\"></div>", "u", 1).unwrap();
    assert!(r.results.is_empty());
    assert_eq!(r.pages, vec!["u".to_string()]);
}

#[test]
fn google_later_pairs_win() {
    let pairs = vec![
        ("a".to_string(), "1".to_string()),
        ("b".to_string(), "2".to_string()),
        ("a".to_string(), "3".to_string()),
    ];
    assert_eq!(find_image(&pairs, "a").unwrap(), "3");
    assert_eq!(find_image(&pairs, "b").unwrap(), "2");
    assert!(find_image(&pairs, "c").is_none());
    let r = block(None, "u".into(), None, 7);
    assert_eq!(r.index.as_deref(), Some("7"));
}

#[test]
fn google_first_page_has_no_page_before_it() {
    let google = Google::new();
    let first = page(1, &["page-a", "page-b", "page-c"]);
    assert!(google.prev_page(&first).is_none());
    let (stage, request) = google.next_page(&first).unwrap();
    assert_eq!(request.method, Method::Get);
    assert_eq!(request.url, "page-b");
    match stage {
        GoogleStage::Turning(number, url) => {
            assert_eq!(number, 2);
            assert_eq!(url, "page-b");
        }
        other => panic!("unexpected stage {:?}", other),
    }
}

#[test]
fn google_turning_a_page_moves_by_exactly_one() {
    let google = Google::new();
    let first = page(1, &["page-a", "page-b", "page-c"]);
    let (stage, _) = google.next_page(&first).unwrap();
    let (_, step) = google.advance(stage, &response(200, "page-b", PAGE));
    let second = match step {
        GoogleStep::Done(p) => p,
        other => panic!("unexpected step {:?}", other),
    };
    assert_eq!(second.current_page, 2);
    assert_eq!(second.url, "page-b");
    let (stage, request) = google.prev_page(&second).unwrap();
    assert_eq!(request.url, "page-b");
    assert!(matches!(stage, GoogleStage::Turning(1, _)));
}

#[test]
fn google_last_page_has_no_page_after_it() {
    let google = Google::new();
    assert!(google.next_page(&page(3, &["page-a", "page-b", "page-c"])).is_none());
    assert!(google.next_page(&page(4, &["page-a", "page-b", "page-c"])).is_none());
    assert!(google.next_page(&page(1, &["page-a"])).is_none());
    assert!(google.prev_page(&page(0, &["page-a"])).is_none());
    assert!(google.prev_page(&page(9, &["page-a", "page-b"])).is_none());
    let (_, request) = google.prev_page(&page(3, &["page-a", "page-b"])).unwrap();
    assert_eq!(request.url, "page-b");
}

#[test]
fn google_search_by_url_asks_again_when_no_thumbnail_shows() {
    let google = Google::new();
    let (stage, request) = google.begin_url("http://img/a.png");
    let target = "https://www.google.com/searchbyimage?&image_url=http://img/a.png&client=Chrome";
    assert_eq!(request.url, target);
    assert_eq!(request.headers, vec![("referer".to_string(), "https://www.google.com".to_string())]);
    let (stage, step) = google.advance(stage, &response(200, target, BARE));
    let again = match step {
        GoogleStep::Send(r) => r,
        other => panic!("unexpected step {:?}", other),
    };
    assert_eq!(again.url, target);
    assert!(again.headers.is_empty());
    assert!(matches!(stage, GoogleStage::Retrying(_)));
    let (stage, step) = google.advance(stage, &response(200, target, PAGE));
    assert!(matches!(stage, GoogleStage::Closed));
    match step {
        GoogleStep::Done(p) => {
            assert_eq!(p.results.len(), 2);
            assert_eq!(p.url, target);
        }
        other => panic!("unexpected step {:?}", other),
    }
}

#[test]
fn google_search_by_url_ends_at_once_when_a_thumbnail_shows() {
    let google = Google::new();
    let (stage, _) = google.begin_url("u");
    let (stage, step) = google.advance(stage, &response(200, "", PAGE));
    assert!(matches!(stage, GoogleStage::Closed));
    assert!(matches!(step, GoogleStep::Done(_)));
}

#[test]
fn google_upload_takes_the_answering_url_as_page_url() {
    let google = Google::new();
    let (stage, request) = google.begin_bytes(&[1, 2]);
    assert_eq!(request.url, "https://www.google.com");
    let (stage, step) = google.advance(stage, &response(200, "", ""));
    let upload = match step {
        GoogleStep::Send(r) => r,
        other => panic!("unexpected step {:?}", other),
    };
    assert_eq!(upload.method, Method::Post);
    assert_eq!(upload.url, "https://www.google.com/searchbyimage/upload");
    assert_eq!(upload.form.len(), 2);
    let (_, step) = google.advance(stage, &response(200, "https://www.google.com/search?tbs=1", PAGE));
    match step {
        GoogleStep::Done(p) => assert_eq!(p.url, "https://www.google.com/search?tbs=1"),
        other => panic!("unexpected step {:?}", other),
    }
}

#[test]
fn google_base64_goes_out_as_a_data_url() {
    let (_, request) = Google::new().begin_base64("QUJD");
    assert_eq!(
        request.url,
        "https://www.google.com/searchbyimage?&image_url=data:image/jpeg;base64,QUJD&client=Chrome"
    );
}

#[test]
fn google_unavailable_service_fails_with_the_status() {
    let google = Google::new();
    for stage in [
        GoogleStage::Searching("u".into()),
        GoogleStage::Retrying("u".into()),
        GoogleStage::Priming(vec![1]),
        GoogleStage::Uploading,
        GoogleStage::Turning(2, "u".into()),
    ] {
        let (next, step) = google.advance(stage, &response(503, "", "down"));
        assert!(matches!(next, GoogleStage::Closed));
        match step {
            GoogleStep::Fail(e) => {
                assert_eq!(e.kind(), ErrorKind::HttpStatus);
                assert_eq!(e.status(), Some(503));
            }
            other => panic!("unexpected step {:?}", other),
        }
    }
}
