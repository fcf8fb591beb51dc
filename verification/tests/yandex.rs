use reverse_image_search::engines::yandex::{results_from_sites, site_result, Yandex, YandexStage};
use reverse_image_search::engines::Step;
use reverse_image_search::error::ErrorKind;
use reverse_image_search::json::Json;
use reverse_image_search::network::{FormField, Method, Response};

const STATE: &str = r#"{"sites":[{"url":"https://a.example/p","title":"First","domain":"a.example","description":"d","thumb":{"url":"//thumb.example/1.jpg"},"originalImage":{"width":640,"height":480}},{"title":"no url"},{"url":"https://b.example/q","title":"Second","domain":"b.example","thumb":{"url":"https://thumb.example/2.jpg"},"originalImage":{"width":4294967297}}]}"#;

fn page() -> String {
    format!(
        "<html><body><div class=\"Root\" id=\"CbirSites_infinite-1\" data-state='{}'></div></body></html>",
        STATE
    )
}

fn response(status: u16, url: &str, body: &str) -> Response {
    Response {
        status,
        url: url.to_string(),
        location: None,
        body: body.to_string(),
        data: body.as_bytes().to_vec(),
    }
}

#[test]
fn yandex_sites_become_results() {
    let results = Yandex::parse_html(&page()).unwrap();
    assert_eq!(results.len(), 2);
    let r = &results[0];
    assert_eq!(r.title.as_deref(), Some("[a.example] First - 640x480"));
    assert_eq!(r.url, "https://a.example/p");
    assert_eq!(r.thumbnail.as_deref(), Some("https://thumb.example/1.jpg"));
    assert!(r.similarity.is_none());
    assert_eq!(r.source, "Yandex");
    assert_eq!(r.index.as_deref(), Some("0"));
    let info = r.additional_info.as_ref().unwrap();
    assert_eq!(info.source_url.as_deref(), Some("https://a.example"));
    assert_eq!(info.size, Some((640, 480)));
    let r = &results[1];
    assert_eq!(r.title.as_deref(), Some("[b.example] Second - "));
    assert_eq!(r.thumbnail.as_deref(), Some("https://thumb.example/2.jpg"));
    assert_eq!(r.index.as_deref(), Some("2"));
    assert_eq!(r.additional_info.as_ref().unwrap().size, None);
}

#[test]
fn yandex_sizes_are_narrowed_to_32_bits() {
    let r = site_result("u".into(), "t", "d", None, Some((4_294_967_297, 5)), 1);
    assert_eq!(r.title.as_deref(), Some("[d] t - 4294967297x5"));
    assert_eq!(r.additional_info.unwrap().size, Some((1, 5)));
}

#[test]
fn yandex_empty_list_of_sites_is_no_error() {
    let page = "<div class=\"Root\" id=\"CbirSites_infinite\" data-state='{\"sites\":[]}'></div>";
    assert!(Yandex::parse_html(page).unwrap().is_empty());
    let doc = Json::parse("[]").unwrap();
    assert!(results_from_sites(doc.as_array().unwrap()).is_empty());
}

#[test]
fn yandex_missing_anchors_are_extraction_errors() {
    for page in [
        "<html><body></body></html>",
        "<div class=\"Root\" id=\"Other\" data-state='{\"sites\":[]}'></div>",
        "<div class=\"Root\" id=\"CbirSites_infinite\"></div>",
        "<div class=\"Root\" id=\"CbirSites_infinite\" data-state='{\"sites\":'></div>",
        "<div class=\"Root\" id=\"CbirSites_infinite\" data-state='{\"other\":[]}'></div>",
        "<div class=\"Root\" id=\"CbirSites_infinite\" data-state='{\"sites\":{}}'></div>",
    ] {
        assert_eq!(Yandex::parse_html(page).unwrap_err().kind(), ErrorKind::Extraction, "{}", page);
    }
}

#[test]
fn yandex_maintenance_page_is_told_apart() {
    let e = Yandex::parse_html("<p>The service is under construction</p>").unwrap_err();
    assert_eq!(e.kind(), ErrorKind::UpstreamChallenge);
}

#[test]
fn yandex_requests_go_to_the_search_endpoint() {
    let yandex = Yandex::default();
    let (stage, request) = yandex.begin_url("http://img/a.png");
    assert_eq!(stage, YandexStage::Asked);
    assert_eq!(request.method, Method::Get);
    assert_eq!(
        request.url,
        "https://yandex.com/images/search?rpt=imageview&url=http://img/a.png&cbir_page=sites"
    );
    assert_eq!(request.headers.len(), 6);
    assert_eq!(request.headers[1], ("referer".to_string(), "https://yandex.com".to_string()));

    let yandex = Yandex::new("https://yandex.ru").with_cookie("k=v".to_string());
    let (_, request) = yandex.begin_bytes(&[5]);
    assert_eq!(request.method, Method::Post);
    assert_eq!(request.url, "https://yandex.ru/images/search?rpt=imageview&cbir_page=sites");
    assert_eq!(request.headers.len(), 7);
    assert_eq!(request.headers[6], ("cookie".to_string(), "k=v".to_string()));
    assert_eq!(request.form.len(), 2);
    match &request.form[1] {
        FormField::File { name, file_name, mime, data } => {
            assert_eq!(name, "upfile");
            assert_eq!(file_name, "image.jpg");
            assert_eq!(mime, "image/jpeg");
            assert_eq!(data, &vec![5]);
        }
        other => panic!("unexpected field {:?}", other),
    }
}

#[test]
fn yandex_response_ends_the_search_under_the_answering_url() {
    let yandex = Yandex::default();
    let (stage, step) =
        yandex.advance(YandexStage::Asked, &response(200, "https://yandex.com/r", &page()));
    assert_eq!(stage, YandexStage::Closed);
    match step {
        Step::Done(url, results) => {
            assert_eq!(url, "https://yandex.com/r");
            assert_eq!(results.len(), 2);
        }
        other => panic!("unexpected step {:?}", other),
    }
    let (_, step) = yandex.advance(YandexStage::Asked, &response(503, "", "down"));
    match step {
        Step::Fail(e) => assert_eq!(e.status(), Some(503)),
        other => panic!("unexpected step {:?}", other),
    }
}
