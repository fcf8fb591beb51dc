//! The client-rendered search: results sit in an inline script, as a data
//! structure that is no JSON document until its wrapper is cut away.

use vstd::prelude::*;
use crate::dom::{element_text, selected, Document};
use crate::engines::{
    close, closing_step, extraction, fail_status, outcome_view, status_failure, Clock,
    ImageSearch, Step, StepView,
};
use crate::network::{
    bytes_of, file_field, form_view, get_of, is_success, pairs_view, push_field, push_pair,
    text_field, FormField, FormFieldView, Method, Request, RequestView, Response, ResponseView,
};
use crate::utils::{
    add_scheme, base64_bytes, base64_to_bytes, is_relative, lemma_with_scheme_absolute,
    with_scheme,
};
use crate::error::{failure, Error, ErrorKind, ErrorView};
use crate::json::{
    descend, json_document, number_at, path, steps1, steps2, steps3, steps6, string_at, text_at,
    Json,
};
use crate::pattern::{regex_replace_all, regex_replaced};
use crate::text::{
    before_first, chars_of, contains, find, first_match, has_match, push_str, remove_all, slice,
    string_from_chars, take_before, trim, trim_end_matches, trimmed, without_from,
    without_trailing,
};
use crate::types::{
    all_absolute, empty_info, lemma_passing_absolute, lemma_passing_meets_threshold,
    lemma_passing_push, opt_score, opt_text, passing, push_if_passes, results_view, score_of,
    texts, AdditionalInfo, AdditionalInfoView, SearchOptions, SearchResult, SearchResultView,
    Similarity,
};

verus! {

/// The JSON text inside a data-bearing script, with the wrapper cut away:
/// either the object assigned in a `(function(){var m=` block, or the
/// `data:` member (else the first `[[` .. `]]` stretch) of an
/// `AF_initDataCallback` call. Nothing where neither shape is found.
pub open spec fn carved_json(script: Seq<char>) -> Option<Seq<char>> {
    match first_match(script, "(function(){var m="@, 0) {
        Some(start) => {
            let tail = without_from(script.skip(start), "(function(){var m="@, 0);
            let cut = before_first(tail, ";window."@);
            let bare = without_trailing(cut, "});"@);
            Some(before_first(bare, "};"@) + "}"@)
        },
        None => match first_match(script, "AF_initDataCallback"@, 0) {
            Some(start) => {
                let tail = script.skip(start);
                match first_match(tail, "data:"@, 0) {
                    Some(at) => {
                        let rest = tail.skip(at + "data:"@.len());
                        match first_match(rest, "sideChannel:"@, 0) {
                            Some(end) => Some(without_trailing(trimmed(rest.take(end)), ","@)),
                            None => None,
                        }
                    },
                    None => match first_match(tail, "[["@, 0) {
                        Some(at) => {
                            let rest = tail.skip(at);
                            match first_match(rest, "]]"@, 0) {
                                Some(end) => Some(rest.take(end + "]]"@.len())),
                                None => None,
                            }
                        },
                        None => None,
                    },
                }
            },
            None => None,
        },
    }
}

/// `s` from position `from` on.
fn tail_of(s: &Vec<char>, from: usize) -> (r: Vec<char>)
    requires
        from <= s.len(),
    ensures
        r@ == s@.skip(from as int),
{
    let r = slice(s, from, s.len());
    r
}

/// `s` up to position `to`.
fn head_of(s: &Vec<char>, to: usize) -> (r: Vec<char>)
    requires
        to <= s.len(),
    ensures
        r@ == s@.take(to as int),
{
    let r = slice(s, 0, to);
    r
}

/// Cuts the wrapper away from the text of a data-bearing script.
pub fn carve_json(script: &str) -> (r: Option<String>)
    ensures
        opt_text(r) == carved_json(script@),
{
    let text = chars_of(script);
    let function_mark = chars_of("(function(){var m=");
    let callback_mark = chars_of("AF_initDataCallback");
    match find(&text, &function_mark, 0) {
        Some(start) => {
            let tail = remove_all(&tail_of(&text, start), &function_mark);
            let cut = take_before(&tail, &chars_of(";window."));
            let bare = trim_end_matches(&cut, &chars_of("});"));
            let mut out = take_before(&bare, &chars_of("};"));
            push_str(&mut out, "}");
            Some(string_from_chars(&out))
        },
        None => match find(&text, &callback_mark, 0) {
            Some(start) => {
                let tail = tail_of(&text, start);
                let data_mark = chars_of("data:");
                match find(&tail, &data_mark, 0) {
                    Some(at) => {
                        let rest = tail_of(&tail, at + data_mark.len());
                        match find(&rest, &chars_of("sideChannel:"), 0) {
                            Some(end) => {
                                let data = trim_end_matches(
                                    &trim(&head_of(&rest, end)),
                                    &chars_of(","),
                                );
                                Some(string_from_chars(&data))
                            },
                            None => None,
                        }
                    },
                    None => {
                        let open_mark = chars_of("[[");
                        match find(&tail, &open_mark, 0) {
                            Some(at) => {
                                let rest = tail_of(&tail, at);
                                let close_mark = chars_of("]]");
                                match find(&rest, &close_mark, 0) {
                                    Some(end) => {
                                        Some(
                                            string_from_chars(
                                                &head_of(&rest, end + close_mark.len()),
                                            ),
                                        )
                                    },
                                    None => None,
                                }
                            },
                            None => None,
                        }
                    },
                }
            },
            None => None,
        },
    }
}

/// The script text carries the pre-render data: it holds one of the known
/// call-site patterns.
pub open spec fn is_data_script(text: Seq<char>) -> bool {
    has_match(text, "AF_initDataCallback"@) || has_match(text, "(function(){var m="@) || has_match(
        text,
        "key: 'ds:1'"@,
    )
}

/// The text of the first data-bearing script among `scripts`, from
/// position `from` on.
pub open spec fn data_script(source: Seq<char>, scripts: Seq<usize>, from: int) -> Option<
    Seq<char>,
>
    decreases scripts.len() - from,
{
    if from < 0 || from >= scripts.len() {
        None
    } else {
        match element_text(source, scripts[from]) {
            Some(text) => if is_data_script(text) {
                Some(text)
            } else {
                data_script(source, scripts, from + 1)
            },
            None => data_script(source, scripts, from + 1),
        }
    }
}

/// The pre-render data of a results page: the first data-bearing script,
/// carved and read as JSON. Nothing where a step fails.
pub open spec fn prerender_document(source: Seq<char>) -> Option<Json> {
    match data_script(source, selected(source, "script"@), 0) {
        Some(script) => match carved_json(script) {
            Some(text) => json_document(text),
            None => None,
        },
        None => None,
    }
}

/// The results page is the anti-automation challenge.
pub open spec fn is_challenge(body: Seq<char>) -> bool {
    has_match(body, "Our systems have detected unusual traffic"@)
}

/// The tags of a similar item: its cleaned price and its currency, each
/// where the item has it.
pub open spec fn price_tags(
    price: Option<Seq<char>>,
    currency: Option<Seq<char>>,
) -> Seq<Seq<char>> {
    let first: Seq<Seq<char>> = match price {
        Some(p) => seq!["价格: "@ + p],
        None => Seq::empty(),
    };
    match currency {
        Some(c) => first.push("货币: "@ + c),
        None => first,
    }
}

/// The result for the best match, from its title, thumbnail and page URL.
pub open spec fn best_view(
    title: Option<Seq<char>>,
    thumbnail: Option<Seq<char>>,
    page_url: Option<Seq<char>>,
) -> SearchResultView {
    SearchResultView {
        title,
        url: with_scheme(crate::types::text_or_empty(page_url)),
        thumbnail,
        similarity: Some(10_000),
        source: "Google Lens"@,
        index: None,
        additional_info: Some(empty_info()),
    }
}

/// The result for one visually similar item.
pub open spec fn similar_view(
    title: Option<Seq<char>>,
    score: Option<nat>,
    thumbnail: Option<Seq<char>>,
    page_url: Option<Seq<char>>,
    website: Option<Seq<char>>,
    price: Option<Seq<char>>,
    currency: Option<Seq<char>>,
) -> SearchResultView {
    SearchResultView {
        title,
        url: with_scheme(crate::types::text_or_empty(page_url)),
        thumbnail,
        similarity: score,
        source: "Google Lens"@,
        index: None,
        additional_info: Some(
            AdditionalInfoView {
                source_url: website,
                tags: price_tags(price, currency),
                ..empty_info()
            },
        ),
    }
}

/// A price text with everything but digits and points taken out, by the
/// regular expression `[^\d.]`.
pub open spec fn cleaned_price(price: Option<Seq<char>>) -> Option<Seq<char>> {
    match price {
        Some(p) => regex_replaced("[^\\d.]"@, p, ""@),
        None => None,
    }
}

/// The score of a similar item: its number, read as a percentage.
pub open spec fn item_score(number: Option<Seq<char>>) -> Option<nat> {
    match number {
        Some(text) => score_of(text, 2),
        None => None,
    }
}

/// The result for the similar item `item` of the pre-render data.
pub open spec fn item_view(item: Json) -> SearchResultView {
    similar_view(
        text_at(item, seq![3usize]),
        item_score(number_at(item, seq![1usize])),
        text_at(item, seq![0usize, 0usize]),
        text_at(item, seq![5usize]),
        text_at(item, seq![14usize]),
        cleaned_price(text_at(item, seq![0usize, 7usize, 1usize])),
        text_at(item, seq![0usize, 7usize, 5usize]),
    )
}

/// The best match of the pre-render data, where it has one.
pub open spec fn best_match(doc: Json) -> Option<Json> {
    path(doc, seq![0usize, 1usize, 8usize, 12usize, 0usize, 0usize])
}

/// The visually similar items of the pre-render data: in the second block
/// where there is a best match, in the first where there is none.
pub open spec fn similar_items(doc: Json) -> Seq<Json> {
    let block: usize = if best_match(doc) is Some {
        1
    } else {
        0
    };
    match path(doc, seq![block, 1usize, 8usize, 8usize, 0usize, 12usize]) {
        Some(list) => match list.items() {
            Some(items) => items,
            None => Seq::empty(),
        },
        None => Seq::empty(),
    }
}

/// The results that the pre-render data holds: the best match, if any,
/// then the similar items in order.
pub open spec fn lens_results(doc: Json) -> Seq<SearchResultView> {
    let similar = similar_items(doc).map_values(|item: Json| item_view(item));
    match best_match(doc) {
        Some(best) => seq![
            best_view(
                text_at(best, seq![0usize]),
                text_at(best, seq![2usize, 0usize, 0usize]),
                text_at(best, seq![2usize, 0usize, 4usize]),
            ),
        ] + similar,
        None => similar,
    }
}

/// The result for the best match.
pub fn best_result(
    title: Option<String>,
    thumbnail: Option<String>,
    page_url: Option<String>,
) -> (r:
    SearchResult)
    ensures
        r@ == best_view(opt_text(title), opt_text(thumbnail), opt_text(page_url)),
{
    SearchResult {
        title,
        url: add_scheme(crate::types::or_empty(page_url)),
        thumbnail,
        similarity: Some(Similarity::full()),
        source: "Google Lens".to_owned(),
        index: None,
        additional_info: Some(AdditionalInfo::default()),
    }
}

/// The result for one visually similar item; `price` is the cleaned price.
pub fn similar_result(
    title: Option<String>,
    score: Option<Similarity>,
    thumbnail: Option<String>,
    page_url: Option<String>,
    website: Option<String>,
    price: Option<String>,
    currency: Option<String>,
) -> (r: SearchResult)
    ensures
        r@ == similar_view(
            opt_text(title),
            crate::types::opt_score(score),
            opt_text(thumbnail),
            opt_text(page_url),
            opt_text(website),
            opt_text(price),
            opt_text(currency),
        ),
{
    let mut info = AdditionalInfo::default();
    info.source_url = website;
    let mut tags: Vec<String> = Vec::new();
    match price {
        Some(p) => {
            tags.push(crate::text::concat("价格: ", p.as_str()));
        },
        None => {},
    }
    match currency {
        Some(c) => {
            tags.push(crate::text::concat("货币: ", c.as_str()));
        },
        None => {},
    }
    assert(texts(tags) =~= price_tags(opt_text(price), opt_text(currency)));
    info.tags = tags;
    SearchResult {
        title,
        url: add_scheme(crate::types::or_empty(page_url)),
        thumbnail,
        similarity: score,
        source: "Google Lens".to_owned(),
        index: None,
        additional_info: Some(info),
    }
}

/// The score that a JSON number denotes, read as a percentage.
fn score_at(item: &Json, steps: &Vec<usize>) -> (r: Option<Similarity>)
    ensures
        crate::types::opt_score(r) == item_score(number_at(*item, steps@)),
{
    match descend(item, steps) {
        Some(found) => match found.as_number() {
            Some(text) => Similarity::parse_percent(text.as_str()),
            None => None,
        },
        None => None,
    }
}

/// The result for the similar item `item`.
fn item_result(item: &Json) -> (r: SearchResult)
    ensures
        r@ == item_view(*item),
{
    let price = match string_at(item, &steps3(0, 7, 1)) {
        Some(p) => regex_replace_all("[^\\d.]", p.as_str(), ""),
        None => None,
    };
    similar_result(
        string_at(item, &steps1(3)),
        score_at(item, &steps1(1)),
        string_at(item, &steps2(0, 0)),
        string_at(item, &steps1(5)),
        string_at(item, &steps1(14)),
        price,
        string_at(item, &steps3(0, 7, 5)),
    )
}

/// The results that the pre-render data `doc` holds and that pass the
/// threshold `min`.
pub fn results_from_document(doc: &Json, min: &Option<Similarity>) -> (r: Vec<SearchResult>)
    ensures
        results_view(r) == passing(lens_results(*doc), opt_score(*min)),
{
    let mut out: Vec<SearchResult> = Vec::new();
    let ghost floor = opt_score(*min);
    let best = descend(doc, &steps6(0, 1, 8, 12, 0, 0));
    let ghost mut seen: Seq<SearchResultView> = Seq::empty();
    let block: usize = match best {
        Some(found) => {
            let first = best_result(
                string_at(found, &steps1(0)),
                string_at(found, &steps3(2, 0, 0)),
                string_at(found, &steps3(2, 0, 4)),
            );
            proof {
                lemma_passing_push(seen, first@, floor);
                seen = seen.push(first@);
            }
            push_if_passes(&mut out, first, min);
            1
        },
        None => 0,
    };
    let ghost head = seen;
    let list = descend(doc, &steps6(block, 1, 8, 8, 0, 12));
    let items: Option<&Vec<Json>> = match list {
        Some(found) => found.as_array(),
        None => None,
    };
    match items {
        Some(items) => {
            let mut i: usize = 0;
            while i < items.len()
                invariant
                    i <= items.len(),
                    floor == opt_score(*min),
                    seen == head + items@.take(i as int).map_values(|item: Json| item_view(item)),
                    results_view(out) == passing(seen, floor),
                decreases items.len() - i,
            {
                let next = item_result(&items[i]);
                proof {
                    lemma_passing_push(seen, next@, floor);
                    seen = seen.push(next@);
                }
                push_if_passes(&mut out, next, min);
                i += 1;
            }
            assert(items@.take(items.len() as int) =~= items@);
        },
        None => {
        },
    }
    out
}

/// The engine for the client-rendered search.
#[derive(Debug, Clone, Copy, PartialEq, Eq, Structural)]
pub struct GoogleLens {}

/// What `parse_page` makes of a results page under the threshold `min`.
pub open spec fn page_outcome(body: Seq<char>, min: Option<nat>) -> Result<
    Seq<SearchResultView>,
    ErrorView,
> {
    if is_challenge(body) {
        Err(failure(ErrorKind::UpstreamChallenge))
    } else {
        match prerender_document(body) {
            Some(doc) => Ok(passing(lens_results(doc), min)),
            None => Err(failure(ErrorKind::Extraction)),
        }
    }
}

/// The URL that the upload's redirect leads to, with the freshness and
/// viewport parameters appended.
pub open spec fn followed_url(location: Seq<char>, now_millis: u64) -> Seq<char> {
    location + (if has_match(location, "?"@) {
        "&"@
    } else {
        "?"@
    }) + "qsubts="@ + crate::text::decimal(now_millis as nat) + "&biw=1920&bih=911"@
}

impl GoogleLens {
    /// The engine.
    pub fn new() -> (r: GoogleLens)
        ensures
            r == (GoogleLens {  }),
    {
        GoogleLens {  }
    }

    /// The engine's name.
    pub fn name(&self) -> (r: &'static str)
        ensures
            r@ == "Google Lens"@,
    {
        "Google Lens"
    }

    /// Finds the data-bearing script of a results page and reads its data.
    /// Fails with `Extraction` where the page has no such script, the
    /// script has none of the known shapes, or what is carved out of it is
    /// no JSON document.
    pub fn get_prerender_script(&self, html: &str) -> (r: Result<Json, Error>)
        ensures
            match r {
                Ok(doc) => prerender_document(html@) == Some(doc),
                Err(e) => prerender_document(html@) is None && e is Extraction,
            },
    {
        let page = Document::parse(html);
        let scripts = page.select("script");
        let mut i: usize = 0;
        while i < scripts.len()
            invariant
                i <= scripts.len(),
                page@ == html@,
                scripts@ == selected(html@, "script"@),
                data_script(html@, scripts@, 0) == data_script(html@, scripts@, i as int),
            decreases scripts.len() - i,
        {
            match page.text(scripts[i]) {
                Some(text) => {
                    let chars = chars_of(text.as_str());
                    if contains(&chars, &chars_of("AF_initDataCallback")) || contains(
                        &chars,
                        &chars_of("(function(){var m="),
                    ) || contains(&chars, &chars_of("key: 'ds:1'")) {
                        return match carve_json(text.as_str()) {
                            Some(carved) => match Json::parse(carved.as_str()) {
                                Ok(doc) => Ok(doc),
                                Err(_) => Err(
                                    extraction("the pre-render data is no JSON document"),
                                ),
                            },
                            None => Err(extraction("the data script has no known shape")),
                        };
                    }
                },
                None => {},
            }
            i += 1;
        }
        Err(extraction("no script carries the pre-render data"))
    }

    /// Reads a results page: fails with `UpstreamChallenge` on the
    /// anti-automation page, with `Extraction` where the page does not
    /// carry readable pre-render data, and else gives the results that
    /// pass the threshold `min`.
    pub fn parse_page(&self, html: &str, min: &Option<Similarity>) -> (r: Result<
        Vec<SearchResult>,
        Error,
    >)
        ensures
            outcome_view(r) == page_outcome(html@, opt_score(*min)),
    {
        if crate::text::text_contains(html, "Our systems have detected unusual traffic") {
            return Err(
                Error::UpstreamChallenge("the upstream asks for verification".to_owned()),
            );
        }
        match self.get_prerender_script(html) {
            Ok(doc) => Ok(results_from_document(&doc, min)),
            Err(e) => Err(e),
        }
    }

    /// The URL of a search by image URL.
    pub fn search_page_url(&self, url: &str) -> (r: String)
        ensures
            r@ == "https://lens.google.com/uploadbyurl?url="@ + url@ + "&hl=en&gl=us"@,
    {
        let mut out = chars_of("https://lens.google.com/uploadbyurl?url=");
        push_str(&mut out, url);
        push_str(&mut out, "&hl=en&gl=us");
        string_from_chars(&out)
    }

    /// The URL that follows an upload's redirect to `location`.
    pub fn follow_url(&self, location: &str, now_millis: u64) -> (r: String)
        ensures
            r@ == followed_url(location@, now_millis),
    {
        let mut out = chars_of(location);
        if contains(&out, &chars_of("?")) {
            push_str(&mut out, "&");
        } else {
            push_str(&mut out, "?");
        }
        push_str(&mut out, "qsubts=");
        crate::text::push_all(&mut out, &crate::text::decimal_chars(now_millis as u128));
        push_str(&mut out, "&biw=1920&bih=911");
        string_from_chars(&out)
    }
}

/// Where a search stands between two round trips.
#[derive(Debug)]
pub enum LensStage {
    /// The results page for an image URL was asked for; its URL.
    Page(String),
    /// The home page was asked for, to get cookies; the image waits.
    Priming(Vec<u8>),
    /// The image was posted; a redirect is expected.
    Uploading,
    /// The redirect is being followed; the results page URL.
    Following(String),
    /// The search is over.
    Closed,
}

/// What a stage holds.
pub ghost enum LensStageView {
    Page(Seq<char>),
    Priming(Seq<u8>),
    Uploading,
    Following(Seq<char>),
    Closed,
}

impl View for LensStage {
    type V = LensStageView;

    open spec fn view(&self) -> LensStageView {
        match *self {
            LensStage::Page(url) => LensStageView::Page(url@),
            LensStage::Priming(bytes) => LensStageView::Priming(bytes@),
            LensStage::Uploading => LensStageView::Uploading,
            LensStage::Following(url) => LensStageView::Following(url@),
            LensStage::Closed => LensStageView::Closed,
        }
    }
}

/// The request for the results page of an image URL.
pub open spec fn page_request(url: Seq<char>) -> RequestView {
    RequestView {
        headers: seq![("referer"@, "https://lens.google.com"@)],
        ..get_of("https://lens.google.com/uploadbyurl?url="@ + url + "&hl=en&gl=us"@)
    }
}

/// The request that gets the cookies before an upload.
pub open spec fn priming_request() -> RequestView {
    RequestView { follow_redirects: false, ..get_of("https://lens.google.com"@) }
}

/// The request that uploads an image.
pub open spec fn upload_request(bytes: Seq<u8>) -> RequestView {
    RequestView {
        method: Method::Post,
        url: "https://lens.google.com/upload"@,
        query: seq![("hl"@, "en"@), ("gl"@, "us"@)],
        headers: seq![("referer"@, "https://lens.google.com"@)],
        form: seq![
            FormFieldView::File {
                name: "encoded_image"@,
                file_name: "image.jpg"@,
                mime: "image/jpeg"@,
                data: bytes,
            },
            FormFieldView::Text { name: "image_content"@, value: ""@ },
        ],
        follow_redirects: false,
    }
}

/// The request that follows the upload's redirect to `url`.
pub open spec fn follow_request(url: Seq<char>) -> RequestView {
    RequestView {
        headers: seq![
            ("referer"@, "https://lens.google.com/upload"@),
            (
                "sec-ch-ua"@,
                "\"Not(A:Brand\";v=\"99\", \"Google Chrome\";v=\"133\", \"Chromium\";v=\"133\""@,
            ),
            ("sec-ch-ua-mobile"@, "?0"@),
            ("sec-ch-ua-platform"@, "Windows"@),
            ("sec-fetch-dest"@, "document"@),
            ("sec-fetch-mode"@, "navigate"@),
            ("sec-fetch-site"@, "same-origin"@),
            ("sec-fetch-user"@, "?1"@),
            ("upgrade-insecure-requests"@, "1"@),
        ],
        follow_redirects: false,
        ..get_of(url)
    }
}

/// What a search in `stage` does with `response`, at the time
/// `now_millis`: the next stage and the step.
pub open spec fn lens_next(
    stage: LensStageView,
    response: ResponseView,
    min: Option<nat>,
    now_millis: u64,
) -> (LensStageView, StepView) {
    match stage {
        LensStageView::Page(url) => (
            LensStageView::Closed,
            closing_step(url, response, page_outcome(response.body, min)),
        ),
        LensStageView::Priming(bytes) => if is_success(response.status) {
            (LensStageView::Uploading, StepView::Send(upload_request(bytes)))
        } else {
            (LensStageView::Closed, status_failure(response))
        },
        LensStageView::Uploading => if response.status == 302 {
            match response.location {
                Some(location) => (
                    LensStageView::Following(followed_url(location, now_millis)),
                    StepView::Send(follow_request(followed_url(location, now_millis))),
                ),
                None => (
                    LensStageView::Closed,
                    StepView::Fail(failure(ErrorKind::Extraction)),
                ),
            }
        } else if is_success(response.status) {
            (LensStageView::Closed, StepView::Fail(failure(ErrorKind::Extraction)))
        } else {
            (LensStageView::Closed, status_failure(response))
        },
        LensStageView::Following(url) => (
            LensStageView::Closed,
            closing_step(url, response, page_outcome(response.body, min)),
        ),
        LensStageView::Closed => (
            LensStageView::Closed,
            StepView::Fail(failure(ErrorKind::Extraction)),
        ),
    }
}

impl GoogleLens {
    /// Starts a search for the image at `url`.
    pub fn begin_url(&self, url: &str) -> (r: (LensStage, Request))
        ensures
            r.0@ == LensStageView::Page(
                "https://lens.google.com/uploadbyurl?url="@ + url@ + "&hl=en&gl=us"@,
            ),
            r.1@ == page_request(url@),
    {
        let page_url = self.search_page_url(url);
        let mut request = Request::get(page_url.clone());
        push_pair(&mut request.headers, "referer", "https://lens.google.com");
        (LensStage::Page(page_url), request)
    }

    /// Starts a search for the image `bytes`.
    pub fn begin_bytes(&self, bytes: &[u8]) -> (r: (LensStage, Request))
        ensures
            r.0@ == LensStageView::Priming(bytes@),
            r.1@ == priming_request(),
    {
        let mut request = Request::get("https://lens.google.com".to_owned());
        request.follow_redirects = false;
        (LensStage::Priming(bytes_of(bytes)), request)
    }

    /// Starts a search for the image that `data` encodes in base64; fails
    /// with `Decode` where `data` is no base64 text.
    pub fn begin_base64(&self, data: &str) -> (r: Result<(LensStage, Request), Error>)
        ensures
            match r {
                Ok(started) => base64_bytes(data@) == Some(started.0@->Priming_0)
                    && started.0@ is Priming && started.1@ == priming_request(),
                Err(e) => base64_bytes(data@) is None && e is Decode,
            },
    {
        match base64_to_bytes(data) {
            Ok(bytes) => Ok(self.begin_bytes(bytes.as_slice())),
            Err(e) => Err(e),
        }
    }

    fn upload(&self, bytes: Vec<u8>) -> (r: Request)
        ensures
            r@ == upload_request(bytes@),
    {
        let mut form: Vec<FormField> = Vec::new();
        push_field(&mut form, file_field("encoded_image", "image.jpg", "image/jpeg", bytes));
        push_field(&mut form, text_field("image_content", ""));
        let mut request = Request::post_form("https://lens.google.com/upload".to_owned(), form);
        push_pair(&mut request.query, "hl", "en");
        push_pair(&mut request.query, "gl", "us");
        push_pair(&mut request.headers, "referer", "https://lens.google.com");
        request.follow_redirects = false;
        assert(pairs_view(request.query) =~= upload_request(bytes@).query);
        assert(form_view(request.form) =~= upload_request(bytes@).form);
        request
    }

    fn follow(&self, url: String) -> (r: Request)
        ensures
            r@ == follow_request(url@),
    {
        let mut request = Request::get(url);
        push_pair(&mut request.headers, "referer", "https://lens.google.com/upload");
        push_pair(
            &mut request.headers,
            "sec-ch-ua",
            "\"Not(A:Brand\";v=\"99\", \"Google Chrome\";v=\"133\", \"Chromium\";v=\"133\"",
        );
        push_pair(&mut request.headers, "sec-ch-ua-mobile", "?0");
        push_pair(&mut request.headers, "sec-ch-ua-platform", "Windows");
        push_pair(&mut request.headers, "sec-fetch-dest", "document");
        push_pair(&mut request.headers, "sec-fetch-mode", "navigate");
        push_pair(&mut request.headers, "sec-fetch-site", "same-origin");
        push_pair(&mut request.headers, "sec-fetch-user", "?1");
        push_pair(&mut request.headers, "upgrade-insecure-requests", "1");
        request.follow_redirects = false;
        assert(pairs_view(request.headers) =~= follow_request(url@).headers);
        request
    }

    fn finish(&self, page_url: String, response: &Response, min: &Option<Similarity>) -> (r: Step)
        ensures
            r@ == closing_step(
                page_url@,
                response@,
                page_outcome(response.body@, opt_score(*min)),
            ),
    {
        if !response.succeeded() {
            return fail_status(response);
        }
        close(page_url, self.parse_page(response.body.as_str(), min))
    }

    /// Takes the response to the request of `stage` and says what the
    /// search does next. A response that did not succeed ends the search
    /// with `HttpStatus`, but for the redirect that answers an upload.
    pub fn advance(
        &self,
        stage: LensStage,
        response: &Response,
        options: &SearchOptions,
        now_millis: u64,
    ) -> (r: (LensStage, Step))
        ensures
            (r.0@, r.1@) == lens_next(
                stage@,
                response@,
                opt_score(options.min_similarity),
                now_millis,
            ),
    {
        match stage {
            LensStage::Page(url) => (
                LensStage::Closed,
                self.finish(url, response, &options.min_similarity),
            ),
            LensStage::Priming(bytes) => {
                if response.succeeded() {
                    (LensStage::Uploading, Step::Send(self.upload(bytes)))
                } else {
                    (LensStage::Closed, fail_status(response))
                }
            },
            LensStage::Uploading => {
                if response.status == 302 {
                    match &response.location {
                        Some(location) => {
                            let url = self.follow_url(location.as_str(), now_millis);
                            (LensStage::Following(url.clone()), Step::Send(self.follow(url)))
                        },
                        None => (
                            LensStage::Closed,
                            Step::Fail(extraction("the redirect has no Location header")),
                        ),
                    }
                } else if response.succeeded() {
                    (
                        LensStage::Closed,
                        Step::Fail(extraction("the upload was not answered with a redirect")),
                    )
                } else {
                    (LensStage::Closed, fail_status(response))
                }
            },
            LensStage::Following(url) => (
                LensStage::Closed,
                self.finish(url, response, &options.min_similarity),
            ),
            LensStage::Closed => (LensStage::Closed, Step::Fail(extraction("the search is over"))),
        }
    }
}

/// No result of the pre-render data has a protocol-relative URL.
pub proof fn lemma_lens_results_absolute(doc: Json)
    ensures
        all_absolute(lens_results(doc)),
{
    let all = lens_results(doc);
    assert forall|i: int| 0 <= i < all.len() implies !is_relative((#[trigger] all[i]).url) by {
        let similar = similar_items(doc);
        if best_match(doc) is Some && i == 0 {
            lemma_with_scheme_absolute(
                crate::types::text_or_empty(
                    text_at(best_match(doc)->Some_0, seq![2usize, 0usize, 4usize]),
                ),
            );
        } else {
            let k = if best_match(doc) is Some {
                i - 1
            } else {
                i
            };
            lemma_with_scheme_absolute(
                crate::types::text_or_empty(text_at(similar[k], seq![5usize])),
            );
        }
    }
}

impl ImageSearch for GoogleLens {
    type Stage = LensStage;

    open spec fn valid(stage: &LensStage) -> bool {
        true
    }

    open spec fn closed(stage: &LensStage) -> bool {
        *stage is Closed
    }

    open spec fn scored() -> bool {
        true
    }

    open spec fn label() -> Seq<char> {
        "Google Lens"@
    }

    open spec fn url_search(
        &self,
        url: Seq<char>,
        options: &SearchOptions,
        now: &Clock,
    ) -> RequestView {
        page_request(url)
    }

    open spec fn upload(
        &self,
        bytes: Seq<u8>,
        options: &SearchOptions,
        now: &Clock,
    ) -> RequestView {
        priming_request()
    }

    open spec fn awaits_redirect(stage: &LensStage) -> bool {
        *stage is Uploading
    }

    fn name(&self) -> (r: &'static str) {
        GoogleLens::name(self)
    }

    fn search_url(&self, url: &str, options: &SearchOptions, now: &Clock) -> (r: (
        LensStage,
        Request,
    ))
        ensures
            r.0@ == LensStageView::Page(
                "https://lens.google.com/uploadbyurl?url="@ + url@ + "&hl=en&gl=us"@,
            ),
    {
        self.begin_url(url)
    }

    fn search_bytes(&self, bytes: &[u8], options: &SearchOptions, now: &Clock) -> (r: (
        LensStage,
        Request,
    ))
        ensures
            r.0@ == LensStageView::Priming(bytes@),
    {
        self.begin_bytes(bytes)
    }

    fn resume(
        &self,
        stage: LensStage,
        response: &Response,
        options: &SearchOptions,
        now: &Clock,
    ) -> (r: (LensStage, Step))
        ensures
            (r.0@, r.1@) == lens_next(
                stage@,
                response@,
                opt_score(options.min_similarity),
                now.millis,
            ),
    {
        proof {
            let min = opt_score(options.min_similarity);
            if prerender_document(response.body@) is Some {
                let doc = prerender_document(response.body@)->Some_0;
                lemma_lens_results_absolute(doc);
                lemma_passing_absolute(lens_results(doc), min);
                lemma_passing_meets_threshold(lens_results(doc), min);
            }
        }
        self.advance(stage, response, options, now.millis)
    }
}

} // verus!
