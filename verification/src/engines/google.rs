//! The search-engine result page: result blocks, thumbnails that inline
//! scripts carry keyed by element id, and links to further pages.

use vstd::prelude::*;
use crate::dom::{
    element_attr, element_text, first_attr_under, first_text_under, selected, Document,
};
use crate::engines::{extraction, Clock, ImageSearch, Step};
use crate::error::{failure, status_error, Error, ErrorKind, ErrorView};
use crate::network::{
    bytes_of, file_field, form_view, get_of, is_success, pairs_view, push_field, push_pair,
    text_field, FormField, FormFieldView, Method, Request, RequestView, Response, ResponseView,
};
use crate::numeric::usize_text;
use crate::utils::{add_scheme, lemma_with_scheme_absolute, with_scheme};
use crate::pattern::{regex_find_all, regex_matches};
use crate::text::{
    chars_of, decimal, has_match, push_str, replace_all, replaced_from, string_from_chars,
    text_contains,
};
use crate::types::{
    all_absolute, empty_info, opt_text, or_empty, push_result, push_text, results_view,
    text_or_empty, texts, AdditionalInfo, SearchOptions, SearchResult, SearchResultView,
};

verus! {

/// The results page is the anti-automation challenge.
pub open spec fn is_challenge(body: Seq<char>) -> bool {
    has_match(body, "Our systems have detected unusual traffic"@)
}

/// An inline image as the page's scripts write it, with the escaped `=`
/// signs written out.
pub open spec fn unescaped(image: Seq<char>) -> Seq<char> {
    replaced_from(image, "\\x3d"@, "="@, 0)
}

/// The pairs of element id and inline image that one script carries: its
/// first inline image, for each element id that it names; none where it
/// carries no inline image.
pub open spec fn script_pairs(text: Seq<char>) -> Seq<(Seq<char>, Seq<char>)> {
    match regex_matches("data:image/(?:jpeg|jpg|png|gif);base64,[^'\"]+"@, text) {
        Some(images) => if images.len() > 0 {
            match regex_matches("dimg_[^'\"]+"@, text) {
                Some(ids) => ids.map_values(|id: Seq<char>| (id, unescaped(images[0]))),
                None => Seq::empty(),
            }
        } else {
            Seq::empty()
        },
        None => Seq::empty(),
    }
}

/// The pairs of element id and inline image that the scripts `scripts`
/// carry, in order.
pub open spec fn thumbnails(source: Seq<char>, scripts: Seq<usize>) -> Seq<(Seq<char>, Seq<char>)>
    decreases scripts.len(),
{
    if scripts.len() == 0 {
        Seq::empty()
    } else {
        thumbnails(source, scripts.drop_last()) + script_pairs(
            text_or_empty(element_text(source, scripts.last())),
        )
    }
}

/// The image that `pairs` holds for the element id `key`: that of the
/// last pair with this id.
pub open spec fn lookup(pairs: Seq<(Seq<char>, Seq<char>)>, key: Seq<char>) -> Option<Seq<char>>
    decreases pairs.len(),
{
    if pairs.len() == 0 {
        None
    } else if pairs.last().0 == key {
        Some(pairs.last().1)
    } else {
        lookup(pairs.drop_last(), key)
    }
}

/// The result for one result block, from its title, link and thumbnail
/// and its position among the blocks.
pub open spec fn block_view(
    title: Option<Seq<char>>,
    url: Seq<char>,
    thumbnail: Option<Seq<char>>,
    position: nat,
) -> SearchResultView {
    SearchResultView {
        title,
        url: with_scheme(url),
        thumbnail,
        similarity: None,
        source: "Google"@,
        index: Some(decimal(position)),
        additional_info: Some(empty_info()),
    }
}

/// The thumbnail of the result block `item`: the image that `pairs` holds
/// for the id of the block's first thumbnail element.
pub open spec fn block_thumbnail(
    source: Seq<char>,
    pairs: Seq<(Seq<char>, Seq<char>)>,
    item: usize,
) -> Option<Seq<char>> {
    match first_attr_under(source, item, "img[id^='dimg_']"@, "id"@) {
        Some(id) => lookup(pairs, id),
        None => None,
    }
}

/// The result for the result block `item` at `position`; nothing where
/// the block has no link.
pub open spec fn block_result(
    source: Seq<char>,
    pairs: Seq<(Seq<char>, Seq<char>)>,
    item: usize,
    position: nat,
) -> Option<SearchResultView> {
    let url = text_or_empty(first_attr_under(source, item, "a"@, "href"@));
    if url.len() == 0 {
        None
    } else {
        Some(
            block_view(
                first_text_under(source, item, "h3"@),
                url,
                block_thumbnail(source, pairs, item),
                position,
            ),
        )
    }
}

/// The results for the result blocks `items`: one for each block with a
/// link, in order.
pub open spec fn block_results(
    source: Seq<char>,
    pairs: Seq<(Seq<char>, Seq<char>)>,
    items: Seq<usize>,
) -> Seq<SearchResultView>
    decreases items.len(),
{
    if items.len() == 0 {
        Seq::empty()
    } else {
        match block_result(source, pairs, items.last(), (items.len() - 1) as nat) {
            Some(result) => block_results(source, pairs, items.drop_last()).push(result),
            None => block_results(source, pairs, items.drop_last()),
        }
    }
}

/// The URLs of the further pages that the anchors `anchors` link to.
pub open spec fn page_links(source: Seq<char>, anchors: Seq<usize>) -> Seq<Seq<char>>
    decreases anchors.len(),
{
    if anchors.len() == 0 {
        Seq::empty()
    } else {
        match element_attr(source, anchors.last(), "href"@) {
            Some(href) => page_links(source, anchors.drop_last()).push(
                "https://www.google.com"@ + href,
            ),
            None => page_links(source, anchors.drop_last()),
        }
    }
}

/// One page of results, with the pages that are known from it.
#[derive(Debug)]
pub struct GoogleResponse {
    pub results: Vec<SearchResult>,
    /// The URLs of the pages, the first page first.
    pub pages: Vec<String>,
    /// The number of this page, counted from 1.
    pub current_page: usize,
    /// The URL of this page.
    pub url: String,
}

/// What a page of results holds.
pub ghost struct GoogleResponseView {
    pub results: Seq<SearchResultView>,
    pub pages: Seq<Seq<char>>,
    pub current_page: usize,
    pub url: Seq<char>,
}

impl View for GoogleResponse {
    type V = GoogleResponseView;

    open spec fn view(&self) -> GoogleResponseView {
        GoogleResponseView {
            results: results_view(self.results),
            pages: texts(self.pages),
            current_page: self.current_page,
            url: self.url@,
        }
    }
}

/// What reading the page `body`, fetched from `url` as page number
/// `page`, gives: `UpstreamChallenge` for the challenge page, `Extraction`
/// where the page has no results container, and else its results and
/// page links.
pub open spec fn parsed_page(body: Seq<char>, url: Seq<char>, page: usize) -> Result<
    GoogleResponseView,
    ErrorView,
> {
    if is_challenge(body) {
        Err(failure(ErrorKind::UpstreamChallenge))
    } else if selected(body, "#search"@).len() == 0 {
        Err(failure(ErrorKind::Extraction))
    } else {
        Ok(
            GoogleResponseView {
                results: block_results(
                    body,
                    thumbnails(body, selected(body, "script"@)),
                    selected(body, "#search .g"@),
                ),
                pages: seq![url] + page_links(body, selected(body, "a[aria-label~=\"Page\"]"@)),
                current_page: page,
                url,
            },
        )
    }
}

/// The outcome of reading a page, with the page and the error each by
/// what the contracts speak of.
pub open spec fn page_view(
    r: Result<GoogleResponse, Error>,
) -> Result<GoogleResponseView, ErrorView> {
    match r {
        Ok(page) => Ok(page@),
        Err(e) => Err(e@),
    }
}

/// The result for one result block with the link `url`.
pub fn block(title: Option<String>, url: String, thumbnail: Option<String>, position: usize) -> (r:
    SearchResult)
    ensures
        r@ == block_view(opt_text(title), url@, opt_text(thumbnail), position as nat),
{
    SearchResult {
        title,
        url: add_scheme(url),
        thumbnail,
        similarity: None,
        source: "Google".to_owned(),
        index: Some(usize_text(position)),
        additional_info: Some(AdditionalInfo::default()),
    }
}

/// The image that `pairs` holds for the element id `key`.
pub fn find_image(pairs: &Vec<(String, String)>, key: &str) -> (r: Option<String>)
    ensures
        opt_text(r) == lookup(pairs_view(*pairs), key@),
{
    let mut i: usize = pairs.len();
    assert(pairs_view(*pairs).take(i as int) =~= pairs_view(*pairs));
    while i > 0
        invariant
            i <= pairs.len(),
            lookup(pairs_view(*pairs), key@) == lookup(pairs_view(*pairs).take(i as int), key@),
        decreases i,
    {
        proof {
            assert(pairs_view(*pairs).take(i as int).drop_last() =~= pairs_view(*pairs).take(
                i - 1,
            ));
        }
        if crate::text::same_text(pairs[i - 1].0.as_str(), key) {
            return Some(pairs[i - 1].1.clone());
        }
        i -= 1;
    }
    None
}

/// The pairs of element id and inline image for the element ids `ids`,
/// all with the image `image`.
fn pair_up(out: &mut Vec<(String, String)>, ids: &Vec<String>, image: &str)
    ensures
        pairs_view(*final(out)) == pairs_view(*old(out)) + texts(*ids).map_values(
            |id: Seq<char>| (id, image@),
        ),
{
    let mut i: usize = 0;
    while i < ids.len()
        invariant
            i <= ids.len(),
            pairs_view(*out) == pairs_view(*old(out)) + texts(*ids).take(i as int).map_values(
                |id: Seq<char>| (id, image@),
            ),
        decreases ids.len() - i,
    {
        push_pair(out, ids[i].as_str(), image);
        i += 1;
    }
}

/// Adds the pairs that the script text `text` carries to `out`.
fn add_script_pairs(out: &mut Vec<(String, String)>, text: &str)
    ensures
        pairs_view(*final(out)) == pairs_view(*old(out)) + script_pairs(text@),
{
    match regex_find_all("data:image/(?:jpeg|jpg|png|gif);base64,[^'\"]+", text) {
        Some(images) => {
            if images.len() > 0 {
                let image = string_from_chars(
                    &replace_all(&chars_of(images[0].as_str()), &chars_of("\\x3d"), &chars_of("=")),
                );
                match regex_find_all("dimg_[^'\"]+", text) {
                    Some(ids) => {
                        pair_up(out, &ids, image.as_str());
                    },
                    None => {},
                }
            }
        },
        None => {},
    }
}

/// The engine for the search-engine result page.
#[derive(Debug, Clone, Copy, PartialEq, Eq, Structural)]
pub struct Google {}

/// What a search does next.
#[derive(Debug)]
pub enum GoogleStep {
    /// Issue this request and hand back the response.
    Send(Request),
    /// The search is over: a page of results.
    Done(GoogleResponse),
    /// The search failed.
    Fail(Error),
}

/// What a step holds.
pub ghost enum GoogleStepView {
    Send(RequestView),
    Done(GoogleResponseView),
    Fail(ErrorView),
}

impl View for GoogleStep {
    type V = GoogleStepView;

    open spec fn view(&self) -> GoogleStepView {
        match *self {
            GoogleStep::Send(request) => GoogleStepView::Send(request@),
            GoogleStep::Done(page) => GoogleStepView::Done(page@),
            GoogleStep::Fail(e) => GoogleStepView::Fail(e@),
        }
    }
}

/// Where a search stands between two round trips.
#[derive(Debug)]
pub enum GoogleStage {
    /// The results page for an image URL was asked for; its URL.
    Searching(String),
    /// The same page was asked for once more; its URL.
    Retrying(String),
    /// The home page was asked for, to get cookies; the image waits.
    Priming(Vec<u8>),
    /// The image was posted.
    Uploading,
    /// Another page of results was asked for; its number and URL.
    Turning(usize, String),
    /// The search is over.
    Closed,
}

/// What a stage holds.
pub ghost enum GoogleStageView {
    Searching(Seq<char>),
    Retrying(Seq<char>),
    Priming(Seq<u8>),
    Uploading,
    Turning(usize, Seq<char>),
    Closed,
}

impl View for GoogleStage {
    type V = GoogleStageView;

    open spec fn view(&self) -> GoogleStageView {
        match *self {
            GoogleStage::Searching(url) => GoogleStageView::Searching(url@),
            GoogleStage::Retrying(url) => GoogleStageView::Retrying(url@),
            GoogleStage::Priming(bytes) => GoogleStageView::Priming(bytes@),
            GoogleStage::Uploading => GoogleStageView::Uploading,
            GoogleStage::Turning(page, url) => GoogleStageView::Turning(page, url@),
            GoogleStage::Closed => GoogleStageView::Closed,
        }
    }
}

/// The URL of the results page for the image at `url`.
pub open spec fn search_url(url: Seq<char>) -> Seq<char> {
    "https://www.google.com/searchbyimage?&image_url="@ + url + "&client=Chrome"@
}

/// The request for the results page at `target`, coming from the home
/// page.
pub open spec fn search_request(target: Seq<char>) -> RequestView {
    RequestView { headers: seq![("referer"@, "https://www.google.com"@)], ..get_of(target) }
}

/// The request that uploads an image.
pub open spec fn upload_request(bytes: Seq<u8>) -> RequestView {
    RequestView {
        method: Method::Post,
        query: seq![("hl"@, "en"@), ("gl"@, "us"@)],
        headers: seq![("referer"@, "https://www.google.com"@)],
        form: seq![
            FormFieldView::File {
                name: "encoded_image"@,
                file_name: "image.jpg"@,
                mime: "image/jpeg"@,
                data: bytes,
            },
            FormFieldView::Text { name: "image_content"@, value: ""@ },
        ],
        ..get_of("https://www.google.com/searchbyimage/upload"@)
    }
}

/// A page of results shows no thumbnail: it is asked for once more.
pub open spec fn lacks_thumbnails(page: GoogleResponseView) -> bool {
    forall|i: int| 0 <= i < page.results.len() ==> (#[trigger] page.results[i]).thumbnail is None
}

/// The last step of a search: what reading the page gave.
pub open spec fn closing(outcome: Result<GoogleResponseView, ErrorView>) -> GoogleStepView {
    match outcome {
        Ok(page) => GoogleStepView::Done(page),
        Err(error) => GoogleStepView::Fail(error),
    }
}

/// What a search in `stage` does with `response`: the next stage and the
/// step. A response that did not succeed ends the search with
/// `HttpStatus`.
pub open spec fn google_next(stage: GoogleStageView, response: ResponseView) -> (
    GoogleStageView,
    GoogleStepView,
) {
    if stage is Closed {
        (GoogleStageView::Closed, GoogleStepView::Fail(failure(ErrorKind::Extraction)))
    } else if !is_success(response.status) {
        (
            GoogleStageView::Closed,
            GoogleStepView::Fail(status_error(response.status, response.body)),
        )
    } else {
        match stage {
            GoogleStageView::Searching(url) => match parsed_page(response.body, url, 1) {
                Ok(page) => if lacks_thumbnails(page) {
                    (GoogleStageView::Retrying(url), GoogleStepView::Send(get_of(url)))
                } else {
                    (GoogleStageView::Closed, GoogleStepView::Done(page))
                },
                Err(error) => (GoogleStageView::Closed, GoogleStepView::Fail(error)),
            },
            GoogleStageView::Retrying(url) => (
                GoogleStageView::Closed,
                closing(parsed_page(response.body, url, 1)),
            ),
            GoogleStageView::Priming(bytes) => (
                GoogleStageView::Uploading,
                GoogleStepView::Send(upload_request(bytes)),
            ),
            GoogleStageView::Uploading => (
                GoogleStageView::Closed,
                closing(parsed_page(response.body, response.url, 1)),
            ),
            GoogleStageView::Turning(page, url) => (
                GoogleStageView::Closed,
                closing(parsed_page(response.body, url, page)),
            ),
            GoogleStageView::Closed => (
                GoogleStageView::Closed,
                GoogleStepView::Fail(failure(ErrorKind::Extraction)),
            ),
        }
    }
}

/// Whether no result of `results` has a thumbnail.
fn no_thumbnails(results: &Vec<SearchResult>) -> (r: bool)
    ensures
        r == (forall|i: int|
            0 <= i < results_view(*results).len() ==> (#[trigger] results_view(
                *results,
            )[i]).thumbnail is None),
{
    let mut i: usize = 0;
    while i < results.len()
        invariant
            i <= results.len(),
            forall|k: int| 0 <= k < i ==> (#[trigger] results_view(*results)[k]).thumbnail is None,
        decreases results.len() - i,
    {
        if results[i].thumbnail.is_some() {
            assert(results_view(*results)[i as int].thumbnail is Some);
            return false;
        }
        i += 1;
    }
    true
}

fn closing_of(outcome: Result<GoogleResponse, Error>) -> (r: GoogleStep)
    ensures
        r@ == closing(page_view(outcome)),
{
    match outcome {
        Ok(page) => GoogleStep::Done(page),
        Err(e) => GoogleStep::Fail(e),
    }
}

impl Google {
    /// The engine.
    pub fn new() -> (r: Google)
        ensures
            r == (Google {  }),
    {
        Google {  }
    }

    /// The engine's name.
    pub fn name(&self) -> (r: &'static str)
        ensures
            r@ == "Google"@,
    {
        "Google"
    }

    /// Reads the results page `html`, fetched from `url` as page number
    /// `page`.
    pub fn parse_response(&self, html: &str, url: &str, page: usize) -> (r: Result<
        GoogleResponse,
        Error,
    >)
        ensures
            page_view(r) == parsed_page(html@, url@, page),
    {
        if text_contains(html, "Our systems have detected unusual traffic") {
            return Err(
                Error::UpstreamChallenge("the upstream asks for verification".to_owned()),
            );
        }
        let doc = Document::parse(html);
        if doc.select("#search").len() == 0 {
            return Err(extraction("the page has no results container"));
        }
        let anchors = doc.select("a[aria-label~=\"Page\"]");
        let mut pages: Vec<String> = Vec::new();
        push_text(&mut pages, url.to_owned());
        let mut a: usize = 0;
        while a < anchors.len()
            invariant
                a <= anchors.len(),
                doc@ == html@,
                texts(pages) == seq![url@] + page_links(html@, anchors@.take(a as int)),
            decreases anchors.len() - a,
        {
            proof {
                assert(anchors@.take(a + 1).drop_last() =~= anchors@.take(a as int));
            }
            match doc.attr(anchors[a], "href") {
                Some(href) => {
                    push_text(
                        &mut pages,
                        crate::text::concat("https://www.google.com", href.as_str()),
                    );
                },
                None => {},
            }
            a += 1;
        }
        assert(anchors@.take(anchors.len() as int) =~= anchors@);

        let scripts = doc.select("script");
        let mut pairs: Vec<(String, String)> = Vec::new();
        let mut s: usize = 0;
        while s < scripts.len()
            invariant
                s <= scripts.len(),
                doc@ == html@,
                pairs_view(pairs) == thumbnails(html@, scripts@.take(s as int)),
            decreases scripts.len() - s,
        {
            proof {
                assert(scripts@.take(s + 1).drop_last() =~= scripts@.take(s as int));
            }
            let text = or_empty(doc.text(scripts[s]));
            add_script_pairs(&mut pairs, text.as_str());
            s += 1;
        }
        assert(scripts@.take(scripts.len() as int) =~= scripts@);

        let items = doc.select("#search .g");
        let mut results: Vec<SearchResult> = Vec::new();
        let mut i: usize = 0;
        while i < items.len()
            invariant
                i <= items.len(),
                doc@ == html@,
                results_view(results) == block_results(
                    html@,
                    pairs_view(pairs),
                    items@.take(i as int),
                ),
            decreases items.len() - i,
        {
            proof {
                assert(items@.take(i + 1).drop_last() =~= items@.take(i as int));
            }
            let link = or_empty(doc.first_attr_under(items[i], "a", "href"));
            if link.as_str().unicode_len() != 0 {
                let title = doc.first_text_under(items[i], "h3");
                let thumbnail = match doc.first_attr_under(items[i], "img[id^='dimg_']", "id") {
                    Some(id) => find_image(&pairs, id.as_str()),
                    None => None,
                };
                push_result(&mut results, block(title, link, thumbnail, i));
            }
            i += 1;
        }
        assert(items@.take(items.len() as int) =~= items@);
        Ok(GoogleResponse { results, pages, current_page: page, url: url.to_owned() })
    }

    /// Starts a search for the image at `url`.
    pub fn begin_url(&self, url: &str) -> (r: (GoogleStage, Request))
        ensures
            r.0@ == GoogleStageView::Searching(search_url(url@)),
            r.1@ == search_request(search_url(url@)),
    {
        let mut target = chars_of("https://www.google.com/searchbyimage?&image_url=");
        push_str(&mut target, url);
        push_str(&mut target, "&client=Chrome");
        let target = string_from_chars(&target);
        let mut request = Request::get(target.clone());
        push_pair(&mut request.headers, "referer", "https://www.google.com");
        (GoogleStage::Searching(target), request)
    }

    /// Starts a search for the image that `data` encodes in base64: the
    /// image goes to the upstream as a data URL.
    pub fn begin_base64(&self, data: &str) -> (r: (GoogleStage, Request))
        ensures
            r.0@ == GoogleStageView::Searching(search_url("data:image/jpeg;base64,"@ + data@)),
            r.1@ == search_request(search_url("data:image/jpeg;base64,"@ + data@)),
    {
        self.begin_url(crate::text::concat("data:image/jpeg;base64,", data).as_str())
    }

    /// Starts a search for the image `bytes`.
    pub fn begin_bytes(&self, bytes: &[u8]) -> (r: (GoogleStage, Request))
        ensures
            r.0@ == GoogleStageView::Priming(bytes@),
            r.1@ == get_of("https://www.google.com"@),
    {
        (GoogleStage::Priming(bytes_of(bytes)), Request::get("https://www.google.com".to_owned()))
    }

    fn upload(&self, bytes: Vec<u8>) -> (r: Request)
        ensures
            r@ == upload_request(bytes@),
    {
        let mut form: Vec<FormField> = Vec::new();
        push_field(&mut form, file_field("encoded_image", "image.jpg", "image/jpeg", bytes));
        push_field(&mut form, text_field("image_content", ""));
        let mut request = Request::post_form(
            "https://www.google.com/searchbyimage/upload".to_owned(),
            form,
        );
        push_pair(&mut request.query, "hl", "en");
        push_pair(&mut request.query, "gl", "us");
        push_pair(&mut request.headers, "referer", "https://www.google.com");
        assert(pairs_view(request.query) =~= upload_request(bytes@).query);
        assert(form_view(request.form) =~= upload_request(bytes@).form);
        request
    }

    /// The request for the page after `response`, and the stage that waits
    /// for it; nothing where `response` is the last page known.
    pub fn next_page(&self, response: &GoogleResponse) -> (r: Option<(GoogleStage, Request)>)
        ensures
            r is Some <==> response.current_page < response.pages.len(),
            r is Some ==> r->Some_0.0@ == GoogleStageView::Turning(
                (response.current_page + 1) as usize,
                response.pages[response.current_page as int]@,
            ) && r->Some_0.1@ == get_of(response.pages[response.current_page as int]@),
    {
        if response.current_page >= response.pages.len() {
            return None;
        }
        let target = response.pages[response.current_page].clone();
        Some(
            (
                GoogleStage::Turning(response.current_page + 1, target.clone()),
                Request::get(target),
            ),
        )
    }

    /// The request for the page before `response`, and the stage that
    /// waits for it; nothing where `response` is the first page, or the
    /// page before it is not known.
    pub fn prev_page(&self, response: &GoogleResponse) -> (r: Option<(GoogleStage, Request)>)
        ensures
            r is Some <==> 2 <= response.current_page <= response.pages.len() + 1,
            r is Some ==> r->Some_0.0@ == GoogleStageView::Turning(
                (response.current_page - 1) as usize,
                response.pages[response.current_page - 2]@,
            ) && r->Some_0.1@ == get_of(response.pages[response.current_page - 2]@),
    {
        if response.current_page <= 1 || response.current_page - 2 >= response.pages.len() {
            return None;
        }
        let target = response.pages[response.current_page - 2].clone();
        Some(
            (
                GoogleStage::Turning(response.current_page - 1, target.clone()),
                Request::get(target),
            ),
        )
    }

    /// Takes the response to the request of `stage` and says what the
    /// search does next.
    pub fn advance(&self, stage: GoogleStage, response: &Response) -> (r: (GoogleStage, GoogleStep))
        ensures
            (r.0@, r.1@) == google_next(stage@, response@),
    {
        if let GoogleStage::Closed = stage {
            return (GoogleStage::Closed, GoogleStep::Fail(extraction("the search is over")));
        }
        if !response.succeeded() {
            return (GoogleStage::Closed, GoogleStep::Fail(response.status_error()));
        }
        let body = response.body.as_str();
        match stage {
            GoogleStage::Searching(url) => match self.parse_response(body, url.as_str(), 1) {
                Ok(page) => {
                    if no_thumbnails(&page.results) {
                        let again = Request::get(url.clone());
                        (GoogleStage::Retrying(url), GoogleStep::Send(again))
                    } else {
                        (GoogleStage::Closed, GoogleStep::Done(page))
                    }
                },
                Err(e) => (GoogleStage::Closed, GoogleStep::Fail(e)),
            },
            GoogleStage::Retrying(url) => (
                GoogleStage::Closed,
                closing_of(self.parse_response(body, url.as_str(), 1)),
            ),
            GoogleStage::Priming(bytes) => (
                GoogleStage::Uploading,
                GoogleStep::Send(self.upload(bytes)),
            ),
            GoogleStage::Uploading => (
                GoogleStage::Closed,
                closing_of(self.parse_response(body, response.url.as_str(), 1)),
            ),
            GoogleStage::Turning(page, url) => (
                GoogleStage::Closed,
                closing_of(self.parse_response(body, url.as_str(), page)),
            ),
            GoogleStage::Closed => (
                GoogleStage::Closed,
                GoogleStep::Fail(extraction("the search is over")),
            ),
        }
    }
}

/// Turning a page gives the page that was asked for: where the search for
/// page number `page` ends with a page of results, that page has the
/// number `page`.
pub proof fn lemma_turning_reaches_page(page: usize, url: Seq<char>, response: ResponseView)
    ensures
        google_next(GoogleStageView::Turning(page, url), response).1 is Done ==> google_next(
            GoogleStageView::Turning(page, url),
            response,
        ).1->Done_0.current_page == page,
{
}

/// A step of this engine as a step of any engine: of a page of results
/// its URL and its results.
pub open spec fn plain_step(step: GoogleStepView) -> crate::engines::StepView {
    match step {
        GoogleStepView::Send(request) => crate::engines::StepView::Send(request),
        GoogleStepView::Done(page) => crate::engines::StepView::Done(page.url, page.results),
        GoogleStepView::Fail(error) => crate::engines::StepView::Fail(error),
    }
}

/// No result for a list of result blocks has a protocol-relative URL.
pub proof fn lemma_block_results_absolute(
    source: Seq<char>,
    pairs: Seq<(Seq<char>, Seq<char>)>,
    items: Seq<usize>,
)
    ensures
        all_absolute(block_results(source, pairs, items)),
    decreases items.len(),
{
    if items.len() > 0 {
        lemma_block_results_absolute(source, pairs, items.drop_last());
        lemma_with_scheme_absolute(
            text_or_empty(first_attr_under(source, items.last(), "a"@, "href"@)),
        );
    }
}

impl ImageSearch for Google {
    type Stage = GoogleStage;

    open spec fn valid(stage: &GoogleStage) -> bool {
        true
    }

    open spec fn closed(stage: &GoogleStage) -> bool {
        *stage is Closed
    }

    open spec fn scored() -> bool {
        false
    }

    open spec fn label() -> Seq<char> {
        "Google"@
    }

    open spec fn url_search(
        &self,
        url: Seq<char>,
        options: &SearchOptions,
        now: &Clock,
    ) -> RequestView {
        search_request(search_url(url))
    }

    open spec fn upload(
        &self,
        bytes: Seq<u8>,
        options: &SearchOptions,
        now: &Clock,
    ) -> RequestView {
        get_of("https://www.google.com"@)
    }

    open spec fn awaits_redirect(stage: &GoogleStage) -> bool {
        false
    }

    fn name(&self) -> (r: &'static str) {
        Google::name(self)
    }

    fn search_url(&self, url: &str, options: &SearchOptions, now: &Clock) -> (r: (
        GoogleStage,
        Request,
    ))
        ensures
            r.0@ == GoogleStageView::Searching(search_url(url@)),
    {
        self.begin_url(url)
    }

    fn search_bytes(&self, bytes: &[u8], options: &SearchOptions, now: &Clock) -> (r: (
        GoogleStage,
        Request,
    ))
        ensures
            r.0@ == GoogleStageView::Priming(bytes@),
    {
        self.begin_bytes(bytes)
    }

    fn search_base64(&self, data: &str, options: &SearchOptions, now: &Clock) -> (r: Result<
        (GoogleStage, Request),
        Error,
    >)
        ensures
            r is Ok,
            r->Ok_0.0@ == GoogleStageView::Searching(
                search_url("data:image/jpeg;base64,"@ + data@),
            ),
            r->Ok_0.1@ == search_request(search_url("data:image/jpeg;base64,"@ + data@)),
    {
        Ok(self.begin_base64(data))
    }

    fn resume(
        &self,
        stage: GoogleStage,
        response: &Response,
        options: &SearchOptions,
        now: &Clock,
    ) -> (r: (GoogleStage, Step))
        ensures
            r.0@ == google_next(stage@, response@).0,
            r.1@ == plain_step(google_next(stage@, response@).1),
    {
        proof {
            lemma_block_results_absolute(
                response.body@,
                thumbnails(response.body@, selected(response.body@, "script"@)),
                selected(response.body@, "#search .g"@),
            );
        }
        let (next, step) = self.advance(stage, response);
        match step {
            GoogleStep::Send(request) => (next, Step::Send(request)),
            GoogleStep::Done(page) => (next, Step::Done(page.url, page.results)),
            GoogleStep::Fail(e) => (next, Step::Fail(e)),
        }
    }
}

} // verus!
