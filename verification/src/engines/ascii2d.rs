//! The table/index site: repeated item boxes, read in two stages. The page
//! of the colour search links to the page of the feature search, whose
//! results follow those of the first.

use vstd::prelude::*;
use crate::dom::{
    element_attr, element_text, first_attr_under, first_text_under, first_under, selected,
    selected_under, Document,
};
use crate::engines::{extraction, fail_status, status_failure, Clock, ImageSearch, Step, StepView};
use crate::error::{failure, Error, ErrorKind};
use crate::network::{
    bytes_of, file_field, form_view, get_of, is_success, push_field, text_field, FormField,
    FormFieldView, Method, Request, RequestView, Response, ResponseView,
};
use crate::text::{before_first, chars_of, find, first_match, slice, string_from_chars, take_before};
use crate::types::{
    all_absolute, empty_info, opt_text, or_empty, push_result, results_view, text_or_empty,
    AdditionalInfo, AdditionalInfoView, SearchOptions, SearchResult, SearchResultView,
};
use crate::utils::{
    base64_bytes, base64_to_bytes, is_relative, lemma_normalized_absolute, normalize_url,
    normalized_url,
};

verus! {

/// A link made absolute; an empty link stays empty.
pub open spec fn link_of(href: Option<Seq<char>>) -> Seq<char> {
    let raw = text_or_empty(href);
    if raw.len() == 0 {
        raw
    } else {
        normalized_url(raw)
    }
}

/// The result for one item box, from its thumbnail path, its hash, and
/// the text and link of its first two anchors: the author's and the
/// source's.
pub open spec fn item_view(
    src: Option<Seq<char>>,
    hash: Option<Seq<char>>,
    author: Option<Seq<char>>,
    author_href: Option<Seq<char>>,
    title: Option<Seq<char>>,
    href: Option<Seq<char>>,
) -> SearchResultView {
    SearchResultView {
        title: Some(text_or_empty(title)),
        url: link_of(href),
        thumbnail: match src {
            Some(path) => Some("https://ascii2d.net"@ + path),
            None => None,
        },
        similarity: None,
        source: "ASCII2D"@,
        index: Some(text_or_empty(hash)),
        additional_info: Some(
            AdditionalInfoView {
                author: Some(text_or_empty(author)),
                author_url: Some(link_of(author_href)),
                ..empty_info()
            },
        ),
    }
}

/// The result for the item box `item`; nothing where the box has no
/// detail box or the detail box fewer than two anchors.
pub open spec fn item_result(source: Seq<char>, item: usize) -> Option<SearchResultView> {
    match first_under(source, item, ".detail-box"@) {
        Some(detail) => {
            let links = selected_under(source, detail, "a"@);
            if links.len() < 2 {
                None
            } else {
                Some(
                    item_view(
                        first_attr_under(source, item, "img"@, "src"@),
                        first_text_under(source, item, ".hash"@),
                        element_text(source, links[0]),
                        element_attr(source, links[0], "href"@),
                        element_text(source, links[1]),
                        element_attr(source, links[1], "href"@),
                    ),
                )
            }
        },
        None => None,
    }
}

/// The results for the item boxes `items`, in order.
pub open spec fn item_results(source: Seq<char>, items: Seq<usize>) -> Seq<SearchResultView>
    decreases items.len(),
{
    if items.len() == 0 {
        Seq::empty()
    } else {
        match item_result(source, items.last()) {
            Some(result) => item_results(source, items.drop_last()).push(result),
            None => item_results(source, items.drop_last()),
        }
    }
}

/// The results of one page.
pub open spec fn page_results(body: Seq<char>) -> Seq<SearchResultView> {
    item_results(body, selected(body, ".item-box"@))
}

/// The token of the feature search that the page of the colour search
/// links to: what follows the first `/bovw/`, up to the next `/bovw/` or
/// quotation mark. Nothing where the page has no such link.
pub open spec fn feature_token(body: Seq<char>) -> Option<Seq<char>> {
    match first_match(body, "/bovw/"@, 0) {
        Some(at) => Some(
            before_first(before_first(body.skip(at + "/bovw/"@.len()), "/bovw/"@), "\""@),
        ),
        None => None,
    }
}

/// A link made absolute.
fn link(href: Option<String>) -> (r: String)
    ensures
        r@ == link_of(opt_text(href)),
{
    let raw = or_empty(href);
    if raw.as_str().unicode_len() == 0 {
        return raw;
    }
    match normalize_url(raw.as_str()) {
        Ok(absolute) => absolute,
        Err(_) => raw,
    }
}

/// The result for one item box.
pub fn item_entry(
    src: Option<String>,
    hash: Option<String>,
    author: Option<String>,
    author_href: Option<String>,
    title: Option<String>,
    href: Option<String>,
) -> (r: SearchResult)
    ensures
        r@ == item_view(
            opt_text(src),
            opt_text(hash),
            opt_text(author),
            opt_text(author_href),
            opt_text(title),
            opt_text(href),
        ),
{
    let mut info = AdditionalInfo::default();
    info.author = Some(or_empty(author));
    info.author_url = Some(link(author_href));
    SearchResult {
        title: Some(or_empty(title)),
        url: link(href),
        thumbnail: match src {
            Some(path) => Some(crate::text::concat("https://ascii2d.net", path.as_str())),
            None => None,
        },
        similarity: None,
        source: "ASCII2D".to_owned(),
        index: Some(or_empty(hash)),
        additional_info: Some(info),
    }
}

/// The token of the feature search that the page `body` links to.
pub fn find_feature_token(body: &str) -> (r: Option<String>)
    ensures
        opt_text(r) == feature_token(body@),
{
    let text = chars_of(body);
    let mark = chars_of("/bovw/");
    match find(&text, &mark, 0) {
        Some(at) => {
            let rest = slice(&text, at + mark.len(), text.len());
            let segment = take_before(&rest, &mark);
            Some(string_from_chars(&take_before(&segment, &chars_of("\""))))
        },
        None => None,
    }
}

/// The engine for the table/index site.
#[derive(Debug, Clone, Copy, PartialEq, Eq, Structural)]
pub struct Ascii2d {}

/// The image that a search sends.
#[derive(Debug)]
pub enum Ascii2dImage {
    /// The image at a URL.
    Link(String),
    /// The image itself.
    File(Vec<u8>),
}

/// What an image to send holds.
pub ghost enum Ascii2dImageView {
    Link(Seq<char>),
    File(Seq<u8>),
}

impl View for Ascii2dImage {
    type V = Ascii2dImageView;

    open spec fn view(&self) -> Ascii2dImageView {
        match *self {
            Ascii2dImage::Link(url) => Ascii2dImageView::Link(url@),
            Ascii2dImage::File(bytes) => Ascii2dImageView::File(bytes@),
        }
    }
}

/// Where a search stands between two round trips.
#[derive(Debug)]
pub enum Ascii2dStage {
    /// The home page was asked for, to get cookies; the image waits.
    Priming(Ascii2dImage),
    /// The colour search was asked for.
    Colour,
    /// The feature search was asked for; the results of the colour search.
    Feature(Vec<SearchResult>),
    /// The search is over.
    Closed,
}

/// What a stage holds.
pub ghost enum Ascii2dStageView {
    Priming(Ascii2dImageView),
    Colour,
    Feature(Seq<SearchResultView>),
    Closed,
}

impl View for Ascii2dStage {
    type V = Ascii2dStageView;

    open spec fn view(&self) -> Ascii2dStageView {
        match *self {
            Ascii2dStage::Priming(image) => Ascii2dStageView::Priming(image@),
            Ascii2dStage::Colour => Ascii2dStageView::Colour,
            Ascii2dStage::Feature(results) => Ascii2dStageView::Feature(results_view(results)),
            Ascii2dStage::Closed => Ascii2dStageView::Closed,
        }
    }
}

/// The request of the colour search for `image`.
pub open spec fn colour_request(image: Ascii2dImageView) -> RequestView {
    match image {
        Ascii2dImageView::Link(url) => RequestView {
            method: Method::Post,
            form: seq![FormFieldView::Text { name: "uri"@, value: url }],
            ..get_of("https://ascii2d.net/search/uri"@)
        },
        Ascii2dImageView::File(bytes) => RequestView {
            method: Method::Post,
            form: seq![
                FormFieldView::File {
                    name: "file"@,
                    file_name: "image.png"@,
                    mime: "image/png"@,
                    data: bytes,
                },
            ],
            ..get_of("https://ascii2d.net/search/file"@)
        },
    }
}

/// What a search in `stage` does with `response`. A response that did
/// not succeed ends the search with `HttpStatus`; a colour page without a
/// link to the feature search ends it with `Extraction`. The engine has
/// no results page: the page URL is empty.
pub open spec fn ascii2d_next(stage: Ascii2dStageView, response: ResponseView) -> (
    Ascii2dStageView,
    StepView,
) {
    if stage is Closed {
        (Ascii2dStageView::Closed, StepView::Fail(failure(ErrorKind::Extraction)))
    } else if !is_success(response.status) {
        (Ascii2dStageView::Closed, status_failure(response))
    } else {
        match stage {
            Ascii2dStageView::Priming(image) => (
                Ascii2dStageView::Colour,
                StepView::Send(colour_request(image)),
            ),
            Ascii2dStageView::Colour => match feature_token(response.body) {
                Some(token) => (
                    Ascii2dStageView::Feature(page_results(response.body)),
                    StepView::Send(get_of("https://ascii2d.net/search/bovw/"@ + token)),
                ),
                None => (Ascii2dStageView::Closed, StepView::Fail(failure(ErrorKind::Extraction))),
            },
            Ascii2dStageView::Feature(first) => (
                Ascii2dStageView::Closed,
                StepView::Done(Seq::empty(), first + page_results(response.body)),
            ),
            Ascii2dStageView::Closed => (
                Ascii2dStageView::Closed,
                StepView::Fail(failure(ErrorKind::Extraction)),
            ),
        }
    }
}

impl Ascii2d {
    /// The engine.
    pub fn new() -> (r: Ascii2d)
        ensures
            r == (Ascii2d {  }),
    {
        Ascii2d {  }
    }

    /// The engine's name.
    pub fn name(&self) -> (r: &'static str)
        ensures
            r@ == "ASCII2D"@,
    {
        "ASCII2D"
    }

    /// Appends the results of the page `html` to `out`: one for each item
    /// box with a detail box that holds two anchors.
    fn collect(&self, out: &mut Vec<SearchResult>, html: &str)
        ensures
            results_view(*final(out)) == results_view(*old(out)) + page_results(html@),
    {
        let page = Document::parse(html);
        let items = page.select(".item-box");
        let ghost before = results_view(*out);
        let mut i: usize = 0;
        while i < items.len()
            invariant
                i <= items.len(),
                page@ == html@,
                items@ == selected(html@, ".item-box"@),
                results_view(*out) == before + item_results(html@, items@.take(i as int)),
            decreases items.len() - i,
        {
            proof {
                assert(items@.take(i + 1).drop_last() =~= items@.take(i as int));
            }
            match page.first_under(items[i], ".detail-box") {
                Some(detail) => {
                    let links = page.select_under(detail, "a");
                    if links.len() >= 2 {
                        let entry = item_entry(
                            page.first_attr_under(items[i], "img", "src"),
                            page.first_text_under(items[i], ".hash"),
                            page.text(links[0]),
                            page.attr(links[0], "href"),
                            page.text(links[1]),
                            page.attr(links[1], "href"),
                        );
                        push_result(out, entry);
                    }
                },
                None => {},
            }
            i += 1;
        }
        assert(items@.take(items.len() as int) =~= items@);
    }

    /// The results of one page.
    pub fn parse_results(&self, html: &str) -> (r: Vec<SearchResult>)
        ensures
            results_view(r) == page_results(html@),
    {
        let mut out: Vec<SearchResult> = Vec::new();
        self.collect(&mut out, html);
        out
    }

    /// Starts a search for the image at `url`.
    pub fn begin_url(&self, url: &str) -> (r: (Ascii2dStage, Request))
        ensures
            r.0@ == Ascii2dStageView::Priming(Ascii2dImageView::Link(url@)),
            r.1@ == get_of("https://ascii2d.net"@),
    {
        (
            Ascii2dStage::Priming(Ascii2dImage::Link(url.to_owned())),
            Request::get("https://ascii2d.net".to_owned()),
        )
    }

    /// Starts a search for the image `bytes`.
    pub fn begin_bytes(&self, bytes: &[u8]) -> (r: (Ascii2dStage, Request))
        ensures
            r.0@ == Ascii2dStageView::Priming(Ascii2dImageView::File(bytes@)),
            r.1@ == get_of("https://ascii2d.net"@),
    {
        (
            Ascii2dStage::Priming(Ascii2dImage::File(bytes_of(bytes))),
            Request::get("https://ascii2d.net".to_owned()),
        )
    }

    /// Starts a search for the image that `data` encodes in base64; fails
    /// with `Decode` where `data` is no base64 text.
    pub fn begin_base64(&self, data: &str) -> (r: Result<(Ascii2dStage, Request), Error>)
        ensures
            match r {
                Ok(started) => base64_bytes(data@) is Some && started.0@
                    == Ascii2dStageView::Priming(
                    Ascii2dImageView::File(base64_bytes(data@)->Some_0),
                ) && started.1@ == get_of("https://ascii2d.net"@),
                Err(e) => base64_bytes(data@) is None && e is Decode,
            },
    {
        match base64_to_bytes(data) {
            Ok(bytes) => Ok(self.begin_bytes(bytes.as_slice())),
            Err(e) => Err(e),
        }
    }

    fn colour(&self, image: Ascii2dImage) -> (r: Request)
        ensures
            r@ == colour_request(image@),
    {
        let mut form: Vec<FormField> = Vec::new();
        assert(form_view(form) =~= Seq::empty());
        match image {
            Ascii2dImage::Link(url) => {
                push_field(&mut form, text_field("uri", url.as_str()));
                Request::post_form("https://ascii2d.net/search/uri".to_owned(), form)
            },
            Ascii2dImage::File(bytes) => {
                push_field(&mut form, file_field("file", "image.png", "image/png", bytes));
                Request::post_form("https://ascii2d.net/search/file".to_owned(), form)
            },
        }
    }

    /// Takes the response to the request of `stage` and says what the
    /// search does next.
    pub fn advance(&self, stage: Ascii2dStage, response: &Response) -> (r: (Ascii2dStage, Step))
        ensures
            (r.0@, r.1@) == ascii2d_next(stage@, response@),
    {
        if let Ascii2dStage::Closed = stage {
            return (Ascii2dStage::Closed, Step::Fail(extraction("the search is over")));
        }
        if !response.succeeded() {
            return (Ascii2dStage::Closed, fail_status(response));
        }
        let body = response.body.as_str();
        match stage {
            Ascii2dStage::Priming(image) => (Ascii2dStage::Colour, Step::Send(self.colour(image))),
            Ascii2dStage::Colour => match find_feature_token(body) {
                Some(token) => {
                    let first = self.parse_results(body);
                    let target = crate::text::concat(
                        "https://ascii2d.net/search/bovw/",
                        token.as_str(),
                    );
                    (Ascii2dStage::Feature(first), Step::Send(Request::get(target)))
                },
                None => (
                    Ascii2dStage::Closed,
                    Step::Fail(extraction("the page does not link to the feature search")),
                ),
            },
            Ascii2dStage::Feature(first) => {
                let mut all = first;
                self.collect(&mut all, body);
                (Ascii2dStage::Closed, Step::Done(String::new(), all))
            },
            Ascii2dStage::Closed => (
                Ascii2dStage::Closed,
                Step::Fail(extraction("the search is over")),
            ),
        }
    }
}

/// A link that was made absolute is not protocol-relative.
pub proof fn lemma_link_absolute(href: Option<Seq<char>>)
    ensures
        !is_relative(link_of(href)),
{
    reveal_strlit("//");
    lemma_normalized_absolute(text_or_empty(href));
}

/// No result for a list of item boxes has a protocol-relative URL.
pub proof fn lemma_item_results_absolute(source: Seq<char>, items: Seq<usize>)
    ensures
        all_absolute(item_results(source, items)),
    decreases items.len(),
{
    if items.len() > 0 {
        lemma_item_results_absolute(source, items.drop_last());
        match first_under(source, items.last(), ".detail-box"@) {
            Some(detail) => {
                let links = selected_under(source, detail, "a"@);
                if links.len() >= 2 {
                    lemma_link_absolute(element_attr(source, links[1], "href"@));
                }
            },
            None => {},
        }
    }
}

impl ImageSearch for Ascii2d {
    type Stage = Ascii2dStage;

    open spec fn valid(stage: &Ascii2dStage) -> bool {
        match *stage {
            Ascii2dStage::Feature(first) => all_absolute(results_view(first)),
            _ => true,
        }
    }

    open spec fn closed(stage: &Ascii2dStage) -> bool {
        *stage is Closed
    }

    open spec fn scored() -> bool {
        false
    }

    open spec fn label() -> Seq<char> {
        "ASCII2D"@
    }

    open spec fn url_search(
        &self,
        url: Seq<char>,
        options: &SearchOptions,
        now: &Clock,
    ) -> RequestView {
        get_of("https://ascii2d.net"@)
    }

    open spec fn upload(
        &self,
        bytes: Seq<u8>,
        options: &SearchOptions,
        now: &Clock,
    ) -> RequestView {
        get_of("https://ascii2d.net"@)
    }

    open spec fn awaits_redirect(stage: &Ascii2dStage) -> bool {
        false
    }

    fn name(&self) -> (r: &'static str) {
        Ascii2d::name(self)
    }

    fn search_url(&self, url: &str, options: &SearchOptions, now: &Clock) -> (r: (
        Ascii2dStage,
        Request,
    ))
        ensures
            r.0@ == Ascii2dStageView::Priming(Ascii2dImageView::Link(url@)),
    {
        self.begin_url(url)
    }

    fn search_bytes(&self, bytes: &[u8], options: &SearchOptions, now: &Clock) -> (r: (
        Ascii2dStage,
        Request,
    ))
        ensures
            r.0@ == Ascii2dStageView::Priming(Ascii2dImageView::File(bytes@)),
    {
        self.begin_bytes(bytes)
    }

    fn resume(
        &self,
        stage: Ascii2dStage,
        response: &Response,
        options: &SearchOptions,
        now: &Clock,
    ) -> (r: (Ascii2dStage, Step))
        ensures
            (r.0@, r.1@) == ascii2d_next(stage@, response@),
    {
        proof {
            lemma_item_results_absolute(response.body@, selected(response.body@, ".item-box"@));
        }
        self.advance(stage, response)
    }
}

} // verus!
