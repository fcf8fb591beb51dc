//! The structured-data site: one element of the results page carries the
//! results as a JSON document in an attribute.

use vstd::prelude::*;
use crate::dom::{element_attr, selected, Document};
use crate::engines::{
    close, closing_step, extraction, fail_status, outcome_view, Clock, ImageSearch, Step,
    StepView,
};
use crate::error::{failure, Error, ErrorKind, ErrorView};
use crate::json::{json_document, string_member, text_member, Json};
use crate::network::{
    bytes_of, file_field, form_view, get_of, pairs_view, push_field, push_pair, text_field,
    FormField, FormFieldView, Method, Request, RequestView, Response, ResponseView,
};
use crate::numeric::{parse_u64, parsed_u64, usize_text};
use crate::utils::{add_scheme, lemma_with_scheme_absolute, with_scheme};
use crate::text::{
    chars_of, decimal, decimal_chars, has_match, push_all, push_str, string_from_chars,
    text_contains,
};
use crate::types::{
    all_absolute, empty_info, opt_text, or_empty, push_result, results_view, text_or_empty,
    AdditionalInfo, AdditionalInfoView, SearchOptions, SearchResult, SearchResultView,
};

verus! {

/// The page says that the service is under maintenance.
pub open spec fn is_maintenance(body: Seq<char>) -> bool {
    has_match(body, "The service is under construction"@)
}

/// The JSON text that the results page carries: the attribute
/// `data-state` of the first results root.
pub open spec fn state_text(source: Seq<char>) -> Option<Seq<char>> {
    let roots = selected(source, "div.Root[id^='CbirSites_infinite']"@);
    if roots.len() > 0 {
        element_attr(source, roots[0], "data-state"@)
    } else {
        None
    }
}

/// The list of sites in the state document.
pub open spec fn sites_in(doc: Json) -> Option<Seq<Json>> {
    match doc.member("sites"@) {
        Some(list) => list.items(),
        None => None,
    }
}

/// The sites that the results page lists; nothing where the page has no
/// results root, the root no state, or the state no list of sites.
pub open spec fn sites_of(source: Seq<char>) -> Option<Seq<Json>> {
    match state_text(source) {
        Some(text) => match json_document(text) {
            Some(doc) => sites_in(doc),
            None => None,
        },
        None => None,
    }
}

/// The member `key` of `obj`, read as a `u64`.
pub open spec fn u64_member(obj: Json, key: Seq<char>) -> Option<u64> {
    match obj.member(key) {
        Some(Json::Number(text)) => parsed_u64(text@),
        _ => None,
    }
}

/// The width and height of a site's full-size image, where it gives both.
pub open spec fn site_size(site: Json) -> Option<(u64, u64)> {
    match site.member("originalImage"@) {
        Some(image) => match (u64_member(image, "width"@), u64_member(image, "height"@)) {
            (Some(w), Some(h)) => Some((w, h)),
            _ => None,
        },
        None => None,
    }
}

/// The thumbnail URL of a site.
pub open spec fn site_thumbnail(site: Json) -> Option<Seq<char>> {
    match site.member("thumb"@) {
        Some(thumb) => match text_member(thumb, "url"@) {
            Some(src) => Some(with_scheme(src)),
            None => None,
        },
        None => None,
    }
}

/// How a size is written in a title.
pub open spec fn size_text(size: Option<(u64, u64)>) -> Seq<char> {
    match size {
        Some((w, h)) => decimal(w as nat) + "x"@ + decimal(h as nat),
        None => Seq::empty(),
    }
}

/// A size as the result schema holds it: each side modulo 2^32.
pub open spec fn narrowed(size: Option<(u64, u64)>) -> Option<(u32, u32)> {
    match size {
        Some((w, h)) => Some(((w % 0x1_0000_0000) as u32, (h % 0x1_0000_0000) as u32)),
        None => None,
    }
}

/// The result for one site, from its fields and its position in the list.
pub open spec fn site_view(
    url: Seq<char>,
    title: Seq<char>,
    domain: Seq<char>,
    thumbnail: Option<Seq<char>>,
    size: Option<(u64, u64)>,
    position: nat,
) -> SearchResultView {
    SearchResultView {
        title: Some("["@ + domain + "] "@ + title + " - "@ + size_text(size)),
        url: with_scheme(url),
        thumbnail,
        similarity: None,
        source: "Yandex"@,
        index: Some(decimal(position)),
        additional_info: Some(
            AdditionalInfoView {
                source_url: Some("https://"@ + domain),
                size: narrowed(size),
                ..empty_info()
            },
        ),
    }
}

/// The result for the site `site` at `position`; nothing where the site
/// has no URL.
pub open spec fn site_result_view(site: Json, position: nat) -> Option<SearchResultView> {
    let url = text_or_empty(text_member(site, "url"@));
    if url.len() == 0 {
        None
    } else {
        Some(
            site_view(
                url,
                text_or_empty(text_member(site, "title"@)),
                text_or_empty(text_member(site, "domain"@)),
                site_thumbnail(site),
                site_size(site),
                position,
            ),
        )
    }
}

/// The results for a list of sites: one for each site with a URL, in
/// order.
pub open spec fn site_results(sites: Seq<Json>) -> Seq<SearchResultView>
    decreases sites.len(),
{
    if sites.len() == 0 {
        Seq::empty()
    } else {
        match site_result_view(sites.last(), (sites.len() - 1) as nat) {
            Some(result) => site_results(sites.drop_last()).push(result),
            None => site_results(sites.drop_last()),
        }
    }
}

/// What a results page gives: `UpstreamChallenge` for the maintenance
/// page, `Extraction` where the page carries no list of sites, and else
/// the results.
pub open spec fn page_outcome(body: Seq<char>) -> Result<Seq<SearchResultView>, ErrorView> {
    if is_maintenance(body) {
        Err(failure(ErrorKind::UpstreamChallenge))
    } else {
        match sites_of(body) {
            Some(sites) => Ok(site_results(sites)),
            None => Err(failure(ErrorKind::Extraction)),
        }
    }
}

/// The result for one site with the URL `url`.
pub fn site_result(
    url: String,
    title: &str,
    domain: &str,
    thumbnail: Option<String>,
    size: Option<(u64, u64)>,
    position: usize,
) -> (r: SearchResult)
    ensures
        r@ == site_view(url@, title@, domain@, opt_text(thumbnail), size, position as nat),
{
    let mut heading = chars_of("[");
    push_str(&mut heading, domain);
    push_str(&mut heading, "] ");
    push_str(&mut heading, title);
    push_str(&mut heading, " - ");
    let narrow: Option<(u32, u32)> = match size {
        Some((w, h)) => {
            push_all(&mut heading, &decimal_chars(w as u128));
            push_str(&mut heading, "x");
            push_all(&mut heading, &decimal_chars(h as u128));
            Some(((w % 0x1_0000_0000) as u32, (h % 0x1_0000_0000) as u32))
        },
        None => None,
    };
    assert(heading@ =~= "["@ + domain@ + "] "@ + title@ + " - "@ + size_text(size));
    let mut info = AdditionalInfo::default();
    info.source_url = Some(crate::text::concat("https://", domain));
    info.size = narrow;
    SearchResult {
        title: Some(string_from_chars(&heading)),
        url: add_scheme(url),
        thumbnail,
        similarity: None,
        source: "Yandex".to_owned(),
        index: Some(usize_text(position)),
        additional_info: Some(info),
    }
}

fn read_u64(obj: &Json, key: &str) -> (r: Option<u64>)
    ensures
        r == u64_member(*obj, key@),
{
    match obj.get(key) {
        Some(found) => match found {
            Json::Number(text) => parse_u64(&chars_of(text.as_str())),
            _ => None,
        },
        None => None,
    }
}

fn read_size(site: &Json) -> (r: Option<(u64, u64)>)
    ensures
        r == site_size(*site),
{
    match site.get("originalImage") {
        Some(image) => match (read_u64(image, "width"), read_u64(image, "height")) {
            (Some(w), Some(h)) => Some((w, h)),
            _ => None,
        },
        None => None,
    }
}

fn read_thumbnail(site: &Json) -> (r: Option<String>)
    ensures
        opt_text(r) == site_thumbnail(*site),
{
    match site.get("thumb") {
        Some(thumb) => match string_member(thumb, "url") {
            Some(src) => Some(add_scheme(src)),
            None => None,
        },
        None => None,
    }
}

/// The results for the list of sites `sites`.
pub fn results_from_sites(sites: &Vec<Json>) -> (r: Vec<SearchResult>)
    ensures
        results_view(r) == site_results(sites@),
{
    let mut out: Vec<SearchResult> = Vec::new();
    let mut i: usize = 0;
    while i < sites.len()
        invariant
            i <= sites.len(),
            results_view(out) == site_results(sites@.take(i as int)),
        decreases sites.len() - i,
    {
        proof {
            assert(sites@.take(i + 1).drop_last() =~= sites@.take(i as int));
        }
        let site = &sites[i];
        let url = or_empty(string_member(site, "url"));
        if url.as_str().unicode_len() != 0 {
            let title = or_empty(string_member(site, "title"));
            let domain = or_empty(string_member(site, "domain"));
            push_result(
                &mut out,
                site_result(
                    url,
                    title.as_str(),
                    domain.as_str(),
                    read_thumbnail(site),
                    read_size(site),
                    i,
                ),
            );
        }
        i += 1;
    }
    assert(sites@.take(sites.len() as int) =~= sites@);
    out
}

/// The engine for the structured-data site.
#[derive(Debug)]
pub struct Yandex {
    base_url: String,
    cookie: Option<String>,
}

/// Where a search stands between two round trips.
#[derive(Debug, Clone, Copy, PartialEq, Eq, Structural)]
pub enum YandexStage {
    /// The results page was asked for.
    Asked,
    /// The search is over.
    Closed,
}

/// The headers of every request: those of a browser, and the session
/// cookie where the engine was given one.
pub open spec fn browser_headers(cookie: Option<Seq<char>>) -> Seq<(Seq<char>, Seq<char>)> {
    let fixed = seq![
        (
            "user-agent"@,
            "Mozilla/5.0 (Windows NT 10.0; Win64; x64) AppleWebKit/537.36 (KHTML, like Gecko) Chrome/133.0.0.0 Safari/537.36"@,
        ),
        ("referer"@, "https://yandex.com"@),
        (
            "accept"@,
            "text/html,application/xhtml+xml,application/xml;q=0.9,image/avif,image/webp,image/apng,*/*;q=0.8,application/signed-exchange;v=b3;q=0.7"@,
        ),
        ("accept-language"@, "zh-CN,zh;q=0.9,en-US;q=0.8,en;q=0.7"@),
        ("cache-control"@, "max-age=0"@),
        ("dnt"@, "1"@),
    ];
    match cookie {
        Some(c) => fixed.push(("cookie"@, c)),
        None => fixed,
    }
}

/// The request of a search by image URL.
pub open spec fn url_request(
    base: Seq<char>,
    cookie: Option<Seq<char>>,
    url: Seq<char>,
) -> RequestView {
    RequestView {
        headers: browser_headers(cookie),
        ..get_of(base + "?rpt=imageview&url="@ + url + "&cbir_page=sites"@)
    }
}

/// The request that uploads an image.
pub open spec fn upload_request(
    base: Seq<char>,
    cookie: Option<Seq<char>>,
    bytes: Seq<u8>,
) -> RequestView {
    RequestView {
        method: Method::Post,
        headers: browser_headers(cookie),
        form: seq![
            FormFieldView::Text { name: "prg"@, value: "1"@ },
            FormFieldView::File {
                name: "upfile"@,
                file_name: "image.jpg"@,
                mime: "image/jpeg"@,
                data: bytes,
            },
        ],
        ..get_of(base + "?rpt=imageview&cbir_page=sites"@)
    }
}

/// What a search in `stage` does with `response`.
pub open spec fn yandex_next(
    stage: YandexStage,
    response: ResponseView) -> (YandexStage, StepView,
) {
    match stage {
        YandexStage::Asked => (
            YandexStage::Closed,
            closing_step(response.url, response, page_outcome(response.body)),
        ),
        YandexStage::Closed => (
            YandexStage::Closed,
            StepView::Fail(failure(ErrorKind::Extraction)),
        ),
    }
}

impl Default for Yandex {
    fn default() -> (r: Yandex)
        ensures
            r.base() == "https://yandex.com"@ + "/images/search"@,
            r.session() is None,
    {
        Yandex::new("https://yandex.com")
    }
}

impl Yandex {
    /// The engine for the site at `base_url`, without a session cookie.
    pub fn new(base_url: &str) -> (r: Yandex)
        ensures
            r.base() == base_url@ + "/images/search"@,
            r.session() is None,
    {
        Yandex { base_url: crate::text::concat(base_url, "/images/search"), cookie: None }
    }

    /// The same engine, sending `cookie` as the session cookie.
    pub fn with_cookie(self, cookie: String) -> (r: Yandex)
        ensures
            r.base() == self.base(),
            r.session() == Some(cookie@),
    {
        Yandex { base_url: self.base_url, cookie: Some(cookie) }
    }

    /// The URL of the search endpoint.
    pub closed spec fn base(&self) -> Seq<char> {
        self.base_url@
    }

    /// The session cookie.
    pub closed spec fn session(&self) -> Option<Seq<char>> {
        opt_text(self.cookie)
    }

    /// The engine's name.
    pub fn name(&self) -> (r: &'static str)
        ensures
            r@ == "Yandex"@,
    {
        "Yandex"
    }

    /// Reads a results page: `UpstreamChallenge` for the maintenance page,
    /// `Extraction` where the page carries no list of sites, and else one
    /// result for each site with a URL.
    pub fn parse_html(html: &str) -> (r: Result<Vec<SearchResult>, Error>)
        ensures
            outcome_view(r) == page_outcome(html@),
    {
        if text_contains(html, "The service is under construction") {
            return Err(Error::UpstreamChallenge("the service is under maintenance".to_owned()));
        }
        let page = Document::parse(html);
        let roots = page.select("div.Root[id^='CbirSites_infinite']");
        if roots.len() == 0 {
            return Err(extraction("the page has no results root"));
        }
        let state = match page.attr(roots[0], "data-state") {
            Some(text) => text,
            None => {
                return Err(extraction("the results root has no state"));
            },
        };
        let doc = match Json::parse(state.as_str()) {
            Ok(doc) => doc,
            Err(_) => {
                return Err(extraction("the state is no JSON document"));
            },
        };
        let sites = match doc.get("sites") {
            Some(list) => match list.as_array() {
                Some(items) => items,
                None => {
                    return Err(extraction("the sites are no list"));
                },
            },
            None => {
                return Err(extraction("the state lists no sites"));
            },
        };
        Ok(results_from_sites(sites))
    }

    fn headers(&self) -> (r: Vec<(String, String)>)
        ensures
            pairs_view(r) == browser_headers(self.session()),
    {
        let mut out: Vec<(String, String)> = Vec::new();
        push_pair(
            &mut out,
            "user-agent",
            "Mozilla/5.0 (Windows NT 10.0; Win64; x64) AppleWebKit/537.36 (KHTML, like Gecko) Chrome/133.0.0.0 Safari/537.36",
        );
        push_pair(&mut out, "referer", "https://yandex.com");
        push_pair(
            &mut out,
            "accept",
            "text/html,application/xhtml+xml,application/xml;q=0.9,image/avif,image/webp,image/apng,*/*;q=0.8,application/signed-exchange;v=b3;q=0.7",
        );
        push_pair(&mut out, "accept-language", "zh-CN,zh;q=0.9,en-US;q=0.8,en;q=0.7");
        push_pair(&mut out, "cache-control", "max-age=0");
        push_pair(&mut out, "dnt", "1");
        match &self.cookie {
            Some(c) => {
                push_pair(&mut out, "cookie", c.as_str());
            },
            None => {},
        }
        out
    }

    /// Starts a search for the image at `url`.
    pub fn begin_url(&self, url: &str) -> (r: (YandexStage, Request))
        ensures
            r.0 == YandexStage::Asked,
            r.1@ == url_request(self.base(), self.session(), url@),
    {
        let mut target = chars_of(self.base_url.as_str());
        push_str(&mut target, "?rpt=imageview&url=");
        push_str(&mut target, url);
        push_str(&mut target, "&cbir_page=sites");
        let mut request = Request::get(string_from_chars(&target));
        request.headers = self.headers();
        (YandexStage::Asked, request)
    }

    /// Starts a search for the image `bytes`.
    pub fn begin_bytes(&self, bytes: &[u8]) -> (r: (YandexStage, Request))
        ensures
            r.0 == YandexStage::Asked,
            r.1@ == upload_request(self.base(), self.session(), bytes@),
    {
        let mut form: Vec<FormField> = Vec::new();
        push_field(&mut form, text_field("prg", "1"));
        push_field(&mut form, file_field("upfile", "image.jpg", "image/jpeg", bytes_of(bytes)));
        assert(form_view(form) =~= upload_request(self.base(), self.session(), bytes@).form);
        let mut request = Request::post_form(
            crate::text::concat(self.base_url.as_str(), "?rpt=imageview&cbir_page=sites"),
            form,
        );
        request.headers = self.headers();
        (YandexStage::Asked, request)
    }

    /// Takes the response to the request of `stage` and says what the
    /// search does next. The results page URL is the URL that answered.
    pub fn advance(&self, stage: YandexStage, response: &Response) -> (r: (YandexStage, Step))
        ensures
            (r.0, r.1@) == yandex_next(stage, response@),
    {
        match stage {
            YandexStage::Asked => {
                if !response.succeeded() {
                    return (YandexStage::Closed, fail_status(response));
                }
                let outcome = Yandex::parse_html(response.body.as_str());
                (YandexStage::Closed, close(response.url.clone(), outcome))
            },
            YandexStage::Closed => (
                YandexStage::Closed,
                Step::Fail(extraction("the search is over")),
            ),
        }
    }
}

/// No result for a list of sites has a protocol-relative URL.
pub proof fn lemma_site_results_absolute(sites: Seq<Json>)
    ensures
        all_absolute(site_results(sites)),
    decreases sites.len(),
{
    if sites.len() > 0 {
        lemma_site_results_absolute(sites.drop_last());
        lemma_with_scheme_absolute(text_or_empty(text_member(sites.last(), "url"@)));
    }
}

impl ImageSearch for Yandex {
    type Stage = YandexStage;

    open spec fn valid(stage: &YandexStage) -> bool {
        true
    }

    open spec fn closed(stage: &YandexStage) -> bool {
        *stage == YandexStage::Closed
    }

    open spec fn scored() -> bool {
        false
    }

    open spec fn label() -> Seq<char> {
        "Yandex"@
    }

    open spec fn url_search(
        &self,
        url: Seq<char>,
        options: &SearchOptions,
        now: &Clock,
    ) -> RequestView {
        url_request(self.base(), self.session(), url)
    }

    open spec fn upload(
        &self,
        bytes: Seq<u8>,
        options: &SearchOptions,
        now: &Clock,
    ) -> RequestView {
        upload_request(self.base(), self.session(), bytes)
    }

    open spec fn awaits_redirect(stage: &YandexStage) -> bool {
        false
    }

    fn name(&self) -> (r: &'static str) {
        Yandex::name(self)
    }

    fn search_url(&self, url: &str, options: &SearchOptions, now: &Clock) -> (r: (
        YandexStage,
        Request,
    ))
        ensures
            r.0 == YandexStage::Asked,
    {
        self.begin_url(url)
    }

    fn search_bytes(&self, bytes: &[u8], options: &SearchOptions, now: &Clock) -> (r: (
        YandexStage,
        Request,
    ))
        ensures
            r.0 == YandexStage::Asked,
    {
        self.begin_bytes(bytes)
    }

    fn resume(
        &self,
        stage: YandexStage,
        response: &Response,
        options: &SearchOptions,
        now: &Clock,
    ) -> (r: (YandexStage, Step))
        ensures
            (r.0, r.1@) == yandex_next(stage, response@),
    {
        proof {
            if sites_of(response.body@) is Some {
                lemma_site_results_absolute(sites_of(response.body@)->Some_0);
            }
        }
        self.advance(stage, response)
    }
}

} // verus!
