//! The JSON API with an optional key: a straightforward field mapping,
//! with the upstream's own status surfaced and a similarity threshold.

use vstd::prelude::*;
use crate::engines::{
    close, closing_step, fail_status, outcome_view, Clock, ImageSearch, Step, StepView,
};
use crate::error::{api_error, failure, Error, ErrorKind, ErrorView};
use crate::json::{
    i32_member, int_member, json_document, opt_texts, optional_string, optional_strings,
    optional_text_fits, optional_texts, string_member, text_member, Json,
};
use crate::network::{
    bytes_of, file_field, form_view, get_of, pairs_view, push_field, push_pair, text_field,
    FormField, FormFieldView, Method, Request, RequestView, Response, ResponseView,
};
use crate::numeric::{i32_text, int_text};
use crate::text::{chars_of, push_str, string_from_chars};
use crate::types::{
    all_absolute, lemma_passing_absolute, lemma_passing_meets_threshold, lemma_passing_push,
    opt_score, opt_text, passing, push_if_passes, results_view, score_of, score_text,
    text_or_empty, texts, AdditionalInfo, AdditionalInfoView, SearchOptions, SearchResult,
    SearchResultView, Similarity,
};
use crate::utils::{
    base64_bytes, base64_to_bytes, is_relative, lemma_normalized_absolute, normalize_url,
    normalized_url,
};

verus! {

/// The score that a similarity text denotes; 0 where it denotes none.
pub open spec fn score_or_zero(text: Seq<char>) -> nat {
    match score_of(text, 2) {
        Some(score) => score,
        None => 0,
    }
}

/// The URL of a result: the first alternate link, else the source; made
/// absolute unless it is empty.
pub open spec fn primary_url(urls: Seq<Seq<char>>, source: Option<Seq<char>>) -> Seq<char> {
    let raw = if urls.len() == 0 {
        text_or_empty(source)
    } else {
        urls[0]
    };
    if raw.len() == 0 {
        raw
    } else {
        normalized_url(raw)
    }
}

/// The links of a result beyond its URL.
pub open spec fn other_urls(urls: Seq<Seq<char>>) -> Seq<Seq<char>> {
    if urls.len() == 0 {
        urls
    } else {
        urls.drop_first()
    }
}

/// The result for one item of the response, from its fields.
pub open spec fn result_view(
    similarity: Seq<char>,
    thumbnail: Seq<char>,
    index_id: i32,
    index_name: Seq<char>,
    ext_urls: Option<Seq<Seq<char>>>,
    title: Option<Seq<char>>,
    author_name: Option<Seq<char>>,
    author_url: Option<Seq<char>>,
    source: Option<Seq<char>>,
    created_at: Option<Seq<char>>,
) -> SearchResultView {
    let urls = match ext_urls {
        Some(found) => found,
        None => Seq::empty(),
    };
    SearchResultView {
        title,
        url: primary_url(urls, source),
        thumbnail: Some(thumbnail),
        similarity: Some(score_or_zero(similarity)),
        source: index_name,
        index: Some(int_text(index_id as int)),
        additional_info: Some(
            AdditionalInfoView {
                author: author_name,
                author_url,
                source_url: source,
                created_at,
                tags: Seq::empty(),
                size: None,
                ext_urls: other_urls(urls),
            },
        ),
    }
}

/// Removes and returns the first string of `urls`.
fn take_first(urls: &mut Vec<String>) -> (r: String)
    requires
        old(urls).len() > 0,
    ensures
        r@ == texts(*old(urls))[0],
        texts(*final(urls)) == texts(*old(urls)).drop_first(),
{
    let first = urls.remove(0);
    first
}

/// The result for one item of the response.
pub fn item_result(
    similarity: &str,
    thumbnail: String,
    index_id: i32,
    index_name: String,
    ext_urls: Option<Vec<String>>,
    title: Option<String>,
    author_name: Option<String>,
    author_url: Option<String>,
    source: Option<String>,
    created_at: Option<String>,
) -> (r: SearchResult)
    ensures
        r@ == result_view(
            similarity@,
            thumbnail@,
            index_id,
            index_name@,
            opt_texts(ext_urls),
            opt_text(title),
            opt_text(author_name),
            opt_text(author_url),
            opt_text(source),
            opt_text(created_at),
        ),
{
    let score = match Similarity::parse_percent(similarity) {
        Some(found) => found,
        None => Similarity::from_hundredths(0),
    };
    let mut urls: Vec<String> = match ext_urls {
        Some(found) => found,
        None => {
            let none: Vec<String> = Vec::new();
            none
        },
    };
    let raw: String = if urls.len() == 0 {
        match &source {
            Some(s) => s.clone(),
            None => String::new(),
        }
    } else {
        take_first(&mut urls)
    };
    let url: String = if raw.as_str().unicode_len() == 0 {
        raw
    } else {
        match normalize_url(raw.as_str()) {
            Ok(absolute) => absolute,
            Err(_) => raw,
        }
    };
    let info = AdditionalInfo {
        author: author_name,
        author_url,
        source_url: source,
        created_at,
        tags: Vec::new(),
        size: None,
        ext_urls: urls,
    };
    assert(texts(info.tags) =~= Seq::empty());
    SearchResult {
        title,
        url,
        thumbnail: Some(thumbnail),
        similarity: Some(score),
        source: index_name,
        index: Some(i32_text(index_id)),
        additional_info: Some(info),
    }
}

/// The header of an item, where it can be read: an object with the
/// strings `similarity`, `thumbnail` and `index_name` and the integer
/// `index_id`.
pub open spec fn header_fits(header: Json) -> bool {
    &&& text_member(header, "similarity"@) is Some
    &&& text_member(header, "thumbnail"@) is Some
    &&& i32_member(header, "index_id"@) is Some
    &&& text_member(header, "index_name"@) is Some
}

/// The data of an item can be read: it is an object whose members
/// `ext_urls`, `title`, `author_name`, `author_url`, `source` and
/// `created_at` are, where present, of their types.
pub open spec fn data_fits(data: Json) -> bool {
    &&& data is Object
    &&& optional_texts(data, "ext_urls"@) is Some
    &&& optional_text_fits(data, "title"@)
    &&& optional_text_fits(data, "author_name"@)
    &&& optional_text_fits(data, "author_url"@)
    &&& optional_text_fits(data, "source"@)
    &&& optional_text_fits(data, "created_at"@)
}

/// One item of the response can be read.
pub open spec fn item_fits(item: Json) -> bool {
    match (item.member("header"@), item.member("data"@)) {
        (Some(header), Some(data)) => header_fits(header) && data_fits(data),
        _ => false,
    }
}

/// The result for the item `item` of the response.
pub open spec fn item_view(item: Json) -> SearchResultView {
    let header = item.member("header"@)->Some_0;
    let data = item.member("data"@)->Some_0;
    result_view(
        text_member(header, "similarity"@)->Some_0,
        text_member(header, "thumbnail"@)->Some_0,
        i32_member(header, "index_id"@)->Some_0,
        text_member(header, "index_name"@)->Some_0,
        optional_texts(data, "ext_urls"@)->Some_0,
        text_member(data, "title"@),
        text_member(data, "author_name"@),
        text_member(data, "author_url"@),
        text_member(data, "source"@),
        text_member(data, "created_at"@),
    )
}

/// Reads one item of the response; nothing where it cannot be read.
pub fn read_item(item: &Json) -> (r: Option<SearchResult>)
    ensures
        match r {
            Some(result) => item_fits(*item) && result@ == item_view(*item),
            None => !item_fits(*item),
        },
{
    let header = match item.get("header") {
        Some(found) => found,
        None => {
            return None;
        },
    };
    let data = match item.get("data") {
        Some(found) => found,
        None => {
            return None;
        },
    };
    let similarity = match string_member(header, "similarity") {
        Some(found) => found,
        None => {
            return None;
        },
    };
    let thumbnail = match string_member(header, "thumbnail") {
        Some(found) => found,
        None => {
            return None;
        },
    };
    let index_id = match int_member(header, "index_id") {
        Some(found) => found,
        None => {
            return None;
        },
    };
    let index_name = match string_member(header, "index_name") {
        Some(found) => found,
        None => {
            return None;
        },
    };
    match data {
        Json::Object(_) => {},
        _ => {
            return None;
        },
    }
    let ext_urls = match optional_strings(data, "ext_urls") {
        Some(found) => found,
        None => {
            return None;
        },
    };
    let title = match optional_string(data, "title") {
        Some(found) => found,
        None => {
            return None;
        },
    };
    let author_name = match optional_string(data, "author_name") {
        Some(found) => found,
        None => {
            return None;
        },
    };
    let author_url = match optional_string(data, "author_url") {
        Some(found) => found,
        None => {
            return None;
        },
    };
    let source = match optional_string(data, "source") {
        Some(found) => found,
        None => {
            return None;
        },
    };
    let created_at = match optional_string(data, "created_at") {
        Some(found) => found,
        None => {
            return None;
        },
    };
    Some(
        item_result(
            similarity.as_str(),
            thumbnail,
            index_id,
            index_name,
            ext_urls,
            title,
            author_name,
            author_url,
            source,
            created_at,
        ),
    )
}

/// The items of the response: none where the member `results` is absent
/// or null; nothing where it is there and is no list.
pub open spec fn listed(doc: Json) -> Option<Seq<Json>> {
    match doc.member("results"@) {
        None => Some(Seq::empty()),
        Some(Json::Null) => Some(Seq::empty()),
        Some(Json::Array(items)) => Some(items@),
        _ => None,
    }
}

/// The response can be read: its header holds an integer `status` and, if
/// any, a string `message`, and each of its items can be read.
pub open spec fn document_fits(doc: Json) -> bool {
    match doc.member("header"@) {
        Some(header) => {
            &&& i32_member(header, "status"@) is Some
            &&& optional_text_fits(header, "message"@)
            &&& listed(doc) is Some
            &&& forall|i: int|
                0 <= i < listed(doc)->Some_0.len() ==> item_fits(#[trigger] listed(doc)->Some_0[i])
        },
        None => false,
    }
}

/// The status that the upstream reports in a response that can be read.
pub open spec fn reported_status(doc: Json) -> i32 {
    i32_member(doc.member("header"@)->Some_0, "status"@)->Some_0
}

/// The message that goes with a negative status.
pub open spec fn reported_message(doc: Json) -> Seq<char> {
    match text_member(doc.member("header"@)->Some_0, "message"@) {
        Some(message) => message,
        None => "Unknown error"@,
    }
}

/// What a response document gives under the threshold `min`: `Extraction`
/// where it cannot be read, `UpstreamApi` where its status is negative,
/// and else the results that pass.
pub open spec fn document_outcome(doc: Json, min: Option<nat>) -> Result<
    Seq<SearchResultView>,
    ErrorView,
> {
    if !document_fits(doc) {
        Err(failure(ErrorKind::Extraction))
    } else if reported_status(doc) < 0 {
        Err(api_error(reported_status(doc) as i64, reported_message(doc)))
    } else {
        Ok(passing(listed(doc)->Some_0.map_values(|item: Json| item_view(item)), min))
    }
}

/// What a response body gives under the threshold `min`.
pub open spec fn body_outcome(body: Seq<char>, min: Option<nat>) -> Result<
    Seq<SearchResultView>,
    ErrorView,
> {
    match json_document(body) {
        Some(doc) => document_outcome(doc, min),
        None => Err(failure(ErrorKind::Extraction)),
    }
}

/// Reads the items of a response and keeps those that pass `min`.
fn read_items(items: &Vec<Json>, min: &Option<Similarity>) -> (r: Option<Vec<SearchResult>>)
    ensures
        match r {
            Some(results) => (forall|i: int|
                0 <= i < items@.len() ==> item_fits(#[trigger] items@[i]))
                && results_view(results) == passing(
                items@.map_values(|item: Json| item_view(item)),
                opt_score(*min),
            ),
            None => exists|i: int| 0 <= i < items@.len() && !item_fits(#[trigger] items@[i]),
        },
{
    let mut out: Vec<SearchResult> = Vec::new();
    let ghost floor = opt_score(*min);
    let ghost mut seen: Seq<SearchResultView> = Seq::empty();
    let mut i: usize = 0;
    while i < items.len()
        invariant
            i <= items.len(),
            floor == opt_score(*min),
            forall|k: int| 0 <= k < i ==> item_fits(#[trigger] items@[k]),
            seen == items@.take(i as int).map_values(|item: Json| item_view(item)),
            results_view(out) == passing(seen, floor),
        decreases items.len() - i,
    {
        match read_item(&items[i]) {
            Some(result) => {
                proof {
                    lemma_passing_push(seen, result@, floor);
                    seen = seen.push(result@);
                }
                push_if_passes(&mut out, result, min);
            },
            None => {
                return None;
            },
        }
        i += 1;
    }
    assert(items@.take(items.len() as int) =~= items@);
    Some(out)
}

/// Reads a response document.
pub fn results_from_document(doc: &Json, min: &Option<Similarity>) -> (r: Result<
    Vec<SearchResult>,
    Error,
>)
    ensures
        outcome_view(r) == document_outcome(*doc, opt_score(*min)),
{
    let header = match doc.get("header") {
        Some(found) => found,
        None => {
            return Err(crate::engines::extraction("the response has no header"));
        },
    };
    let status = match int_member(header, "status") {
        Some(found) => found,
        None => {
            return Err(crate::engines::extraction("the header has no status"));
        },
    };
    let message = match optional_string(header, "message") {
        Some(found) => found,
        None => {
            return Err(crate::engines::extraction("the message is no string"));
        },
    };
    let results: Vec<SearchResult> = match doc.get("results") {
        None => {
            let none: Vec<SearchResult> = Vec::new();
            assert(results_view(none) =~= Seq::empty());
            none
        },
        Some(found) => match found {
            Json::Null => {
                let none: Vec<SearchResult> = Vec::new();
                assert(results_view(none) =~= Seq::empty());
                none
            },
            Json::Array(items) => match read_items(items, min) {
                Some(list) => list,
                None => {
                    proof {
                        let i = choose|i: int| 0 <= i < items@.len() && !item_fits(items@[i]);
                        assert(!item_fits(listed(*doc)->Some_0[i]));
                    }
                    return Err(crate::engines::extraction("an item cannot be read"));
                },
            },
            _ => {
                return Err(crate::engines::extraction("the results are no list"));
            },
        },
    };
    if status < 0 {
        let text = match message {
            Some(m) => m,
            None => "Unknown error".to_owned(),
        };
        return Err(Error::UpstreamApi { code: status as i64, message: text });
    }
    Ok(results)
}

/// Reads a response body: `Extraction` where it is no JSON document or
/// cannot be read, `UpstreamApi` where the upstream reports a negative
/// status, and else the results that pass the threshold `min`.
pub fn results_from_body(body: &str, min: &Option<Similarity>) -> (r: Result<
    Vec<SearchResult>,
    Error,
>)
    ensures
        outcome_view(r) == body_outcome(body@, opt_score(*min)),
{
    match Json::parse(body) {
        Ok(doc) => results_from_document(&doc, min),
        Err(_) => Err(crate::engines::extraction("the response is no JSON document")),
    }
}

/// The engine for the JSON API, with the caller's API key if there is
/// one.
#[derive(Debug)]
pub struct SauceNao {
    api_key: Option<String>,
}

/// Where a search stands between two round trips.
#[derive(Debug)]
pub enum SauceStage {
    /// The API was asked; the results page URL.
    Asked(String),
    /// The search is over.
    Closed,
}

/// What a stage holds.
pub ghost enum SauceStageView {
    Asked(Seq<char>),
    Closed,
}

impl View for SauceStage {
    type V = SauceStageView;

    open spec fn view(&self) -> SauceStageView {
        match *self {
            SauceStage::Asked(url) => SauceStageView::Asked(url@),
            SauceStage::Closed => SauceStageView::Closed,
        }
    }
}

/// The query of a search by image URL.
pub open spec fn url_query(key: Option<Seq<char>>, url: Seq<char>) -> Seq<(Seq<char>, Seq<char>)> {
    let fixed = seq![("url"@, url), ("output_type"@, "2"@), ("numres"@, "16"@)];
    match key {
        Some(k) => fixed.push(("api_key"@, k)),
        None => fixed,
    }
}

/// The request of a search by image URL.
pub open spec fn url_request(key: Option<Seq<char>>, url: Seq<char>) -> RequestView {
    RequestView {
        query: url_query(key, url),
        headers: seq![
            (
                "user-agent"@,
                "Mozilla/5.0 (Windows NT 10.0; Win64; x64) AppleWebKit/537.36 (KHTML, like Gecko) Chrome/121.0.0.0 Safari/537.36"@,
            ),
            (
                "accept"@,
                "text/html,application/xhtml+xml,application/xml;q=0.9,image/avif,image/webp,*/*;q=0.8"@,
            ),
            ("accept-language"@, "zh-CN,zh;q=0.9,en-US;q=0.8,en;q=0.7"@),
            ("referer"@, "https://saucenao.com/"@),
        ],
        ..get_of("https://saucenao.com/search.php"@)
    }
}

/// The threshold that an upload asks the upstream for: the caller's, or
/// 80 percent.
pub open spec fn upload_threshold(min: Option<nat>) -> nat {
    match min {
        Some(least) => least,
        None => 8_000,
    }
}

/// The request that uploads an image.
pub open spec fn upload_request(
    key: Option<Seq<char>>,
    bytes: Seq<u8>,
    min: Option<nat>,
) -> RequestView {
    RequestView {
        method: Method::Post,
        form: seq![
            FormFieldView::Text { name: "output_type"@, value: "2"@ },
            FormFieldView::Text { name: "numres"@, value: "16"@ },
            FormFieldView::Text { name: "api_key"@, value: text_or_empty(key) },
            FormFieldView::Text { name: "dbmask"@, value: "999"@ },
            FormFieldView::Text { name: "minsim"@, value: score_text(upload_threshold(min)) },
            FormFieldView::File {
                name: "file"@,
                file_name: "image.png"@,
                mime: "image/png"@,
                data: bytes,
            },
        ],
        ..get_of("https://saucenao.com/search.php"@)
    }
}

/// What a search in `stage` does with `response` under the threshold
/// `min`.
pub open spec fn sauce_next(stage: SauceStageView, response: ResponseView, min: Option<nat>) -> (
    SauceStageView,
    StepView,
) {
    match stage {
        SauceStageView::Asked(url) => (
            SauceStageView::Closed,
            closing_step(url, response, body_outcome(response.body, min)),
        ),
        SauceStageView::Closed => (
            SauceStageView::Closed,
            StepView::Fail(failure(ErrorKind::Extraction)),
        ),
    }
}

impl SauceNao {
    /// The engine, with the caller's API key if there is one.
    pub fn new(api_key: Option<String>) -> (r: SauceNao)
        ensures
            r.key() == opt_text(api_key),
    {
        SauceNao { api_key }
    }

    /// The API key.
    pub closed spec fn key(&self) -> Option<Seq<char>> {
        opt_text(self.api_key)
    }

    /// The engine's name.
    pub fn name(&self) -> (r: &'static str)
        ensures
            r@ == "SauceNAO"@,
    {
        "SauceNAO"
    }

    /// Starts a search for the image at `url`.
    pub fn begin_url(&self, url: &str) -> (r: (SauceStage, Request))
        ensures
            r.0@ == SauceStageView::Asked("https://saucenao.com/search.php?url="@ + url@),
            r.1@ == url_request(self.key(), url@),
    {
        let mut page = chars_of("https://saucenao.com/search.php?url=");
        push_str(&mut page, url);
        let mut request = Request::get("https://saucenao.com/search.php".to_owned());
        push_pair(&mut request.query, "url", url);
        push_pair(&mut request.query, "output_type", "2");
        push_pair(&mut request.query, "numres", "16");
        match &self.api_key {
            Some(key) => {
                push_pair(&mut request.query, "api_key", key.as_str());
            },
            None => {},
        }
        push_pair(
            &mut request.headers,
            "user-agent",
            "Mozilla/5.0 (Windows NT 10.0; Win64; x64) AppleWebKit/537.36 (KHTML, like Gecko) Chrome/121.0.0.0 Safari/537.36",
        );
        push_pair(
            &mut request.headers,
            "accept",
            "text/html,application/xhtml+xml,application/xml;q=0.9,image/avif,image/webp,*/*;q=0.8",
        );
        push_pair(&mut request.headers, "accept-language", "zh-CN,zh;q=0.9,en-US;q=0.8,en;q=0.7");
        push_pair(&mut request.headers, "referer", "https://saucenao.com/");
        assert(pairs_view(request.query) =~= url_query(self.key(), url@));
        assert(pairs_view(request.headers) =~= url_request(self.key(), url@).headers);
        (SauceStage::Asked(string_from_chars(&page)), request)
    }

    /// Starts a search for the image `bytes`.
    pub fn begin_bytes(&self, bytes: &[u8], options: &SearchOptions) -> (r: (SauceStage, Request))
        ensures
            r.0@ == SauceStageView::Asked(Seq::empty()),
            r.1@ == upload_request(self.key(), bytes@, opt_score(options.min_similarity)),
    {
        let threshold = match &options.min_similarity {
            Some(least) => *least,
            None => Similarity::from_hundredths(8_000),
        };
        let key: String = match &self.api_key {
            Some(k) => k.clone(),
            None => String::new(),
        };
        let mut form: Vec<FormField> = Vec::new();
        push_field(&mut form, text_field("output_type", "2"));
        push_field(&mut form, text_field("numres", "16"));
        push_field(&mut form, text_field("api_key", key.as_str()));
        push_field(&mut form, text_field("dbmask", "999"));
        push_field(&mut form, text_field("minsim", threshold.to_text().as_str()));
        push_field(&mut form, file_field("file", "image.png", "image/png", bytes_of(bytes)));
        assert(form_view(form) =~= upload_request(
            self.key(),
            bytes@,
            opt_score(options.min_similarity),
        ).form);
        let request = Request::post_form("https://saucenao.com/search.php".to_owned(), form);
        (SauceStage::Asked(String::new()), request)
    }

    /// Starts a search for the image that `data` encodes in base64; fails
    /// with `Decode` where `data` is no base64 text.
    pub fn begin_base64(&self, data: &str, options: &SearchOptions) -> (r: Result<
        (SauceStage, Request),
        Error,
    >)
        ensures
            match r {
                Ok(started) => base64_bytes(data@) is Some && started.0@ == SauceStageView::Asked(
                    Seq::empty(),
                ) && started.1@ == upload_request(
                    self.key(),
                    base64_bytes(data@)->Some_0,
                    opt_score(options.min_similarity),
                ),
                Err(e) => base64_bytes(data@) is None && e is Decode,
            },
    {
        match base64_to_bytes(data) {
            Ok(bytes) => Ok(self.begin_bytes(bytes.as_slice(), options)),
            Err(e) => Err(e),
        }
    }

    /// Takes the response to the request of `stage` and says what the
    /// search does next.
    pub fn advance(&self, stage: SauceStage, response: &Response, options: &SearchOptions) -> (r: (
        SauceStage,
        Step,
    ))
        ensures
            (r.0@, r.1@) == sauce_next(stage@, response@, opt_score(options.min_similarity)),
    {
        match stage {
            SauceStage::Asked(url) => {
                if !response.succeeded() {
                    return (SauceStage::Closed, fail_status(response));
                }
                let outcome = results_from_body(response.body.as_str(), &options.min_similarity);
                (SauceStage::Closed, close(url, outcome))
            },
            SauceStage::Closed => (
                SauceStage::Closed,
                Step::Fail(crate::engines::extraction("the search is over")),
            ),
        }
    }
}

/// The URL of a result is not protocol-relative.
pub proof fn lemma_primary_url_absolute(urls: Seq<Seq<char>>, source: Option<Seq<char>>)
    ensures
        !is_relative(primary_url(urls, source)),
{
    reveal_strlit("//");
    let raw = if urls.len() == 0 {
        text_or_empty(source)
    } else {
        urls[0]
    };
    lemma_normalized_absolute(raw);
}

/// No result of a response has a protocol-relative URL.
pub proof fn lemma_listed_absolute(items: Seq<Json>)
    ensures
        all_absolute(items.map_values(|item: Json| item_view(item))),
{
    let all = items.map_values(|item: Json| item_view(item));
    assert forall|i: int| 0 <= i < all.len() implies !is_relative((#[trigger] all[i]).url) by {
        let data = items[i].member("data"@)->Some_0;
        let urls = match optional_texts(data, "ext_urls"@)->Some_0 {
            Some(found) => found,
            None => Seq::empty(),
        };
        lemma_primary_url_absolute(urls, text_member(data, "source"@));
    }
}

impl ImageSearch for SauceNao {
    type Stage = SauceStage;

    open spec fn valid(stage: &SauceStage) -> bool {
        true
    }

    open spec fn closed(stage: &SauceStage) -> bool {
        *stage is Closed
    }

    open spec fn scored() -> bool {
        true
    }

    open spec fn label() -> Seq<char> {
        "SauceNAO"@
    }

    open spec fn url_search(
        &self,
        url: Seq<char>,
        options: &SearchOptions,
        now: &Clock,
    ) -> RequestView {
        url_request(self.key(), url)
    }

    open spec fn upload(
        &self,
        bytes: Seq<u8>,
        options: &SearchOptions,
        now: &Clock,
    ) -> RequestView {
        upload_request(self.key(), bytes, opt_score(options.min_similarity))
    }

    open spec fn awaits_redirect(stage: &SauceStage) -> bool {
        false
    }

    fn name(&self) -> (r: &'static str) {
        SauceNao::name(self)
    }

    fn search_url(&self, url: &str, options: &SearchOptions, now: &Clock) -> (r: (
        SauceStage,
        Request,
    ))
        ensures
            r.0@ == SauceStageView::Asked("https://saucenao.com/search.php?url="@ + url@),
    {
        self.begin_url(url)
    }

    fn search_bytes(&self, bytes: &[u8], options: &SearchOptions, now: &Clock) -> (r: (
        SauceStage,
        Request,
    ))
        ensures
            r.0@ == SauceStageView::Asked(Seq::empty()),
    {
        self.begin_bytes(bytes, options)
    }

    fn resume(
        &self,
        stage: SauceStage,
        response: &Response,
        options: &SearchOptions,
        now: &Clock,
    ) -> (r: (SauceStage, Step))
        ensures
            (r.0@, r.1@) == sauce_next(stage@, response@, opt_score(options.min_similarity)),
    {
        proof {
            let min = opt_score(options.min_similarity);
            if json_document(response.body@) is Some {
                let doc = json_document(response.body@)->Some_0;
                let all = listed(doc)->Some_0.map_values(|item: Json| item_view(item));
                lemma_listed_absolute(listed(doc)->Some_0);
                lemma_passing_absolute(all, min);
                lemma_passing_meets_threshold(all, min);
            }
        }
        self.advance(stage, response, options)
    }
}

} // verus!
