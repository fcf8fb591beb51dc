//! The JSON API with a derived key: every request carries a token that is
//! computed from the time and the length of the client's name.

use vstd::prelude::*;
use crate::engines::{extraction, fail_status, status_failure, Clock, ImageSearch, Step, StepView};
use crate::error::{failure, ErrorKind};
use crate::json::{i32_member, int_member, json_document, optional_string, optional_text_fits, Json};
use crate::network::{
    bytes_of, file_field, form_view, get_of, is_success, pairs_view, push_field, push_pair,
    text_field, FormField, FormFieldView, Method, Request, RequestView, Response, ResponseView,
};
use crate::text::{
    chars_of, decimal, decimal_chars, lemma_decimal_len, pow10, push_str, reverse, reversed,
    same_text, string_from_chars, trim_end_matches, without_trailing,
};
use crate::types::{
    all_absolute, lemma_passing_absolute, lemma_passing_meets_threshold, lemma_passing_push,
    opt_score, opt_text, passing, push_if_passes, results_view, score_of, SearchOptions,
    SearchResult, SearchResultView, Similarity,
};
use crate::utils::{base64_text, bytes_to_base64, is_relative};

verus! {

/// The name that the client gives itself.
pub open spec fn client_name() -> Seq<char> {
    "Mozilla/5.0 (Windows NT 10.0; Win64; x64) AppleWebKit/537.36 (KHTML, like Gecko) Chrome/133.0.0.0 Safari/537.36"@
}

/// The length of the client's name, in bytes.
pub const CLIENT_NAME_LEN: u32 = 111;

/// The number behind the token: the square of the time in seconds, plus
/// the square of the length of the client's name, plus a constant,
/// rounded to the nearest hundred.
pub open spec fn token_number(now_secs: u64, name_len: u32) -> nat {
    let raw = now_secs as nat * now_secs as nat + name_len as nat * name_len as nat
        + 4_746_193_387_776;
    ((raw + 50) / 100 * 100) as nat
}

/// The bytes of a text of ASCII characters.
pub open spec fn ascii_bytes(s: Seq<char>) -> Seq<u8> {
    s.map_values(|c: char| c as u8)
}

/// The token for a number's base64 text: the text without its padding,
/// back to front.
pub open spec fn token_of(encoded: Seq<char>) -> Seq<char> {
    reversed(without_trailing(encoded, "="@))
}

/// The token that a request sent at `now_secs` carries.
pub open spec fn api_token(now_secs: u64, name_len: u32) -> Seq<char> {
    token_of(base64_text(ascii_bytes(decimal(token_number(now_secs, name_len)))))
}

/// The token for the base64 text `encoded`.
pub fn token_from_encoding(encoded: &str) -> (r: String)
    ensures
        r@ == token_of(encoded@),
{
    let bare = trim_end_matches(&chars_of(encoded), &chars_of("="));
    string_from_chars(&reverse(&bare))
}

/// The number behind the token.
pub fn token_value(now_secs: u64, name_len: u32) -> (r: u128)
    ensures
        r == token_number(now_secs, name_len),
{
    let t: u128 = now_secs as u128;
    let n: u128 = name_len as u128;
    assert(t * t <= 0xffff_ffff_ffff_ffff * 0xffff_ffff_ffff_ffff) by (nonlinear_arith)
        requires
            t <= 0xffff_ffff_ffff_ffff,
    ;
    assert(n * n <= 0xffff_ffff * 0xffff_ffff) by (nonlinear_arith)
        requires
            n <= 0xffff_ffff,
    ;
    let raw: u128 = t * t + n * n + 4_746_193_387_776;
    (raw + 50) / 100 * 100
}

/// The bytes of the decimal digits `digits`.
fn digit_bytes(digits: &Vec<char>) -> (r: Vec<u8>)
    ensures
        r@ == ascii_bytes(digits@),
{
    let mut out: Vec<u8> = Vec::new();
    let mut i: usize = 0;
    while i < digits.len()
        invariant
            i <= digits.len(),
            out@ == ascii_bytes(digits@.take(i as int)),
        decreases digits.len() - i,
    {
        out.push(digits[i] as u8);
        i += 1;
    }
    out
}

/// The token that a request sent at the time `now_secs`, in seconds since
/// the epoch, carries for a client whose name is `name_len` bytes long.
pub fn api_key(now_secs: u64, name_len: u32) -> (r: String)
    ensures
        r@ == api_token(now_secs, name_len),
{
    let number = token_value(now_secs, name_len);
    let digits = decimal_chars(number);
    proof {
        assert(pow10(39) > u128::MAX) by {
            reveal_with_fuel(pow10, 40);
        }
        lemma_decimal_len(number as nat, 39);
    }
    let encoded = bytes_to_base64(digit_bytes(&digits).as_slice());
    token_from_encoding(encoded.as_str())
}

/// The member `key` of `obj`, read as a string that may be left out.
pub open spec fn defaulted_text(obj: Json, key: Seq<char>) -> Option<Seq<char>> {
    match obj.member(key) {
        None => Some(Seq::empty()),
        Some(Json::Text(text)) => Some(text@),
        _ => None,
    }
}

/// The member `key` of `obj` can be read as a number that may be left
/// out.
pub open spec fn defaulted_number_fits(obj: Json, key: Seq<char>) -> bool {
    match obj.member(key) {
        None => true,
        Some(Json::Number(_)) => true,
        _ => false,
    }
}

/// The score of an item: its similarity, as a percentage; 0 where it has
/// none or it is not written as a plain decimal.
pub open spec fn item_score(item: Json) -> nat {
    match item.member("similarity"@) {
        Some(Json::Number(text)) => match score_of(text@, 2) {
            Some(score) => score,
            None => 0,
        },
        _ => 0,
    }
}

/// The address of a match: on the one index that the path belongs to, or
/// on both mirrors of the other, one per line.
pub open spec fn detail_url(source: Seq<char>, path: Seq<char>) -> Seq<char> {
    if source == "nhentai"@ {
        "https://www."@ + source + ".net"@ + path
    } else {
        "https://e-hentai.org"@ + path + "\nhttps://exhentai.org"@ + path
    }
}

/// The result for one item, from its fields.
pub open spec fn result_view(
    score: nat,
    title: Seq<char>,
    preview: Seq<char>,
    source: Seq<char>,
    path: Seq<char>,
) -> SearchResultView {
    SearchResultView {
        title: Some(title),
        url: detail_url(source, path),
        thumbnail: Some(preview),
        similarity: Some(score),
        source,
        index: None,
        additional_info: None,
    }
}

/// One item of the response can be read: it is an object whose members
/// are, where present, of their types.
pub open spec fn item_fits(item: Json) -> bool {
    &&& item is Object
    &&& defaulted_number_fits(item, "similarity"@)
    &&& defaulted_text(item, "title"@) is Some
    &&& defaulted_text(item, "previewImageUrl"@) is Some
    &&& defaulted_text(item, "source"@) is Some
    &&& defaulted_text(item, "language"@) is Some
    &&& defaulted_text(item, "subjectPath"@) is Some
    &&& optional_text_fits(item, "pagePath"@)
}

/// The result for the item `item`.
pub open spec fn item_view(item: Json) -> SearchResultView {
    result_view(
        item_score(item),
        defaulted_text(item, "title"@)->Some_0,
        defaulted_text(item, "previewImageUrl"@)->Some_0,
        defaulted_text(item, "source"@)->Some_0,
        defaulted_text(item, "subjectPath"@)->Some_0,
    )
}

/// The items of the response: none where the member `data` is absent;
/// nothing where it is there and is no list.
pub open spec fn listed(doc: Json) -> Option<Seq<Json>> {
    match doc.member("data"@) {
        None => Some(Seq::empty()),
        Some(Json::Array(items)) => Some(items@),
        _ => None,
    }
}

/// The response can be read: it is an object whose members are, where
/// present, of their types, and each of its items can be read.
pub open spec fn document_fits(doc: Json) -> bool {
    &&& doc is Object
    &&& (doc.member("code"@) is None || i32_member(doc, "code"@) is Some)
    &&& defaulted_text(doc, "message"@) is Some
    &&& defaulted_number_fits(doc, "executionTime"@)
    &&& defaulted_text(doc, "imageUrl"@) is Some
    &&& defaulted_text(doc, "searchOption"@) is Some
    &&& defaulted_text(doc, "id"@) is Some
    &&& listed(doc) is Some
    &&& forall|i: int|
        0 <= i < listed(doc)->Some_0.len() ==> item_fits(#[trigger] listed(doc)->Some_0[i])
}

/// The address of the results page of the search with the id `id`.
pub open spec fn results_page(id: Seq<char>) -> Seq<char> {
    "https://soutubot.moe/results/"@ + id
}

/// What a response body gives under the threshold `min`: `Extraction`
/// where it is no JSON document or cannot be read, and else the results
/// page and the results that pass.
pub open spec fn body_step(body: Seq<char>, min: Option<nat>) -> StepView {
    match json_document(body) {
        Some(doc) => if document_fits(doc) {
            StepView::Done(
                results_page(defaulted_text(doc, "id"@)->Some_0),
                passing(listed(doc)->Some_0.map_values(|item: Json| item_view(item)), min),
            )
        } else {
            StepView::Fail(failure(ErrorKind::Extraction))
        },
        None => StepView::Fail(failure(ErrorKind::Extraction)),
    }
}

/// The result for one item.
pub fn item_result(
    score: Similarity,
    title: String,
    preview: String,
    source: String,
    path: &str,
) -> (r:
    SearchResult)
    ensures
        r@ == result_view(score.value(), title@, preview@, source@, path@),
{
    let mut url: Vec<char> = Vec::new();
    if same_text(source.as_str(), "nhentai") {
        push_str(&mut url, "https://www.");
        push_str(&mut url, source.as_str());
        push_str(&mut url, ".net");
        push_str(&mut url, path);
    } else {
        push_str(&mut url, "https://e-hentai.org");
        push_str(&mut url, path);
        push_str(&mut url, "\nhttps://exhentai.org");
        push_str(&mut url, path);
    }
    SearchResult {
        title: Some(title),
        url: string_from_chars(&url),
        thumbnail: Some(preview),
        similarity: Some(score),
        source,
        index: None,
        additional_info: None,
    }
}

fn read_defaulted(obj: &Json, key: &str) -> (r: Option<String>)
    ensures
        opt_text(r) == defaulted_text(*obj, key@),
{
    match obj.get(key) {
        None => Some(String::new()),
        Some(found) => match found {
            Json::Text(text) => Some(text.clone()),
            _ => None,
        },
    }
}

fn number_fits(obj: &Json, key: &str) -> (r: bool)
    ensures
        r == defaulted_number_fits(*obj, key@),
{
    match obj.get(key) {
        None => true,
        Some(found) => match found {
            Json::Number(_) => true,
            _ => false,
        },
    }
}

fn read_score(item: &Json) -> (r: Similarity)
    ensures
        r.value() == item_score(*item),
{
    let parsed = match item.get("similarity") {
        Some(found) => match found {
            Json::Number(text) => Similarity::parse_percent(text.as_str()),
            _ => None,
        },
        None => None,
    };
    match parsed {
        Some(score) => score,
        None => Similarity::from_hundredths(0),
    }
}

/// Reads one item of the response; nothing where it cannot be read.
pub fn read_item(item: &Json) -> (r: Option<SearchResult>)
    ensures
        match r {
            Some(result) => item_fits(*item) && result@ == item_view(*item),
            None => !item_fits(*item),
        },
{
    match item {
        Json::Object(_) => {},
        _ => {
            return None;
        },
    }
    if !number_fits(item, "similarity") {
        return None;
    }
    let title = match read_defaulted(item, "title") {
        Some(found) => found,
        None => {
            return None;
        },
    };
    let preview = match read_defaulted(item, "previewImageUrl") {
        Some(found) => found,
        None => {
            return None;
        },
    };
    let source = match read_defaulted(item, "source") {
        Some(found) => found,
        None => {
            return None;
        },
    };
    if read_defaulted(item, "language").is_none() {
        return None;
    }
    let path = match read_defaulted(item, "subjectPath") {
        Some(found) => found,
        None => {
            return None;
        },
    };
    if optional_string(item, "pagePath").is_none() {
        return None;
    }
    Some(item_result(read_score(item), title, preview, source, path.as_str()))
}

/// Reads the items of a response and keeps those that pass `min`.
fn read_items(items: &Vec<Json>, min: &Option<Similarity>) -> (r: Option<Vec<SearchResult>>)
    ensures
        match r {
            Some(results) => (forall|i: int|
                0 <= i < items@.len() ==> item_fits(#[trigger] items@[i]))
                && results_view(results) == passing(
                items@.map_values(|item: Json| item_view(item)),
                opt_score(*min),
            ),
            None => exists|i: int| 0 <= i < items@.len() && !item_fits(#[trigger] items@[i]),
        },
{
    let mut out: Vec<SearchResult> = Vec::new();
    let ghost floor = opt_score(*min);
    let ghost mut seen: Seq<SearchResultView> = Seq::empty();
    let mut i: usize = 0;
    while i < items.len()
        invariant
            i <= items.len(),
            floor == opt_score(*min),
            forall|k: int| 0 <= k < i ==> item_fits(#[trigger] items@[k]),
            seen == items@.take(i as int).map_values(|item: Json| item_view(item)),
            results_view(out) == passing(seen, floor),
        decreases items.len() - i,
    {
        match read_item(&items[i]) {
            Some(result) => {
                proof {
                    lemma_passing_push(seen, result@, floor);
                    seen = seen.push(result@);
                }
                push_if_passes(&mut out, result, min);
            },
            None => {
                return None;
            },
        }
        i += 1;
    }
    assert(items@.take(items.len() as int) =~= items@);
    Some(out)
}

/// Reads a response body: fails with `Extraction` where it is no JSON
/// document or cannot be read, and else ends the search with the results
/// page and the results that pass the threshold `min`.
pub fn step_from_body(body: &str, min: &Option<Similarity>) -> (r: Step)
    ensures
        r@ == body_step(body@, opt_score(*min)),
{
    let doc = match Json::parse(body) {
        Ok(doc) => doc,
        Err(_) => {
            return Step::Fail(extraction("the response is no JSON document"));
        },
    };
    match &doc {
        Json::Object(_) => {},
        _ => {
            return Step::Fail(extraction("the response is no object"));
        },
    }
    if doc.get("code").is_some() && int_member(&doc, "code").is_none() {
        return Step::Fail(extraction("the code is no integer"));
    }
    if read_defaulted(&doc, "message").is_none() || !number_fits(&doc, "executionTime")
        || read_defaulted(&doc, "imageUrl").is_none() || read_defaulted(
        &doc,
        "searchOption",
    ).is_none() {
        return Step::Fail(extraction("a member of the response has the wrong type"));
    }
    let id = match read_defaulted(&doc, "id") {
        Some(found) => found,
        None => {
            return Step::Fail(extraction("the id is no string"));
        },
    };
    let results: Vec<SearchResult> = match doc.get("data") {
        None => {
            let none: Vec<SearchResult> = Vec::new();
            assert(results_view(none) =~= Seq::empty());
            none
        },
        Some(found) => match found {
            Json::Array(items) => match read_items(items, min) {
                Some(list) => list,
                None => {
                    proof {
                        let i = choose|i: int| 0 <= i < items@.len() && !item_fits(items@[i]);
                    }
                    return Step::Fail(extraction("an item cannot be read"));
                },
            },
            _ => {
                return Step::Fail(extraction("the data are no list"));
            },
        },
    };
    Step::Done(crate::text::concat("https://soutubot.moe/results/", id.as_str()), results)
}

/// The engine for the JSON API with a derived key.
#[derive(Debug, Clone, Copy, PartialEq, Eq, Structural)]
pub struct Soutubot {}

/// Where a search stands between two round trips.
#[derive(Debug, Clone, Copy, PartialEq, Eq, Structural)]
pub enum SoutubotStage {
    /// The image at a URL was asked for.
    Fetching,
    /// The image was sent.
    Asked,
    /// The search is over.
    Closed,
}

/// The headers of a search request that carries the token `token`.
pub open spec fn search_headers(token: Seq<char>) -> Seq<(Seq<char>, Seq<char>)> {
    seq![
        ("sec-ch-ua"@, client_name()),
        ("dnt"@, "1"@),
        ("sec-ch-ua-mobile"@, "?0"@),
        ("accept"@, "application/json, text/plain, */*"@),
        ("x-requested-with"@, "XMLHttpRequest"@),
        ("x-api-key"@, token),
        ("sec-ch-ua-platform"@, "\"Windows\""@),
        ("origin"@, "https://soutubot.moe"@),
        ("sec-fetch-site"@, "same-origin"@),
        ("sec-fetch-mode"@, "cors"@),
        ("sec-fetch-dest"@, "empty"@),
        ("referer"@, "https://soutubot.moe/"@),
        ("accept-language"@, "zh-CN,zh;q=0.9"@),
    ]
}

/// The request that sends the image `bytes` with the token `token`.
pub open spec fn search_request(bytes: Seq<u8>, token: Seq<char>) -> RequestView {
    RequestView {
        method: Method::Post,
        headers: search_headers(token),
        form: seq![
            FormFieldView::Text { name: "factor"@, value: "1.2"@ },
            FormFieldView::File {
                name: "file"@,
                file_name: "image"@,
                mime: "application/octet-stream"@,
                data: bytes,
            },
        ],
        ..get_of("https://soutubot.moe/api/search"@)
    }
}

/// What a search in `stage` does with `response` at the time `now_secs`
/// under the threshold `min`.
pub open spec fn soutubot_next(
    stage: SoutubotStage,
    response: ResponseView,
    min: Option<nat>,
    now_secs: u64,
) -> (SoutubotStage, StepView) {
    if stage == SoutubotStage::Closed {
        (SoutubotStage::Closed, StepView::Fail(failure(ErrorKind::Extraction)))
    } else if !is_success(response.status) {
        (SoutubotStage::Closed, status_failure(response))
    } else if stage == SoutubotStage::Fetching {
        (
            SoutubotStage::Asked,
            StepView::Send(search_request(response.data, api_token(now_secs, CLIENT_NAME_LEN))),
        )
    } else {
        (SoutubotStage::Closed, body_step(response.body, min))
    }
}

/// The request that sends the image `bytes` at the time `now_secs`.
pub fn search(bytes: &[u8], now_secs: u64) -> (r: Request)
    ensures
        r@ == search_request(bytes@, api_token(now_secs, CLIENT_NAME_LEN)),
{
    let token = api_key(now_secs, CLIENT_NAME_LEN);
    let mut form: Vec<FormField> = Vec::new();
    push_field(&mut form, text_field("factor", "1.2"));
    push_field(
        &mut form,
        file_field("file", "image", "application/octet-stream", bytes_of(bytes)),
    );
    assert(form_view(form) =~= search_request(bytes@, token@).form);
    let mut request = Request::post_form("https://soutubot.moe/api/search".to_owned(), form);
    push_pair(
        &mut request.headers,
        "sec-ch-ua",
        "Mozilla/5.0 (Windows NT 10.0; Win64; x64) AppleWebKit/537.36 (KHTML, like Gecko) Chrome/133.0.0.0 Safari/537.36",
    );
    push_pair(&mut request.headers, "dnt", "1");
    push_pair(&mut request.headers, "sec-ch-ua-mobile", "?0");
    push_pair(&mut request.headers, "accept", "application/json, text/plain, */*");
    push_pair(&mut request.headers, "x-requested-with", "XMLHttpRequest");
    push_pair(&mut request.headers, "x-api-key", token.as_str());
    push_pair(&mut request.headers, "sec-ch-ua-platform", "\"Windows\"");
    push_pair(&mut request.headers, "origin", "https://soutubot.moe");
    push_pair(&mut request.headers, "sec-fetch-site", "same-origin");
    push_pair(&mut request.headers, "sec-fetch-mode", "cors");
    push_pair(&mut request.headers, "sec-fetch-dest", "empty");
    push_pair(&mut request.headers, "referer", "https://soutubot.moe/");
    push_pair(&mut request.headers, "accept-language", "zh-CN,zh;q=0.9");
    assert(pairs_view(request.headers) =~= search_headers(token@));
    request
}

impl Soutubot {
    /// The engine.
    pub fn new() -> (r: Soutubot)
        ensures
            r == (Soutubot {  }),
    {
        Soutubot {  }
    }

    /// The engine's name.
    pub fn name(&self) -> (r: &'static str)
        ensures
            r@ == "Soutubot"@,
    {
        "Soutubot"
    }

    /// Starts a search for the image at `url`: the image is fetched first.
    pub fn begin_url(&self, url: &str) -> (r: (SoutubotStage, Request))
        ensures
            r.0 == SoutubotStage::Fetching,
            r.1@ == get_of(url@),
    {
        (SoutubotStage::Fetching, Request::get(url.to_owned()))
    }

    /// Starts a search for the image `bytes` at the time `now_secs`.
    pub fn begin_bytes(&self, bytes: &[u8], now_secs: u64) -> (r: (SoutubotStage, Request))
        ensures
            r.0 == SoutubotStage::Asked,
            r.1@ == search_request(bytes@, api_token(now_secs, CLIENT_NAME_LEN)),
    {
        (SoutubotStage::Asked, search(bytes, now_secs))
    }

    /// Takes the response to the request of `stage` and says what the
    /// search does next.
    pub fn advance(
        &self,
        stage: SoutubotStage,
        response: &Response,
        options: &SearchOptions,
        now_secs: u64,
    ) -> (r: (SoutubotStage, Step))
        ensures
            (r.0, r.1@) == soutubot_next(
                stage,
                response@,
                opt_score(options.min_similarity),
                now_secs,
            ),
    {
        match stage {
            SoutubotStage::Closed => (
                SoutubotStage::Closed,
                Step::Fail(extraction("the search is over")),
            ),
            SoutubotStage::Fetching => {
                if !response.succeeded() {
                    return (SoutubotStage::Closed, fail_status(response));
                }
                (SoutubotStage::Asked, Step::Send(search(response.data.as_slice(), now_secs)))
            },
            SoutubotStage::Asked => {
                if !response.succeeded() {
                    return (SoutubotStage::Closed, fail_status(response));
                }
                (
                    SoutubotStage::Closed,
                    step_from_body(response.body.as_str(), &options.min_similarity),
                )
            },
        }
    }
}

/// The address of a match is not protocol-relative.
pub proof fn lemma_detail_url_absolute(source: Seq<char>, path: Seq<char>)
    ensures
        !is_relative(detail_url(source, path)),
{
    reveal_strlit("//");
    reveal_strlit("https://www.");
    reveal_strlit("https://e-hentai.org");
    let full = detail_url(source, path);
    if is_relative(full) {
        assert(full.subrange(0, 2)[0] == 'h');
    }
}

/// No result of a response has a protocol-relative URL.
pub proof fn lemma_listed_absolute(items: Seq<Json>)
    ensures
        all_absolute(items.map_values(|item: Json| item_view(item))),
{
    let all = items.map_values(|item: Json| item_view(item));
    assert forall|i: int| 0 <= i < all.len() implies !is_relative((#[trigger] all[i]).url) by {
        lemma_detail_url_absolute(
            defaulted_text(items[i], "source"@)->Some_0,
            defaulted_text(items[i], "subjectPath"@)->Some_0,
        );
    }
}

impl ImageSearch for Soutubot {
    type Stage = SoutubotStage;

    open spec fn valid(stage: &SoutubotStage) -> bool {
        true
    }

    open spec fn closed(stage: &SoutubotStage) -> bool {
        *stage == SoutubotStage::Closed
    }

    open spec fn scored() -> bool {
        true
    }

    open spec fn label() -> Seq<char> {
        "Soutubot"@
    }

    open spec fn url_search(
        &self,
        url: Seq<char>,
        options: &SearchOptions,
        now: &Clock,
    ) -> RequestView {
        get_of(url)
    }

    open spec fn upload(
        &self,
        bytes: Seq<u8>,
        options: &SearchOptions,
        now: &Clock,
    ) -> RequestView {
        search_request(bytes, api_token(now.secs, CLIENT_NAME_LEN))
    }

    open spec fn awaits_redirect(stage: &SoutubotStage) -> bool {
        false
    }

    fn name(&self) -> (r: &'static str) {
        Soutubot::name(self)
    }

    fn search_url(&self, url: &str, options: &SearchOptions, now: &Clock) -> (r: (
        SoutubotStage,
        Request,
    ))
        ensures
            r.0 == SoutubotStage::Fetching,
    {
        self.begin_url(url)
    }

    fn search_bytes(&self, bytes: &[u8], options: &SearchOptions, now: &Clock) -> (r: (
        SoutubotStage,
        Request,
    ))
        ensures
            r.0 == SoutubotStage::Asked,
    {
        self.begin_bytes(bytes, now.secs)
    }

    fn resume(
        &self,
        stage: SoutubotStage,
        response: &Response,
        options: &SearchOptions,
        now: &Clock,
    ) -> (r: (SoutubotStage, Step))
        ensures
            (r.0, r.1@) == soutubot_next(
                stage,
                response@,
                opt_score(options.min_similarity),
                now.secs,
            ),
    {
        proof {
            let min = opt_score(options.min_similarity);
            if json_document(response.body@) is Some {
                let doc = json_document(response.body@)->Some_0;
                let all = listed(doc)->Some_0.map_values(|item: Json| item_view(item));
                lemma_listed_absolute(listed(doc)->Some_0);
                lemma_passing_absolute(all, min);
                lemma_passing_meets_threshold(all, min);
            }
        }
        self.advance(stage, response, options, now.secs)
    }
}

} // verus!
