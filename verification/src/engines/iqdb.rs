//! The table-of-tables site: one table per match, read row by row. The
//! rows are told apart by their position alone.

use vstd::prelude::*;
use crate::dom::{
    first_attr_under, first_text_under, first_under, selected, selected_under, sibling_text,
    Document,
};
use crate::engines::{
    close, closing_step, extraction, fail_status, outcome_view, Clock, ImageSearch, Step,
    StepView,
};
use crate::error::{failure, Error, ErrorKind, ErrorView};
use crate::network::{
    bytes_of, file_field, form_view, get_of, push_field, text_field, FormField, FormFieldView,
    Method, Request, RequestView, Response, ResponseView,
};
use crate::numeric::usize_text;
use crate::text::{
    chars_of, decimal, ends_with, has_suffix, push_all, push_str, slice, string_from_chars,
    trim, trimmed,
};
use crate::types::{
    all_absolute, all_pass, empty_info, opt_score, opt_text, or_empty, passes, push_if_passes,
    results_view, score_of, text_or_empty, AdditionalInfo, SearchOptions, SearchResult,
    SearchResultView, Similarity,
};
use crate::utils::{
    add_scheme, base64_bytes, base64_to_bytes, lemma_with_scheme_absolute, with_scheme,
};

verus! {

/// The score that a similarity cell states: the number before
/// `% similarity`, as a percentage.
pub open spec fn cell_score(cell: Option<Seq<char>>) -> Option<nat> {
    match cell {
        Some(text) => if has_suffix(text, "% similarity"@) {
            score_of(text.take(text.len() - "% similarity"@.len()), 2)
        } else {
            None
        },
        None => None,
    }
}

/// The result for one table, from what its four rows hold and the number
/// of results before it.
pub open spec fn table_view(
    href: Seq<char>,
    src: Option<Seq<char>>,
    label: Option<Seq<char>>,
    size: Option<Seq<char>>,
    score: Option<Seq<char>>,
    position: nat,
) -> SearchResultView {
    SearchResultView {
        title: Some("["@ + trimmed(text_or_empty(label)) + "] "@ + text_or_empty(size)),
        url: with_scheme(href),
        thumbnail: match src {
            Some(path) => Some("https://iqdb.org"@ + path),
            None => None,
        },
        similarity: cell_score(score),
        source: "IQDB"@,
        index: Some(decimal(position)),
        additional_info: Some(empty_info()),
    }
}

/// The text of the node that follows the first image below `row`.
pub open spec fn label_of(source: Seq<char>, row: usize) -> Option<Seq<char>> {
    match first_under(source, row, "img"@) {
        Some(image) => sibling_text(source, image),
        None => None,
    }
}

/// The result for the table `table`, where `position` results came before
/// it: nothing where the table has no rows, says that nothing matched,
/// has fewer than four rows below its heading, or has no link.
pub open spec fn table_result(source: Seq<char>, table: usize, position: nat) -> Option<
    SearchResultView,
> {
    let rows = selected_under(source, table, "tr"@);
    if rows.len() == 0 {
        None
    } else {
        let heading = first_text_under(source, rows[0], "th"@);
        let skip: int = if heading is Some {
            1
        } else {
            0
        };
        if heading == Some("No relevant matches"@) || rows.len() - skip < 4 {
            None
        } else {
            match first_attr_under(source, rows[skip], "td > a"@, "href"@) {
                Some(href) => Some(
                    table_view(
                        href,
                        first_attr_under(source, rows[skip], "td > a > img"@, "src"@),
                        label_of(source, rows[skip + 1]),
                        first_text_under(source, rows[skip + 2], "td"@),
                        first_text_under(source, rows[skip + 3], "td"@),
                        position,
                    ),
                ),
                None => None,
            }
        }
    }
}

/// The results for the tables `tables` that pass the threshold `min`, in
/// order; each result is numbered by its place among them.
pub open spec fn table_results(source: Seq<char>, tables: Seq<usize>, min: Option<nat>) -> Seq<
    SearchResultView,
>
    decreases tables.len(),
{
    if tables.len() == 0 {
        Seq::empty()
    } else {
        let head = table_results(source, tables.drop_last(), min);
        match table_result(source, tables.last(), head.len()) {
            Some(result) => if passes(result, min) {
                head.push(result)
            } else {
                head
            },
            None => head,
        }
    }
}

/// No result for a list of tables scores below the threshold.
pub proof fn lemma_table_results_pass(source: Seq<char>, tables: Seq<usize>, min: Option<nat>)
    ensures
        all_pass(table_results(source, tables, min), min),
    decreases tables.len(),
{
    if tables.len() > 0 {
        lemma_table_results_pass(source, tables.drop_last(), min);
    }
}

/// The tables that can hold a match: all but the first, which shows the
/// image that was sent.
pub open spec fn match_tables(tables: Seq<usize>) -> Seq<usize> {
    if tables.len() <= 1 {
        Seq::empty()
    } else {
        tables.skip(1)
    }
}

/// What a results page gives under the threshold `min`: `Extraction` where
/// the page has no results container, and else the results of the tables
/// that can hold a match.
pub open spec fn page_outcome(body: Seq<char>, min: Option<nat>) -> Result<
    Seq<SearchResultView>,
    ErrorView,
> {
    if selected(body, "#pages"@).len() == 0 {
        Err(failure(ErrorKind::Extraction))
    } else {
        Ok(table_results(body, match_tables(selected(body, "#pages > div > table"@)), min))
    }
}

/// Reads the score of a similarity cell.
fn read_score(cell: &Option<String>) -> (r: Option<Similarity>)
    ensures
        opt_score(r) == cell_score(opt_text(*cell)),
{
    match cell {
        Some(text) => {
            let chars = chars_of(text.as_str());
            let suffix = chars_of("% similarity");
            if ends_with(&chars, &suffix) {
                let number = slice(&chars, 0, chars.len() - suffix.len());
                Similarity::parse_percent(string_from_chars(&number).as_str())
            } else {
                None
            }
        },
        None => None,
    }
}

/// The result for one table with the link `href`.
pub fn table_entry(
    href: &str,
    src: Option<String>,
    label: Option<String>,
    size: Option<String>,
    score: Option<String>,
    position: usize,
) -> (r: SearchResult)
    ensures
        r@ == table_view(
            href@,
            opt_text(src),
            opt_text(label),
            opt_text(size),
            opt_text(score),
            position as nat,
        ),
{
    let mut title = chars_of("[");
    push_all(&mut title, &trim(&chars_of(or_empty(label).as_str())));
    push_str(&mut title, "] ");
    push_str(&mut title, or_empty(size).as_str());
    let url = add_scheme(href.to_owned());
    let thumbnail = match src {
        Some(path) => Some(crate::text::concat("https://iqdb.org", path.as_str())),
        None => None,
    };
    SearchResult {
        title: Some(string_from_chars(&title)),
        url,
        thumbnail,
        similarity: read_score(&score),
        source: "IQDB".to_owned(),
        index: Some(usize_text(position)),
        additional_info: Some(AdditionalInfo::default()),
    }
}

/// The engine for the table-of-tables site.
#[derive(Debug, Clone, Copy, PartialEq, Eq, Structural)]
pub struct Iqdb {}

/// Where a search stands between two round trips.
#[derive(Debug, Clone, Copy, PartialEq, Eq, Structural)]
pub enum IqdbStage {
    /// The image was sent.
    Asked,
    /// The search is over.
    Closed,
}

/// The request of a search by image URL.
pub open spec fn url_request(url: Seq<char>) -> RequestView {
    RequestView {
        method: Method::Post,
        form: seq![FormFieldView::Text { name: "url"@, value: url }],
        ..get_of("https://iqdb.org"@)
    }
}

/// The request that uploads an image.
pub open spec fn upload_request(bytes: Seq<u8>) -> RequestView {
    RequestView {
        method: Method::Post,
        form: seq![
            FormFieldView::File {
                name: "file"@,
                file_name: "image.jpg"@,
                mime: "image/jpeg"@,
                data: bytes,
            },
        ],
        ..get_of("https://iqdb.org"@)
    }
}

/// What a search in `stage` does with `response` under the threshold
/// `min`. The engine has no results page: the page URL is empty.
pub open spec fn iqdb_next(stage: IqdbStage, response: ResponseView, min: Option<nat>) -> (
    IqdbStage,
    StepView,
) {
    match stage {
        IqdbStage::Asked => (
            IqdbStage::Closed,
            closing_step(Seq::empty(), response, page_outcome(response.body, min)),
        ),
        IqdbStage::Closed => (IqdbStage::Closed, StepView::Fail(failure(ErrorKind::Extraction))),
    }
}

impl Iqdb {
    /// The engine.
    pub fn new() -> (r: Iqdb)
        ensures
            r == (Iqdb {  }),
    {
        Iqdb {  }
    }

    /// The engine's name.
    pub fn name(&self) -> (r: &'static str)
        ensures
            r@ == "IQDB"@,
    {
        "IQDB"
    }

    /// Reads the table `table` of the page `page`.
    fn read_table(
        &self,
        page: &Document,
        table: usize,
        position: usize,
    ) -> (r: Option<SearchResult>)
        ensures
            match r {
                Some(result) => table_result(page@, table, position as nat) == Some(result@),
                None => table_result(page@, table, position as nat) is None,
            },
    {
        let rows = page.select_under(table, "tr");
        if rows.len() == 0 {
            return None;
        }
        let heading = page.first_text_under(rows[0], "th");
        let skip: usize = match &heading {
            Some(text) => {
                if crate::text::same_text(text.as_str(), "No relevant matches") {
                    return None;
                }
                1
            },
            None => 0,
        };
        if rows.len() - skip < 4 {
            return None;
        }
        match page.first_attr_under(rows[skip], "td > a", "href") {
            Some(href) => {
                let label = match page.first_under(rows[skip + 1], "img") {
                    Some(image) => page.text_after(image),
                    None => None,
                };
                Some(
                    table_entry(
                        href.as_str(),
                        page.first_attr_under(rows[skip], "td > a > img", "src"),
                        label,
                        page.first_text_under(rows[skip + 2], "td"),
                        page.first_text_under(rows[skip + 3], "td"),
                        position,
                    ),
                )
            },
            None => None,
        }
    }

    /// Reads a results page: `Extraction` where the page has no results
    /// container, and else one result for each table after the first that
    /// holds a match and passes the threshold `min`.
    pub fn parse_results(&self, html: &str, min: &Option<Similarity>) -> (r: Result<
        Vec<SearchResult>,
        Error,
    >)
        ensures
            outcome_view(r) == page_outcome(html@, opt_score(*min)),
    {
        let page = Document::parse(html);
        if page.select("#pages").len() == 0 {
            return Err(extraction("the page has no results container"));
        }
        let tables = page.select("#pages > div > table");
        let mut out: Vec<SearchResult> = Vec::new();
        assert(results_view(out) =~= Seq::empty());
        if tables.len() <= 1 {
            return Ok(out);
        }
        let ghost rest = tables@.skip(1);
        let ghost floor = opt_score(*min);
        let mut i: usize = 1;
        while i < tables.len()
            invariant
                1 <= i <= tables.len(),
                page@ == html@,
                rest == tables@.skip(1),
                floor == opt_score(*min),
                results_view(out) == table_results(html@, rest.take(i - 1), floor),
                out.len() == results_view(out).len(),
            decreases tables.len() - i,
        {
            proof {
                assert(rest.take(i as int).drop_last() =~= rest.take(i - 1));
            }
            match self.read_table(&page, tables[i], out.len()) {
                Some(result) => {
                    push_if_passes(&mut out, result, min);
                },
                None => {},
            }
            i += 1;
        }
        assert(rest.take(tables.len() - 1) =~= rest);
        Ok(out)
    }

    /// Starts a search for the image at `url`.
    pub fn begin_url(&self, url: &str) -> (r: (IqdbStage, Request))
        ensures
            r.0 == IqdbStage::Asked,
            r.1@ == url_request(url@),
    {
        let mut form: Vec<FormField> = Vec::new();
        assert(form_view(form) =~= Seq::empty());
        push_field(&mut form, text_field("url", url));
        (IqdbStage::Asked, Request::post_form("https://iqdb.org".to_owned(), form))
    }

    /// Starts a search for the image `bytes`.
    pub fn begin_bytes(&self, bytes: &[u8]) -> (r: (IqdbStage, Request))
        ensures
            r.0 == IqdbStage::Asked,
            r.1@ == upload_request(bytes@),
    {
        let mut form: Vec<FormField> = Vec::new();
        assert(form_view(form) =~= Seq::empty());
        push_field(&mut form, file_field("file", "image.jpg", "image/jpeg", bytes_of(bytes)));
        (IqdbStage::Asked, Request::post_form("https://iqdb.org".to_owned(), form))
    }

    /// Starts a search for the image that `data` encodes in base64; fails
    /// with `Decode` where `data` is no base64 text.
    pub fn begin_base64(&self, data: &str) -> (r: Result<(IqdbStage, Request), Error>)
        ensures
            match r {
                Ok(started) => base64_bytes(data@) is Some && started.0 == IqdbStage::Asked
                    && started.1@ == upload_request(base64_bytes(data@)->Some_0),
                Err(e) => base64_bytes(data@) is None && e is Decode,
            },
    {
        match base64_to_bytes(data) {
            Ok(bytes) => Ok(self.begin_bytes(bytes.as_slice())),
            Err(e) => Err(e),
        }
    }

    /// Takes the response to the request of `stage` and says what the
    /// search does next.
    pub fn advance(&self, stage: IqdbStage, response: &Response, options: &SearchOptions) -> (r: (
        IqdbStage,
        Step,
    ))
        ensures
            (r.0, r.1@) == iqdb_next(stage, response@, opt_score(options.min_similarity)),
    {
        match stage {
            IqdbStage::Asked => {
                if !response.succeeded() {
                    return (IqdbStage::Closed, fail_status(response));
                }
                let outcome = self.parse_results(response.body.as_str(), &options.min_similarity);
                (IqdbStage::Closed, close(String::new(), outcome))
            },
            IqdbStage::Closed => (IqdbStage::Closed, Step::Fail(extraction("the search is over"))),
        }
    }
}

/// No result for a list of tables has a protocol-relative URL.
pub proof fn lemma_table_results_absolute(source: Seq<char>, tables: Seq<usize>, min: Option<nat>)
    ensures
        all_absolute(table_results(source, tables, min)),
    decreases tables.len(),
{
    if tables.len() > 0 {
        lemma_table_results_absolute(source, tables.drop_last(), min);
        let head = table_results(source, tables.drop_last(), min);
        match table_result(source, tables.last(), head.len()) {
            Some(result) => {
                let rows = selected_under(source, tables.last(), "tr"@);
                let skip: int = if first_text_under(source, rows[0], "th"@) is Some {
                    1
                } else {
                    0
                };
                lemma_with_scheme_absolute(
                    first_attr_under(source, rows[skip], "td > a"@, "href"@)->Some_0,
                );
            },
            None => {},
        }
    }
}

impl ImageSearch for Iqdb {
    type Stage = IqdbStage;

    open spec fn valid(stage: &IqdbStage) -> bool {
        true
    }

    open spec fn closed(stage: &IqdbStage) -> bool {
        *stage == IqdbStage::Closed
    }

    open spec fn scored() -> bool {
        true
    }

    open spec fn label() -> Seq<char> {
        "IQDB"@
    }

    open spec fn url_search(
        &self,
        url: Seq<char>,
        options: &SearchOptions,
        now: &Clock,
    ) -> RequestView {
        url_request(url)
    }

    open spec fn upload(
        &self,
        bytes: Seq<u8>,
        options: &SearchOptions,
        now: &Clock,
    ) -> RequestView {
        upload_request(bytes)
    }

    open spec fn awaits_redirect(stage: &IqdbStage) -> bool {
        false
    }

    fn name(&self) -> (r: &'static str) {
        Iqdb::name(self)
    }

    fn search_url(&self, url: &str, options: &SearchOptions, now: &Clock) -> (r: (
        IqdbStage,
        Request,
    ))
        ensures
            r.0 == IqdbStage::Asked,
    {
        self.begin_url(url)
    }

    fn search_bytes(&self, bytes: &[u8], options: &SearchOptions, now: &Clock) -> (r: (
        IqdbStage,
        Request,
    ))
        ensures
            r.0 == IqdbStage::Asked,
    {
        self.begin_bytes(bytes)
    }

    fn resume(
        &self,
        stage: IqdbStage,
        response: &Response,
        options: &SearchOptions,
        now: &Clock,
    ) -> (r: (IqdbStage, Step))
        ensures
            (r.0, r.1@) == iqdb_next(stage, response@, opt_score(options.min_similarity)),
    {
        proof {
            let tables = match_tables(selected(response.body@, "#pages > div > table"@));
            let min = opt_score(options.min_similarity);
            lemma_table_results_absolute(response.body@, tables, min);
            lemma_table_results_pass(response.body@, tables, min);
        }
        self.advance(stage, response, options)
    }
}

} // verus!
