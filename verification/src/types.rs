//! The result schema that every engine fills in, and the caller's options.

use vstd::prelude::*;
use crate::numeric::{at_most, parse_scaled, parsed_scaled};
use crate::text::{chars_of, decimal, decimal_chars, digit_char, digit_of, string_from_chars};

verus! {

/// A similarity score: a percentage between 0 and 100, held in hundredths
/// of a percent.
#[derive(Debug, Clone, Copy, PartialEq, Eq)]
pub struct Similarity {
    hundredths: u32,
}

/// The score that a decimal text denotes, in hundredths of a percent, where
/// one unit of the text is ten to the `places` hundredths: negative numbers
/// count as 0, numbers above 100 percent as 100 percent.
pub open spec fn score_of(text: Seq<char>, places: nat) -> Option<nat> {
    match parsed_scaled(text, places, 10_000) {
        Some((negative, magnitude)) => Some(
            if negative {
                0
            } else {
                magnitude as nat
            },
        ),
        None => None,
    }
}

/// How a score of `h` hundredths of a percent is written: the whole
/// percents, then the hundredths without trailing zeros.
pub open spec fn score_text(h: nat) -> Seq<char> {
    if h % 100 == 0 {
        decimal(h / 100)
    } else if h % 10 == 0 {
        decimal(h / 100) + seq!['.', digit_char((h / 10) % 10)]
    } else {
        decimal(h / 100) + seq!['.', digit_char((h / 10) % 10), digit_char(h % 10)]
    }
}

impl Similarity {
    #[verifier::type_invariant]
    spec fn in_range(self) -> bool {
        self.hundredths <= 10_000
    }

    /// The score in hundredths of a percent.
    pub closed spec fn value(self) -> nat {
        at_most(self.hundredths as nat, 10_000)
    }

    /// Every score lies between 0 and 100 percent.
    pub proof fn lemma_in_range(self)
        ensures
            0 <= self.value() <= 10_000,
    {
    }

    /// The score of `hundredths` hundredths of a percent, capped at 100
    /// percent.
    pub fn from_hundredths(hundredths: u32) -> (r: Similarity)
        ensures
            r.value() == at_most(hundredths as nat, 10_000),
    {
        if hundredths <= 10_000 {
            Similarity { hundredths }
        } else {
            Similarity { hundredths: 10_000 }
        }
    }

    /// A full match: 100 percent.
    pub fn full() -> (r: Similarity)
        ensures
            r.value() == 10_000,
    {
        Similarity { hundredths: 10_000 }
    }

    /// The score in hundredths of a percent.
    pub fn hundredths(&self) -> (h: u32)
        ensures
            h == self.value(),
            h <= 10_000,
    {
        proof {
            use_type_invariant(self);
        }
        self.hundredths
    }

    /// Reads a score that the upstream reports on the scale 0 to 100.
    pub fn parse_percent(text: &str) -> (r: Option<Similarity>)
        ensures
            r is Some <==> score_of(text@, 2) is Some,
            r is Some ==> Some(r->Some_0.value()) == score_of(text@, 2),
    {
        Self::parse_with_places(text, 2)
    }

    /// Reads a score that the upstream reports on the scale 0 to 1 and
    /// brings it to the scale 0 to 100.
    pub fn parse_fraction(text: &str) -> (r: Option<Similarity>)
        ensures
            r is Some <==> score_of(text@, 4) is Some,
            r is Some ==> Some(r->Some_0.value()) == score_of(text@, 4),
    {
        Self::parse_with_places(text, 4)
    }

    fn parse_with_places(text: &str, places: usize) -> (r: Option<Similarity>)
        ensures
            r is Some <==> score_of(text@, places as nat) is Some,
            r is Some ==> Some(r->Some_0.value()) == score_of(text@, places as nat),
    {
        let chars = chars_of(text);
        match parse_scaled(&chars, places, 10_000) {
            Some((negative, magnitude)) => {
                if negative {
                    Some(Similarity { hundredths: 0 })
                } else {
                    Some(Similarity { hundredths: magnitude as u32 })
                }
            },
            None => None,
        }
    }

    /// Whether this score reaches the threshold `min`.
    pub fn meets(&self, min: &Similarity) -> (r: bool)
        ensures
            r == (self.value() >= min.value()),
    {
        proof {
            use_type_invariant(self);
            use_type_invariant(min);
        }
        self.hundredths >= min.hundredths
    }

    /// The score as text, in percent.
    pub fn to_text(&self) -> (r: String)
        ensures
            r@ == score_text(self.value()),
    {
        proof {
            use_type_invariant(self);
        }
        let h: u32 = self.hundredths;
        let mut out = decimal_chars((h / 100) as u128);
        if h % 100 != 0 {
            out.push('.');
            out.push(digit_of(((h / 10) % 10) as u8));
            if h % 10 != 0 {
                out.push(digit_of((h % 10) as u8));
            }
        }
        string_from_chars(&out)
    }
}

/// The view of an optional string.
pub open spec fn opt_text(o: Option<String>) -> Option<Seq<char>> {
    match o {
        Some(s) => Some(s@),
        None => None,
    }
}

/// The value of an optional score.
pub open spec fn opt_score(o: Option<Similarity>) -> Option<nat> {
    match o {
        Some(s) => Some(s.value()),
        None => None,
    }
}

/// The text of an optional string, or the empty text.
pub open spec fn text_or_empty(o: Option<Seq<char>>) -> Seq<char> {
    match o {
        Some(s) => s,
        None => Seq::empty(),
    }
}

/// The views of a list of strings.
pub open spec fn texts(v: Vec<String>) -> Seq<Seq<char>> {
    v@.map_values(|s: String| s@)
}

/// Secondary, engine-dependent metadata of a result.
#[derive(Debug, Clone)]
pub struct AdditionalInfo {
    pub author: Option<String>,
    pub author_url: Option<String>,
    pub source_url: Option<String>,
    pub created_at: Option<String>,
    pub tags: Vec<String>,
    pub size: Option<(u32, u32)>,
    pub ext_urls: Vec<String>,
}

/// What an `AdditionalInfo` holds.
pub ghost struct AdditionalInfoView {
    pub author: Option<Seq<char>>,
    pub author_url: Option<Seq<char>>,
    pub source_url: Option<Seq<char>>,
    pub created_at: Option<Seq<char>>,
    pub tags: Seq<Seq<char>>,
    pub size: Option<(u32, u32)>,
    pub ext_urls: Seq<Seq<char>>,
}

/// The metadata with nothing in it.
pub open spec fn empty_info() -> AdditionalInfoView {
    AdditionalInfoView {
        author: None,
        author_url: None,
        source_url: None,
        created_at: None,
        tags: Seq::empty(),
        size: None,
        ext_urls: Seq::empty(),
    }
}

impl View for AdditionalInfo {
    type V = AdditionalInfoView;

    open spec fn view(&self) -> AdditionalInfoView {
        AdditionalInfoView {
            author: opt_text(self.author),
            author_url: opt_text(self.author_url),
            source_url: opt_text(self.source_url),
            created_at: opt_text(self.created_at),
            tags: texts(self.tags),
            size: self.size,
            ext_urls: texts(self.ext_urls),
        }
    }
}

impl Default for AdditionalInfo {
    fn default() -> (r: AdditionalInfo)
        ensures
            r@ == empty_info(),
    {
        let r = AdditionalInfo {
            author: None,
            author_url: None,
            source_url: None,
            created_at: None,
            tags: Vec::new(),
            size: None,
            ext_urls: Vec::new(),
        };
        assert(texts(r.tags) =~= Seq::empty());
        r
    }
}

/// One candidate match.
#[derive(Debug, Clone)]
pub struct SearchResult {
    pub title: Option<String>,
    pub url: String,
    pub thumbnail: Option<String>,
    pub similarity: Option<Similarity>,
    pub source: String,
    pub index: Option<String>,
    pub additional_info: Option<AdditionalInfo>,
}

/// What a `SearchResult` holds; the similarity in hundredths of a percent.
pub ghost struct SearchResultView {
    pub title: Option<Seq<char>>,
    pub url: Seq<char>,
    pub thumbnail: Option<Seq<char>>,
    pub similarity: Option<nat>,
    pub source: Seq<char>,
    pub index: Option<Seq<char>>,
    pub additional_info: Option<AdditionalInfoView>,
}

impl View for SearchResult {
    type V = SearchResultView;

    open spec fn view(&self) -> SearchResultView {
        SearchResultView {
            title: opt_text(self.title),
            url: self.url@,
            thumbnail: opt_text(self.thumbnail),
            similarity: opt_score(self.similarity),
            source: self.source@,
            index: opt_text(self.index),
            additional_info: match self.additional_info {
                Some(info) => Some(info@),
                None => None,
            },
        }
    }
}

/// The string of an optional string, or the empty string.
pub fn or_empty(o: Option<String>) -> (r: String)
    ensures
        r@ == text_or_empty(opt_text(o)),
{
    match o {
        Some(s) => s,
        None => String::new(),
    }
}

/// The score of a result, where it has one, lies between 0 and 100
/// percent.
pub proof fn lemma_score_in_range(result: SearchResult)
    ensures
        result@.similarity is Some ==> 0 <= result@.similarity->Some_0 <= 10_000,
{
    if result.similarity is Some {
        result.similarity->Some_0.lemma_in_range();
    }
}

/// The views of a list of results.
pub open spec fn results_view(v: Vec<SearchResult>) -> Seq<SearchResultView> {
    v@.map_values(|r: SearchResult| r@)
}

/// The engines that this schema knows by name.
#[derive(Debug, Clone, Copy, PartialEq, Eq, Structural)]
pub enum SearchEngine {
    Ascii2d,
    Baidu,
    Bing,
    EHentai,
    Google,
    Iqdb,
    SauceNao,
    Tineye,
    TraceMoe,
    Yandex,
}

impl SearchEngine {
    /// The display name of the engine.
    pub open spec fn spec_name(&self) -> Seq<char> {
        match *self {
            SearchEngine::Ascii2d => "Ascii2d"@,
            SearchEngine::Baidu => "Baidu"@,
            SearchEngine::Bing => "Bing"@,
            SearchEngine::EHentai => "E-Hentai"@,
            SearchEngine::Google => "Google"@,
            SearchEngine::Iqdb => "IQDB"@,
            SearchEngine::SauceNao => "SauceNAO"@,
            SearchEngine::Tineye => "TinEye"@,
            SearchEngine::TraceMoe => "TraceMoe"@,
            SearchEngine::Yandex => "Yandex"@,
        }
    }

    /// The display name of the engine.
    pub fn name(&self) -> (r: &'static str)
        ensures
            r@ == self.spec_name(),
    {
        match self {
            SearchEngine::Ascii2d => "Ascii2d",
            SearchEngine::Baidu => "Baidu",
            SearchEngine::Bing => "Bing",
            SearchEngine::EHentai => "E-Hentai",
            SearchEngine::Google => "Google",
            SearchEngine::Iqdb => "IQDB",
            SearchEngine::SauceNao => "SauceNAO",
            SearchEngine::Tineye => "TinEye",
            SearchEngine::TraceMoe => "TraceMoe",
            SearchEngine::Yandex => "Yandex",
        }
    }
}

/// What the caller asks of a search.
#[derive(Debug, Clone)]
pub struct SearchOptions {
    /// Outbound proxy for the transport.
    pub proxy: Option<String>,
    /// Timeout in seconds for the transport.
    pub timeout: Option<u64>,
    /// Results that score below this are dropped.
    pub min_similarity: Option<Similarity>,
    /// Accepted and reserved; no engine enforces it.
    pub hide_explicit: bool,
}

impl Default for SearchOptions {
    fn default() -> (r: SearchOptions)
        ensures
            r.proxy is None,
            r.timeout is None,
            r.min_similarity is Some,
            r.min_similarity->Some_0.value() == 5_000,
            !r.hide_explicit,
    {
        SearchOptions {
            proxy: None,
            timeout: None,
            min_similarity: Some(Similarity::from_hundredths(5_000)),
            hide_explicit: false,
        }
    }
}

/// Appends one string to a list of strings.
pub fn push_text(out: &mut Vec<String>, s: String)
    ensures
        texts(*final(out)) == texts(*old(out)).push(s@),
{
    out.push(s);
}

/// Appends one result to a list of results.
pub fn push_result(out: &mut Vec<SearchResult>, result: SearchResult)
    ensures
        results_view(*final(out)) == results_view(*old(out)).push(result@),
{
    out.push(result);
}

/// A result passes the threshold `min`: it has no score, there is no
/// threshold, or its score reaches the threshold.
pub open spec fn passes(result: SearchResultView, min: Option<nat>) -> bool {
    match (result.similarity, min) {
        (Some(score), Some(least)) => score >= least,
        _ => true,
    }
}

/// The results among `all` that pass the threshold `min`, in order.
pub open spec fn passing(all: Seq<SearchResultView>, min: Option<nat>) -> Seq<SearchResultView>
    decreases all.len(),
{
    if all.len() == 0 {
        Seq::empty()
    } else if passes(all.last(), min) {
        passing(all.drop_last(), min).push(all.last())
    } else {
        passing(all.drop_last(), min)
    }
}

/// Every result of `results` passes the threshold `min`: none that has a
/// score scores below it.
pub open spec fn all_pass(results: Seq<SearchResultView>, min: Option<nat>) -> bool {
    forall|i: int| 0 <= i < results.len() ==> passes(#[trigger] results[i], min)
}

/// No result of `results` has a protocol-relative URL.
pub open spec fn all_absolute(results: Seq<SearchResultView>) -> bool {
    forall|i: int|
        0 <= i < results.len() ==> !crate::utils::is_relative((#[trigger] results[i]).url)
}

/// What is kept of results without protocol-relative URLs has none.
pub proof fn lemma_passing_absolute(all: Seq<SearchResultView>, min: Option<nat>)
    requires
        all_absolute(all),
    ensures
        all_absolute(passing(all, min)),
    decreases all.len(),
{
    if all.len() > 0 {
        assert(all_absolute(all.drop_last())) by {
            assert forall|i: int| 0 <= i < all.drop_last().len() implies !crate::utils::is_relative(
                (#[trigger] all.drop_last()[i]).url,
            ) by {
            }
        }
        lemma_passing_absolute(all.drop_last(), min);
    }
}

/// No result that is kept scores below the threshold.
pub proof fn lemma_passing_meets_threshold(all: Seq<SearchResultView>, min: Option<nat>)
    ensures
        all_pass(passing(all, min), min),
        passing(all, min).len() <= all.len(),
    decreases all.len(),
{
    if all.len() > 0 {
        lemma_passing_meets_threshold(all.drop_last(), min);
    }
}

/// Without a threshold every result is kept.
pub proof fn lemma_passing_without_threshold(all: Seq<SearchResultView>)
    ensures
        passing(all, None) == all,
    decreases all.len(),
{
    if all.len() > 0 {
        lemma_passing_without_threshold(all.drop_last());
    }
}

/// What is kept of `all` followed by `result`.
pub proof fn lemma_passing_push(
    all: Seq<SearchResultView>,
    result: SearchResultView,
    min: Option<nat>,
)
    ensures
        passing(all.push(result), min) == if passes(result, min) {
            passing(all, min).push(result)
        } else {
            passing(all, min)
        },
{
    assert(all.push(result).drop_last() =~= all);
}

/// Whether `result` passes the threshold `min`.
pub fn result_passes(result: &SearchResult, min: &Option<Similarity>) -> (r: bool)
    ensures
        r == passes(result@, opt_score(*min)),
{
    match (&result.similarity, min) {
        (Some(score), Some(least)) => score.meets(least),
        _ => true,
    }
}

/// Appends `result` to `out` where it passes the threshold `min`, and
/// drops it where it does not.
pub fn push_if_passes(out: &mut Vec<SearchResult>, result: SearchResult, min: &Option<Similarity>)
    ensures
        results_view(*final(out)) == if passes(result@, opt_score(*min)) {
            results_view(*old(out)).push(result@)
        } else {
            results_view(*old(out))
        },
{
    if result_passes(&result, min) {
        push_result(out, result);
    }
}

} // verus!
