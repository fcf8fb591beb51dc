//! The engines. Each one builds the requests of its protocol and turns the
//! responses into results; the caller's transport carries them out.

use vstd::prelude::*;
use crate::error::{status_error, Error, ErrorView};
use crate::network::{is_success, Request, RequestView, Response, ResponseView};
use crate::types::{
    all_absolute, all_pass, opt_score, results_view, SearchOptions, SearchResult,
    SearchResultView,
};
use crate::utils::{base64_bytes, base64_to_bytes};

pub mod ascii2d;
pub mod google;
pub mod google_lens;
pub mod iqdb;
pub mod saucenao;
pub mod soutubot;
pub mod yandex;

verus! {

/// What a search does next.
#[derive(Debug)]
pub enum Step {
    /// Issue this request and hand back the response.
    Send(Request),
    /// The search is over: the results page URL (empty where the engine
    /// has none) and the results.
    Done(String, Vec<SearchResult>),
    /// The search failed.
    Fail(Error),
}

/// An `Extraction` error with the message `what`.
pub fn extraction(what: &str) -> (e: Error)
    ensures
        e is Extraction,
        e->Extraction_0@ == what@,
{
    Error::Extraction(what.to_owned())
}

/// What a step holds.
pub ghost enum StepView {
    Send(RequestView),
    Done(Seq<char>, Seq<SearchResultView>),
    Fail(ErrorView),
}

impl View for Step {
    type V = StepView;

    open spec fn view(&self) -> StepView {
        match *self {
            Step::Send(request) => StepView::Send(request@),
            Step::Done(page_url, results) => StepView::Done(page_url@, results_view(results)),
            Step::Fail(e) => StepView::Fail(e@),
        }
    }
}

/// The outcome of reading a response body, with the results and the error
/// each by what the contracts speak of.
pub open spec fn outcome_view(r: Result<Vec<SearchResult>, Error>) -> Result<
    Seq<SearchResultView>,
    ErrorView,
> {
    match r {
        Ok(results) => Ok(results_view(results)),
        Err(e) => Err(e@),
    }
}

/// The step that fails with the status and body of a response that did
/// not succeed.
pub open spec fn status_failure(response: ResponseView) -> StepView {
    StepView::Fail(status_error(response.status, response.body))
}

/// The last step of a search: a failure for a response that did not
/// succeed, else what reading the body gave, under the page URL.
pub open spec fn closing_step(
    page_url: Seq<char>,
    response: ResponseView,
    outcome: Result<Seq<SearchResultView>, ErrorView>,
) -> StepView {
    if !is_success(response.status) {
        status_failure(response)
    } else {
        match outcome {
            Ok(results) => StepView::Done(page_url, results),
            Err(error) => StepView::Fail(error),
        }
    }
}

/// The step that ends a search with what reading the body gave.
pub fn close(page_url: String, outcome: Result<Vec<SearchResult>, Error>) -> (r: Step)
    ensures
        r@ == (match outcome_view(outcome) {
            Ok(results) => StepView::Done(page_url@, results),
            Err(error) => StepView::Fail(error),
        }),
{
    match outcome {
        Ok(results) => Step::Done(page_url, results),
        Err(e) => Step::Fail(e),
    }
}

/// The step that fails with the status and body of `response`.
pub fn fail_status(response: &Response) -> (r: Step)
    ensures
        r@ == status_failure(response@),
{
    Step::Fail(response.status_error())
}

/// The time of a call, as the caller's clock gives it.
#[derive(Debug, Clone, Copy, PartialEq, Eq, Structural)]
pub struct Clock {
    /// Seconds since the epoch, rounded.
    pub secs: u64,
    /// Milliseconds since the epoch.
    pub millis: u64,
}

/// What every engine offers: a search starts with a request and goes on,
/// response by response, until it is done or has failed. The caller's
/// transport carries the requests out.
///
/// An engine takes the image by URL or as bytes. The image in base64 is
/// decoded and taken as bytes, unless the engine has a way of its own.
pub trait ImageSearch {
    /// Where a search stands between two round trips.
    type Stage;

    /// The stage is one that a search of this engine reaches.
    spec fn valid(stage: &Self::Stage) -> bool;

    /// The search is over: no response is waited for.
    spec fn closed(stage: &Self::Stage) -> bool;

    /// The search waits for a redirect, which it follows by itself.
    spec fn awaits_redirect(stage: &Self::Stage) -> bool;

    /// The engine's upstream reports a similarity score for its matches.
    spec fn scored() -> bool;

    /// The engine's name.
    spec fn label() -> Seq<char>;

    /// The first request of a search for the image at `url`.
    spec fn url_search(&self, url: Seq<char>, options: &SearchOptions, now: &Clock) -> RequestView;

    /// The first request of a search for the image `bytes`.
    spec fn upload(&self, bytes: Seq<u8>, options: &SearchOptions, now: &Clock) -> RequestView;

    /// The engine's name.
    fn name(&self) -> (r: &'static str)
        ensures
            r@ == Self::label(),
    ;

    /// Starts a search for the image at `url`.
    fn search_url(&self, url: &str, options: &SearchOptions, now: &Clock) -> (r: (
        Self::Stage,
        Request,
    ))
        ensures
            r.1@ == self.url_search(url@, options, now),
            Self::valid(&r.0),
            !Self::closed(&r.0),
    ;

    /// Starts a search for the image `bytes`.
    fn search_bytes(&self, bytes: &[u8], options: &SearchOptions, now: &Clock) -> (r: (
        Self::Stage,
        Request,
    ))
        ensures
            r.1@ == self.upload(bytes@, options, now),
            Self::valid(&r.0),
            !Self::closed(&r.0),
    ;

    /// Starts a search for the image that `data` encodes in base64. An
    /// engine without a way of its own decodes the image and takes it as
    /// bytes; it fails with `Decode` exactly where `data` is no base64
    /// text.
    fn search_base64(&self, data: &str, options: &SearchOptions, now: &Clock) -> (r: Result<
        (Self::Stage, Request),
        Error,
    >)
        ensures
            r is Ok ==> Self::valid(&r->Ok_0.0) && !Self::closed(&r->Ok_0.0),
            r is Err ==> r->Err_0 is Decode,
        default_ensures
            r is Ok <==> base64_bytes(data@) is Some,
            r is Ok ==> r->Ok_0.1@ == self.upload(base64_bytes(data@)->Some_0, options, now),
    {
        match base64_to_bytes(data) {
            Ok(bytes) => Ok(self.search_bytes(bytes.as_slice(), options, now)),
            Err(e) => Err(e),
        }
    }

    /// Takes the response to the request that a search in `stage` waits
    /// for, and says what the search does next.
    ///
    /// A response whose status is outside 200..=299 ends the search with
    /// `HttpStatus` and that status; the one exception is the status 302
    /// where the search waits for a redirect. A search that is done or
    /// has failed is over. Where the upstream reports scores, no result of
    /// a search that is done scores below the caller's threshold. No
    /// result of a search that went through the stages of this engine has
    /// a protocol-relative URL.
    fn resume(
        &self,
        stage: Self::Stage,
        response: &Response,
        options: &SearchOptions,
        now: &Clock,
    ) -> (r: (Self::Stage, Step))
        ensures
            Self::closed(&stage) ==> r.1 is Fail,
            !Self::closed(&stage) && !is_success(response.status) && !(Self::awaits_redirect(&stage)
                && response.status == 302) ==> r.1@ == status_failure(response@),
            !(r.1 is Send) ==> Self::closed(&r.0),
            r.1 is Send ==> !Self::closed(&r.0),
            Self::scored() && r.1 is Done ==> all_pass(
                r.1@->Done_1,
                opt_score(options.min_similarity),
            ),
            Self::valid(&stage) ==> Self::valid(&r.0),
            Self::valid(&stage) && r.1 is Done ==> all_absolute(r.1@->Done_1),
    ;
}

} // verus!
