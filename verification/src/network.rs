//! Plain values for one HTTP round trip. The transport itself is the
//! caller's: the library builds requests and reads responses.

use vstd::prelude::*;
use crate::error::{status_error, Error};
use crate::types::opt_text;

verus! {

/// The HTTP method of a request.
#[derive(Debug, Clone, Copy, PartialEq, Eq, Structural)]
pub enum Method {
    Get,
    Post,
}

/// One part of a multipart form.
#[derive(Debug)]
pub enum FormField {
    /// A text field.
    Text { name: String, value: String },
    /// A file upload.
    File { name: String, file_name: String, mime: String, data: Vec<u8> },
}

/// What a form field holds.
pub ghost enum FormFieldView {
    Text { name: Seq<char>, value: Seq<char> },
    File { name: Seq<char>, file_name: Seq<char>, mime: Seq<char>, data: Seq<u8> },
}

impl View for FormField {
    type V = FormFieldView;

    open spec fn view(&self) -> FormFieldView {
        match *self {
            FormField::Text { name, value } => FormFieldView::Text { name: name@, value: value@ },
            FormField::File { name, file_name, mime, data } => FormFieldView::File {
                name: name@,
                file_name: file_name@,
                mime: mime@,
                data: data@,
            },
        }
    }
}

/// The views of a list of name-value pairs.
pub open spec fn pairs_view(v: Vec<(String, String)>) -> Seq<(Seq<char>, Seq<char>)> {
    v@.map_values(|p: (String, String)| (p.0@, p.1@))
}

/// The views of a list of form fields.
pub open spec fn form_view(v: Vec<FormField>) -> Seq<FormFieldView> {
    v@.map_values(|f: FormField| f@)
}

/// One HTTP request for the transport to issue.
#[derive(Debug)]
pub struct Request {
    pub method: Method,
    /// The URL, without the pairs of `query`.
    pub url: String,
    /// Pairs for the transport to append to the URL's query, encoded.
    pub query: Vec<(String, String)>,
    /// Headers beyond those of the client.
    pub headers: Vec<(String, String)>,
    /// The parts of a multipart body; empty for a request without body.
    pub form: Vec<FormField>,
    /// Whether the transport follows redirects or hands back the 3xx.
    pub follow_redirects: bool,
}

/// What a request holds.
pub ghost struct RequestView {
    pub method: Method,
    pub url: Seq<char>,
    pub query: Seq<(Seq<char>, Seq<char>)>,
    pub headers: Seq<(Seq<char>, Seq<char>)>,
    pub form: Seq<FormFieldView>,
    pub follow_redirects: bool,
}

impl View for Request {
    type V = RequestView;

    open spec fn view(&self) -> RequestView {
        RequestView {
            method: self.method,
            url: self.url@,
            query: pairs_view(self.query),
            headers: pairs_view(self.headers),
            form: form_view(self.form),
            follow_redirects: self.follow_redirects,
        }
    }
}

/// A plain `GET` of `url` that follows redirects.
pub open spec fn get_of(url: Seq<char>) -> RequestView {
    RequestView {
        method: Method::Get,
        url,
        query: Seq::empty(),
        headers: Seq::empty(),
        form: Seq::empty(),
        follow_redirects: true,
    }
}

impl Request {
    /// A plain `GET` of `url` that follows redirects.
    pub fn get(url: String) -> (r: Request)
        ensures
            r@ == get_of(url@),
    {
        let r = Request {
            method: Method::Get,
            url,
            query: Vec::new(),
            headers: Vec::new(),
            form: Vec::new(),
            follow_redirects: true,
        };
        assert(pairs_view(r.query) =~= Seq::empty());
        assert(form_view(r.form) =~= Seq::empty());
        r
    }

    /// A multipart `POST` to `url` that follows redirects.
    pub fn post_form(url: String, form: Vec<FormField>) -> (r: Request)
        ensures
            r@ == (RequestView { method: Method::Post, form: form_view(form), ..get_of(url@) }),
    {
        let r = Request {
            method: Method::Post,
            url,
            query: Vec::new(),
            headers: Vec::new(),
            form,
            follow_redirects: true,
        };
        assert(pairs_view(r.query) =~= Seq::empty());
        r
    }
}

/// What came back from one round trip.
#[derive(Debug)]
pub struct Response {
    pub status: u16,
    /// The URL that answered, after redirects.
    pub url: String,
    /// The `Location` header, if there is one.
    pub location: Option<String>,
    /// The body as text.
    pub body: String,
    /// The body as bytes.
    pub data: Vec<u8>,
}

/// What a response holds.
pub ghost struct ResponseView {
    pub status: u16,
    pub url: Seq<char>,
    pub location: Option<Seq<char>>,
    pub body: Seq<char>,
    pub data: Seq<u8>,
}

impl View for Response {
    type V = ResponseView;

    open spec fn view(&self) -> ResponseView {
        ResponseView {
            status: self.status,
            url: self.url@,
            location: opt_text(self.location),
            body: self.body@,
            data: self.data@,
        }
    }
}

/// A name-value pair.
pub fn pair(name: &str, value: &str) -> (r: (String, String))
    ensures
        r.0@ == name@,
        r.1@ == value@,
{
    (name.to_owned(), value.to_owned())
}

/// Appends the pair of `name` and `value` to `pairs`.
pub fn push_pair(pairs: &mut Vec<(String, String)>, name: &str, value: &str)
    ensures
        pairs_view(*final(pairs)) == pairs_view(*old(pairs)).push((name@, value@)),
{
    pairs.push(pair(name, value));
}

/// Appends `field` to `form`.
pub fn push_field(form: &mut Vec<FormField>, field: FormField)
    ensures
        form_view(*final(form)) == form_view(*old(form)).push(field@),
{
    form.push(field);
}

/// A text field of a form.
pub fn text_field(name: &str, value: &str) -> (r: FormField)
    ensures
        r@ == (FormFieldView::Text { name: name@, value: value@ }),
{
    FormField::Text { name: name.to_owned(), value: value.to_owned() }
}

/// A file field of a form.
pub fn file_field(name: &str, file_name: &str, mime: &str, data: Vec<u8>) -> (r: FormField)
    ensures
        r@ == (FormFieldView::File {
            name: name@,
            file_name: file_name@,
            mime: mime@,
            data: data@,
        }),
{
    FormField::File {
        name: name.to_owned(),
        file_name: file_name.to_owned(),
        mime: mime.to_owned(),
        data,
    }
}

/// A copy of a byte slice.
pub fn bytes_of(bytes: &[u8]) -> (r: Vec<u8>)
    ensures
        r@ == bytes@,
{
    let mut out: Vec<u8> = Vec::new();
    let mut i: usize = 0;
    while i < bytes.len()
        invariant
            i <= bytes.len(),
            out@ == bytes@.take(i as int),
        decreases bytes.len() - i,
    {
        out.push(bytes[i]);
        i += 1;
    }
    out
}

/// A status in 200..=299.
pub open spec fn is_success(status: u16) -> bool {
    200 <= status && status <= 299
}

impl Response {
    /// Whether the status is in 200..=299.
    pub fn succeeded(&self) -> (r: bool)
        ensures
            r == is_success(self.status),
    {
        200 <= self.status && self.status <= 299
    }

    /// The error for a response that did not succeed: its status and body.
    pub fn status_error(&self) -> (e: Error)
        ensures
            e@ == status_error(self.status, self.body@),
    {
        Error::HttpStatus { status: self.status, body: Some(self.body.clone()) }
    }

    /// Passes a response that succeeded; any other status is an error that
    /// carries the status and the body.
    pub fn check(&self) -> (r: Result<(), Error>)
        ensures
            r is Ok <==> is_success(self.status),
            r is Err ==> r->Err_0@ == status_error(self.status, self.body@),
    {
        if self.succeeded() {
            Ok(())
        } else {
            Err(self.status_error())
        }
    }
}

} // verus!
