//! What the host hands over of an incoming request.

use crate::dict::Dict;
use crate::method::Method;
use vstd::prelude::*;

verus! {

/// A file sent as a form field. Only its description is kept; no handler
/// looks at what it holds.
#[derive(Clone, Debug, PartialEq, Eq)]
pub struct Attachment {
    pub name: String,
    pub size: u64,
}

/// The value of one form field.
#[derive(Clone, Debug, PartialEq, Eq)]
pub enum FormEntry {
    /// A plain value.
    Field(String),
    /// An uploaded file.
    File(Attachment),
}

/// A form field as contracts see it.
pub enum FormEntryView {
    Field(Seq<char>),
    File { name: Seq<char>, size: u64 },
}

impl View for FormEntry {
    type V = FormEntryView;

    open spec fn view(&self) -> FormEntryView {
        match self {
            FormEntry::Field(value) => FormEntryView::Field(value@),
            FormEntry::File(file) => FormEntryView::File { name: file.name@, size: file.size },
        }
    }
}

/// Query parameters and bound route parameters: text under names.
pub type Params = Dict<String>;

/// The fields of a form body.
pub type Form = Dict<FormEntry>;

/// An incoming request. Handlers only read it.
#[derive(Clone, Debug, PartialEq, Eq)]
pub struct Request {
    pub method: Method,
    /// The path of the request URL, starting with `/`.
    pub path: String,
    /// The parameters of the query string, decoded, in the order of the URL.
    pub query: Params,
    /// The fields of the body where it could be read as a form, else `None`.
    pub form: Option<Form>,
}

/// A request as contracts see it.
pub struct RequestView {
    pub method: Method,
    pub path: Seq<char>,
    pub query: Map<Seq<char>, Seq<char>>,
    pub form: Option<Map<Seq<char>, FormEntryView>>,
}

impl View for Request {
    type V = RequestView;

    open spec fn view(&self) -> RequestView {
        RequestView {
            method: self.method,
            path: self.path@,
            query: self.query@,
            form: match self.form {
                Some(form) => Some(form@),
                None => None,
            },
        }
    }
}

impl Request {
    /// A request without query parameters and without a readable form.
    pub fn new(method: Method, path: &str) -> (r: Request)
        ensures
            r@ == (RequestView {
                method,
                path: path@,
                query: Map::empty(),
                form: None,
            }),
    {
        Request { method, path: path.to_owned(), query: Dict::new(), form: None }
    }

    /// The request with one more query parameter behind the others.
    pub fn with_query(self, key: &str, value: &str) -> (r: Request)
        ensures
            r@ == (RequestView { query: self@.query.insert(key@, value@), ..self@ }),
    {
        let Request { method, path, query, form } = self;
        Request { method, path, query: query.with(key, value.to_owned()), form }
    }

    /// The request with `form` as the fields of its body.
    pub fn with_form(self, form: Form) -> (r: Request)
        ensures
            r@ == (RequestView { form: Some(form@), ..self@ }),
    {
        let Request { method, path, query, form: _ } = self;
        Request { method, path, query, form: Some(form) }
    }
}

} // verus!
