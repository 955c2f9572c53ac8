//! The envelope that every answer of the service is sent in.

use vstd::prelude::*;
use crate::errors::AppError;

verus! {

/// A link that tells the caller where to go from an answer.
#[derive(Debug, Clone, PartialEq, Eq)]
pub struct ResponseLink {
    pub rel: String,
    pub href: String,
    pub method: String,
}

/// `String::from` of a string slice: an owned copy of the text.
pub assume_specification<'a>[ <String as From<&'a str>>::from ](text: &str) -> (owned: String)
    ensures
        owned@ == text@,
;

/// `From::from` of a value to its own type: the value itself.
pub assume_specification<X>[ <X as From<X>>::from ](value: X) -> (same: X)
    ensures
        same == value,
;

/// `text` is what `given` reads as once it is turned into a `String`.
pub open spec fn reads_as<S: Into<String>>(given: S, text: Seq<char>) -> bool {
    exists|owned: String|
        #[trigger] call_ensures(<S as Into<String>>::into, (given,), owned) && owned@ == text
}

impl ResponseLink {
    /// A link of the relation `rel` to `href`, to be followed with `method`.
    pub fn new<S: Into<String>>(rel: S, href: S, method: S) -> (link: ResponseLink)
        ensures
            reads_as(rel, link.rel@),
            reads_as(href, link.href@),
            reads_as(method, link.method@),
    {
        ResponseLink { rel: rel.into(), href: href.into(), method: method.into() }
    }
}

/// An answer under construction: either data or an error, a message, and links.
#[derive(Debug)]
pub struct ResponseBuilder<T> {
    data: Option<T>,
    error: Option<AppError>,
    message: String,
    links: Vec<ResponseLink>,
}

impl<T> ResponseBuilder<T> {
    /// The data that the answer carries.
    pub closed spec fn data(self) -> Option<T> {
        self.data
    }

    /// The error that the answer carries.
    pub closed spec fn failure(self) -> Option<AppError> {
        self.error
    }

    /// The message of the answer.
    pub closed spec fn text(self) -> Seq<char> {
        self.message@
    }

    /// The links of the answer, in the order in which they were added.
    pub closed spec fn links(self) -> Seq<ResponseLink> {
        self.links@
    }

    /// An answer that carries `data`, with no message and no links yet.
    pub fn new(data: T) -> (builder: Self)
        ensures
            builder.data() == Some(data),
            builder.failure() is None,
            builder.text() == Seq::<char>::empty(),
            builder.links() == Seq::<ResponseLink>::empty(),
    {
        ResponseBuilder {
            data: Some(data),
            error: None,
            message: String::new(),
            links: Vec::new(),
        }
    }

    /// Replaces the message and keeps everything else.
    pub fn message<S: Into<String>>(self, message: S) -> (builder: Self)
        ensures
            reads_as(message, builder.text()),
            builder.data() == self.data(),
            builder.failure() == self.failure(),
            builder.links() == self.links(),
    {
        ResponseBuilder {
            data: self.data,
            error: self.error,
            message: message.into(),
            links: self.links,
        }
    }

    /// Appends `link` after the links that are already there.
    pub fn link(self, link: ResponseLink) -> (builder: Self)
        ensures
            builder.links() == self.links().push(link),
            builder.data() == self.data(),
            builder.failure() == self.failure(),
            builder.text() == self.text(),
    {
        let mut links = self.links;
        links.push(link);
        ResponseBuilder { data: self.data, error: self.error, message: self.message, links }
    }

    /// An answer that carries `error` and no data.
    pub fn error(error: AppError) -> (builder: Self)
        ensures
            builder.data() is None,
            builder.failure() == Some(error),
            builder.text() == Seq::<char>::empty(),
            builder.links() == Seq::<ResponseLink>::empty(),
    {
        ResponseBuilder {
            data: None,
            error: Some(error),
            message: String::new(),
            links: Vec::new(),
        }
    }

    /// Takes the answer apart: data, error, message and links, in this order.
    pub fn into_parts(self) -> (parts: (Option<T>, Option<AppError>, String, Vec<ResponseLink>))
        ensures
            parts.0 == self.data(),
            parts.1 == self.failure(),
            parts.2@ == self.text(),
            parts.3@ == self.links(),
    {
        (self.data, self.error, self.message, self.links)
    }
}

/// The answer to a request that failed: the status of the failure, and an
/// envelope without data and without links that carries what the caller is
/// shown of the failure, under the message "An error has occurred".
pub fn error_envelope(err: AppError) -> (answer: (u16, ResponseBuilder<()>))
    ensures
        answer.0 == err.status(),
        answer.1.data() is None,
        answer.1.failure() matches Some(shown) && err.shown_as(shown),
        answer.1.text() == "An error has occurred"@,
        answer.1.links() == Seq::<ResponseLink>::empty(),
{
    let status = err.status_code();
    let body = ResponseBuilder::error(err.for_caller()).message("An error has occurred");
    (status, body)
}

} // verus!
