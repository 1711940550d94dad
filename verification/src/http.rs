//! Requests to the site and its replies, as plain values.
//!
//! Nothing here is sent: a request says what a caller is to send, a reply
//! what it got back.

use vstd::prelude::*;

verus! {

/// How a request is made.
#[derive(Clone, Copy, Debug, PartialEq, Eq, Structural)]
pub enum Method {
    Get,
    Post,
}

/// What of a reply is read.
#[derive(Clone, Copy, Debug, PartialEq, Eq, Structural)]
pub enum Reading {
    /// The headers only: the body is given as the empty text.
    Headers,
    /// The body as text, decoded as the reply says it is encoded.
    Text,
    /// The body as a page, which must be UTF-8: one that is not counts as
    /// a request that failed.
    Page,
}

/// One field of a form.
pub struct Field {
    pub name: String,
    pub value: String,
}

impl View for Field {
    type V = (Seq<char>, Seq<char>);

    open spec fn view(&self) -> (Seq<char>, Seq<char>) {
        (self.name@, self.value@)
    }
}

/// A request to the site.
pub struct Request {
    pub method: Method,
    /// The full address.
    pub url: String,
    /// The fields of the form that is posted, in order.
    pub form: Vec<Field>,
    /// The session's cookie, where the request belongs to a session.
    pub cookie: Option<String>,
    /// Whether a redirect in the reply is to be followed.
    pub follow_redirects: bool,
    /// What of the reply is to be read.
    pub reading: Reading,
}

/// A request as a value of specifications.
pub ghost struct RequestFacts {
    pub method: Method,
    pub url: Seq<char>,
    pub form: Seq<(Seq<char>, Seq<char>)>,
    pub cookie: Option<Seq<char>>,
    pub follow_redirects: bool,
    pub reading: Reading,
}

/// The fields of a form as values of specifications.
pub open spec fn form_view(form: Seq<Field>) -> Seq<(Seq<char>, Seq<char>)> {
    form.map_values(|field: Field| field@)
}

impl View for Request {
    type V = RequestFacts;

    open spec fn view(&self) -> RequestFacts {
        RequestFacts {
            method: self.method,
            url: self.url@,
            form: form_view(self.form@),
            cookie: match self.cookie {
                Some(cookie) => Some(cookie@),
                None => None,
            },
            follow_redirects: self.follow_redirects,
            reading: self.reading,
        }
    }
}

/// What the engine reads of a reply of the site.
pub struct Response {
    /// The `Location` header, where the reply redirects.
    pub location: Option<String>,
    /// The `Set-Cookie` header, where the reply sets a cookie.
    pub set_cookie: Option<String>,
    /// The body, as far as the request asked for it.
    pub body: String,
}

/// A reply as a value of specifications.
pub ghost struct ResponseFacts {
    pub location: Option<Seq<char>>,
    pub set_cookie: Option<Seq<char>>,
    pub body: Seq<char>,
}

impl View for Response {
    type V = ResponseFacts;

    open spec fn view(&self) -> ResponseFacts {
        ResponseFacts {
            location: match self.location {
                Some(location) => Some(location@),
                None => None,
            },
            set_cookie: match self.set_cookie {
                Some(cookie) => Some(cookie@),
                None => None,
            },
            body: self.body@,
        }
    }
}

/// A form field of the given name and value.
pub fn field(name: &str, value: String) -> (field: Field)
    ensures
        field@ == (name@, value@),
{
    Field { name: name.to_owned(), value }
}

/// A posted form for a session, or for none.
pub fn post(
    url: String,
    form: Vec<Field>,
    cookie: Option<String>,
    follow_redirects: bool,
    reading: Reading,
) -> (request: Request)
    ensures
        request@ == (RequestFacts {
            method: Method::Post,
            url: url@,
            form: form_view(form@),
            cookie: match cookie {
                Some(c) => Some(c@),
                None => None,
            },
            follow_redirects,
            reading,
        }),
{
    Request { method: Method::Post, url, form, cookie, follow_redirects, reading }
}

} // verus!
