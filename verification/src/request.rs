//! The transport-agnostic description of one HTTP call.
//!
//! A [`Request`] is a plain value: the library builds one per shorten call
//! and hands it to whatever executor the caller supplies.  Its mathematical
//! model is [`RequestModel`], a record of character sequences, reached
//! through the `view` (`@`) of the request.

use vstd::prelude::*;

verus! {

/// An HTTP method abstraction.
#[derive(Debug, Copy, Clone, PartialEq, Eq, Structural)]
pub enum Method {
    /// The `GET` HTTP method should be used.
    Get,
    /// The `POST` HTTP method should be used.
    Post,
}

/// An HTTP content type abstraction.
#[derive(Debug, Copy, Clone, PartialEq, Eq, Structural)]
pub enum ContentType {
    /// The url encoded form data header should be used.
    FormUrlEncoded,
    /// The json header should be used.
    Json,
}

/// An HTTP user agent abstraction.
#[derive(Debug, Clone)]
pub struct UserAgent(pub String);

/// An abstraction for a basic http request.
#[derive(Debug, Clone)]
pub struct Request {
    /// The URL the request must be sent to.
    pub url: String,
    /// The request body.
    pub body: Option<String>,
    /// The content type.
    pub content_type: Option<ContentType>,
    /// The user agent.
    pub user_agent: Option<UserAgent>,
    /// Request headers, as name and value pairs.
    pub headers: Option<Vec<(String, String)>>,
    /// The HTTP method.
    pub method: Method,
}

/// The mathematical model of a [`Request`]: every string replaced by its
/// character sequence.
#[verifier::ext_equal]
pub struct RequestModel {
    /// The URL the request must be sent to.
    pub url: Seq<char>,
    /// The request body.
    pub body: Option<Seq<char>>,
    /// The content type.
    pub content_type: Option<ContentType>,
    /// The user agent.
    pub user_agent: Option<Seq<char>>,
    /// Request headers, as name and value pairs.
    pub headers: Option<Seq<(Seq<char>, Seq<char>)>>,
    /// The HTTP method.
    pub method: Method,
}

impl View for Request {
    type V = RequestModel;

    open spec fn view(&self) -> RequestModel {
        RequestModel {
            url: self.url@,
            body: match self.body {
                Some(b) => Some(b@),
                None => None,
            },
            content_type: self.content_type,
            user_agent: match self.user_agent {
                Some(a) => Some(a.0@),
                None => None,
            },
            headers: match self.headers {
                Some(hs) => Some(Seq::new(hs@.len(), |i: int| (hs@[i].0@, hs@[i].1@))),
                None => None,
            },
            method: self.method,
        }
    }
}

} // verus!
