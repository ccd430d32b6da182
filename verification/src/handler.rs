//! The request pipeline: from a request path and the outcome of reading the
//! resolved file to the HTTP response to send.

use vstd::prelude::*;

verus! {

use vstd::string::*;
use crate::markdown::html_of;
use crate::markdown::markdown_to_html;
use crate::paths::base_name_spec;
use crate::paths::base_name;
use crate::paths::resolved_spec;
use crate::paths::resolve_path;
use crate::template::page_of;
use crate::template::build_page;
use crate::template::contains_seq;
use crate::template::style_block;
use crate::template::lemma_page_contains_style;
use crate::template::lemma_page_contains_title;

/// What a response is made of, for contracts: status code, optional
/// content-type header value, and body.
pub struct ResponseModel {
    pub status: int,
    pub content_type: Option<Seq<char>>,
    pub body: Seq<char>,
}

/// An HTTP response: status code, optional content-type header value, and
/// body. The surrounding program sends it as-is.
pub struct Response {
    pub status: u16,
    pub content_type: Option<String>,
    pub body: String,
}

impl View for Response {
    type V = ResponseModel;

    open spec fn view(&self) -> ResponseModel {
        ResponseModel {
            status: self.status as int,
            content_type: match self.content_type {
                Some(s) => Some(s@),
                None => None,
            },
            body: self.body@,
        }
    }
}

/// The content-type header value sent with every successful response.
pub open spec fn content_type_value() -> Seq<char> {
    "text/html; charset=utf-8"@
}

/// What precedes the resolved path in a not-found body.
pub open spec fn not_found_prefix() -> Seq<char> {
    "Fichier non trouvé: "@
}

/// The response owed for a request path, given the file content when the
/// resolved file could be read and `None` when it could not: a full page
/// on success, a plain-text not-found message naming the resolved path
/// otherwise.
pub open spec fn response_spec(path: Seq<char>, content: Option<Seq<char>>) -> ResponseModel {
    match content {
        Some(md) => ResponseModel {
            status: 200,
            content_type: Some(content_type_value()),
            body: page_of(base_name_spec(resolved_spec(path)), html_of(md)),
        },
        None => ResponseModel {
            status: 404,
            content_type: None,
            body: not_found_prefix() + resolved_spec(path),
        },
    }
}

/// Produces the response for a request path and the outcome of reading the
/// resolved file. Every read failure is handed in as `None` and answered
/// with the one not-found response; success is answered with the rendered
/// page under the template, titled with the file's base name.
pub fn handle_request(path: &str, content: Option<String>) -> (r: Response)
    ensures
        r@ == response_spec(path@, content.deep_view()),
        content matches Some(md) && md@.len() == 0 ==> r@.body == page_of(
            base_name_spec(resolved_spec(path@)),
            Seq::<char>::empty(),
        ),
{
    let resolved = resolve_path(path);
    match content {
        Some(md) => {
            let title = base_name(resolved.as_str());
            let fragment = markdown_to_html(md.as_str());
            proof {
                if md@.len() == 0 {
                    assert(html_of(md@) =~= Seq::<char>::empty());
                }
            }
            let body = build_page(title.as_str(), fragment.as_str());
            Response {
                status: 200,
                content_type: Some(String::from_str("text/html; charset=utf-8")),
                body,
            }
        },
        None => {
            let mut body: String = String::from_str("Fichier non trouvé: ");
            body.append(resolved.as_str());
            Response { status: 404, content_type: None, body }
        },
    }
}

/// Every successful response holds the template's style block verbatim in
/// its body, whatever file was read.
pub proof fn lemma_success_contains_style(path: Seq<char>, md: Seq<char>)
    ensures
        contains_seq(response_spec(path, Some(md)).body, style_block()),
{
    lemma_page_contains_style(base_name_spec(resolved_spec(path)), html_of(md));
}

/// Every successful response titles the page with the resolved file's base
/// name, between the template's title tags.
pub proof fn lemma_success_contains_title(path: Seq<char>, md: Seq<char>)
    ensures
        contains_seq(
            response_spec(path, Some(md)).body,
            "<title>"@ + base_name_spec(resolved_spec(path)) + "</title>"@,
        ),
{
    lemma_page_contains_title(base_name_spec(resolved_spec(path)), html_of(md));
}

/// Two requests for the same path made while the file's content is
/// unchanged are answered identically, byte for byte: the response is a
/// function of the path and the read outcome alone.
pub proof fn lemma_response_deterministic(
    path: Seq<char>,
    content: Option<Seq<char>>,
    r1: ResponseModel,
    r2: ResponseModel,
)
    requires
        r1 == response_spec(path, content),
        r2 == response_spec(path, content),
    ensures
        r1.body == r2.body,
        r1 == r2,
{
}

} // verus!
