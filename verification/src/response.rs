//! A server's response, as far as the heuristics read it.

use crate::text;
use vstd::prelude::*;

verus! {

/// A response whose body has been read.
#[derive(Clone, Debug)]
pub struct FeroxResponse {
    /// the url that was requested
    pub url: String,

    /// the HTTP method that was used
    pub method: String,

    /// the status code
    pub status: u16,

    /// the Location header as an absolute url, where the response has one
    pub location: Option<String>,

    /// the body
    pub text: String,

    /// number of bytes in the body
    pub content_length: u64,

    /// number of words in the body
    pub word_count: usize,

    /// number of lines in the body
    pub line_count: usize,

    /// the response stands for a whole directory of pages that do not exist
    pub wildcard: bool,
}

/// A response as a mathematical value.
pub struct FeroxResponseView {
    pub url: Seq<char>,
    pub method: Seq<char>,
    pub status: u16,
    pub location: Option<Seq<char>>,
    pub text: Seq<char>,
    pub content_length: u64,
    pub word_count: usize,
    pub line_count: usize,
    pub wildcard: bool,
}

impl FeroxResponseView {
    /// The response is for a directory: a redirection to the same url with a slash behind it, or
    /// a success or a 403 for a url that already ends in a slash.
    pub open spec fn is_directory(self) -> bool {
        if 300 <= self.status < 400 {
            self.location == Some(self.url.push('/'))
        } else {
            (200 <= self.status < 300 || self.status == 403) && text::ends_with(self.url, '/')
        }
    }

    /// The same response, marked as standing for a whole directory.
    pub open spec fn as_wildcard(self) -> FeroxResponseView {
        FeroxResponseView { wildcard: true, ..self }
    }
}

impl View for FeroxResponse {
    type V = FeroxResponseView;

    open spec fn view(&self) -> FeroxResponseView {
        FeroxResponseView {
            url: self.url@,
            method: self.method@,
            status: self.status,
            location: match self.location {
                Some(location) => Some(location@),
                None => None,
            },
            text: self.text@,
            content_length: self.content_length,
            word_count: self.word_count,
            line_count: self.line_count,
            wildcard: self.wildcard,
        }
    }
}

impl FeroxResponse {
    /// Whether the response is for a directory.
    pub fn is_directory(&self) -> (directory: bool)
        ensures
            directory == self@.is_directory(),
    {
        if 300 <= self.status && self.status < 400 {
            match &self.location {
                Some(location) => {
                    let with_slash = self.url.clone().concat("/");
                    proof {
                        reveal_strlit("/");
                        assert(self.url@ + "/"@ =~= self.url@.push('/'));
                    }
                    *location == with_slash
                },
                None => false,
            }
        } else {
            ((200 <= self.status && self.status < 300) || self.status == 403)
                && text::ends_with_slash(self.url.as_str())
        }
    }

    /// Marks the response as standing for a whole directory, or takes the mark away.
    pub fn set_wildcard(&mut self, wildcard: bool)
        ensures
            final(self)@ == (FeroxResponseView { wildcard, ..old(self)@ }),
    {
        self.wildcard = wildcard;
    }
}

/// The views of a sequence of responses.
pub open spec fn views(responses: Seq<FeroxResponse>) -> Seq<FeroxResponseView> {
    responses.map_values(|response: FeroxResponse| response@)
}

/// Which responses are for a directory, over all status codes. A redirection (300 to 399) is when
/// it has a Location and that is the url with a slash behind it. A success (200 to 299) or a 403 is
/// when the url's last character is a slash. Nothing else ever is.
pub proof fn directories_by_status(response: FeroxResponseView)
    ensures
        300 <= response.status <= 399 ==> (response.is_directory() <==> (
        response.location matches Some(location) && location == response.url + seq!['/'])),
        200 <= response.status <= 299 || response.status == 403 ==> (response.is_directory() <==> (
        response.url.len() > 0 && response.url[response.url.len() - 1] == '/')),
        response.status < 200 || (400 <= response.status && response.status != 403)
            ==> !response.is_directory(),
{
    assert(response.url + seq!['/'] =~= response.url.push('/'));
}

/// Only its status code, its url and its Location make a response one for a directory.
pub proof fn directories_by_nothing_else(response: FeroxResponseView, other: FeroxResponseView)
    requires
        response.status == other.status,
        response.url == other.url,
        response.location == other.location,
    ensures
        response.is_directory() == other.is_directory(),
{
}

/// The mark is all that marking a response changes.
pub proof fn marking_changes_the_mark_only(response: FeroxResponseView)
    ensures
        response.as_wildcard().wildcard,
        response.as_wildcard().url == response.url,
        response.as_wildcard().method == response.method,
        response.as_wildcard().status == response.status,
        response.as_wildcard().location == response.location,
        response.as_wildcard().text == response.text,
        response.as_wildcard().content_length == response.content_length,
        response.as_wildcard().word_count == response.word_count,
        response.as_wildcard().line_count == response.line_count,
{
}

/// A response as a mathematical value has all that the response has, and a sequence of responses
/// is seen one by one and in order.
pub proof fn responses_are_seen_as_they_are(response: FeroxResponse, responses: Seq<FeroxResponse>)
    ensures
        response@.url == response.url@,
        response@.method == response.method@,
        response@.status == response.status,
        response.location is None ==> response@.location is None,
        response.location matches Some(location) ==> response@.location == Some(location@),
        response@.text == response.text@,
        response@.content_length == response.content_length,
        response@.word_count == response.word_count,
        response@.line_count == response.line_count,
        response@.wildcard == response.wildcard,
        views(responses).len() == responses.len(),
        forall|i: int|
            0 <= i < responses.len() ==> #[trigger] views(responses)[i] == responses[i]@,
{
}

} // verus!
