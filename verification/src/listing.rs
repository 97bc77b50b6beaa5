//! Detecting that a server lists the contents of its directories.

use crate::heuristics::{DirListingResult, DirListingType, HeuristicTests};
use crate::html;
use crate::html::Html;
use crate::message::{FeroxMessage, FeroxMessageView};
use crate::response::FeroxResponse;
use crate::text;
use vstd::prelude::*;

verus! {

/// The server that a lower-case title belongs to, by the phrase that its listings have in their
/// titles.
pub open spec fn server_of_title(title: Seq<char>) -> Option<DirListingType> {
    if text::occurs_in("directory listing for /"@, title) {
        Some(DirListingType::TomCatOrPython)
    } else if text::occurs_in("index of /"@, title) {
        Some(DirListingType::Apache)
    } else if text::occurs_in("directory listing -- /"@, title) {
        Some(DirListingType::AspDotNet)
    } else {
        None
    }
}

/// The first server that any of these lower-case titles belongs to.
pub open spec fn first_server(titles: Seq<Seq<char>>) -> Option<DirListingType>
    decreases titles.len(),
{
    if titles.len() == 0 {
        None
    } else {
        match server_of_title(titles.first()) {
            Some(server) => Some(server),
            None => first_server(titles.drop_first()),
        }
    }
}

/// The lower-case form of a title: that of its ASCII letters, and of all others by Unicode's rules
/// where it has any.
pub open spec fn folded(title: Seq<char>) -> Seq<char> {
    let low = text::ascii_lowercase(title);
    if vstd::utf8::is_ascii_chars(low) {
        low
    } else {
        text::unicode_lowercase(low)
    }
}

/// One of the phrases that servers have in the titles of their listings stands in the title, in
/// upper or lower case.
pub open spec fn holds_phrase(title: Seq<char>) -> bool {
    ||| text::occurs_in("directory listing for /"@, text::ascii_lowercase(title))
    ||| text::occurs_in("index of /"@, text::ascii_lowercase(title))
    ||| text::occurs_in("directory listing -- /"@, text::ascii_lowercase(title))
}

/// One of the titles holds a phrase.
pub open spec fn any_holds_phrase(titles: Seq<Seq<char>>) -> bool {
    exists|i: int| 0 <= i < titles.len() && holds_phrase(#[trigger] titles[i])
}

/// The lower-case forms of several titles.
pub open spec fn all_folded(titles: Seq<Seq<char>>) -> Seq<Seq<char>> {
    titles.map_values(|title: Seq<char>| folded(title))
}

/// The server that a document with these titles belongs to.
pub open spec fn server_of_titles(titles: Seq<Seq<char>>) -> Option<DirListingType> {
    first_server(all_folded(titles))
}

/// The server that the page with this text belongs to.
pub open spec fn server_of_page(page: Seq<char>) -> Option<DirListingType> {
    server_of_titles(html::inner_html_of(page, "title"@))
}

/// The name of a kind of server.
pub open spec fn server_name(server: DirListingType) -> Seq<char> {
    match server {
        DirListingType::Apache => "Apache"@,
        DirListingType::TomCatOrPython => "TomCatOrPython"@,
        DirListingType::AspDotNet => "AspDotNet"@,
        DirListingType::NoListing => "None"@,
    }
}

/// The log entry for a listing found at a url.
pub open spec fn listing_message(target_url: Seq<char>, server: DirListingType) -> FeroxMessageView {
    FeroxMessageView {
        kind: "log"@,
        message: "detected directory listing: "@ + target_url + " ("@ + server_name(server) + ")"@,
        level: "MSG"@,
        module: "feroxbuster::heuristics"@,
    }
}

/// What a listing that was, or was not, detected in a response amounts to.
pub open spec fn is_outcome(
    found: Option<(DirListingResult, FeroxMessage)>,
    target_url: Seq<char>,
    response: FeroxResponse,
    server: Option<DirListingType>,
) -> bool {
    match (server, found) {
        (Some(kind), Some((result, message))) => {
            &&& result.dir_list_type == Some(kind)
            &&& result.response == response
            &&& message@ == listing_message(target_url, kind)
        },
        (None, None) => true,
        _ => false,
    }
}

/// The url to look at for a listing: the target with a slash behind it.
pub open spec fn with_slash(target_url: Seq<char>) -> Seq<char> {
    if text::ends_with(target_url, '/') {
        target_url
    } else {
        target_url.push('/')
    }
}

/// The url to look at for a listing.
///
/// Without the slash a server answers with a redirect that points to the directory, for most
/// directories beyond the initial urls, and the listing behind it would not be seen.
pub fn listing_url(target_url: &str) -> (url: String)
    ensures
        url@ == with_slash(target_url@),
{
    let url = target_url.to_owned();
    if text::ends_with_slash(target_url) {
        url
    } else {
        proof {
            reveal_strlit("/");
            assert(target_url@ + "/"@ =~= target_url@.push('/'));
        }
        url.concat("/")
    }
}

/// The server that a title belongs to, if any. The title is in lower case already.
pub fn classify_title(title: &str) -> (server: Option<DirListingType>)
    ensures
        server == server_of_title(title@),
{
    if text::contains(title, "directory listing for /") {
        Some(DirListingType::TomCatOrPython)
    } else if text::contains(title, "index of /") {
        Some(DirListingType::Apache)
    } else if text::contains(title, "directory listing -- /") {
        Some(DirListingType::AspDotNet)
    } else {
        // `<host> - /`, as IIS and Azure write it, is too loose to go by
        None
    }
}

/// The server that a title belongs to, if any, in whatever case it is written.
pub fn server_of(title: &str) -> (server: Option<DirListingType>)
    ensures
        server == server_of_title(folded(title@)),
        holds_phrase(title@) ==> server is Some,
        text::occurs_in("directory listing for /"@, text::ascii_lowercase(title@)) ==> server
            == Some(DirListingType::TomCatOrPython),
{
    let lowered = text::to_lowercase(title);
    proof {
        let low = text::ascii_lowercase(title@);
        text::lowercase_keeps_ascii(title@);
        phrases_are_lower_case();
        if text::occurs_in("directory listing for /"@, low) {
            text::lowercase_hides_nothing("directory listing for /"@, title@);
        }
        if text::occurs_in("index of /"@, low) {
            text::lowercase_hides_nothing("index of /"@, title@);
        }
        if text::occurs_in("directory listing -- /"@, low) {
            text::lowercase_hides_nothing("directory listing -- /"@, title@);
        }
    }
    classify_title(lowered.as_str())
}

/// The phrases are ASCII and in lower case.
proof fn phrases_are_lower_case()
    ensures
        text::ascii_lowercase("directory listing for /"@) == "directory listing for /"@,
        text::ascii_lowercase("index of /"@) == "index of /"@,
        text::ascii_lowercase("directory listing -- /"@) == "directory listing -- /"@,
        vstd::utf8::is_ascii_chars("directory listing for /"@),
        vstd::utf8::is_ascii_chars("index of /"@),
        vstd::utf8::is_ascii_chars("directory listing -- /"@),
{
    reveal_strlit("directory listing for /");
    reveal_strlit("index of /");
    reveal_strlit("directory listing -- /");
    assert(text::ascii_lowercase("directory listing for /"@) =~= "directory listing for /"@);
    assert(text::ascii_lowercase("index of /"@) =~= "index of /"@);
    assert(text::ascii_lowercase("directory listing -- /"@) =~= "directory listing -- /"@);
}

impl DirListingType {
    /// The name by which a log entry refers to the server.
    pub fn name(self) -> (name: &'static str)
        ensures
            name@ == server_name(self),
    {
        match self {
            DirListingType::Apache => "Apache",
            DirListingType::TomCatOrPython => "TomCatOrPython",
            DirListingType::AspDotNet => "AspDotNet",
            DirListingType::NoListing => "None",
        }
    }
}

impl HeuristicTests {
    /// Directory listing heuristic detection, uses <title> tag to make its determination. When
    /// the inner html of <title> matches one of the following, a `DirListingType` is returned.
    /// - apache: `Index of /`
    /// - tomcat/python: `Directory Listing for /`
    /// - ASP.NET: `Directory Listing -- /`
    /// - <host> - /: iis, azure, skipping due to loose heuristic
    pub fn detect_directory_listing(&self, html: &Html) -> (server: Option<DirListingType>)
        ensures
            server == server_of_titles(html@),
            any_holds_phrase(html@) ==> server is Some,
    {
        let count: usize = html.titles.len();
        let ghost lowered = all_folded(html@);
        assert(lowered.skip(0) =~= lowered);
        for i in 0..count
            invariant
                count == html.titles@.len(),
                lowered == all_folded(html@),
                first_server(lowered) == first_server(lowered.skip(i as int)),
                forall|j: int| 0 <= j < i ==> !holds_phrase(#[trigger] html@[j]),
        {
            assert(lowered.skip(i as int).drop_first() =~= lowered.skip(i + 1));
            assert(html@[i as int] == html.titles@[i as int]@);
            let server = server_of(html.titles[i].as_str());
            if server.is_some() {
                return server;
            }
        }
        None
    }

    /// What a listing that was, or was not, detected in a response amounts to: the result to hand
    /// out together with the message to log, or nothing.
    pub fn listing_result(
        &self,
        target_url: &str,
        response: FeroxResponse,
        server: Option<DirListingType>,
    ) -> (found: Option<(DirListingResult, FeroxMessage)>)
        ensures
            is_outcome(found, target_url@, response, server),
    {
        match server {
            Some(kind) => {
                let text = "detected directory listing: ".to_owned().concat(target_url).concat(
                    " (",
                ).concat(kind.name()).concat(")");
                let message = FeroxMessage {
                    kind: "log".to_owned(),
                    message: text,
                    level: "MSG".to_owned(),
                    module: "feroxbuster::heuristics".to_owned(),
                };
                Some((DirListingResult { dir_list_type: server, response }, message))
            },
            None => None,
        }
    }

    /// heuristic designed to detect when a server has directory listing enabled
    ///
    /// `response` is what the server sent for [`listing_url`] of the target. What comes back is
    /// the result together with the message that goes into the log, or nothing where the page is
    /// no listing.
    pub fn directory_listing(&self, target_url: &str, response: FeroxResponse) -> (found: Option<
        (DirListingResult, FeroxMessage),
    >)
        requires
            html::is_parsable(response.text@),
        ensures
            is_outcome(found, target_url@, response, server_of_page(response.text@)),
            any_holds_phrase(html::inner_html_of(response.text@, "title"@)) ==> found is Some,
    {
        let html = Html::parse_document(response.text.as_str());
        let server = self.detect_directory_listing(&html);
        self.listing_result(target_url, response, server)
    }
}

/// The first title that belongs to a server decides: a document belongs to a server when one of
/// its titles does and no title before that one belongs to any, and to none when no title does.
pub proof fn first_title_decides(titles: Seq<Seq<char>>)
    ensures
        match first_server(titles) {
            Some(server) => exists|i: int|
                {
                    &&& 0 <= i < titles.len()
                    &&& #[trigger] server_of_title(titles[i]) == Some(server)
                    &&& forall|j: int| 0 <= j < i ==> server_of_title(#[trigger] titles[j]) is None
                },
            None => forall|i: int|
                0 <= i < titles.len() ==> server_of_title(#[trigger] titles[i]) is None,
        },
    decreases titles.len(),
{
    if titles.len() > 0 {
        let rest = titles.drop_first();
        first_title_decides(rest);
        match server_of_title(titles.first()) {
            Some(server) => {
                assert(server_of_title(titles[0]) == Some(server));
            },
            None => {
                match first_server(rest) {
                    Some(server) => {
                        let k = choose|i: int|
                            {
                                &&& 0 <= i < rest.len()
                                &&& #[trigger] server_of_title(rest[i]) == Some(server)
                                &&& forall|j: int|
                                    0 <= j < i ==> server_of_title(#[trigger] rest[j]) is None
                            };
                        assert(server_of_title(titles[k + 1]) == Some(server));
                        assert forall|j: int| 0 <= j < k + 1 implies server_of_title(
                            #[trigger] titles[j],
                        ) is None by {
                            if j > 0 {
                                assert(titles[j] == rest[j - 1]);
                            }
                        }
                    },
                    None => {
                        assert forall|i: int| 0 <= i < titles.len() implies server_of_title(
                            #[trigger] titles[i],
                        ) is None by {
                            if i > 0 {
                                assert(titles[i] == rest[i - 1]);
                            }
                        }
                    },
                }
            },
        }
    }
}

/// What is detected is always a listing: never the variant for the absence of one.
pub proof fn detection_names_a_listing(titles: Seq<Seq<char>>)
    ensures
        first_server(titles) != Some(DirListingType::NoListing),
    decreases titles.len(),
{
    if titles.len() > 0 {
        detection_names_a_listing(titles.drop_first());
    }
}

/// A title in which one of the phrases stands as servers write it belongs to a server, whatever
/// else the title says: to tomcat or python for `Directory Listing for /`, else to apache for
/// `Index of /`, else to ASP.NET for `Directory Listing -- /`.
pub proof fn phrases_are_recognised(title: Seq<char>)
    ensures
        text::occurs_in("Directory Listing for /"@, title) || text::occurs_in(
            "Index of /"@,
            title,
        ) || text::occurs_in("Directory Listing -- /"@, title) ==> holds_phrase(title),
        text::occurs_in("Directory Listing for /"@, title) ==> server_of_title(
            text::ascii_lowercase(title),
        ) == Some(DirListingType::TomCatOrPython),
        text::occurs_in("Index of /"@, title) && !text::occurs_in(
            "directory listing for /"@,
            text::ascii_lowercase(title),
        ) ==> server_of_title(text::ascii_lowercase(title)) == Some(DirListingType::Apache),
        text::occurs_in("Directory Listing -- /"@, title) && !text::occurs_in(
            "directory listing for /"@,
            text::ascii_lowercase(title),
        ) && !text::occurs_in("index of /"@, text::ascii_lowercase(title)) ==> server_of_title(
            text::ascii_lowercase(title),
        ) == Some(DirListingType::AspDotNet),
{
    reveal_strlit("Directory Listing for /");
    reveal_strlit("directory listing for /");
    reveal_strlit("Index of /");
    reveal_strlit("index of /");
    reveal_strlit("Directory Listing -- /");
    reveal_strlit("directory listing -- /");
    assert(text::ascii_lowercase("Directory Listing for /"@) =~= "directory listing for /"@);
    assert(text::ascii_lowercase("Index of /"@) =~= "index of /"@);
    assert(text::ascii_lowercase("Directory Listing -- /"@) =~= "directory listing -- /"@);
    text::lowercase_keeps_occurrences("Directory Listing for /"@, title);
    text::lowercase_keeps_occurrences("Index of /"@, title);
    text::lowercase_keeps_occurrences("Directory Listing -- /"@, title);
}

/// Letter case makes no difference: documents whose titles are pairwise equal up to the case of
/// their ASCII letters belong to the same server, whatever else the documents hold and whatever the
/// settings are.
pub proof fn letter_case_makes_no_difference(titles: Seq<Seq<char>>, others: Seq<Seq<char>>)
    requires
        titles.len() == others.len(),
        forall|i: int|
            0 <= i < titles.len() ==> text::ascii_lowercase(#[trigger] titles[i])
                == text::ascii_lowercase(others[i]),
    ensures
        server_of_titles(titles) == server_of_titles(others),
{
    assert forall|i: int| 0 <= i < titles.len() implies #[trigger] all_folded(titles)[i]
        == all_folded(others)[i] by {
        assert(text::ascii_lowercase(titles[i]) == text::ascii_lowercase(others[i]));
    }
    assert(all_folded(titles) =~= all_folded(others));
}

/// With or without its slash, a target is looked at under the same url, and what is detected there
/// is the same with the same response. Only the messages differ, each naming the target that it was
/// given.
pub proof fn slash_makes_no_difference(
    target_url: Seq<char>,
    response: FeroxResponse,
    server: Option<DirListingType>,
    found: Option<(DirListingResult, FeroxMessage)>,
    found_with_slash: Option<(DirListingResult, FeroxMessage)>,
)
    requires
        !text::ends_with(target_url, '/'),
        is_outcome(found, target_url, response, server),
        is_outcome(found_with_slash, target_url.push('/'), response, server),
    ensures
        with_slash(target_url) == with_slash(target_url.push('/')),
        match (found, found_with_slash) {
            (Some((result, message)), Some((other_result, other_message))) => {
                &&& result == other_result
                &&& result.dir_list_type matches Some(kind)
                &&& message@ == listing_message(target_url, kind)
                &&& other_message@ == listing_message(target_url.push('/'), kind)
            },
            (None, None) => true,
            _ => false,
        },
{
}

/// The url to look at ends in a slash, differs from the target by no more than that slash, and is
/// its own url to look at.
pub proof fn listing_url_ends_in_slash(target_url: Seq<char>)
    ensures
        text::ends_with(with_slash(target_url), '/'),
        with_slash(target_url) == target_url || with_slash(target_url) == target_url.push('/'),
        with_slash(with_slash(target_url)) == with_slash(target_url),
{
}

/// Which lower-case titles belong to which server, both ways: to tomcat or python exactly with
/// `directory listing for /`, to apache exactly with `index of /` and without that, to ASP.NET
/// exactly with `directory listing -- /` and without either, and to none exactly with none of the
/// three.
pub proof fn phrases_decide_the_server(title: Seq<char>)
    ensures
        ({
            let tomcat = text::occurs_in("directory listing for /"@, title);
            let apache = text::occurs_in("index of /"@, title);
            let asp = text::occurs_in("directory listing -- /"@, title);
            let server = server_of_title(title);
            &&& server == Some(DirListingType::TomCatOrPython) <==> tomcat
            &&& server == Some(DirListingType::Apache) <==> apache && !tomcat
            &&& server == Some(DirListingType::AspDotNet) <==> asp && !apache && !tomcat
            &&& server is None <==> !tomcat && !apache && !asp
        }),
{
}

/// A title is looked at in lower case: letter by letter where it is ASCII, else by Unicode's rules.
pub proof fn titles_are_looked_at_in_lower_case(title: Seq<char>)
    ensures
        vstd::utf8::is_ascii_chars(title) ==> folded(title) == text::ascii_lowercase(title),
        !vstd::utf8::is_ascii_chars(title) ==> folded(title) == text::unicode_lowercase(
            text::ascii_lowercase(title),
        ),
{
    text::lowercase_keeps_ascii(title);
}

/// The server of a document over all of its titles, both ways. It is that of the title with which
/// nothing before it holds a phrase, by the first of the three phrases that this title holds in
/// lower case, and there is none exactly when no title holds any.
pub proof fn documents_belong_by_their_first_phrase(titles: Seq<Seq<char>>, at: int)
    requires
        0 <= at < titles.len(),
        forall|j: int|
            0 <= j < at ==> {
                &&& !text::occurs_in("directory listing for /"@, folded(#[trigger] titles[j]))
                &&& !text::occurs_in("index of /"@, folded(titles[j]))
                &&& !text::occurs_in("directory listing -- /"@, folded(titles[j]))
            },
    ensures
        ({
            let tomcat = text::occurs_in("directory listing for /"@, folded(titles[at]));
            let apache = text::occurs_in("index of /"@, folded(titles[at]));
            let asp = text::occurs_in("directory listing -- /"@, folded(titles[at]));
            let server = server_of_titles(titles);
            &&& tomcat ==> server == Some(DirListingType::TomCatOrPython)
            &&& apache && !tomcat ==> server == Some(DirListingType::Apache)
            &&& asp && !apache && !tomcat ==> server == Some(DirListingType::AspDotNet)
            &&& !tomcat && !apache && !asp && at == titles.len() - 1 ==> server is None
        }),
{
    let lowered = all_folded(titles);
    first_title_decides(lowered);
    assert forall|j: int| 0 <= j < at implies server_of_title(#[trigger] lowered[j]) is None by {
        assert(lowered[j] == folded(titles[j]));
    }
    assert(lowered[at] == folded(titles[at]));
}

/// A document with ASCII titles is a listing if and only if one of them holds, in upper or lower
/// case, one of the three phrases with its slash. A document without titles is none.
pub proof fn listings_hold_a_phrase(titles: Seq<Seq<char>>)
    requires
        forall|i: int|
            0 <= i < titles.len() ==> vstd::utf8::is_ascii_chars(#[trigger] titles[i]),
    ensures
        server_of_titles(titles) is Some <==> exists|i: int|
            {
                &&& 0 <= i < titles.len()
                &&& {
                    ||| text::occurs_in(
                        "directory listing for /"@,
                        text::ascii_lowercase(#[trigger] titles[i]),
                    )
                    ||| text::occurs_in("index of /"@, text::ascii_lowercase(titles[i]))
                    ||| text::occurs_in("directory listing -- /"@, text::ascii_lowercase(titles[i]))
                }
            },
{
    let lowered = all_folded(titles);
    first_title_decides(lowered);
    assert forall|i: int| 0 <= i < titles.len() implies #[trigger] lowered[i]
        == text::ascii_lowercase(titles[i]) by {
        titles_are_looked_at_in_lower_case(titles[i]);
    }
    match first_server(lowered) {
        Some(server) => {
            let i = choose|i: int|
                {
                    &&& 0 <= i < lowered.len()
                    &&& #[trigger] server_of_title(lowered[i]) == Some(server)
                    &&& forall|j: int| 0 <= j < i ==> server_of_title(#[trigger] lowered[j]) is None
                };
            assert(lowered[i] == text::ascii_lowercase(titles[i]));
        },
        None => {
            assert forall|i: int| 0 <= i < titles.len() implies !text::occurs_in(
                "directory listing for /"@,
                text::ascii_lowercase(#[trigger] titles[i]),
            ) && !text::occurs_in("index of /"@, text::ascii_lowercase(titles[i]))
                && !text::occurs_in(
                "directory listing -- /"@,
                text::ascii_lowercase(titles[i]),
            ) by {
                assert(server_of_title(lowered[i]) is None);
            }
        },
    }
}

/// A page is judged by its `title` elements and by nothing else in it.
pub proof fn pages_are_judged_by_their_titles(page: Seq<char>, other: Seq<char>)
    ensures
        server_of_page(page) == server_of_titles(html::inner_html_of(page, "title"@)),
        html::inner_html_of(page, "title"@) == html::inner_html_of(other, "title"@)
            ==> server_of_page(page) == server_of_page(other),
{
}

/// Something is handed out exactly when a listing was detected: the kind that was, the response as
/// it came, and a log entry that names the target as it was given and the kind.
pub proof fn outcomes_tell_what_was_detected(
    found: Option<(DirListingResult, FeroxMessage)>,
    target_url: Seq<char>,
    response: FeroxResponse,
    server: Option<DirListingType>,
)
    requires
        is_outcome(found, target_url, response, server),
    ensures
        found is Some <==> server is Some,
        found matches Some((result, message)) ==> {
            &&& result.dir_list_type == server
            &&& result.response == response
            &&& message@.kind == "log"@
            &&& message@.level == "MSG"@
            &&& message@.module == "feroxbuster::heuristics"@
            &&& server == Some(DirListingType::Apache) ==> message@.message
                == "detected directory listing: "@ + target_url + " ("@ + "Apache"@ + ")"@
            &&& server == Some(DirListingType::TomCatOrPython) ==> message@.message
                == "detected directory listing: "@ + target_url + " ("@ + "TomCatOrPython"@ + ")"@
            &&& server == Some(DirListingType::AspDotNet) ==> message@.message
                == "detected directory listing: "@ + target_url + " ("@ + "AspDotNet"@ + ")"@
            &&& server == Some(DirListingType::NoListing) ==> message@.message
                == "detected directory listing: "@ + target_url + " ("@ + "None"@ + ")"@
        },
{
}

/// The url to look at is the target itself exactly when its last character is a slash, and else
/// the target with one slash behind it.
pub proof fn one_slash_is_added_where_missing(target_url: Seq<char>)
    ensures
        target_url.len() > 0 && target_url[target_url.len() - 1] == '/' ==> with_slash(target_url)
            == target_url,
        !(target_url.len() > 0 && target_url[target_url.len() - 1] == '/') ==> with_slash(
            target_url,
        ) == target_url + seq!['/'],
{
    assert(target_url + seq!['/'] =~= target_url.push('/'));
}

} // verus!
