//! HTML documents, as far as the heuristics read them.

use vstd::prelude::*;

verus! {

/// How many bytes one of the parser's text buffers can hold: two gibibytes.
pub const TEXT_BUFFER_BYTES: u64 = 2_147_483_648;

/// The most bytes of text that one byte of a document can turn into. A NUL becomes the three bytes
/// of the replacement character, and a character reference, which starts with `&`, is at most one
/// byte shorter than what it stands for.
pub open spec fn byte_bound(byte: u8) -> nat {
    if byte == 0 {
        3
    } else if byte == 38 {
        2
    } else {
        1
    }
}

/// The most bytes of text that a document can turn into.
pub open spec fn text_bound(document: Seq<u8>) -> nat
    decreases document.len(),
{
    if document.len() == 0 {
        0
    } else {
        text_bound(document.drop_last()) + byte_bound(document.last())
    }
}

/// The document can be parsed: no text in it can outgrow the parser's buffers.
pub open spec fn is_parsable(document: Seq<char>) -> bool {
    text_bound(vstd::utf8::encode_utf8(document)) <= TEXT_BUFFER_BYTES
}

/// The bound on a document lies between its length in bytes and three times that.
pub proof fn text_bound_follows_length(document: Seq<u8>)
    ensures
        document.len() <= text_bound(document) <= 3 * document.len(),
    decreases document.len(),
{
    if document.len() > 0 {
        text_bound_follows_length(document.drop_last());
    }
}

/// Every document of at most 715,827,882 bytes can be parsed, and none of more than two gibibytes.
pub proof fn documents_of_ordinary_size_are_parsable(document: Seq<char>)
    ensures
        vstd::utf8::encode_utf8(document).len() <= 715_827_882 ==> is_parsable(document),
        vstd::utf8::encode_utf8(document).len() > 2_147_483_648 ==> !is_parsable(document),
{
    text_bound_follows_length(vstd::utf8::encode_utf8(document));
}

/// A document's beginning has no greater bound than the document.
proof fn text_bound_grows(document: Seq<u8>, length: int)
    requires
        0 <= length <= document.len(),
    ensures
        text_bound(document.take(length)) <= text_bound(document),
    decreases document.len(),
{
    if length < document.len() {
        text_bound_grows(document.drop_last(), length);
        assert(document.drop_last().take(length) =~= document.take(length));
    } else {
        assert(document.take(length) =~= document);
    }
}

/// The name of an element, and nothing but lower-case letters.
pub open spec fn is_element_name(name: Seq<char>) -> bool {
    &&& name.len() > 0
    &&& forall|i: int| 0 <= i < name.len() ==> 'a' <= #[trigger] name[i] <= 'z'
}

/// The inner HTML of each element called `name` in a document, in the order in which the parser
/// created them.
pub uninterp spec fn inner_html_of(document: Seq<char>, name: Seq<char>) -> Seq<Seq<char>>;

/// Calls [`scraper::Html::parse_document`], [`scraper::Selector::parse`] and
/// [`scraper::Html::select`], and hands out what [`scraper::ElementRef::inner_html`] gives for
/// each element selected.
///
/// The claim is that the outcome depends on the document and on the selector alone; it is named
/// and not described further. A selector that is a plain element name always parses. Documents whose
/// text might need more than [`TEXT_BUFFER_BYTES`] are left out: the parser panics where a buffer
/// would have to grow beyond that.
#[verifier::external_body]
fn select_inner_html(document: &str, name: &str) -> (selected: Vec<String>)
    requires
        is_parsable(document@),
        is_element_name(name@),
    ensures
        selected@.map_values(|inner: String| inner@) == inner_html_of(document@, name@),
{
    let selector = scraper::Selector::parse(name).expect("couldn't parse selector");
    let html = scraper::Html::parse_document(document);
    html.select(&selector).map(|element| element.inner_html()).collect()
}

/// A parsed document, reduced to what its `<title>` elements hold.
#[derive(Clone, Debug)]
pub struct Html {
    /// the inner HTML of each `<title>`, the first first
    pub titles: Vec<String>,
}

impl View for Html {
    type V = Seq<Seq<char>>;

    open spec fn view(&self) -> Seq<Seq<char>> {
        self.titles@.map_values(|title: String| title@)
    }
}

impl Html {
    /// Whether a document can be parsed.
    pub fn can_parse(document: &str) -> (parsable: bool)
        ensures
            parsable == is_parsable(document@),
    {
        let bytes = document.as_bytes();
        let count: usize = bytes.len();
        let mut bound: u64 = 0;
        for i in 0..count
            invariant
                bytes@ == vstd::utf8::encode_utf8(document@),
                count == bytes@.len(),
                bound == text_bound(bytes@.take(i as int)),
                bound <= TEXT_BUFFER_BYTES,
        {
            assert(bytes@.take(i + 1).drop_last() =~= bytes@.take(i as int));
            let byte: u8 = bytes[i];
            bound = bound + if byte == 0 {
                3
            } else if byte == 38 {
                2
            } else {
                1
            };
            if bound > TEXT_BUFFER_BYTES {
                proof {
                    text_bound_grows(bytes@, i + 1);
                }
                return false;
            }
        }
        assert(bytes@.take(count as int) =~= bytes@);
        true
    }

    /// Parses a document.
    pub fn parse_document(document: &str) -> (html: Html)
        requires
            is_parsable(document@),
        ensures
            html@ == inner_html_of(document@, "title"@),
    {
        proof {
            reveal_strlit("title");
        }
        Html { titles: select_inner_html(document, "title") }
    }
}

/// One more byte adds three to the bound where it is a NUL, two where it is an `&` and one where it
/// is anything else, and nothing at all has a bound of nothing.
pub proof fn each_byte_adds_to_the_bound(document: Seq<u8>, byte: u8)
    ensures
        text_bound(Seq::<u8>::empty()) == 0,
        byte == 0 ==> text_bound(document.push(byte)) == text_bound(document) + 3,
        byte == 38 ==> text_bound(document.push(byte)) == text_bound(document) + 2,
        byte != 0 && byte != 38 ==> text_bound(document.push(byte)) == text_bound(document) + 1,
{
    assert(document.push(byte).drop_last() =~= document);
}

/// A document can be parsed exactly when its bound is at most two gibibytes.
pub proof fn two_gibibytes_can_be_parsed(document: Seq<char>)
    ensures
        is_parsable(document) <==> text_bound(vstd::utf8::encode_utf8(document)) <= 2_147_483_648,
{
}

/// A document is seen as what its titles hold, one by one and in order.
pub proof fn titles_are_seen_as_they_are(html: Html)
    ensures
        html@.len() == html.titles@.len(),
        forall|i: int| 0 <= i < html.titles@.len() ==> #[trigger] html@[i] == html.titles@[i]@,
{
}

} // verus!
