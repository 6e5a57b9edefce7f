//! Where the metadata of an item is found.
use crate::error::IaGetError;
use crate::http::parse_url;
use crate::text::{text_after_last, trim_end_matches};
#[allow(unused_imports)]
use crate::error::{outcome, ErrorView};
#[allow(unused_imports)]
use crate::http::parsed_url;
#[allow(unused_imports)]
use crate::text::{
    after_last, after_last_is_the_suffix, just, trim_end, trim_end_is_the_prefix,
};
use vstd::prelude::*;

verus! {

/// The identifier of an item: the last segment of its URL, trailing slashes aside.
pub open spec fn identifier(url: Seq<char>) -> Seq<char> {
    after_last(trim_end(url, just('/')), '/')
}

/// The URL of the XML files list of the item with the given identifier.
pub open spec fn files_list_url(id: Seq<char>) -> Seq<char> {
    "https://archive.org/download/"@ + id + "/"@ + id + "_files.xml"@
}

/// Converts a details URL to the corresponding XML files list URL.
///
/// Takes an archive.org details URL and converts it to the XML metadata URL by replacing "details"
/// with "download" and appending "_files.xml".
pub fn get_xml_url(original_url: &str) -> (r: String)
    ensures
        r@ == files_list_url(identifier(original_url@)),
{
    let is_slash = |c: char| -> (b: bool)
        ensures
            b == just('/')(c),
        { c == '/' };
    let trimmed_url: &str = trim_end_matches(original_url, is_slash, Ghost(just('/')));
    let id: &str = text_after_last(trimmed_url, '/');
    "https://archive.org/download/".to_owned().concat(id).concat("/").concat(id).concat("_files.xml")
}

/// The base URL that a parsed URL is: the parser's complaint becomes the error.
pub open spec fn base_of(parsed: Result<Seq<char>, Seq<char>>) -> Result<Seq<char>, ErrorView> {
    match parsed {
        Ok(url) => Ok(url),
        Err(text) => Err(ErrorView::UrlParse(text)),
    }
}

/// The base URL, given what parsing it came to.
pub fn parsed_base_url(parsed: Result<String, String>) -> (r: Result<String, IaGetError>)
    ensures
        outcome(r) == base_of(outcome(parsed)),
{
    match parsed {
        Ok(url) => Ok(url),
        Err(text) => Err(IaGetError::UrlParse(text)),
    }
}

/// The base URL of the files in a files list: the URL of the list, parsed.
pub fn files_base_url(xml_url: &str) -> (r: Result<String, IaGetError>)
    ensures
        outcome(r) == base_of(parsed_url(xml_url@)),
{
    parsed_base_url(parse_url(xml_url))
}

/// The files list of a details URL is found under its identifier, with or without slashes at the
/// end of the URL.
pub proof fn details_url_leads_to_files_list(id: Seq<char>, slashes: Seq<char>)
    requires
        id.len() > 0,
        !id.contains('/'),
        forall|i: int| 0 <= i < slashes.len() ==> #[trigger] slashes[i] == '/',
    ensures
        files_list_url(identifier("https://archive.org/details/"@ + id + slashes))
            == "https://archive.org/download/"@ + id + "/"@ + id + "_files.xml"@,
{
    reveal_strlit("https://archive.org/details/");
    identifier_is_the_last_segment("https://archive.org/details/"@, id, slashes);
}

/// The identifier of any URL is what stands after its last slash, slashes at its end aside; the
/// whole URL where there is no other slash.
pub proof fn identifier_is_the_last_segment(prefix: Seq<char>, id: Seq<char>, slashes: Seq<char>)
    requires
        prefix.len() > 0 ==> prefix.last() == '/',
        id.len() > 0,
        !id.contains('/'),
        forall|i: int| 0 <= i < slashes.len() ==> #[trigger] slashes[i] == '/',
    ensures
        identifier(prefix + id + slashes) == id,
{
    let bare = prefix + id;
    let url = bare + slashes;
    assert forall|i: int| bare.len() <= i < url.len() implies just('/')(#[trigger] url[i]) by {
        assert(url[i] == slashes[i - bare.len()]);
    }
    assert(url[bare.len() - 1] == id.last());
    assert(id.contains(id.last()));
    trim_end_is_the_prefix(url, just('/'), bare.len() as int);
    assert(url.take(bare.len() as int) == bare);
    assert forall|i: int| prefix.len() <= i < bare.len() implies #[trigger] bare[i] != '/' by {
        assert(bare[i] == id[i - prefix.len()]);
        assert(id.contains(id[i - prefix.len()]));
    }
    after_last_is_the_suffix(bare, '/', prefix.len() as int);
    assert(bare.skip(prefix.len() as int) == id);
}

/// A URL of slashes alone has an empty identifier.
pub proof fn slashes_alone_have_no_identifier(slashes: Seq<char>)
    requires
        forall|i: int| 0 <= i < slashes.len() ==> #[trigger] slashes[i] == '/',
    ensures
        identifier(slashes) == Seq::<char>::empty(),
{
    assert forall|i: int| 0 <= i < slashes.len() implies just('/')(#[trigger] slashes[i]) by {}
    trim_end_is_the_prefix(slashes, just('/'), 0);
    assert(slashes.take(0) == Seq::<char>::empty());
}

/// The files list of an item lies in the item's download directory and is named after the item,
/// whatever the identifier holds.
pub proof fn files_list_is_named_after_the_item(id: Seq<char>)
    ensures
        files_list_url(id) == "https://archive.org/download/"@ + id + "/"@ + id + "_files.xml"@,
{
}

/// A URL that parses is the base URL as the parser gives it; one that does not fails with the
/// parser's own words.
pub proof fn base_url_is_what_the_parser_gives(url: Seq<char>, complaint: Seq<char>)
    ensures
        base_of(Ok(url)) == Ok::<Seq<char>, ErrorView>(url),
        base_of(Err(complaint)) == Err::<Seq<char>, ErrorView>(ErrorView::UrlParse(complaint)),
{
}

/// A slash added to the end of any URL changes nothing.
pub proof fn trailing_slash_changes_nothing(url: Seq<char>)
    ensures
        identifier(url.push('/')) == identifier(url),
{
    assert(url.push('/').drop_last() == url);
}

} // verus!
