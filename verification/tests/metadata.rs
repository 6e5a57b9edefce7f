use ia_get_core::error::IaGetError;
use ia_get_core::metadata::{files_base_url, get_xml_url, parsed_base_url};

#[test]
fn check_get_xml_url() {
    assert_eq!(
        get_xml_url("https://archive.org/details/item1"),
        "https://archive.org/download/item1/item1_files.xml"
    );
    assert_eq!(
        get_xml_url("https://archive.org/details/item1/"), // With trailing slash
        "https://archive.org/download/item1/item1_files.xml"
    );
    assert_eq!(
        get_xml_url("https://archive.org/details/another-item_v2.0"),
        "https://archive.org/download/another-item_v2.0/another-item_v2.0_files.xml"
    );
    assert_eq!(
        get_xml_url("https://archive.org/details/another-item_v2.0/"), // With trailing slash
        "https://archive.org/download/another-item_v2.0/another-item_v2.0_files.xml"
    );
}

#[test]
fn xml_url_of_unusual_texts() {
    assert_eq!(
        get_xml_url("item1///"),
        "https://archive.org/download/item1/item1_files.xml"
    );
    assert_eq!(get_xml_url("///"), "https://archive.org/download//_files.xml");
    assert_eq!(get_xml_url(""), "https://archive.org/download//_files.xml");
}

#[test]
fn base_url_is_the_parsed_list_url() {
    assert_eq!(
        files_base_url("HTTPS://archive.org:443/download/a b/../c_files.xml"),
        Ok("https://archive.org/download/c_files.xml".to_string())
    );
    assert_eq!(
        files_base_url("not a url"),
        Err(IaGetError::UrlParse("relative URL without a base".to_string()))
    );
}

#[test]
fn parse_errors_keep_their_text() {
    let error = parsed_base_url(Err("empty host".to_string())).unwrap_err();
    assert_eq!(error, IaGetError::UrlParse("empty host".to_string()));
    assert_eq!(error.message(), "empty host");
    assert_eq!(parsed_base_url(Ok("u:".to_string())), Ok("u:".to_string()));
}
