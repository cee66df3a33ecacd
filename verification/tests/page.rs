use summarizer::index;
use summarizer::load_page;
use summarizer::PageError;
use summarizer::Reply;

#[test]
fn present_document_is_served_exactly() {
    let document = "<!doctype html>\n<title>Summarizer</title>\n<form></form>\n";
    let reply = index(Some(document.as_bytes().to_vec()));
    assert_eq!(reply.status, 200);
    assert_eq!(reply.body, document);
    assert_eq!(reply.body.as_bytes(), document.as_bytes());
}

#[test]
fn document_with_multibyte_characters_is_served_exactly() {
    let document = "<p>r\u{e9}sum\u{e9} \u{2014} \u{65e5}\u{672c}\u{8a9e} \u{1F98A}</p>";
    let reply = index(Some(document.as_bytes().to_vec()));
    assert_eq!(reply, Reply { status: 200, body: document.to_string() });
}

#[test]
fn empty_document_is_served_as_empty_page() {
    assert_eq!(index(Some(vec![])), Reply { status: 200, body: String::new() });
}

#[test]
fn missing_document_gives_status_500() {
    assert_eq!(index(None), Reply { status: 500, body: String::new() });
}

#[test]
fn document_that_is_not_text_gives_status_500() {
    assert_eq!(index(Some(vec![0x3c, 0xff, 0x3e])), Reply { status: 500, body: String::new() });
    assert_eq!(index(Some(vec![0xc0, 0x80])), Reply { status: 500, body: String::new() });
    assert_eq!(index(Some(vec![0xed, 0xa0, 0x80])), Reply { status: 500, body: String::new() });
    assert_eq!(index(Some(vec![0xe2, 0x82])), Reply { status: 500, body: String::new() });
}

#[test]
fn load_page_tells_missing_from_invalid() {
    assert_eq!(load_page(None), Err(PageError::Missing));
    assert_eq!(load_page(Some(vec![0x80])), Err(PageError::InvalidEncoding));
    assert_eq!(load_page(Some(b"<html></html>".to_vec())), Ok("<html></html>".to_string()));
}

#[test]
fn load_page_decodes_rather_than_copies_the_input() {
    let bytes = vec![0xe2, 0x82, 0xac];
    let page = load_page(Some(bytes)).expect("valid UTF-8");
    assert_eq!(page.chars().count(), 1);
    assert_eq!(page, "\u{20ac}");
}
