use web_search_mcp::reader::{fetch_page, metadata_from, page_from_text, page_metadata_from, PageMetadata, ReaderError};
use web_search_mcp::results::SelectedElement;

#[test]
fn test_fetch_page_basic() {
    let url = "http://127.0.0.1:1234/testpage";
    let html_content = r#"
        <html>
            <body>
                <h1>Hello World</h1>
                <p>This is a test page.</p>
            </body>
        </html>
    "#;
    let res = fetch_page(url, html_content, false, 15000).unwrap();
    assert_eq!(res.url, url);
    assert!(res.content.contains("Hello World"));
    assert!(res.content.contains("This is a test page."));
    assert_eq!(res.length, res.content.len());
    assert!(res.metadata.is_none());
}

#[test]
fn test_fetch_page_empty_response() {
    let res = fetch_page("http://x/empty", "", false, 15000);
    assert_eq!(res.clone().unwrap_err(), ReaderError::CouldNotDownload);
    assert!(res.unwrap_err().message().contains("Could not download content"));
}

#[test]
fn test_fetch_page_no_readable_text() {
    let res = fetch_page("http://x/no-text", "<html><body></body></html>", false, 15000);
    match res {
        Err(e) => assert!(e.message().contains("No readable text found")),
        Ok(_) => panic!("Should have failed with 'No readable text found'"),
    }
}

#[test]
fn page_text_is_trimmed_and_cut_by_characters() {
    let p = page_from_text("u", "  héllo world \n", None, 3).unwrap();
    assert_eq!(p.length, 12);
    assert_eq!(p.content, "hél");
    let q = page_from_text("u", "abc", None, 3).unwrap();
    assert_eq!(q.content, "abc");
    let r = page_from_text("u", "éa", None, 2).unwrap();
    assert_eq!(r.content, "éa");
    assert_eq!(page_from_text("u", " \n ", None, 3).unwrap_err(), ReaderError::NoReadableText);
}

#[test]
fn multibyte_text_is_never_refused() {
    let p = fetch_page("u", "<p>éa</p>", false, 1).unwrap();
    assert_eq!(p.content, "é");
    let p = fetch_page("u", "<p>é</p>", false, 2).unwrap();
    assert_eq!(p.content, "é");
}

#[test]
fn metadata_is_read_when_asked() {
    let html = r#"<html><head><title>  My Page </title>
        <meta name="description" content="About things"></head>
        <body><p>Body text</p></body></html>"#;
    let p = fetch_page("u", html, true, 100).unwrap();
    let m = p.metadata.unwrap();
    assert_eq!(m.title.as_deref(), Some("My Page"));
    assert_eq!(m.description.as_deref(), Some("About things"));
    assert!(p.content.contains("Body text"));
    let none = page_metadata_from("<p>no head</p>");
    assert_eq!(none.title, None);
    assert_eq!(none.description, None);
}

#[test]
fn metadata_from_elements() {
    let titles = Some(vec![
        SelectedElement { attribute: None, texts: vec![" a".to_string(), "b ".to_string()] },
        SelectedElement { attribute: None, texts: vec!["second".to_string()] },
    ]);
    let descriptions = Some(vec![SelectedElement { attribute: Some("d".to_string()), texts: vec![] }]);
    let m: PageMetadata = metadata_from(&titles, &descriptions);
    assert_eq!(m.title.as_deref(), Some("ab"));
    assert_eq!(m.description.as_deref(), Some("d"));
    let empty = metadata_from(&Some(vec![]), &None);
    assert_eq!(empty.title, None);
    assert_eq!(empty.description, None);
}
