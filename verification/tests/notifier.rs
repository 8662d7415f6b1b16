use server_bootstrap::notifier::{escape, navigate, show_error, show_loading};

#[test]
fn error_page_holds_title_and_message() {
    assert_eq!(
        show_error("Setup Failed", "Invalid zip entry name"),
        "document.body.innerHTML = '<div style=\"display:flex;align-items:center;\
         justify-content:center;height:100vh;font-family:sans-serif;flex-direction:column;\
         background:#09090b;color:#fafafa;gap:16px\">\
         <h2 style=\"font-size:20px\">Setup Failed</h2>\
         <p style=\"color:#71717a;font-size:14px;max-width:400px;text-align:center\">\
         Invalid zip entry name</p></div>'"
    );
}

#[test]
fn loading_page_holds_spinner_and_message() {
    assert_eq!(
        show_loading("Preparing application..."),
        "document.body.innerHTML = '<div style=\"display:flex;align-items:center;\
         justify-content:center;height:100vh;font-family:sans-serif;flex-direction:column;\
         background:#09090b;color:#fafafa;gap:16px\">\
         <div style=\"width:32px;height:32px;border:3px solid #27272a;border-top-color:#fafafa;\
         border-radius:50%;animation:spin 0.8s linear infinite\"></div>\
         <p style=\"color:#71717a;font-size:14px\">Preparing application...</p></div>\
         <style>@keyframes spin{from{transform:rotate(0deg)}to{transform:rotate(360deg)}}</style>'"
    );
}

#[test]
fn empty_texts_leave_the_markup_intact() {
    let page = show_error("", "");
    assert!(page.starts_with("document.body.innerHTML = '<div style="));
    assert!(page.contains("<h2 style=\"font-size:20px\"></h2>"));
    assert!(page.ends_with("text-align:center\"></p></div>'"));
}

#[test]
fn navigation_replaces_the_location() {
    assert_eq!(
        navigate("http://127.0.0.1:13210"),
        "window.location.replace('http://127.0.0.1:13210')"
    );
}

#[test]
fn escape_writes_quote_backslash_and_line_breaks_as_escapes() {
    assert_eq!(escape("it's"), "it\\'s");
    assert_eq!(escape("C:\\users\\x"), "C:\\\\users\\\\x");
    assert_eq!(escape("one\ntwo\r\n"), "one\\ntwo\\r\\n");
    assert_eq!(escape("\\'"), "\\\\\\'");
}

#[test]
fn escape_keeps_plain_text() {
    assert_eq!(escape(""), "");
    assert_eq!(escape("Preparing application..."), "Preparing application...");
    assert_eq!(escape("süß \"quoted\" <b>"), "süß \"quoted\" <b>");
}

#[test]
fn error_page_for_a_windows_path_stays_one_literal() {
    let page = show_error("Setup Failed", "Failed to open zip: C:\\users\\x: it's gone\n");
    assert!(page.contains("Failed to open zip: C:\\\\users\\\\x: it\\'s gone\\n</p></div>'"));
    let literal = &page["document.body.innerHTML = '".len()..page.len() - 1];
    let mut chars = literal.chars();
    while let Some(c) = chars.next() {
        assert!(c != '\'' && c != '\n' && c != '\r');
        if c == '\\' {
            assert!(matches!(chars.next(), Some('\\') | Some('\'') | Some('n') | Some('r')));
        }
    }
}

#[test]
fn loading_page_escapes_its_message() {
    let page = show_loading("don't close");
    assert!(page.contains("<p style=\"color:#71717a;font-size:14px\">don\\'t close</p>"));
}
