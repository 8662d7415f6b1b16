//! Scripts for the embedded view: status pages while the server is being set
//! up, error pages when setup fails, and the navigation to the live server.
//!
//! The functions only build the script text. Handing it to the view is the
//! caller's business, from whatever thread drives the setup.

use vstd::prelude::*;
use vstd::string::*;

verus! {

/// Opening of every status page: the assignment to the document body.
pub const PAGE_OPEN: &'static str = "document.body.innerHTML = '";

/// The centred, dark container that holds a status page's content.
pub const CONTAINER_OPEN: &'static str = "<div style=\"display:flex;align-items:center;\
justify-content:center;height:100vh;font-family:sans-serif;flex-direction:column;\
background:#09090b;color:#fafafa;gap:16px\">";

/// Markup in front of an error page's title.
pub const TITLE_OPEN: &'static str = "<h2 style=\"font-size:20px\">";

/// Markup between an error page's title and its message.
pub const TITLE_TO_MESSAGE: &'static str = "</h2>\
<p style=\"color:#71717a;font-size:14px;max-width:400px;text-align:center\">";

/// Closing of an error page.
pub const ERROR_CLOSE: &'static str = "</p></div>'";

/// The spinner of a loading page and the markup in front of its message.
pub const SPINNER: &'static str = "<div style=\"width:32px;height:32px;border:3px solid #27272a;\
border-top-color:#fafafa;border-radius:50%;animation:spin 0.8s linear infinite\"></div>\
<p style=\"color:#71717a;font-size:14px\">";

/// Closing of a loading page, with the spinner's animation.
pub const LOADING_CLOSE: &'static str = "</p></div>\
<style>@keyframes spin{from{transform:rotate(0deg)}to{transform:rotate(360deg)}}</style>'";

/// Text in front of the address in a navigation script.
pub const NAVIGATE_OPEN: &'static str = "window.location.replace('";

/// Text behind the address in a navigation script.
pub const NAVIGATE_CLOSE: &'static str = "')";

/// What a character of a text becomes inside the quoted literal of a
/// script: a backslash, a quote, a line feed and a carriage return are
/// written as escapes, every other character as itself.
pub open spec fn escaped_char(c: char) -> Seq<char> {
    if c == '\\' {
        seq!['\\', '\\']
    } else if c == '\'' {
        seq!['\\', '\'']
    } else if c == '\n' {
        seq!['\\', 'n']
    } else if c == '\r' {
        seq!['\\', 'r']
    } else {
        seq![c]
    }
}

/// `text` as it is written inside the quoted literal of a script.
pub open spec fn escaped(text: Seq<char>) -> Seq<char>
    decreases text.len(),
{
    if text.len() == 0 {
        Seq::empty()
    } else {
        escaped_char(text[0]) + escaped(text.drop_first())
    }
}

/// Whether `text` can stand inside a quoted literal without ending it: it
/// holds no line break, every backslash in it begins one of the escapes
/// that [`escaped_char`] writes, and no quote stands outside such an escape.
pub open spec fn literal_safe(text: Seq<char>) -> bool
    decreases text.len(),
{
    if text.len() == 0 {
        true
    } else if text[0] == '\\' {
        &&& text.len() >= 2
        &&& text[1] == '\\' || text[1] == '\'' || text[1] == 'n' || text[1] == 'r'
        &&& literal_safe(text.skip(2))
    } else {
        &&& text[0] != '\''
        &&& text[0] != '\n'
        &&& text[0] != '\r'
        &&& literal_safe(text.drop_first())
    }
}

/// Whether `text` holds none of the characters that are written as escapes.
pub open spec fn is_plain(text: Seq<char>) -> bool {
    forall|i: int|
        0 <= i < text.len() ==> (#[trigger] text[i]) != '\\' && text[i] != '\'' && text[i] != '\n'
            && text[i] != '\r'
}

/// The script that replaces the view's content with an error page showing
/// `title` and `message`, both inserted as they are.
pub open spec fn error_page(title: Seq<char>, message: Seq<char>) -> Seq<char> {
    PAGE_OPEN@ + CONTAINER_OPEN@ + TITLE_OPEN@ + title + TITLE_TO_MESSAGE@ + message
        + ERROR_CLOSE@
}

/// The script that replaces the view's content with a spinner above
/// `message`, inserted as it is.
pub open spec fn loading_page(message: Seq<char>) -> Seq<char> {
    PAGE_OPEN@ + CONTAINER_OPEN@ + SPINNER@ + message + LOADING_CLOSE@
}

/// The script that sends the view to `url`, replacing the current page.
pub open spec fn navigation(url: Seq<char>) -> Seq<char> {
    NAVIGATE_OPEN@ + url + NAVIGATE_CLOSE@
}

/// Writes `text` as it stands inside the quoted literal of a script.
pub fn escape(text: &str) -> (written: String)
    ensures
        written@ == escaped(text@),
{
    let length: usize = text.unicode_len();
    let mut written = String::new();
    let mut i: usize = 0;
    proof {
        reveal_strlit("\\\\");
        reveal_strlit("\\'");
        reveal_strlit("\\n");
        reveal_strlit("\\r");
        assert("\\\\"@ =~= seq!['\\', '\\']);
        assert("\\'"@ =~= seq!['\\', '\'']);
        assert("\\n"@ =~= seq!['\\', 'n']);
        assert("\\r"@ =~= seq!['\\', 'r']);
        assert(text@.skip(0) =~= text@);
        assert(written@ + escaped(text@) =~= escaped(text@));
    }
    while i < length
        invariant
            i <= length,
            length == text@.len(),
            written@ + escaped(text@.skip(i as int)) == escaped(text@),
            "\\\\"@ == seq!['\\', '\\'],
            "\\'"@ == seq!['\\', '\''],
            "\\n"@ == seq!['\\', 'n'],
            "\\r"@ == seq!['\\', 'r'],
        decreases length - i,
    {
        let c = text.get_char(i);
        proof {
            let rest = text@.skip(i as int);
            assert(rest[0] == c);
            assert(rest.drop_first() == text@.skip(i + 1));
            assert(text@.subrange(i as int, i + 1) == seq![c]);
        }
        if c == '\\' {
            written.append("\\\\");
        } else if c == '\'' {
            written.append("\\'");
        } else if c == '\n' {
            written.append("\\n");
        } else if c == '\r' {
            written.append("\\r");
        } else {
            written.append(text.substring_char(i, i + 1));
        }
        i = i + 1;
        proof {
            let head = escaped_char(c);
            let tail = escaped(text@.skip(i as int));
            assert(escaped(text@.skip(i - 1)) == head + tail);
            assert(written@ + tail =~= (written@.subrange(0, written@.len() - head.len()) + head)
                + tail);
            assert((written@.subrange(0, written@.len() - head.len()) + head) + tail
                =~= written@.subrange(0, written@.len() - head.len()) + (head + tail));
        }
    }
    proof {
        assert(text@.skip(i as int) =~= Seq::<char>::empty());
        assert(written@ + Seq::<char>::empty() =~= written@);
    }
    written
}

/// Builds the error page script for `title` and `message`. Both are
/// escaped, so that whatever they hold is shown as text and cannot end the
/// literal that the page is written in.
pub fn show_error(title: &str, message: &str) -> (script: String)
    ensures
        script@ == error_page(escaped(title@), escaped(message@)),
{
    let title = escape(title);
    let message = escape(message);
    let title = title.as_str();
    let message = message.as_str();
    let mut script = String::from_str(PAGE_OPEN);
    script.append(CONTAINER_OPEN);
    script.append(TITLE_OPEN);
    script.append(title);
    script.append(TITLE_TO_MESSAGE);
    script.append(message);
    script.append(ERROR_CLOSE);
    script
}

/// Builds the loading page script for `message`, which is escaped as in
/// [`show_error`].
pub fn show_loading(message: &str) -> (script: String)
    ensures
        script@ == loading_page(escaped(message@)),
{
    let message = escape(message);
    let message = message.as_str();
    let mut script = String::from_str(PAGE_OPEN);
    script.append(CONTAINER_OPEN);
    script.append(SPINNER);
    script.append(message);
    script.append(LOADING_CLOSE);
    script
}

/// Builds the script that navigates the view to `url`, inserted as it is.
pub fn navigate(url: &str) -> (script: String)
    ensures
        script@ == navigation(url@),
{
    let mut script = String::from_str(NAVIGATE_OPEN);
    script.append(url);
    script.append(NAVIGATE_CLOSE);
    script
}

/// Escaped text never ends the literal it is written in: it holds no bare
/// quote, backslash or line break.
pub proof fn lemma_escaped_is_safe(text: Seq<char>)
    ensures
        literal_safe(escaped(text)),
    decreases text.len(),
{
    if text.len() > 0 {
        let rest = escaped(text.drop_first());
        let whole = escaped(text);
        lemma_escaped_is_safe(text.drop_first());
        let c = text[0];
        if c == '\\' || c == '\'' || c == '\n' || c == '\r' {
            assert(whole.skip(2) == rest);
        } else {
            assert(whole.drop_first() == rest);
        }
    }
}

/// Text without a quote, backslash or line break is written as it is.
pub proof fn lemma_plain_text_is_kept(text: Seq<char>)
    requires
        is_plain(text),
    ensures
        escaped(text) == text,
    decreases text.len(),
{
    if text.len() > 0 {
        let rest = text.drop_first();
        assert forall|i: int| 0 <= i < rest.len() implies (#[trigger] rest[i]) != '\\' && rest[i]
            != '\'' && rest[i] != '\n' && rest[i] != '\r' by {
            assert(rest[i] == text[i + 1]);
        }
        lemma_plain_text_is_kept(rest);
        assert(text[0] != '\\');
        assert(seq![text[0]] + rest == text);
    }
}

/// A navigation script is never mistaken for a status page: the two begin
/// with different characters.
pub proof fn lemma_navigation_is_no_page()
    ensures
        forall|url: Seq<char>, title: Seq<char>, message: Seq<char>|
            #[trigger] navigation(url) != #[trigger] error_page(title, message),
        forall|url: Seq<char>, message: Seq<char>|
            #[trigger] navigation(url) != #[trigger] loading_page(message),
{
    reveal_strlit("window.location.replace('");
    reveal_strlit("document.body.innerHTML = '");
    assert(NAVIGATE_OPEN@[0] == 'w');
    assert(PAGE_OPEN@[0] == 'd');
    assert forall|url: Seq<char>, title: Seq<char>, message: Seq<char>|
        #[trigger] navigation(url) != #[trigger] error_page(title, message) by {
        assert(navigation(url)[0] == 'w');
        assert(error_page(title, message)[0] == 'd');
    }
    assert forall|url: Seq<char>, message: Seq<char>|
        #[trigger] navigation(url) != #[trigger] loading_page(message) by {
        assert(navigation(url)[0] == 'w');
        assert(loading_page(message)[0] == 'd');
    }
}

} // verus!
