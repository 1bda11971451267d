use vstd::prelude::*;
use crate::document::{Document, text_is};

verus! {

/// What the main area shows: the list of documents, or one document being read.
#[derive(Clone, Debug)]
pub enum ViewState {
    List,
    Read { doc: Document, content: String },
}

/// The locations a document can be filed under, in the order of their tabs.
#[derive(Clone, Copy, PartialEq, Eq, Debug)]
pub enum Location {
    New,
    Later,
    Archive,
    Feed,
}

impl Location {
    /// The name the service gives the location.
    pub open spec fn spec_name(self) -> Seq<char> {
        match self {
            Location::New => "new"@,
            Location::Later => "later"@,
            Location::Archive => "archive"@,
            Location::Feed => "feed"@,
        }
    }

    /// The position of the location's tab.
    pub open spec fn tab(self) -> usize {
        match self {
            Location::New => 0,
            Location::Later => 1,
            Location::Archive => 2,
            Location::Feed => 3,
        }
    }

    /// The name the service gives the location.
    pub fn name(self) -> (r: &'static str)
        ensures
            r@ == self.spec_name(),
    {
        match self {
            Location::New => "new",
            Location::Later => "later",
            Location::Archive => "archive",
            Location::Feed => "feed",
        }
    }
}

/// The tab highlighted for a location name; the inbox's for a name it does not know.
pub open spec fn spec_tab_index(location: Seq<char>) -> usize {
    if location == "later"@ {
        1
    } else if location == "archive"@ {
        2
    } else if location == "feed"@ {
        3
    } else {
        0
    }
}

/// The index of the tab to highlight for `location`.
pub fn tab_index(location: &String) -> (r: usize)
    ensures
        r == spec_tab_index(location@),
{
    proof {
        reveal_strlit("new");
        reveal_strlit("later");
        reveal_strlit("archive");
        reveal_strlit("feed");
        assert("new"@.len() == 3);
        assert("later"@.len() == 5);
        assert("archive"@.len() == 7);
        assert("feed"@.len() == 4);
    }
    if text_is(location, "new") {
        0
    } else if text_is(location, "later") {
        1
    } else if text_is(location, "archive") {
        2
    } else if text_is(location, "feed") {
        3
    } else {
        0
    }
}

/// Switching to a location's tab highlights that tab.
pub proof fn law_tab_of_location(l: Location)
    ensures
        spec_tab_index(l.spec_name()) == l.tab(),
{
    reveal_strlit("new");
    reveal_strlit("later");
    reveal_strlit("archive");
    reveal_strlit("feed");
    match l {
        Location::New => {
            assert("new"@.len() == 3);
            assert("later"@.len() == 5);
            assert("archive"@.len() == 7);
            assert("feed"@[0] == 'f');
        },
        Location::Later => {},
        Location::Archive => {
            assert("archive"@.len() == 7);
            assert("later"@.len() == 5);
        },
        Location::Feed => {
            assert("feed"@.len() == 4);
            assert("later"@.len() == 5);
            assert("archive"@.len() == 7);
        },
    }
}

/// The titles of the tabs, in order.
pub fn tab_titles() -> (r: Vec<&'static str>)
    ensures
        r@.len() == 4,
        r@[0]@ == "Inbox (1)"@,
        r@[1]@ == "Later (2)"@,
        r@[2]@ == "Archive (3)"@,
        r@[3]@ == "Feed (4)"@,
{
    let mut v: Vec<&'static str> = Vec::new();
    v.push("Inbox (1)");
    v.push("Later (2)");
    v.push("Archive (3)");
    v.push("Feed (4)");
    v
}

/// The key help shown in the footer of each view.
pub fn help_text(view: &ViewState) -> (r: &'static str)
    ensures
        r@ == (match view {
            ViewState::List => " [j/k] Scroll | [Enter] Read | [m] Toggle Read | [a] Archive | [1-4] Tabs | [n/p] Page | [q] Quit "@,
            ViewState::Read { .. } => " [j/k] Scroll | [m] Toggle Read | [a] Archive | [Esc/q] Back to list "@,
        }),
{
    match view {
        ViewState::List => " [j/k] Scroll | [Enter] Read | [m] Toggle Read | [a] Archive | [1-4] Tabs | [n/p] Page | [q] Quit ",
        ViewState::Read { .. } => " [j/k] Scroll | [m] Toggle Read | [a] Archive | [Esc/q] Back to list ",
    }
}

/// The error text shown in the footer, empty when there is no error.
pub fn error_line(error: &Option<String>) -> (r: String)
    ensures
        r@ == (match error {
            Some(e) => " ERROR: "@ + e@,
            None => Seq::<char>::empty(),
        }),
{
    match error {
        Some(e) => {
            let mut s = String::from_str(" ERROR: ");
            s.append(e.as_str());
            s
        },
        None => String::new(),
    }
}

/// What the std library's `str::to_uppercase` gives for a text.
pub uninterp spec fn upper_case(s: Seq<char>) -> Seq<char>;

/// A character in capitals by the ASCII rule: `a` to `z` become `A` to `Z`,
/// every other character stays.
pub open spec fn ascii_upper(c: char) -> char {
    if 'a' <= c <= 'z' {
        ((c as u32) - 32) as char
    } else {
        c
    }
}

/// For an ASCII text the Unicode mapping is the ASCII rule, character by character.
pub open spec fn upper_agrees_on_ascii(s: Seq<char>, r: Seq<char>) -> bool {
    (forall|i: int| 0 <= i < s.len() ==> (#[trigger] s[i] as u32) < 128) ==> r == s.map_values(
        |c: char| ascii_upper(c),
    )
}

/// Calls `str::to_uppercase`. The contract names the result as a function of
/// the text alone; of the Unicode case mapping it states only the part for
/// ASCII text, where letters `a` to `z` become `A` to `Z` and the rest stays.
#[verifier::external_body]
fn to_upper(s: &str) -> (r: String)
    ensures
        r@ == upper_case(s@),
        upper_agrees_on_ascii(s@, r@),
{
    s.to_uppercase()
}

/// The title of the list's frame: the location in capitals, padded by a space.
pub fn list_title(location: &String) -> (r: String)
    ensures
        r@ == " "@ + upper_case(location@) + " "@,
        upper_agrees_on_ascii(location@, upper_case(location@)),
{
    let mut s = String::from_str(" ");
    s.append(to_upper(location.as_str()).as_str());
    s.append(" ");
    s
}

/// The title of the reader's frame: the document's title, padded by a space.
pub fn read_title(doc: &Document) -> (r: String)
    ensures
        r@ == " "@ + doc.title@ + " "@,
{
    let mut s = String::from_str(" ");
    s.append(doc.title.as_str());
    s.append(" ");
    s
}

/// The number of line breaks in a text.
pub open spec fn newline_count(s: Seq<char>) -> nat
    decreases s.len(),
{
    if s.len() == 0 {
        0
    } else {
        newline_count(s.drop_last()) + if s.last() == '\n' { 1nat } else { 0nat }
    }
}

/// The number of lines in a text, as the std library's `str::lines` counts
/// them: one per line break, and one more for text after the last break.
pub open spec fn spec_line_count(s: Seq<char>) -> nat {
    if s.len() == 0 {
        0
    } else if s.last() == '\n' {
        newline_count(s)
    } else {
        newline_count(s) + 1
    }
}

proof fn lemma_newline_count_bound(s: Seq<char>)
    ensures
        newline_count(s) <= s.len(),
    decreases s.len(),
{
    if s.len() > 0 {
        lemma_newline_count_bound(s.drop_last());
    }
}

/// The number of lines of `s`.
pub fn line_count(s: &str) -> (r: usize)
    ensures
        r == spec_line_count(s@),
{
    broadcast use vstd::string::group_string_axioms;
    let n = s.unicode_len();
    let mut count: usize = 0;
    let mut last: Option<char> = None;
    for c in it: s.chars()
        invariant
            n == s@.len(),
            it.seq() == s@,
            count == newline_count(s@.take(it.index())),
            last == (if it.index() == 0 { None } else { Some(s@[it.index() - 1]) }),
    {
        let ghost i = it.index();
        assert(s@.take(i + 1).drop_last() == s@.take(i));
        proof {
            lemma_newline_count_bound(s@.take(i));
        }
        if c == '\n' {
            count = count + 1;
        }
        last = Some(c);
    }
    assert(s@.take(n as int) == s@);
    proof {
        if n > 0 {
            lemma_newline_count_bound(s@.drop_last());
        }
    }
    match last {
        Some(c) => {
            if c == '\n' {
                count
            } else {
                count + 1
            }
        },
        None => 0,
    }
}

/// The rows left for text once the header (three rows) and the footer (one
/// row) are drawn.
pub fn text_rows(terminal_height: u16) -> (r: u16)
    ensures
        r == (if terminal_height >= 4 { terminal_height - 4 } else { 0 }),
{
    terminal_height.saturating_sub(4)
}


/// What `html2text::from_read` gives for an HTML text wrapped to `width`
/// columns: the text, or the message of its error.
pub uninterp spec fn rendered_html(html: Seq<char>, width: usize) -> Result<Seq<char>, Seq<char>>;

/// The views of a text or an error message.
pub open spec fn result_views(r: Result<String, String>) -> Result<Seq<char>, Seq<char>> {
    match r {
        Ok(t) => Ok(t@),
        Err(e) => Err(e@),
    }
}

/// A width of zero is refused as too narrow.
pub open spec fn refused_when_too_narrow(r: Result<Seq<char>, Seq<char>>, width: usize) -> bool {
    width == 0 ==> r == Err::<Seq<char>, Seq<char>>("Output width not wide enough."@)
}

/// Renders HTML as plain text wrapped to `width` columns with
/// `html2text::from_read`, giving the error's message when it fails. The
/// contract names the outcome as a function of the two arguments; of the
/// rendering itself it states only what the crate's source shows for a width
/// of zero, which is refused as too narrow.
#[verifier::external_body]
fn render_html(html: &str, width: usize) -> (r: Result<String, String>)
    ensures
        result_views(r) == rendered_html(html@, width),
        refused_when_too_narrow(result_views(r), width),
{
    match html2text::from_read(html.as_bytes(), width) {
        Ok(text) => Ok(text),
        Err(e) => Err(e.to_string()),
    }
}

/// The text shown for the outcome of rendering a document's HTML: the text,
/// or the error's message after `Error parsing content: `.
pub fn content_from_render(rendered: Result<String, String>) -> (r: String)
    ensures
        r@ == (match result_views(rendered) {
            Ok(t) => t,
            Err(e) => "Error parsing content: "@ + e,
        }),
{
    match rendered {
        Ok(text) => text,
        Err(e) => {
            let mut s = String::from_str("Error parsing content: ");
            s.append(e.as_str());
            s
        },
    }
}

/// The text the reader shows for a document's HTML in a terminal
/// `terminal_width` columns wide: the HTML rendered four columns narrower,
/// or a notice when the document has no HTML, whatever the width.
pub fn article_text(html: &Option<String>, terminal_width: u16) -> (r: String)
    requires
        html is Some ==> terminal_width >= 4,
    ensures
        r@ == (match html {
            Some(h) => match rendered_html(h@, (terminal_width - 4) as usize) {
                Ok(t) => t,
                Err(e) => "Error parsing content: "@ + e,
            },
            None => "No content available."@,
        }),
{
    match html {
        Some(h) => {
            let width: usize = (terminal_width as usize) - 4;
            content_from_render(render_html(h.as_str(), width))
        },
        None => String::from_str("No content available."),
    }
}


/// The inbox is the location a default configuration opens on, and each
/// location's name is one the tabs recognize by name: no two locations share
/// a name, and the tab of each name is that location's tab.
pub proof fn law_location_names(l: Location, m: Location)
    ensures
        Location::New.spec_name() == crate::config::merged_location(None, None),
        l != m ==> l.spec_name() != m.spec_name(),
        spec_tab_index(l.spec_name()) == l.tab(),
        Location::Later.spec_name() != Location::New.spec_name(),
{
    law_tab_of_location(l);
    law_tab_of_location(m);
    reveal_strlit("new");
    reveal_strlit("later");
    reveal_strlit("archive");
    reveal_strlit("feed");
    assert("new"@.len() == 3);
    assert("later"@.len() == 5);
    assert("archive"@.len() == 7);
    assert("feed"@.len() == 4);
}

} // verus!
