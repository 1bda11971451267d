use readwise_reader_tui::api::{authorization_value, list_query};
use readwise_reader_tui::document::Document;
use readwise_reader_tui::keys::{command_for, Command, KeyInput};
use readwise_reader_tui::ui::{
    article_text, content_from_render, error_line, help_text, line_count, list_title, read_title,
    tab_index, tab_titles, text_rows, Location, ViewState,
};

fn doc(title: &str) -> Document {
    Document {
        id: "1".to_string(),
        title: title.to_string(),
        author: None,
        source: None,
        site_name: None,
        source_url: String::new(),
        location: "new".to_string(),
        category: "article".to_string(),
        html_content: None,
        created_at: String::new(),
        published_date: None,
        summary: None,
        first_opened_at: None,
        tags: None,
        reading_progress: 0,
    }
}

#[test]
fn tab_index_of_locations() {
    assert_eq!(tab_index(&"new".to_string()), 0);
    assert_eq!(tab_index(&"later".to_string()), 1);
    assert_eq!(tab_index(&"archive".to_string()), 2);
    assert_eq!(tab_index(&"feed".to_string()), 3);
    assert_eq!(tab_index(&"shortlist".to_string()), 0);
}

#[test]
fn location_names_select_their_tabs() {
    for (l, i) in [(Location::New, 0), (Location::Later, 1), (Location::Archive, 2), (Location::Feed, 3)] {
        assert_eq!(tab_index(&l.name().to_string()), i);
    }
}

#[test]
fn tab_titles_in_order() {
    assert_eq!(tab_titles(), vec!["Inbox (1)", "Later (2)", "Archive (3)", "Feed (4)"]);
}

#[test]
fn help_text_per_view() {
    assert_eq!(
        help_text(&ViewState::List),
        " [j/k] Scroll | [Enter] Read | [m] Toggle Read | [a] Archive | [1-4] Tabs | [n/p] Page | [q] Quit "
    );
    let v = ViewState::Read { doc: doc("t"), content: String::new() };
    assert_eq!(help_text(&v), " [j/k] Scroll | [m] Toggle Read | [a] Archive | [Esc/q] Back to list ");
}

#[test]
fn error_line_text() {
    assert_eq!(error_line(&None), "");
    assert_eq!(error_line(&Some("boom".to_string())), " ERROR: boom");
}

#[test]
fn titles() {
    assert_eq!(list_title(&"later".to_string()), " LATER ");
    assert_eq!(list_title(&"straße".to_string()), " STRASSE ");
    assert_eq!(read_title(&doc("Hello")), " Hello ");
}

#[test]
fn line_count_as_lines_counts() {
    for s in ["", "a", "a\n", "a\nb", "a\r\nb\n", "\n\n", "\n", "é\nü"] {
        assert_eq!(line_count(s), s.lines().count(), "{:?}", s);
    }
}

#[test]
fn text_rows_leave_header_and_footer() {
    assert_eq!(text_rows(24), 20);
    assert_eq!(text_rows(4), 0);
    assert_eq!(text_rows(2), 0);
}

#[test]
fn article_text_renders_html() {
    let t = article_text(&Some("<p>Hello <b>world</b></p>".to_string()), 84);
    assert!(t.contains("Hello"));
    assert!(t.contains("world"));
    assert!(!t.contains("<p>"));
}

#[test]
fn article_text_without_html() {
    assert_eq!(article_text(&None, 80), "No content available.");
    assert_eq!(article_text(&None, 2), "No content available.");
}

#[test]
fn article_text_too_narrow() {
    assert_eq!(
        article_text(&Some("<p>x</p>".to_string()), 4),
        "Error parsing content: Output width not wide enough."
    );
}

#[test]
fn content_from_render_cases() {
    assert_eq!(content_from_render(Ok("text".to_string())), "text");
    assert_eq!(content_from_render(Err("bad".to_string())), "Error parsing content: bad");
}

#[test]
fn authorization_header_value() {
    assert_eq!(authorization_value("abc"), Some("Token abc".to_string()));
    assert_eq!(authorization_value(""), Some("Token ".to_string()));
    assert_eq!(authorization_value("a\tb é"), Some("Token a\tb é".to_string()));
}

#[test]
fn authorization_value_refuses_control_characters() {
    assert_eq!(authorization_value("a\nb"), None);
    assert_eq!(authorization_value("ab\u{7f}"), None);
    assert_eq!(authorization_value("\u{0}"), None);
}

fn pairs(v: &[(&str, &str)]) -> Vec<(String, String)> {
    v.iter().map(|(a, b)| (a.to_string(), b.to_string())).collect()
}

#[test]
fn list_query_for_a_page() {
    assert_eq!(list_query(Some("later"), None, None, false), pairs(&[("location", "later")]));
    assert_eq!(
        list_query(Some("new"), Some("c1".to_string()), None, false),
        pairs(&[("location", "new"), ("pageCursor", "c1")])
    );
}

#[test]
fn list_query_for_one_document() {
    assert_eq!(
        list_query(None, None, Some("doc9".to_string()), true),
        pairs(&[("id", "doc9"), ("withHtmlContent", "true")])
    );
}

#[test]
fn commands_in_the_list() {
    assert_eq!(command_for(false, KeyInput::Char('q')), Command::Quit);
    assert_eq!(command_for(false, KeyInput::Esc), Command::Quit);
    assert_eq!(command_for(false, KeyInput::Down), Command::SelectNext);
    assert_eq!(command_for(false, KeyInput::Char('k')), Command::SelectPrev);
    assert_eq!(command_for(false, KeyInput::Enter), Command::OpenSelected);
    assert_eq!(command_for(false, KeyInput::Char('3')), Command::SwitchTo(Location::Archive));
    assert_eq!(command_for(false, KeyInput::Char('l')), Command::MoveTo(Location::Later));
    assert_eq!(command_for(false, KeyInput::Char('n')), Command::NextPage);
    assert_eq!(command_for(false, KeyInput::Char('p')), Command::PreviousPage);
    assert_eq!(command_for(false, KeyInput::Char('x')), Command::Nothing);
}

#[test]
fn commands_in_the_reader() {
    assert_eq!(command_for(true, KeyInput::Char('q')), Command::CloseReader);
    assert_eq!(command_for(true, KeyInput::Esc), Command::CloseReader);
    assert_eq!(command_for(true, KeyInput::Char('j')), Command::ScrollDown);
    assert_eq!(command_for(true, KeyInput::Up), Command::ScrollUp);
    assert_eq!(command_for(true, KeyInput::Char('m')), Command::ToggleSeen);
    assert_eq!(command_for(true, KeyInput::Char('a')), Command::Archive);
    assert_eq!(command_for(true, KeyInput::Char('i')), Command::MoveTo(Location::New));
    assert_eq!(command_for(true, KeyInput::Char('1')), Command::Nothing);
    assert_eq!(command_for(true, KeyInput::Enter), Command::Nothing);
}

#[test]
fn authorization_value_agrees_with_header_rules() {
    for token in ["abc", "a b", "x\ty", "ünïcode", "a\nb", "a\rb", "\u{7f}", "\u{1f}", "~!@#"] {
        let ours = authorization_value(token);
        let theirs = reqwest::header::HeaderValue::from_str(&format!("Token {}", token));
        assert_eq!(ours.is_some(), theirs.is_ok(), "{:?}", token);
    }
}
