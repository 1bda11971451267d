use vstd::prelude::*;
use crate::document::opt_view;

verus! {

/// A character an HTTP header value may hold: a visible or extended
/// character, a space or a tab, but no other control character. A character
/// from 128 up is encoded in bytes from 128 up, which header values accept.
pub open spec fn header_char_ok(c: char) -> bool {
    (c as u32 >= 32 && c as u32 != 127) || c == '\t'
}

/// The value of the `Authorization` header for an API token, or nothing when
/// the token holds a character that a header value cannot carry.
pub fn authorization_value(token: &str) -> (r: Option<String>)
    ensures
        r is Some <==> forall|i: int| 0 <= i < token@.len() ==> header_char_ok(#[trigger] token@[i]),
        r matches Some(s) ==> s@ == "Token "@ + token@,
{
    broadcast use vstd::string::group_string_axioms;
    let n = token.unicode_len();
    for c in it: token.chars()
        invariant
            n == token@.len(),
            it.seq() == token@,
            forall|j: int| 0 <= j < it.index() ==> header_char_ok(#[trigger] token@[j]),
    {
        if !((c as u32 >= 32 && c as u32 != 127) || c == '\t') {
            return None;
        }
    }
    let mut s = String::from_str("Token ");
    s.append(token);
    Some(s)
}

/// The query parameters of a list request, as `(name, value)` views.
pub open spec fn spec_list_query(
    location: Option<Seq<char>>,
    page_cursor: Option<Seq<char>>,
    id: Option<Seq<char>>,
    with_html: bool,
) -> Seq<(Seq<char>, Seq<char>)> {
    let a: Seq<(Seq<char>, Seq<char>)> = match location {
        Some(l) => seq![("location"@, l)],
        None => Seq::empty(),
    };
    let b = match page_cursor {
        Some(c) => a.push(("pageCursor"@, c)),
        None => a,
    };
    let c = match id {
        Some(i) => b.push(("id"@, i)),
        None => b,
    };
    if with_html {
        c.push(("withHtmlContent"@, "true"@))
    } else {
        c
    }
}

/// The views of query parameters.
pub open spec fn pair_views(q: Seq<(String, String)>) -> Seq<(Seq<char>, Seq<char>)> {
    q.map_values(|p: (String, String)| (p.0@, p.1@))
}

/// The query parameters of a list request: the location, the page cursor and
/// the document id where given, and a request for the HTML content where wanted.
pub fn list_query(location: Option<&str>, page_cursor: Option<String>, id: Option<String>, with_html: bool) -> (r: Vec<(String, String)>)
    ensures
        pair_views(r@) == spec_list_query(
            match location {
                Some(l) => Some(l@),
                None => None,
            },
            opt_view(page_cursor),
            opt_view(id),
            with_html,
        ),
{
    let mut q: Vec<(String, String)> = Vec::new();
    match location {
        Some(l) => {
            q.push((String::from_str("location"), l.to_owned()));
        },
        None => {},
    }
    let ghost a = pair_views(q@);
    match page_cursor {
        Some(c) => {
            q.push((String::from_str("pageCursor"), c));
            assert(pair_views(q@) == a.push(pair_views(q@).last()));
        },
        None => {},
    }
    let ghost b = pair_views(q@);
    match id {
        Some(i) => {
            q.push((String::from_str("id"), i));
            assert(pair_views(q@) == b.push(pair_views(q@).last()));
        },
        None => {},
    }
    let ghost c = pair_views(q@);
    if with_html {
        q.push((String::from_str("withHtmlContent"), String::from_str("true")));
        assert(pair_views(q@) == c.push(pair_views(q@).last()));
    }
    q
}

/// The changes an update request asks for; `None` leaves a field as it is.
/// `reading_progress` is the bit pattern of the reading fraction.
#[derive(Clone, Debug)]
pub struct UpdateDocumentRequest {
    pub seen: Option<bool>,
    pub location: Option<String>,
    pub reading_progress: Option<u32>,
    pub tags: Option<Vec<String>>,
}

} // verus!
