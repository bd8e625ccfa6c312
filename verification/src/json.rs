//! Extracting the JSON object from a raw server reply and reading its
//! string-valued fields.
use vstd::prelude::*;
use rustc_serialize::json::Json;
use vstd::utf8::*;
use vstd::string::StringSliceAdditionalSpecFns;
use crate::pattern::{regex_find, regex_first_match, matched_text, slice_between};

verus! {

/// The pattern that picks the JSON object out of a reply: from the first
/// `{` to the last `}` after it, across line breaks.
pub open spec fn json_object_pattern() -> Seq<char> {
    "\\{(\n|.)*\\}"@
}

/// One member of a JSON object as the lookup reads it: its key, and its
/// value when that value is a JSON string (`None` for any other value).
pub struct JsonMember {
    pub key: String,
    pub text: Option<String>,
}

/// A parsed JSON text as the lookup reads it.
pub enum JsonDocument {
    /// The text is not JSON.
    Malformed,
    /// The text is JSON but not an object.
    NotObject,
    /// The members of the object, in the order in which the parser hands
    /// them out.
    Object(Vec<JsonMember>),
}

pub struct JsonMemberView {
    pub key: Seq<char>,
    pub text: Option<Seq<char>>,
}

pub enum JsonDocumentView {
    Malformed,
    NotObject,
    Object(Seq<JsonMemberView>),
}

impl View for JsonMember {
    type V = JsonMemberView;

    open spec fn view(&self) -> JsonMemberView {
        JsonMemberView {
            key: self.key@,
            text: match self.text {
                Some(t) => Some(t@),
                None => None,
            },
        }
    }
}

impl View for JsonDocument {
    type V = JsonDocumentView;

    open spec fn view(&self) -> JsonDocumentView {
        match self {
            JsonDocument::Malformed => JsonDocumentView::Malformed,
            JsonDocument::NotObject => JsonDocumentView::NotObject,
            JsonDocument::Object(members) => JsonDocumentView::Object(
                members@.map_values(|m: JsonMember| m@),
            ),
        }
    }
}

/// What `rustc_serialize` makes of a JSON text, read as a `JsonDocument`.
pub uninterp spec fn parsed_json(text: Seq<char>) -> JsonDocumentView;

/// Parses `text` with `rustc_serialize::json::Json::from_str` and hands out
/// the result as a `JsonDocument`: a parse error becomes `Malformed`, a value
/// that is not `Json::Object` becomes `NotObject`, and each member of an
/// object becomes its key and, when the value is `Json::String`, that
/// string. The result is named `parsed_json`. Beside the name the contract
/// states that the members of an object have distinct keys: they come out
/// of the `BTreeMap` that the parser builds. That map also hands them out in
/// key order, which is not stated.
#[verifier::external_body]
pub(crate) fn parse_json_document(text: &str) -> (r: JsonDocument)
    ensures
        r@ == parsed_json(text@),
        r@ matches JsonDocumentView::Object(members) ==> forall|i: int, j: int|
            0 <= i < j < members.len() ==> #[trigger] members[i].key != #[trigger] members[j].key,
{
    match Json::from_str(text) {
        Err(_) => JsonDocument::Malformed,
        Ok(Json::Object(members)) => JsonDocument::Object(
            members.into_iter().map(|(key, value)| JsonMember {
                key,
                text: match value {
                    Json::String(s) => Some(s),
                    _ => None,
                },
            }).collect(),
        ),
        Ok(_) => JsonDocument::NotObject,
    }
}

/// The value of the first member named `key`: `None` when there is none,
/// `Some(Some(t))` for a string `t`, `Some(None)` for any other value.
pub open spec fn member_lookup(members: Seq<JsonMemberView>, key: Seq<char>) -> Option<Option<Seq<char>>>
    decreases members.len(),
{
    if members.len() == 0 {
        None
    } else if members[0].key == key {
        Some(members[0].text)
    } else {
        member_lookup(members.drop_first(), key)
    }
}

/// The text that `parser` returns for `title`: the string value of that
/// member, or the empty text when its value is not a string. `None` stands
/// for the documents on which no text is returned (not JSON, not an object,
/// no such member).
pub open spec fn spec_select_field(doc: JsonDocumentView, title: Seq<char>) -> Option<Seq<char>> {
    match doc {
        JsonDocumentView::Object(members) => match member_lookup(members, title) {
            Some(Some(t)) => Some(t),
            Some(None) => Some(Seq::empty()),
            None => None,
        },
        _ => None,
    }
}

/// Looks up the member `title` of a parsed document (see
/// `spec_select_field`).
pub fn select_field(doc: &JsonDocument, title: &String) -> (r: Option<String>)
    ensures
        match r {
            Some(t) => spec_select_field(doc@, title@) == Some(t@),
            None => spec_select_field(doc@, title@) is None,
        },
{
    match doc {
        JsonDocument::Object(members) => {
            let ghost all = doc@->Object_0;
            let n = members.len();
            let mut i: usize = 0;
            assert(all.skip(0) =~= all);
            while i < n
                invariant
                    n == members.len(),
                    i <= n,
                    all == members@.map_values(|m: JsonMember| m@),
                    doc@ == JsonDocumentView::Object(all),
                    member_lookup(all, title@) == member_lookup(all.skip(i as int), title@),
                decreases n - i,
            {
                assert(all.skip(i as int)[0] == all[i as int]);
                assert(all[i as int] == members@[i as int]@);
                if members[i].key == *title {
                    assert(member_lookup(all, title@) == Some(all[i as int].text));
                    match &members[i].text {
                        Some(t) => {
                            let found = t.clone();
                            assert(found@ == t@);
                            assert(all[i as int].text == Some(t@));
                            return Some(found);
                        },
                        None => {
                            let found = String::new();
                            assert(all[i as int].text is None);
                            return Some(found);
                        },
                    }
                }
                assert(all.skip(i as int).drop_first() =~= all.skip(i + 1));
                i = i + 1;
            }
            None
        },
        _ => None,
    }
}

/// Holds the JSON object cut out of a server reply.
pub struct JsonParser {
    pub json_content: String,
    pub output: String,
}

impl JsonParser {
    /// Keeps the part of `content` that the JSON object pattern matches
    /// (from the first `{` to the last `}` after it), or nothing when it
    /// does not match.
    pub fn new(content: String) -> (r: JsonParser)
        requires
            regex_first_match(json_object_pattern(), content@) is Some,
        ensures
            r.json_content@ == matched_text(json_object_pattern(), content@),
            r.output@ == Seq::<char>::empty(),
    {
        let text: &str = content.as_str();
        let result = regex_find("\\{(\n|.)*\\}", text);
        let mut start: usize = 0;
        let mut end: usize = 0;
        match result {
            Some(Some((x, y))) => {
                start = x;
                end = y;
            },
            _ => {},
        }
        proof {
            broadcast use encode_utf8_valid_utf8, is_char_boundary_start_end_of_seq;
            assert(valid_utf8(text.spec_bytes()));
        }
        let str_json = slice_between(text, start, end);
        assert(str_json@ =~= matched_text(json_object_pattern(), content@));
        JsonParser { json_content: str_json, output: String::new() }
    }

    /// `new` when the pattern compiles, `None` otherwise.
    pub fn try_new(content: String) -> (r: Option<JsonParser>)
        ensures
            r is Some <==> regex_first_match(json_object_pattern(), content@) is Some,
            r matches Some(p) ==> p.json_content@ == matched_text(json_object_pattern(), content@)
                && p.output@ == Seq::<char>::empty(),
    {
        if regex_find("\\{(\n|.)*\\}", content.as_str()).is_some() {
            Some(JsonParser::new(content))
        } else {
            None
        }
    }

    /// The string value of the member `title` of the held JSON object, or
    /// the empty text when that value is not a string.
    pub fn parser(&mut self, title: String) -> (r: String)
        requires
            spec_select_field(parsed_json(old(self).json_content@), title@) is Some,
        ensures
            spec_select_field(parsed_json(old(self).json_content@), title@) == Some(r@),
            *final(self) == *old(self),
    {
        let json = parse_json_document(self.json_content.as_str());
        match select_field(&json, &title) {
            Some(out) => out,
            None => String::new(),
        }
    }

    /// `parser` on the documents where it returns a text, `None` on the
    /// others (not JSON, not an object, no member `title`).
    pub fn try_parser(&mut self, title: String) -> (r: Option<String>)
        ensures
            r is Some <==> spec_select_field(parsed_json(old(self).json_content@), title@) is Some,
            r matches Some(t) ==> spec_select_field(parsed_json(old(self).json_content@), title@)
                == Some(t@),
            *final(self) == *old(self),
    {
        let json = parse_json_document(self.json_content.as_str());
        if select_field(&json, &title).is_some() {
            Some(self.parser(title))
        } else {
            None
        }
    }
}

} // verus!
