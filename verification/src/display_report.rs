//! The names of the displays in the system's display report (a JSON
//! document): the report's bytes are parsed into a `JsonValue`, and each
//! display entry that carries a readable display id gives that id and its
//! name.
use vstd::prelude::*;
use crate::platform::{display_id_of_text, parse_display_id};
use crate::text::{chars_of, string_from_chars};

verus! {

/// A JSON value, with numbers kept as their text and objects as their
/// entries in order.
pub enum JsonValue {
    Null,
    Bool(bool),
    Number(String),
    Text(String),
    Array(Vec<JsonValue>),
    Object(Vec<(String, JsonValue)>),
}

/// `serde_json`'s JSON value.
#[verifier::external_type_specification]
#[verifier::external_body]
pub struct ExJsonValue(serde_json::Value);

/// What `serde_json::from_slice` makes of `bytes` as a JSON document,
/// written as a `JsonValue` (`None` when they are not one).
pub uninterp spec fn report_json_of(bytes: Seq<u8>) -> Option<JsonValue>;

/// `serde_json`'s value as a `JsonValue`, one for one: numbers as their
/// text, objects as their entries in the order of serde's map.
///
/// Trusted: reads the variants of `serde_json::Value`; it is the conversion
/// step of `parse_report`, whose contract names the whole result, so
/// nothing is stated of it on its own.
#[verifier::external_body]
fn json_from_serde(v: &serde_json::Value) -> JsonValue {
    match v {
        serde_json::Value::Null => JsonValue::Null,
        serde_json::Value::Bool(b) => JsonValue::Bool(*b),
        serde_json::Value::Number(n) => JsonValue::Number(n.to_string()),
        serde_json::Value::String(s) => JsonValue::Text(s.clone()),
        serde_json::Value::Array(a) => JsonValue::Array(a.iter().map(json_from_serde).collect()),
        serde_json::Value::Object(o) => JsonValue::Object(o.iter().map(|(k, x)| (k.clone(), json_from_serde(x))).collect()),
    }
}

/// The JSON document in `bytes`, if they hold one.
///
/// Trusted: calls `serde_json::from_slice` for a `serde_json::Value`, whose
/// result depends on the bytes alone (objects keep serde's sorted key
/// order), and turns the value into a `JsonValue` one for one; the result is
/// named `report_json_of`.
#[verifier::external_body]
fn parse_report(bytes: &Vec<u8>) -> (r: Option<JsonValue>)
    ensures
        r == report_json_of(bytes@),
{
    match serde_json::from_slice::<serde_json::Value>(bytes) {
        Ok(v) => Some(json_from_serde(&v)),
        Err(_) => None,
    }
}

/// The value of the first entry named `key`.
pub open spec fn field_in(entries: Seq<(String, JsonValue)>, key: Seq<char>) -> Option<JsonValue>
    decreases entries.len(),
{
    if entries.len() == 0 {
        None
    } else if entries[0].0@ == key {
        Some(entries[0].1)
    } else {
        field_in(entries.drop_first(), key)
    }
}

/// The field `key` of `v`, when `v` is an object that has one.
pub open spec fn field(v: JsonValue, key: Seq<char>) -> Option<JsonValue> {
    match v {
        JsonValue::Object(entries) => field_in(entries@, key),
        _ => None,
    }
}

/// The text of a value that is a string.
pub open spec fn text_of(v: Option<JsonValue>) -> Option<Seq<char>> {
    match v {
        Some(JsonValue::Text(s)) => Some(s@),
        _ => None,
    }
}

/// The items of a value that is an array; none for anything else.
pub open spec fn items_of(v: Option<JsonValue>) -> Seq<JsonValue> {
    match v {
        Some(JsonValue::Array(a)) => a@,
        _ => Seq::empty(),
    }
}

/// The id and name of a display entry: its "_spdisplays_displayID" read as
/// a display id (an entry without a readable one gives nothing), and its
/// "_name", or "Unknown" when it has none.
pub open spec fn display_entry(d: JsonValue) -> Option<(u64, Seq<char>)> {
    let name = match text_of(field(d, "_name"@)) {
        Some(n) => n,
        None => "Unknown"@,
    };
    let id_text = match text_of(field(d, "_spdisplays_displayID"@)) {
        Some(t) => t,
        None => Seq::empty(),
    };
    match display_id_of_text(id_text) {
        Some(id) => Some((id as u64, name)),
        None => None,
    }
}

/// The entries of the first `n` displays of a graphics card.
pub open spec fn card_entries(displays: Seq<JsonValue>, n: int) -> Seq<(u64, Seq<char>)>
    decreases n,
{
    if n <= 0 {
        Seq::empty()
    } else {
        card_entries(displays, n - 1) + match display_entry(displays[n - 1]) {
            Some(e) => seq![e],
            None => Seq::empty(),
        }
    }
}

/// The displays ("spdisplays_ndrvs") of a graphics card.
pub open spec fn card_displays(card: JsonValue) -> Seq<JsonValue> {
    items_of(field(card, "spdisplays_ndrvs"@))
}

/// The entries of the displays of the first `n` graphics cards.
pub open spec fn report_entries(cards: Seq<JsonValue>, n: int) -> Seq<(u64, Seq<char>)>
    decreases n,
{
    if n <= 0 {
        Seq::empty()
    } else {
        report_entries(cards, n - 1) + card_entries(card_displays(cards[n - 1]), card_displays(cards[n - 1]).len() as int)
    }
}

/// The display ids and names of the report, card by card ("SPDisplaysDataType")
/// and display by display.
pub open spec fn monitor_names_of(report: JsonValue) -> Seq<(u64, Seq<char>)> {
    let cards = items_of(field(report, "SPDisplaysDataType"@));
    report_entries(cards, cards.len() as int)
}

/// The pairs with their names as character sequences.
pub open spec fn names_view(v: Seq<(u64, String)>) -> Seq<(u64, Seq<char>)> {
    Seq::new(v.len(), |i: int| (v[i].0, v[i].1@))
}

/// Whether `a` and `b` hold the same characters.
fn same_text(a: &str, b: &str) -> (r: bool)
    ensures
        r == (a@ == b@),
{
    let x = chars_of(a);
    let y = chars_of(b);
    if x.len() != y.len() {
        return false;
    }
    let mut i: usize = 0;
    while i < x.len()
        invariant
            x@ == a@,
            y@ == b@,
            x@.len() == y@.len(),
            i <= x@.len(),
            forall|j: int| 0 <= j < i ==> x@[j] == y@[j],
        decreases x@.len() - i,
    {
        if x[i] != y[i] {
            assert(a@[i as int] != b@[i as int]);
            return false;
        }
        i = i + 1;
    }
    assert(x@ =~= y@);
    true
}

/// The field `key` of `v`, when `v` is an object that has one.
fn field_of<'a>(v: &'a JsonValue, key: &str) -> (r: Option<&'a JsonValue>)
    ensures
        match r {
            Some(x) => field(*v, key@) == Some(*x),
            None => field(*v, key@) is None,
        },
{
    match v {
        JsonValue::Object(entries) => {
            let mut i: usize = 0;
            assert(entries@.skip(0) =~= entries@);
            while i < entries.len()
                invariant
                    i <= entries@.len(),
                    field(*v, key@) == field_in(entries@, key@),
                    field_in(entries@, key@) == field_in(entries@.skip(i as int), key@),
                decreases entries@.len() - i,
            {
                assert(entries@.skip(i as int)[0] == entries@[i as int]);
                if same_text(entries[i].0.as_str(), key) {
                    return Some(&entries[i].1);
                }
                assert(entries@.skip(i as int).drop_first() =~= entries@.skip(i + 1));
                i = i + 1;
            }
            assert(entries@.skip(i as int) =~= Seq::<(String, JsonValue)>::empty());
            None
        },
        _ => None,
    }
}

/// The items of `v` when it is an array.
fn items_in<'a>(v: Option<&'a JsonValue>) -> (r: Option<&'a Vec<JsonValue>>)
    ensures
        match r {
            Some(a) => items_of(match v {
                Some(x) => Some(*x),
                None => None,
            }) == a@,
            None => items_of(match v {
                Some(x) => Some(*x),
                None => None,
            }) == Seq::<JsonValue>::empty(),
        },
{
    match v {
        Some(JsonValue::Array(a)) => Some(a),
        _ => None,
    }
}

/// The text of `v` when it is a string.
fn text_in<'a>(v: Option<&'a JsonValue>) -> (r: Option<&'a String>)
    ensures
        match r {
            Some(s) => text_of(match v {
                Some(x) => Some(*x),
                None => None,
            }) == Some(s@),
            None => text_of(match v {
                Some(x) => Some(*x),
                None => None,
            }) is None,
        },
{
    match v {
        Some(JsonValue::Text(s)) => Some(s),
        _ => None,
    }
}

/// The id and name of one display entry.
fn entry_of(d: &JsonValue) -> (r: Option<(u64, String)>)
    ensures
        match r {
            Some((id, name)) => display_entry(*d) == Some((id, name@)),
            None => display_entry(*d) is None,
        },
{
    let id = match text_in(field_of(d, "_spdisplays_displayID")) {
        Some(t) => parse_display_id(t.as_str()),
        None => {
            proof {
                reveal_strlit("");
            }
            parse_display_id("")
        },
    };
    match id {
        Some(v) => {
            let name = match text_in(field_of(d, "_name")) {
                Some(n) => string_from_chars(&chars_of(n.as_str())),
                None => string_from_chars(&chars_of("Unknown")),
            };
            Some((v, name))
        },
        None => None,
    }
}

/// Appends the entries of a card's displays to `out`.
fn push_card_entries(out: &mut Vec<(u64, String)>, displays: &Vec<JsonValue>)
    ensures
        names_view(final(out)@) == names_view(old(out)@) + card_entries(displays@, displays@.len() as int),
{
    let ghost start = names_view(out@);
    let mut i: usize = 0;
    while i < displays.len()
        invariant
            i <= displays@.len(),
            names_view(out@) == start + card_entries(displays@, i as int),
        decreases displays@.len() - i,
    {
        let ghost before = out@;
        match entry_of(&displays[i]) {
            Some(e) => {
                out.push(e);
                assert(names_view(out@) =~= names_view(before) + seq![(e.0, e.1@)]);
            },
            None => {},
        }
        assert(names_view(out@) =~= start + card_entries(displays@, i + 1));
        i = i + 1;
    }
}

/// The display ids and names found in the display report, in the order of
/// the report.
pub fn monitor_names(report: &JsonValue) -> (r: Vec<(u64, String)>)
    ensures
        names_view(r@) == monitor_names_of(*report),
{
    let mut out: Vec<(u64, String)> = Vec::new();
    assert(names_view(out@) =~= Seq::<(u64, Seq<char>)>::empty());
    match items_in(field_of(report, "SPDisplaysDataType")) {
        Some(cards) => {
            let mut i: usize = 0;
            while i < cards.len()
                invariant
                    i <= cards@.len(),
                    names_view(out@) == report_entries(cards@, i as int),
                decreases cards@.len() - i,
            {
                match items_in(field_of(&cards[i], "spdisplays_ndrvs")) {
                    Some(displays) => push_card_entries(&mut out, displays),
                    None => {
                        assert(card_entries(Seq::<JsonValue>::empty(), 0) =~= Seq::<(u64, Seq<char>)>::empty());
                        assert(names_view(out@) =~= report_entries(cards@, i + 1));
                    },
                }
                i = i + 1;
            }
        },
        None => {},
    }
    out
}

/// The display ids and names in the output of the system's display report:
/// those of the JSON document it holds, none when it holds no JSON.
pub fn monitor_names_from_output(stdout: &Vec<u8>) -> (r: Vec<(u64, String)>)
    ensures
        names_view(r@) == match report_json_of(stdout@) {
            Some(v) => monitor_names_of(v),
            None => Seq::empty(),
        },
{
    match parse_report(stdout) {
        Some(v) => monitor_names(&v),
        None => {
            let r: Vec<(u64, String)> = Vec::new();
            assert(names_view(r@) =~= Seq::<(u64, Seq<char>)>::empty());
            r
        },
    }
}

} // verus!
