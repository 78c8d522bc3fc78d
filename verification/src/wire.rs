//! A payload as it goes on the wire: keys in order, each with its value.
//!
//! A key that a call leaves out is not in the list: nothing here stands for
//! "present but empty".

use vstd::prelude::*;

verus! {

/// A value on the wire.
#[derive(Debug, Clone, Copy, PartialEq, Eq)]
pub enum WireValue<'a> {
    Text(&'a str),
    Number(i64),
    List(&'a [&'a str]),
}

/// A value on the wire as plain text.
pub enum WireValueView {
    Text(Seq<char>),
    Number(int),
    List(Seq<Seq<char>>),
}

impl<'a> DeepView for WireValue<'a> {
    type V = WireValueView;

    open spec fn deep_view(&self) -> WireValueView {
        match self {
            WireValue::Text(text) => WireValueView::Text(text@),
            WireValue::Number(number) => WireValueView::Number(*number as int),
            WireValue::List(items) => WireValueView::List(items.deep_view()),
        }
    }
}

/// A payload as plain text.
pub type Payload = Seq<(Seq<char>, WireValueView)>;

/// The entry of a value under a key, or no entry where there is no value.
pub open spec fn entry(key: Seq<char>, value: Option<WireValueView>) -> Payload {
    match value {
        Some(v) => seq![(key, v)],
        None => seq![],
    }
}

/// A text that may be there, as a value on the wire.
pub open spec fn text_value(value: Option<Seq<char>>) -> Option<WireValueView> {
    match value {
        Some(text) => Some(WireValueView::Text(text)),
        None => None,
    }
}

/// A number that may be there, as a value on the wire.
pub open spec fn number_value(value: Option<int>) -> Option<WireValueView> {
    match value {
        Some(number) => Some(WireValueView::Number(number)),
        None => None,
    }
}

/// A list that may be there, as a value on the wire.
pub open spec fn list_value(value: Option<Seq<Seq<char>>>) -> Option<WireValueView> {
    match value {
        Some(items) => Some(WireValueView::List(items)),
        None => None,
    }
}

/// The entry of a text under a key, or no entry where there is no text.
pub open spec fn text_entry(key: Seq<char>, value: Option<Seq<char>>) -> Payload {
    entry(key, text_value(value))
}

/// The entry of a number under a key, or no entry where there is no number.
pub open spec fn number_entry(key: Seq<char>, value: Option<int>) -> Payload {
    entry(key, number_value(value))
}

/// The entry of a list under a key, or no entry where there is no list.
pub open spec fn list_entry(key: Seq<char>, value: Option<Seq<Seq<char>>>) -> Payload {
    entry(key, list_value(value))
}

/// What a payload holds under a key: the value of the first entry with that
/// key, or `None` where no entry has it.
pub open spec fn lookup(payload: Payload, key: Seq<char>) -> Option<WireValueView>
    decreases payload.len(),
{
    if payload.len() == 0 {
        None
    } else {
        match lookup(payload.drop_last(), key) {
            Some(value) => Some(value),
            None => if payload.last().0 == key {
                Some(payload.last().1)
            } else {
                None
            },
        }
    }
}

/// An empty payload holds nothing under any key.
pub proof fn lemma_lookup_empty()
    ensures
        forall|k: Seq<char>| (#[trigger] lookup(Seq::empty(), k)).is_none(),
{
}

/// Appending an entry changes what a payload holds under that entry's key
/// alone, and only where the payload held nothing there and the entry has a
/// value.
pub proof fn lemma_lookup_entry(prefix: Payload, key: Seq<char>, value: Option<WireValueView>)
    ensures
        forall|k: Seq<char>| #[trigger]
            lookup(prefix + entry(key, value), k) == (match lookup(prefix, k) {
                Some(v) => Some(v),
                None => if k == key {
                    value
                } else {
                    None
                },
            }),
{
    let whole = prefix + entry(key, value);
    match value {
        Some(v) => {
            assert(whole.drop_last() =~= prefix);
            assert(whole.last() == (key, v));
        },
        None => {
            assert(whole =~= prefix);
        },
    }
}

/// Appends a value under a key.
fn push_entry<'a>(
    fields: &mut Vec<(&'static str, WireValue<'a>)>,
    key: &'static str,
    value: WireValue<'a>,
)
    ensures
        final(fields).deep_view() == old(fields).deep_view() + seq![(key@, value.deep_view())],
{
    fields.push((key, value));
    assert(fields.deep_view() =~= old(fields).deep_view() + seq![(key@, value.deep_view())]);
}

/// Appends a text under a key, where there is one.
pub fn push_text<'a>(
    fields: &mut Vec<(&'static str, WireValue<'a>)>,
    key: &'static str,
    value: Option<&'a str>,
)
    ensures
        final(fields).deep_view() == old(fields).deep_view() + text_entry(
            key@,
            value.deep_view(),
        ),
{
    match value {
        Some(text) => push_entry(fields, key, WireValue::Text(text)),
        None => {
            assert(fields.deep_view() =~= fields.deep_view() + Seq::empty());
        },
    }
}

/// A number that may be there, as a mathematical integer.
pub open spec fn as_int(value: Option<i32>) -> Option<int> {
    match value {
        Some(number) => Some(number as int),
        None => None,
    }
}

/// Appends a number under a key, where there is one.
pub fn push_number<'a>(
    fields: &mut Vec<(&'static str, WireValue<'a>)>,
    key: &'static str,
    value: Option<i32>,
)
    ensures
        final(fields).deep_view() == old(fields).deep_view() + number_entry(key@, as_int(value)),
{
    match value {
        Some(number) => push_entry(fields, key, WireValue::Number(number as i64)),
        None => {
            assert(fields.deep_view() =~= fields.deep_view() + Seq::empty());
        },
    }
}

/// Appends a number that is always there.
pub fn push_id<'a>(fields: &mut Vec<(&'static str, WireValue<'a>)>, key: &'static str, value: i64)
    ensures
        final(fields).deep_view() == old(fields).deep_view() + number_entry(
            key@,
            Some(value as int),
        ),
{
    push_entry(fields, key, WireValue::Number(value));
}

/// Appends a list under a key, where there is one.
pub fn push_list<'a>(
    fields: &mut Vec<(&'static str, WireValue<'a>)>,
    key: &'static str,
    value: Option<&'a [&'a str]>,
)
    ensures
        final(fields).deep_view() == old(fields).deep_view() + list_entry(
            key@,
            value.deep_view(),
        ),
{
    match value {
        Some(items) => push_entry(fields, key, WireValue::List(items)),
        None => {
            assert(fields.deep_view() =~= fields.deep_view() + Seq::empty());
        },
    }
}

/// A payload with nothing in it yet.
pub fn empty_payload<'a>() -> (fields: Vec<(&'static str, WireValue<'a>)>)
    ensures
        fields.deep_view() == Seq::<(Seq<char>, WireValueView)>::empty(),
{
    let fields: Vec<(&'static str, WireValue<'a>)> = Vec::new();
    assert(fields.deep_view() =~= Seq::<(Seq<char>, WireValueView)>::empty());
    fields
}

} // verus!
