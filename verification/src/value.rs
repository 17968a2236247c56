//! The property graph that a trust provider hands out, as plain data.
//!
//! A provider describes a certificate, or the signing information of a piece
//! of code, as a tree of untyped values: texts, byte strings, numbers, arrays
//! and dictionaries keyed by text. `Value` holds such a tree; `ValueView` is
//! its mathematical model, and the lookups below are stated over that model.

use vstd::prelude::*;

verus! {

/// A dictionary of the property graph: entries in the order in which they
/// were recorded, each a key and the value filed under it.
///
/// A dictionary taken from a provider never repeats a key. Where a hand-built
/// one does, a lookup answers with the first entry that carries the key.
#[derive(Debug, PartialEq, Eq)]
pub struct Dictionary {
    pub entries: Vec<(String, Value)>,
}

/// One node of the property graph.
#[derive(Debug, PartialEq, Eq)]
pub enum Value {
    /// A text.
    Text(String),
    /// A string of bytes.
    Data(Vec<u8>),
    /// A whole number.
    Number(i64),
    /// An ordered list of values.
    Array(Vec<Value>),
    /// A dictionary keyed by text.
    Dictionary(Dictionary),
    /// Anything else a provider may file in the graph (a date, a flag, a
    /// fraction). Nothing in this library reads such a value.
    Other,
}

/// The model of a `Dictionary`: its entries, keys and values by their views.
pub type DictionaryView = Seq<(Seq<char>, ValueView)>;

/// The model of a `Value`.
pub ghost enum ValueView {
    Text(Seq<char>),
    Data(Seq<u8>),
    Number(int),
    Array(Seq<ValueView>),
    Dictionary(DictionaryView),
    Other,
}

impl View for Value {
    type V = ValueView;

    open spec fn view(&self) -> ValueView
        decreases self,
    {
        match self {
            Value::Text(text) => ValueView::Text(text@),
            Value::Data(bytes) => ValueView::Data(bytes@),
            Value::Number(number) => ValueView::Number(*number as int),
            Value::Array(items) => ValueView::Array(
                Seq::new(
                    items@.len(),
                    |i: int|
                        if 0 <= i < items@.len() {
                            items@[i].view()
                        } else {
                            ValueView::Other
                        },
                ),
            ),
            Value::Dictionary(dictionary) => ValueView::Dictionary(dictionary.view()),
            Value::Other => ValueView::Other,
        }
    }
}

impl View for Dictionary {
    type V = DictionaryView;

    open spec fn view(&self) -> DictionaryView
        decreases self,
    {
        Seq::new(
            self.entries@.len(),
            |i: int|
                if 0 <= i < self.entries@.len() {
                    (self.entries@[i].0@, self.entries@[i].1.view())
                } else {
                    (Seq::empty(), ValueView::Other)
                },
        )
    }
}

/// The value filed under `key`: that of the first entry whose key is `key`.
pub open spec fn spec_find(dictionary: DictionaryView, key: Seq<char>) -> Option<ValueView>
    decreases dictionary.len(),
{
    if dictionary.len() == 0 {
        None
    } else if dictionary[0].0 == key {
        Some(dictionary[0].1)
    } else {
        spec_find(dictionary.skip(1), key)
    }
}

/// The views of the values in `items`, one for one.
pub open spec fn spec_items(items: Seq<Value>) -> Seq<ValueView> {
    Seq::new(items.len(), |i: int| items[i]@)
}

impl Value {
    /// The text, where this value is one.
    pub fn as_text(&self) -> (text: Option<&String>)
        ensures
            match text {
                Some(text) => self@ == ValueView::Text(text@),
                None => !(self@ is Text),
            },
    {
        match self {
            Value::Text(text) => Some(text),
            _ => None,
        }
    }

    /// The bytes, where this value is a string of bytes.
    pub fn as_data(&self) -> (bytes: Option<&Vec<u8>>)
        ensures
            match bytes {
                Some(bytes) => self@ == ValueView::Data(bytes@),
                None => !(self@ is Data),
            },
    {
        match self {
            Value::Data(bytes) => Some(bytes),
            _ => None,
        }
    }

    /// The number, where this value is one.
    pub fn as_number(&self) -> (number: Option<i64>)
        ensures
            match number {
                Some(number) => self@ == ValueView::Number(number as int),
                None => !(self@ is Number),
            },
    {
        match self {
            Value::Number(number) => Some(*number),
            _ => None,
        }
    }

    /// The items, where this value is an array.
    pub fn as_array(&self) -> (items: Option<&Vec<Value>>)
        ensures
            match items {
                Some(items) => self@ == ValueView::Array(spec_items(items@)),
                None => !(self@ is Array),
            },
    {
        match self {
            Value::Array(items) => {
                assert(self@->Array_0 =~= spec_items(items@));
                Some(items)
            },
            _ => None,
        }
    }

    /// The dictionary, where this value is one.
    pub fn as_dictionary(&self) -> (dictionary: Option<&Dictionary>)
        ensures
            match dictionary {
                Some(dictionary) => self@ == ValueView::Dictionary(dictionary@),
                None => !(self@ is Dictionary),
            },
    {
        match self {
            Value::Dictionary(dictionary) => Some(dictionary),
            _ => None,
        }
    }
}

impl Dictionary {
    /// Looks `key` up.
    pub fn find(&self, key: &str) -> (found: Option<&Value>)
        ensures
            match found {
                Some(value) => spec_find(self@, key@) == Some(value@),
                None => spec_find(self@, key@) is None,
            },
    {
        let wanted = key.to_owned();
        let mut i: usize = 0;
        assert(self@.skip(0) == self@);
        while i < self.entries.len()
            invariant
                i <= self.entries.len(),
                wanted@ == key@,
                spec_find(self@, key@) == spec_find(self@.skip(i as int), key@),
            decreases self.entries.len() - i,
        {
            if self.entries[i].0 == wanted {
                return Some(&self.entries[i].1);
            }
            assert(self@.skip(i as int).skip(1) == self@.skip(i + 1));
            i += 1;
        }
        None
    }
}

} // verus!
