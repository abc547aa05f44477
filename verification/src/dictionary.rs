//! A plain model of the engine-side dictionaries that the plugin hands to
//! scripts: ordered key/value entries whose values are scalars, byte
//! strings, string lists, nested dictionaries or lists of dictionaries.
use vstd::prelude::*;

verus! {

/// The key of a dictionary entry.
#[derive(Debug, PartialEq, Eq)]
pub enum DictKey {
    Int(i64),
    Text(String),
}

/// The value of a dictionary entry.
#[derive(Debug, PartialEq, Eq)]
pub enum DictValue {
    Nil,
    Bool(bool),
    Int(i64),
    Text(String),
    TextList(Vec<String>),
    Bytes(Vec<u8>),
    Dict(Dictionary),
    List(Vec<Dictionary>),
}

/// Entries in insertion order.
#[derive(Debug, PartialEq, Eq)]
pub struct Dictionary {
    pub entries: Vec<(DictKey, DictValue)>,
}

/// The mathematical form of a key.
pub enum DictKeyView {
    Int(i64),
    Text(Seq<char>),
}

/// The mathematical form of a value.
pub enum DictValueView {
    Nil,
    Bool(bool),
    Int(i64),
    Text(Seq<char>),
    TextList(Seq<Seq<char>>),
    Bytes(Seq<u8>),
    Dict(Seq<(DictKeyView, DictValueView)>),
    List(Seq<Seq<(DictKeyView, DictValueView)>>),
}

/// The mathematical form of a key.
pub open spec fn key_view(k: DictKey) -> DictKeyView {
    match k {
        DictKey::Int(i) => DictKeyView::Int(i),
        DictKey::Text(s) => DictKeyView::Text(s@),
    }
}

/// The views of a list of strings.
pub open spec fn texts_view(v: Seq<String>) -> Seq<Seq<char>> {
    v.map_values(|s: String| s@)
}

/// The mathematical form of a value.
pub open spec fn value_view(v: DictValue) -> DictValueView
    decreases v,
{
    match v {
        DictValue::Nil => DictValueView::Nil,
        DictValue::Bool(b) => DictValueView::Bool(b),
        DictValue::Int(i) => DictValueView::Int(i),
        DictValue::Text(s) => DictValueView::Text(s@),
        DictValue::TextList(l) => DictValueView::TextList(texts_view(l@)),
        DictValue::Bytes(b) => DictValueView::Bytes(b@),
        DictValue::Dict(d) => DictValueView::Dict(dict_view(d)),
        DictValue::List(ds) => DictValueView::List(
            Seq::new(
                ds@.len(),
                |i: int|
                    {
                        if 0 <= i < ds@.len() {
                            proof {
                                assert(decreases_to!(v => ds));
                                assert(decreases_to!(ds => ds@));
                                assert(decreases_to!(ds@ => ds@[i]));
                            }
                            dict_view(ds@[i])
                        } else {
                            Seq::empty()
                        }
                    },
            ),
        ),
    }
}

/// The mathematical form of a dictionary: its entries in order.
pub open spec fn dict_view(d: Dictionary) -> Seq<(DictKeyView, DictValueView)>
    decreases d,
{
    Seq::new(
        d.entries@.len(),
        |i: int|
            {
                if 0 <= i < d.entries@.len() {
                    proof {
                        assert(decreases_to!(d => d.entries));
                        assert(decreases_to!(d.entries => d.entries@));
                        assert(decreases_to!(d.entries@ => d.entries@[i]));
                        assert(decreases_to!(d.entries@[i] => d.entries@[i].1));
                    }
                    (key_view(d.entries@[i].0), value_view(d.entries@[i].1))
                } else {
                    (DictKeyView::Int(0), DictValueView::Nil)
                }
            },
    )
}

impl View for Dictionary {
    type V = Seq<(DictKeyView, DictValueView)>;

    open spec fn view(&self) -> Seq<(DictKeyView, DictValueView)> {
        dict_view(*self)
    }
}

/// The views of a list of dictionaries.
pub open spec fn dicts_view(ds: Seq<Dictionary>) -> Seq<Seq<(DictKeyView, DictValueView)>> {
    ds.map_values(|d: Dictionary| d@)
}

/// An entry with a text key.
pub open spec fn text_entry(key: Seq<char>, value: DictValueView) -> (DictKeyView, DictValueView) {
    (DictKeyView::Text(key), value)
}

/// An entry with an integer key.
pub open spec fn int_entry(key: i64, value: DictValueView) -> (DictKeyView, DictValueView) {
    (DictKeyView::Int(key), value)
}

impl Dictionary {
    /// An empty dictionary.
    pub fn new() -> (r: Dictionary)
        ensures
            r@ == Seq::<(DictKeyView, DictValueView)>::empty(),
    {
        let r = Dictionary { entries: Vec::new() };
        assert(r@ =~= Seq::<(DictKeyView, DictValueView)>::empty());
        r
    }

    /// Appends an entry with a text key.
    pub fn push_text_key(&mut self, key: &str, value: DictValue)
        ensures
            final(self)@ == old(self)@.push(text_entry(key@, value_view(value))),
    {
        let ghost before = self@;
        self.entries.push((DictKey::Text(String::from_str(key)), value));
        assert(self@ =~= before.push(text_entry(key@, value_view(value))));
    }

    /// Appends an entry with an integer key.
    pub fn push_int_key(&mut self, key: i64, value: DictValue)
        ensures
            final(self)@ == old(self)@.push(int_entry(key, value_view(value))),
    {
        let ghost before = self@;
        self.entries.push((DictKey::Int(key), value));
        assert(self@ =~= before.push(int_entry(key, value_view(value))));
    }
}

/// The view of a `Dict` value is the view of its dictionary.
pub proof fn lemma_dict_value_view(d: Dictionary)
    ensures
        value_view(DictValue::Dict(d)) == DictValueView::Dict(d@),
{
}

/// The view of a `List` value is the list of the views of its dictionaries.
pub proof fn lemma_list_value_view(ds: Vec<Dictionary>)
    ensures
        value_view(DictValue::List(ds)) == DictValueView::List(dicts_view(ds@)),
{
    let v = value_view(DictValue::List(ds));
    assert(v is List);
    assert(v->List_0 =~= dicts_view(ds@));
}

/// A copy of a list of strings.
pub fn copy_texts(v: &Vec<String>) -> (r: Vec<String>)
    ensures
        r@ == v@,
{
    let mut r: Vec<String> = Vec::new();
    let mut i: usize = 0;
    while i < v.len()
        invariant
            i <= v.len(),
            r@ == v@.take(i as int),
        decreases v.len() - i,
    {
        r.push(v[i].clone());
        assert(v@.take(i + 1) =~= v@.take(i as int).push(v@[i as int]));
        i = i + 1;
    }
    assert(v@.take(v.len() as int) =~= v@);
    r
}

/// A copy of a byte string.
pub fn copy_bytes(v: &Vec<u8>) -> (r: Vec<u8>)
    ensures
        r@ == v@,
{
    let mut r: Vec<u8> = Vec::new();
    let mut i: usize = 0;
    while i < v.len()
        invariant
            i <= v.len(),
            r@ == v@.take(i as int),
        decreases v.len() - i,
    {
        r.push(v[i]);
        assert(v@.take(i + 1) =~= v@.take(i as int).push(v@[i as int]));
        i = i + 1;
    }
    assert(v@.take(v.len() as int) =~= v@);
    r
}

} // verus!
