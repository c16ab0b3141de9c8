//! A JSON document model: the executable value [`Json`], its mathematical
//! view [`JsonView`], and the accessors that the tool decoders use.

use vstd::prelude::*;
use vstd::string::*;

verus! {

/// A JSON number, kept exactly as the parser classified it.
#[derive(Debug, Clone, PartialEq, Eq)]
pub enum JsonNumber {
    /// A non-negative integer literal.
    PosInt(u64),
    /// A negative integer literal.
    NegInt(i64),
    /// Any other number, held as its decimal text.
    Float(String),
}

/// A JSON value. Object entries keep their order; lookups return the
/// first entry whose key matches.
#[derive(Debug)]
pub enum Json {
    Null,
    Bool(bool),
    Number(JsonNumber),
    Str(String),
    Array(Vec<Json>),
    Object(Vec<(String, Json)>),
}

/// The mathematical form of a [`JsonNumber`].
pub enum NumView {
    PosInt(u64),
    NegInt(i64),
    Float(Seq<char>),
}

/// The mathematical form of a [`Json`] value.
pub enum JsonView {
    Null,
    Bool(bool),
    Number(NumView),
    Str(Seq<char>),
    Array(Seq<JsonView>),
    Object(Seq<(Seq<char>, JsonView)>),
}

/// When `f` keeps every item, filtering keeps them all, in order: the
/// `i`-th result is what `f` makes of the `i`-th item.
pub proof fn lemma_filter_map_all_some<B>(items: Seq<JsonView>, f: spec_fn(JsonView) -> Option<B>)
    requires
        forall|i: int| 0 <= i < items.len() ==> (#[trigger] f(items[i])) is Some,
    ensures
        filter_map(items, f).len() == items.len(),
        forall|i: int| 0 <= i < items.len() ==> Some(#[trigger] filter_map(items, f)[i]) == f(items[i]),
    decreases items.len(),
{
    if items.len() > 0 {
        let rest = items.drop_last();
        assert forall|i: int| 0 <= i < rest.len() implies (#[trigger] f(rest[i])) is Some by {
            assert(rest[i] == items[i]);
        }
        lemma_filter_map_all_some(rest, f);
        assert(f(items[items.len() - 1]) is Some);
        assert forall|i: int| 0 <= i < items.len() implies Some(#[trigger] filter_map(items, f)[i]) == f(items[i]) by {
            if i < rest.len() {
                assert(rest[i] == items[i]);
            }
        }
    }
}

impl JsonNumber {
    pub open spec fn view(&self) -> NumView {
        match self {
            JsonNumber::PosInt(u) => NumView::PosInt(*u),
            JsonNumber::NegInt(i) => NumView::NegInt(*i),
            JsonNumber::Float(s) => NumView::Float(s@),
        }
    }
}

pub open spec fn view_items(items: Seq<Json>) -> Seq<JsonView>
    decreases items,
{
    if items.len() == 0 {
        Seq::empty()
    } else {
        seq![items[0].view()] + view_items(items.drop_first())
    }
}

pub open spec fn view_entries(entries: Seq<(String, Json)>) -> Seq<(Seq<char>, JsonView)>
    decreases entries,
{
    if entries.len() == 0 {
        Seq::empty()
    } else {
        seq![(entries[0].0@, entries[0].1.view())] + view_entries(entries.drop_first())
    }
}

impl Json {
    pub open spec fn view(&self) -> JsonView
        decreases self,
    {
        match self {
            Json::Null => JsonView::Null,
            Json::Bool(b) => JsonView::Bool(*b),
            Json::Number(n) => JsonView::Number(n.view()),
            Json::Str(s) => JsonView::Str(s@),
            Json::Array(items) => JsonView::Array(view_items(items@)),
            Json::Object(entries) => JsonView::Object(view_entries(entries@)),
        }
    }
}


/// The value of the first entry whose key is `key`.
pub open spec fn lookup(entries: Seq<(Seq<char>, JsonView)>, key: Seq<char>) -> Option<JsonView>
    decreases entries.len(),
{
    if entries.len() == 0 {
        None
    } else if entries[0].0 == key {
        Some(entries[0].1)
    } else {
        lookup(entries.drop_first(), key)
    }
}

impl JsonView {
    /// Member `key` of an object; `None` for a missing key or a non-object.
    pub open spec fn get(self, key: Seq<char>) -> Option<JsonView> {
        match self {
            JsonView::Object(entries) => lookup(entries, key),
            _ => None,
        }
    }

    /// Element `i` of an array, or member `"i"` of an object (a JSON-pointer step).
    pub open spec fn step(self, key: Seq<char>, index: int) -> Option<JsonView> {
        match self {
            JsonView::Object(entries) => lookup(entries, key),
            JsonView::Array(items) => if 0 <= index < items.len() {
                Some(items[index])
            } else {
                None
            },
            _ => None,
        }
    }

    /// Member `key`, as a string.
    pub open spec fn get_str(self, key: Seq<char>) -> Option<Seq<char>> {
        str_opt(self.get(key))
    }

    /// Member `key`, as an array.
    pub open spec fn get_array(self, key: Seq<char>) -> Option<Seq<JsonView>> {
        array_opt(self.get(key))
    }

    /// Member `key`, as a boolean.
    pub open spec fn get_bool(self, key: Seq<char>) -> Option<bool> {
        bool_opt(self.get(key))
    }

    /// Member `key`, as an `i64`.
    pub open spec fn get_i64(self, key: Seq<char>) -> Option<i64> {
        i64_opt(self.get(key))
    }

    /// Member `key`, as a `u64`.
    pub open spec fn get_u64(self, key: Seq<char>) -> Option<u64> {
        u64_opt(self.get(key))
    }

    pub open spec fn as_str(self) -> Option<Seq<char>> {
        match self {
            JsonView::Str(s) => Some(s),
            _ => None,
        }
    }

    pub open spec fn as_array(self) -> Option<Seq<JsonView>> {
        match self {
            JsonView::Array(items) => Some(items),
            _ => None,
        }
    }

    pub open spec fn as_bool(self) -> Option<bool> {
        match self {
            JsonView::Bool(b) => Some(b),
            _ => None,
        }
    }

    /// The number as an `i64`, when it is an integer that fits.
    pub open spec fn as_i64(self) -> Option<i64> {
        match self {
            JsonView::Number(NumView::PosInt(u)) => if u <= i64::MAX {
                Some(u as i64)
            } else {
                None
            },
            JsonView::Number(NumView::NegInt(i)) => Some(i),
            _ => None,
        }
    }

    /// The number as a `u64`, when it is a non-negative integer.
    pub open spec fn as_u64(self) -> Option<u64> {
        match self {
            JsonView::Number(NumView::PosInt(u)) => Some(u),
            _ => None,
        }
    }
}

/// Member `key` of an optional value.
pub open spec fn get_opt(v: Option<JsonView>, key: Seq<char>) -> Option<JsonView> {
    match v {
        Some(j) => j.get(key),
        None => None,
    }
}

pub open spec fn str_opt(v: Option<JsonView>) -> Option<Seq<char>> {
    match v {
        Some(j) => j.as_str(),
        None => None,
    }
}

pub open spec fn array_opt(v: Option<JsonView>) -> Option<Seq<JsonView>> {
    match v {
        Some(j) => j.as_array(),
        None => None,
    }
}

pub open spec fn bool_opt(v: Option<JsonView>) -> Option<bool> {
    match v {
        Some(j) => j.as_bool(),
        None => None,
    }
}

pub open spec fn i64_opt(v: Option<JsonView>) -> Option<i64> {
    match v {
        Some(j) => j.as_i64(),
        None => None,
    }
}

pub open spec fn u64_opt(v: Option<JsonView>) -> Option<u64> {
    match v {
        Some(j) => j.as_u64(),
        None => None,
    }
}

/// The view of an optional borrowed value.
pub open spec fn view_ref_opt(v: Option<&Json>) -> Option<JsonView> {
    match v {
        Some(j) => Some(j@),
        None => None,
    }
}

pub proof fn lemma_view_items_len(items: Seq<Json>)
    ensures
        view_items(items).len() == items.len(),
        forall|i: int| 0 <= i < items.len() ==> #[trigger] view_items(items)[i] == items[i]@,
    decreases items.len(),
{
    if items.len() > 0 {
        lemma_view_items_len(items.drop_first());
        assert forall|i: int| 0 <= i < items.len() implies #[trigger] view_items(items)[i]
            == items[i]@ by {
            if i > 0 {
                assert(items.drop_first()[i - 1] == items[i]);
            }
        }
    }
}

pub proof fn lemma_view_entries_len(entries: Seq<(String, Json)>)
    ensures
        view_entries(entries).len() == entries.len(),
        forall|i: int|
            0 <= i < entries.len() ==> #[trigger] view_entries(entries)[i] == (
                entries[i].0@,
                entries[i].1@,
            ),
    decreases entries.len(),
{
    if entries.len() > 0 {
        lemma_view_entries_len(entries.drop_first());
        assert forall|i: int| 0 <= i < entries.len() implies #[trigger] view_entries(entries)[i]
            == (entries[i].0@, entries[i].1@) by {
            if i > 0 {
                assert(entries.drop_first()[i - 1] == entries[i]);
            }
        }
    }
}

/// Looking up from position `i` on agrees with looking up in the whole
/// sequence when no earlier key matched.
proof fn lemma_lookup_skip(entries: Seq<(Seq<char>, JsonView)>, key: Seq<char>, i: int)
    requires
        0 <= i < entries.len(),
        entries[i].0 != key,
    ensures
        lookup(entries.skip(i), key) == lookup(entries.skip(i + 1), key),
{
    assert(entries.skip(i).drop_first() =~= entries.skip(i + 1));
}

impl Json {
    /// Member `key` of an object (`serde_json::Value::get` with a string key).
    pub fn get(&self, key: &str) -> (r: Option<&Json>)
        ensures
            view_ref_opt(r) == self@.get(key@),
    {
        match self {
            Json::Object(entries) => {
                proof {
                    lemma_view_entries_len(entries@);
                }
                let ghost es = view_entries(entries@);
                assert(es.skip(0) =~= es);
                let mut i: usize = 0;
                while i < entries.len()
                    invariant
                        i <= entries.len(),
                        es == view_entries(entries@),
                        self@ == JsonView::Object(es),
                        es.len() == entries.len(),
                        forall|k: int|
                            0 <= k < entries.len() ==> #[trigger] es[k] == (
                                entries[k].0@,
                                entries[k].1@,
                            ),
                        lookup(es, key@) == lookup(es.skip(i as int), key@),
                    decreases entries.len() - i,
                {
                    if crate::text::str_eq(entries[i].0.as_str(), key) {
                        assert(es.skip(i as int)[0] == es[i as int]);
                        assert(lookup(es.skip(i as int), key@) == Some(entries[i as int].1@));
                        return Some(&entries[i].1);
                    }
                    proof {
                        lemma_lookup_skip(es, key@, i as int);
                    }
                    i = i + 1;
                }
                None
            },
            _ => None,
        }
    }

    /// One JSON-pointer step: member `key` of an object, or element `index`
    /// of an array (where `index` is `key` read as a number, if it is one).
    pub fn step(&self, key: &str, index: Option<usize>) -> (r: Option<&Json>)
        ensures
            view_ref_opt(r) == self@.step(
                key@,
                match index {
                    Some(i) => i as int,
                    None => -1,
                },
            ),
    {
        match self {
            Json::Object(_) => self.get(key),
            Json::Array(items) => {
                proof {
                    lemma_view_items_len(items@);
                }
                match index {
                    Some(i) => if i < items.len() {
                        Some(&items[i])
                    } else {
                        None
                    },
                    None => None,
                }
            },
            _ => None,
        }
    }

    pub fn as_str(&self) -> (r: Option<&str>)
        ensures
            match r {
                Some(s) => self@.as_str() == Some(s@),
                None => self@.as_str() is None,
            },
    {
        match self {
            Json::Str(s) => Some(s.as_str()),
            _ => None,
        }
    }

    pub fn as_array(&self) -> (r: Option<&Vec<Json>>)
        ensures
            match r {
                Some(items) => self@.as_array() == Some(view_items(items@)),
                None => self@.as_array() is None,
            },
    {
        match self {
            Json::Array(items) => Some(items),
            _ => None,
        }
    }

    pub fn as_bool(&self) -> (r: Option<bool>)
        ensures
            r == self@.as_bool(),
    {
        match self {
            Json::Bool(b) => Some(*b),
            _ => None,
        }
    }

    pub fn as_i64(&self) -> (r: Option<i64>)
        ensures
            r == self@.as_i64(),
    {
        match self {
            Json::Number(JsonNumber::PosInt(u)) => if *u <= 0x7fff_ffff_ffff_ffffu64 {
                Some(*u as i64)
            } else {
                None
            },
            Json::Number(JsonNumber::NegInt(i)) => Some(*i),
            _ => None,
        }
    }

    pub fn as_u64(&self) -> (r: Option<u64>)
        ensures
            r == self@.as_u64(),
    {
        match self {
            Json::Number(JsonNumber::PosInt(u)) => Some(*u),
            _ => None,
        }
    }
}


pub proof fn lemma_view_entries_push(entries: Seq<(String, Json)>, e: (String, Json))
    ensures
        view_entries(entries.push(e)) == view_entries(entries).push((e.0@, e.1@)),
    decreases entries.len(),
{
    if entries.len() == 0 {
        assert(entries.push(e).drop_first() =~= entries);
        assert(view_entries(entries.push(e)) =~= view_entries(entries).push((e.0@, e.1@)));
    } else {
        assert(entries.push(e).drop_first() =~= entries.drop_first().push(e));
        lemma_view_entries_push(entries.drop_first(), e);
        assert(view_entries(entries.push(e)) =~= view_entries(entries).push((e.0@, e.1@)));
    }
}

pub proof fn lemma_view_items_push(items: Seq<Json>, j: Json)
    ensures
        view_items(items.push(j)) == view_items(items).push(j@),
    decreases items.len(),
{
    if items.len() == 0 {
        assert(items.push(j).drop_first() =~= items);
        assert(view_items(items.push(j)) =~= view_items(items).push(j@));
    } else {
        assert(items.push(j).drop_first() =~= items.drop_first().push(j));
        lemma_view_items_push(items.drop_first(), j);
        assert(view_items(items.push(j)) =~= view_items(items).push(j@));
    }
}

/// Appends the member `key: value` to object entries.
pub fn push_entry(entries: &mut Vec<(String, Json)>, key: &str, value: Json)
    ensures
        view_entries(final(entries)@) == view_entries(old(entries)@).push((key@, value@)),
{
    let k = crate::text::owned(key);
    let ghost e = (k, value);
    entries.push((k, value));
    proof {
        lemma_view_entries_push(old(entries)@, e);
    }
}

/// Appends an element to array items.
pub fn push_item(items: &mut Vec<Json>, value: Json)
    ensures
        view_items(final(items)@) == view_items(old(items)@).push(value@),
{
    let ghost v = value;
    items.push(value);
    proof {
        lemma_view_items_push(old(items)@, v);
    }
}

/// A JSON string holding `s`.
pub fn json_str(s: &str) -> (r: Json)
    ensures
        r@ == JsonView::Str(s@),
{
    Json::Str(crate::text::owned(s))
}

/// A JSON array of strings.
pub fn json_str_array(items: &Vec<String>) -> (r: Json)
    ensures
        r@ == JsonView::Array(str_views(items@)),
{
    let mut out: Vec<Json> = Vec::new();
    let mut i: usize = 0;
    while i < items.len()
        invariant
            i <= items.len(),
            view_items(out@) == str_views(items@.take(i as int)),
        decreases items.len() - i,
    {
        push_item(&mut out, Json::Str(items[i].clone()));
        assert(str_views(items@.take(i + 1)) =~= str_views(items@.take(i as int)).push(
            JsonView::Str(items@[i as int]@),
        ));
        i = i + 1;
    }
    assert(items@.take(items.len() as int) =~= items@);
    Json::Array(out)
}

/// Strings as JSON string views.
pub open spec fn str_views(items: Seq<String>) -> Seq<JsonView> {
    items.map_values(|s: String| JsonView::Str(s@))
}

/// Member `key` of a value, as a string.
pub fn get_str<'a>(j: &'a Json, key: &str) -> (r: Option<&'a str>)
    ensures
        match r {
            Some(s) => str_opt(j@.get(key@)) == Some(s@),
            None => str_opt(j@.get(key@)) is None,
        },
{
    match j.get(key) {
        Some(v) => v.as_str(),
        None => None,
    }
}

/// Member `key` of a value, as an owned string.
pub fn get_string(j: &Json, key: &str) -> (r: Option<String>)
    ensures
        match r {
            Some(s) => str_opt(j@.get(key@)) == Some(s@),
            None => str_opt(j@.get(key@)) is None,
        },
{
    match get_str(j, key) {
        Some(s) => Some(crate::text::owned(s)),
        None => None,
    }
}

/// Member `key` of a value, as an owned string, or `""` when it is not one.
pub fn get_string_or_empty(j: &Json, key: &str) -> (r: String)
    ensures
        r@ == str_or_empty(str_opt(j@.get(key@))),
{
    match get_str(j, key) {
        Some(s) => crate::text::owned(s),
        None => String::new(),
    }
}

pub open spec fn str_or_empty(s: Option<Seq<char>>) -> Seq<char> {
    match s {
        Some(t) => t,
        None => Seq::empty(),
    }
}

/// Member `key` of a value, as an array.
pub fn get_array<'a>(j: &'a Json, key: &str) -> (r: Option<&'a Vec<Json>>)
    ensures
        match r {
            Some(items) => array_opt(j@.get(key@)) == Some(view_items(items@)),
            None => array_opt(j@.get(key@)) is None,
        },
{
    match j.get(key) {
        Some(v) => v.as_array(),
        None => None,
    }
}

/// Member `key` of a value, as a boolean.
pub fn get_bool(j: &Json, key: &str) -> (r: Option<bool>)
    ensures
        r == bool_opt(j@.get(key@)),
{
    match j.get(key) {
        Some(v) => v.as_bool(),
        None => None,
    }
}

/// Member `key` of a value, as an `i64`.
pub fn get_i64(j: &Json, key: &str) -> (r: Option<i64>)
    ensures
        r == i64_opt(j@.get(key@)),
{
    match j.get(key) {
        Some(v) => v.as_i64(),
        None => None,
    }
}

/// Member `key` of a value, as a `u64`.
pub fn get_u64(j: &Json, key: &str) -> (r: Option<u64>)
    ensures
        r == u64_opt(j@.get(key@)),
{
    match j.get(key) {
        Some(v) => v.as_u64(),
        None => None,
    }
}

/// The strings of an array, skipping elements that are not strings.
pub open spec fn strings_of(items: Seq<JsonView>) -> Seq<Seq<char>>
    decreases items.len(),
{
    if items.len() == 0 {
        Seq::empty()
    } else {
        let rest = strings_of(items.drop_last());
        match items.last().as_str() {
            Some(s) => rest.push(s),
            None => rest,
        }
    }
}

/// Reading the strings back from string values gives the strings.
pub proof fn lemma_strings_of_str_views(items: Seq<String>)
    ensures
        strings_of(str_views(items)) == crate::text::string_views(items),
    decreases items.len(),
{
    if items.len() > 0 {
        lemma_strings_of_str_views(items.drop_last());
        assert(str_views(items).drop_last() =~= str_views(items.drop_last()));
        assert(crate::text::string_views(items) =~= crate::text::string_views(items.drop_last()).push(
            items.last()@,
        ));
    } else {
        assert(crate::text::string_views(items) =~= Seq::<Seq<char>>::empty());
    }
}

/// The string elements of an array, in order.
pub fn collect_strings(items: &Vec<Json>) -> (r: Vec<String>)
    ensures
        crate::text::string_views(r@) == strings_of(view_items(items@)),
{
    proof {
        lemma_view_items_len(items@);
    }
    let ghost vs = view_items(items@);
    let mut out: Vec<String> = Vec::new();
    let mut i: usize = 0;
    while i < items.len()
        invariant
            i <= items.len(),
            vs == view_items(items@),
            vs.len() == items.len(),
            forall|k: int| 0 <= k < items.len() ==> #[trigger] vs[k] == items@[k]@,
            crate::text::string_views(out@) == strings_of(vs.take(i as int)),
        decreases items.len() - i,
    {
        assert(vs.take(i + 1).drop_last() =~= vs.take(i as int));
        match items[i].as_str() {
            Some(s) => {
                let ghost before = out@;
                out.push(crate::text::owned(s));
                assert(crate::text::string_views(out@) =~= crate::text::string_views(before).push(s@));
            },
            None => {},
        }
        i = i + 1;
    }
    assert(vs.take(items.len() as int) =~= vs);
    out
}


/// The elements of `items` for which `f` gives a value, mapped by `f`, in order.
pub open spec fn filter_map<B>(items: Seq<JsonView>, f: spec_fn(JsonView) -> Option<B>) -> Seq<B>
    decreases items.len(),
{
    if items.len() == 0 {
        Seq::empty()
    } else {
        let rest = filter_map(items.drop_last(), f);
        match f(items.last()) {
            Some(b) => rest.push(b),
            None => rest,
        }
    }
}

/// Filtering the images of `xs` under `g` with a function that keeps each
/// of them, as the image of its source under `h`, gives the images under
/// `h`.
pub proof fn lemma_filter_map_of_images<A, B>(
    xs: Seq<A>,
    g: spec_fn(A) -> JsonView,
    f: spec_fn(JsonView) -> Option<B>,
    h: spec_fn(A) -> B,
)
    requires
        forall|i: int| 0 <= i < xs.len() ==> f(g(#[trigger] xs[i])) == Some(h(xs[i])),
    ensures
        filter_map(xs.map_values(g), f) == xs.map_values(h),
    decreases xs.len(),
{
    if xs.len() > 0 {
        let ys = xs.drop_last();
        assert forall|i: int| 0 <= i < ys.len() implies f(g(#[trigger] ys[i])) == Some(h(ys[i])) by {
            assert(ys[i] == xs[i]);
        }
        lemma_filter_map_of_images(ys, g, f, h);
        assert(xs.map_values(g).drop_last() =~= ys.map_values(g));
        assert(xs.map_values(h) =~= ys.map_values(h).push(h(xs.last())));
        assert(xs.map_values(g).last() == g(xs[xs.len() - 1]));
    } else {
        assert(xs.map_values(h) =~= Seq::<B>::empty());
    }
}

/// Reading an array from the front: a prefix one longer extends the
/// mapped prefix by the new element's image, if it has one.
pub proof fn lemma_filter_map_step<B>(items: Seq<JsonView>, f: spec_fn(JsonView) -> Option<B>, i: int)
    requires
        0 <= i < items.len(),
    ensures
        filter_map(items.take(i + 1), f) == match f(items[i]) {
            Some(b) => filter_map(items.take(i), f).push(b),
            None => filter_map(items.take(i), f),
        },
{
    assert(items.take(i + 1).drop_last() =~= items.take(i));
}

impl JsonNumber {
    /// A copy equal to `self`.
    pub fn duplicate(&self) -> (r: Self)
        ensures
            r == *self,
    {
        match self {
            JsonNumber::PosInt(u) => JsonNumber::PosInt(*u),
            JsonNumber::NegInt(i) => JsonNumber::NegInt(*i),
            JsonNumber::Float(t) => JsonNumber::Float(t.clone()),
        }
    }
}

} // verus!
