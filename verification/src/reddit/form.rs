use vstd::prelude::*;
use crate::reddit::json_object::{
    json_object_clone, json_object_entries, json_object_get, json_object_insert,
    json_object_keys, json_object_len, json_object_new,
};
use crate::reddit::order::{
    has_key, key_index, law_sorted_is_unique, lemma_lookup_at, lemma_sorted_distinct, lookup,
    sorted_by_key,
};

verus! {

/// A value in a submission form: a text, or a flag.
#[derive(Debug)]
pub enum FormValue {
    Text(String),
    Flag(bool),
}

/// The model of a `FormValue`.
pub enum FieldValue {
    Text(Seq<char>),
    Flag(bool),
}

impl View for FormValue {
    type V = FieldValue;

    open spec fn view(&self) -> FieldValue {
        match self {
            FormValue::Text(s) => FieldValue::Text(s@),
            FormValue::Flag(b) => FieldValue::Flag(*b),
        }
    }
}

impl FormValue {
    /// The value as it is written in the encoded form.
    pub fn to_text(&self) -> (text: String)
        ensures
            text@ == field_text(self@),
    {
        match self {
            FormValue::Text(s) => s.clone(),
            FormValue::Flag(b) => if *b {
                String::from_str("true")
            } else {
                String::from_str("false")
            },
        }
    }
}

/// The fields of a form in order: keys with their values.
pub type Fields = Seq<(Seq<char>, FieldValue)>;

/// How a value is written in the encoded form.
pub open spec fn field_text(value: FieldValue) -> Seq<char> {
    match value {
        FieldValue::Text(s) => s,
        FieldValue::Flag(b) => if b {
            "true"@
        } else {
            "false"@
        },
    }
}

/// The form as the pairs of texts that are sent.
pub open spec fn form_pairs(fields: Fields) -> Seq<(Seq<char>, Seq<char>)> {
    fields.map_values(|f: (Seq<char>, FieldValue)| (f.0, field_text(f.1)))
}

/// The pairs of texts of a list of `(String, String)`.
pub open spec fn pairs_view(pairs: Seq<(String, String)>) -> Seq<(Seq<char>, Seq<char>)> {
    pairs.map_values(|p: (String, String)| (p.0@, p.1@))
}

/// The model of a list of fields.
pub open spec fn fields_view(fields: Seq<(String, FormValue)>) -> Fields {
    fields.map_values(|f: (String, FormValue)| (f.0@, f.1@))
}

/// The fields of a JSON object whose values are all texts or flags.
pub open spec fn entry_fields(entries: Seq<(Seq<char>, Option<FieldValue>)>) -> Fields {
    entries.map_values(|e: (Seq<char>, Option<FieldValue>)| (e.0, e.1.unwrap()))
}

/// The entries are in order of their keys and every value is a text or a
/// flag.
pub open spec fn well_formed_entries(entries: Seq<(Seq<char>, Option<FieldValue>)>) -> bool {
    &&& sorted_by_key(entries)
    &&& forall|i: int| 0 <= i < entries.len() ==> (#[trigger] entries[i]).1 is Some
}

/// `after` is `before` with `key` set to `value`: the key holds the value,
/// every other key keeps its value, and the fields are in order of their
/// keys.
pub open spec fn inserted(before: Fields, key: Seq<char>, value: FieldValue, after: Fields) -> bool {
    &&& sorted_by_key(after)
    &&& lookup(after, key) == Some(value)
    &&& forall|other: Seq<char>|
        other != key ==> #[trigger] lookup(after, other) == lookup(before, other)
}

/// The fields of a form as it stands, keys in order, each with its value.
proof fn lemma_entry_fields(entries: Seq<(Seq<char>, Option<FieldValue>)>)
    requires
        well_formed_entries(entries),
    ensures
        entry_fields(entries).len() == entries.len(),
        sorted_by_key(entry_fields(entries)),
        forall|k: Seq<char>|
            #[trigger] lookup(entry_fields(entries), k) == match lookup(entries, k) {
                Some(v) => v,
                None => None,
            },
{
    let f = entry_fields(entries);
    assert forall|i: int, j: int| 0 <= i < j < f.len() implies crate::reddit::order::key_less(
        #[trigger] f[i].0,
        #[trigger] f[j].0,
    ) by {
        assert(f[i].0 == entries[i].0);
        assert(f[j].0 == entries[j].0);
    }
    lemma_sorted_distinct(entries);
    lemma_sorted_distinct(f);
    assert forall|k: Seq<char>|
        #[trigger] lookup(f, k) == match lookup(entries, k) {
            Some(v) => v,
            None => None,
        } by {
        if has_key(entries, k) {
            let i = key_index(entries, k);
            lemma_lookup_at(entries, i);
            assert(f[i].0 == k);
            lemma_lookup_at(f, i);
            assert(entries[i].1 is Some);
        } else if has_key(f, k) {
            let i = key_index(f, k);
            assert(entries[i].0 == k);
        }
    }
}

/// The pairs of texts of fields in order of their keys are in that order
/// too, each key with the text of its value.
pub proof fn lemma_form_pairs(fields: Fields)
    requires
        sorted_by_key(fields),
    ensures
        sorted_by_key(form_pairs(fields)),
        forall|k: Seq<char>|
            #[trigger] lookup(form_pairs(fields), k) == match lookup(fields, k) {
                Some(v) => Some(field_text(v)),
                None => None,
            },
{
    let p = form_pairs(fields);
    assert forall|i: int, j: int| 0 <= i < j < p.len() implies crate::reddit::order::key_less(
        #[trigger] p[i].0,
        #[trigger] p[j].0,
    ) by {
        assert(p[i].0 == fields[i].0);
        assert(p[j].0 == fields[j].0);
    }
    lemma_sorted_distinct(fields);
    lemma_sorted_distinct(p);
    assert forall|k: Seq<char>|
        #[trigger] lookup(p, k) == match lookup(fields, k) {
            Some(v) => Some(field_text(v)),
            None => None,
        } by {
        if has_key(fields, k) {
            let i = key_index(fields, k);
            lemma_lookup_at(fields, i);
            assert(p[i].0 == k);
            lemma_lookup_at(p, i);
        } else if has_key(p, k) {
            let i = key_index(p, k);
            assert(fields[i].0 == k);
        }
    }
}

/// A form that gives each key one value, held in a JSON object as the
/// service's form is, and sent in order of its keys.
#[derive(Debug)]
pub struct PostForm {
    object: serde_json::Map<String, serde_json::Value>,
}

impl View for PostForm {
    type V = Fields;

    closed spec fn view(&self) -> Fields {
        entry_fields(json_object_entries(self.object))
    }
}

impl PostForm {
    #[verifier::type_invariant]
    closed spec fn holds_texts_and_flags(&self) -> bool {
        well_formed_entries(json_object_entries(self.object))
    }

    /// A form without fields.
    pub fn empty() -> (form: PostForm)
        ensures
            form@ == Seq::<(Seq<char>, FieldValue)>::empty(),
    {
        let form = PostForm { object: json_object_new() };
        assert(form@ =~= Seq::<(Seq<char>, FieldValue)>::empty());
        form
    }

    /// The number of fields.
    pub fn len(&self) -> (n: usize)
        ensures
            n == self@.len(),
            sorted_by_key(self@),
    {
        proof {
            use_type_invariant(self);
            lemma_entry_fields(json_object_entries(self.object));
        }
        json_object_len(&self.object)
    }

    /// Sets `key` to `value`: the key then holds the value and every other
    /// key keeps its own.
    pub fn insert(&mut self, key: String, value: FormValue)
        ensures
            inserted(old(self)@, key@, value@, final(self)@),
    {
        proof {
            use_type_invariant(&*self);
        }
        let ghost before = json_object_entries(self.object);
        let ghost k = key@;
        let ghost v = value@;
        let mut object = json_object_new();
        std::mem::swap(&mut object, &mut self.object);
        assert(json_object_entries(object) == before);
        json_object_insert(&mut object, key, value);
        proof {
            let after = json_object_entries(object);
            lemma_sorted_distinct(after);
            lemma_sorted_distinct(before);
            assert forall|i: int| 0 <= i < after.len() implies (#[trigger] after[i]).1 is Some by {
                lemma_lookup_at(after, i);
                if after[i].0 != k {
                    assert(lookup(after, after[i].0) == lookup(before, after[i].0));
                    let j = key_index(before, after[i].0);
                    assert(before[j].0 == after[i].0);
                    lemma_lookup_at(before, j);
                }
            }
            lemma_entry_fields(after);
            lemma_entry_fields(before);
            assert forall|other: Seq<char>| other != k implies #[trigger] lookup(
                entry_fields(after),
                other,
            ) == lookup(entry_fields(before), other) by {
                assert(lookup(after, other) == lookup(before, other));
            }
        }
        self.object = object;
    }

    /// A second form with the same fields.
    pub fn duplicate(&self) -> (copy: PostForm)
        ensures
            copy@ == self@,
    {
        proof {
            use_type_invariant(self);
        }
        PostForm { object: json_object_clone(&self.object) }
    }

    /// The form as the pairs of texts that are sent, in order of their keys:
    /// texts as they are, flags as `true` or `false`.
    pub fn to_pairs(&self) -> (pairs: Vec<(String, String)>)
        ensures
            pairs_view(pairs@) == form_pairs(self@),
            sorted_by_key(self@),
    {
        proof {
            use_type_invariant(self);
        }
        let ghost entries = json_object_entries(self.object);
        proof {
            lemma_entry_fields(entries);
            lemma_sorted_distinct(entries);
        }
        let keys = json_object_keys(&self.object);
        let mut pairs: Vec<(String, String)> = Vec::new();
        let n = keys.len();
        let mut i: usize = 0;
        while i < n
            invariant
                n == keys@.len(),
                n == entries.len(),
                n == self@.len(),
                entries == json_object_entries(self.object),
                well_formed_entries(entries),
                crate::reddit::order::distinct_keys(entries),
                forall|j: int| 0 <= j < n ==> #[trigger] keys@[j]@ == entries[j].0,
                i <= n,
                pairs@.len() == i,
                forall|j: int|
                    0 <= j < i ==> #[trigger] pairs_view(pairs@)[j] == form_pairs(self@)[j],
            decreases n - i,
        {
            proof {
                lemma_lookup_at(entries, i as int);
            }
            let value = json_object_get(&self.object, keys[i].as_str());
            let text = match value {
                Some(v) => v.to_text(),
                None => {
                    proof {
                        assert(entries[i as int].1 is Some);
                    }
                    String::new()
                },
            };
            let ghost old_pairs = pairs@;
            pairs.push((keys[i].clone(), text));
            proof {
                assert forall|j: int| 0 <= j < i + 1 implies #[trigger] pairs_view(pairs@)[j]
                    == form_pairs(self@)[j] by {
                    if j < i {
                        assert(pairs@[j] == old_pairs[j]);
                        assert(pairs_view(old_pairs)[j] == form_pairs(self@)[j]);
                    }
                }
            }
            i = i + 1;
        }
        assert(pairs_view(pairs@) =~= form_pairs(self@));
        pairs
    }
}

/// Setting a key twice is setting it once to the later value.
pub proof fn law_insert_twice(
    start: Fields,
    once: Fields,
    twice: Fields,
    direct: Fields,
    key: Seq<char>,
    first: FieldValue,
    second: FieldValue,
)
    requires
        inserted(start, key, first, once),
        inserted(once, key, second, twice),
        inserted(start, key, second, direct),
    ensures
        twice == direct,
{
    assert forall|k: Seq<char>| lookup(twice, k) == lookup(direct, k) by {
        if k != key {
            assert(lookup(twice, k) == lookup(once, k));
            assert(lookup(once, k) == lookup(start, k));
            assert(lookup(direct, k) == lookup(start, k));
        }
    }
    law_sorted_is_unique(twice, direct);
}

} // verus!
