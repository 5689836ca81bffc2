use vstd::prelude::*;

verus! {

/// The abstract value of a document field.
pub enum Val {
    Text(Seq<char>),
    Double(u64),
}

/// The abstract value of a document: its fields in order, as key and value.
pub type DocModel = Seq<(Seq<char>, Val)>;

/// A field value held in a stored document.
#[derive(Debug, PartialEq, Eq)]
pub enum Value {
    Text(String),
    /// A binary64 number, held as its bit pattern so that it is carried unchanged.
    Double(u64),
}

impl View for Value {
    type V = Val;

    open spec fn view(&self) -> Val {
        match self {
            Value::Text(s) => Val::Text(s@),
            Value::Double(b) => Val::Double(*b),
        }
    }
}

impl Value {
    pub fn duplicate(&self) -> (r: Value)
        ensures
            r@ == self@,
    {
        match self {
            Value::Text(s) => Value::Text(s.clone()),
            Value::Double(b) => Value::Double(*b),
        }
    }
}

/// One named field of a document.
#[derive(Debug, PartialEq, Eq)]
pub struct Field {
    pub key: String,
    pub value: Value,
}

impl View for Field {
    type V = (Seq<char>, Val);

    open spec fn view(&self) -> (Seq<char>, Val) {
        (self.key@, self.value@)
    }
}

/// A flat document: an ordered list of named fields.
#[derive(Debug, PartialEq, Eq)]
pub struct Document {
    pub fields: Vec<Field>,
}

impl View for Document {
    type V = DocModel;

    open spec fn view(&self) -> DocModel {
        self.fields@.map_values(|f: Field| f@)
    }
}

impl Document {
    pub fn new() -> (r: Document)
        ensures
            r@ == Seq::<(Seq<char>, Val)>::empty(),
    {
        Document { fields: Vec::new() }
    }

    /// A field-by-field copy.
    pub fn duplicate(&self) -> (r: Document)
        ensures
            r@ == self@,
    {
        let mut r = Document::new();
        let mut i: usize = 0;
        while i < self.fields.len()
            invariant
                i <= self.fields.len(),
                r@ == self@.subrange(0, i as int),
            decreases self.fields.len() - i,
        {
            let f = &self.fields[i];
            r.push(f.key.clone(), f.value.duplicate());
            proof {
                assert(self@.subrange(0, i as int + 1) =~= self@.subrange(0, i as int).push(self@[i as int]));
            }
            i = i + 1;
        }
        proof {
            assert(self@.subrange(0, self@.len() as int) =~= self@);
        }
        r
    }

    /// Appends a field without looking for an earlier one of the same name.
    pub fn push(&mut self, key: String, value: Value)
        ensures
            final(self)@ == old(self)@.push((key@, value@)),
    {
        self.fields.push(Field { key, value });
        proof {
            assert(self@ =~= old(self)@.push((key@, value@)));
        }
    }

    /// The position of the first field named `key`.
    pub fn find_key(&self, key: &String) -> (r: Option<usize>)
        ensures
            match r {
                None => key_index(self@, key@) == -1,
                Some(i) => key_index(self@, key@) == i as int && i < self@.len(),
            },
    {
        let mut i: usize = 0;
        while i < self.fields.len()
            invariant
                i <= self.fields.len(),
                key_index(self@, key@) == key_index_from(self@, key@, i as int),
            decreases self.fields.len() - i,
        {
            if self.fields[i].key == *key {
                return Some(i);
            }
            i = i + 1;
        }
        None
    }

    /// Whether the field `key` holds the text `value`.
    pub fn has_text(&self, key: &String, value: &String) -> (r: bool)
        ensures
            r == has_text(self@, key@, value@),
    {
        match self.find_key(key) {
            None => false,
            Some(i) => match &self.fields[i].value {
                Value::Text(s) => *s == *value,
                Value::Double(_) => false,
            },
        }
    }

    /// Sets the field `key` to `value`: in place where the key is present, appended otherwise.
    pub fn set(&mut self, key: String, value: Value)
        ensures
            final(self)@ == with_field(old(self)@, key@, value@),
    {
        match self.find_key(&key) {
            None => {
                self.push(key, value);
            },
            Some(i) => {
                let ghost k = key@;
                let ghost v = value@;
                proof {
                    lemma_key_index_from_range(self@, k, 0);
                }
                self.fields.set(i, Field { key, value });
                proof {
                    assert(self@ =~= old(self)@.update(i as int, (k, v)));
                }
            },
        }
    }

    /// Sets each field of `update` in turn.
    pub fn set_all(&mut self, update: &Document)
        ensures
            final(self)@ == with_fields(old(self)@, update@),
    {
        let mut i: usize = 0;
        while i < update.fields.len()
            invariant
                i <= update.fields.len(),
                self@ == with_fields(old(self)@, update@.subrange(0, i as int)),
            decreases update.fields.len() - i,
        {
            let f = &update.fields[i];
            let ghost before = self@;
            self.set(f.key.clone(), f.value.duplicate());
            proof {
                let s = update@.subrange(0, i as int + 1);
                assert(s.drop_last() =~= update@.subrange(0, i as int));
                assert(s.last() == update@[i as int]);
            }
            i = i + 1;
        }
        proof {
            assert(update@.subrange(0, update@.len() as int) =~= update@);
        }
    }
}

/// The position of the first field named `k` at or after position `i`, or -1 where there is none.
pub open spec fn key_index_from(d: DocModel, k: Seq<char>, i: int) -> int
    decreases d.len() - i,
{
    if i < 0 || i >= d.len() {
        -1
    } else if d[i].0 == k {
        i
    } else {
        key_index_from(d, k, i + 1)
    }
}

/// The position of the first field named `k`, or -1 where there is none.
pub open spec fn key_index(d: DocModel, k: Seq<char>) -> int {
    key_index_from(d, k, 0)
}

/// The value of the field named `k`, as a lookup by key reads it.
pub open spec fn field_of(d: DocModel, k: Seq<char>) -> Option<Val> {
    let i = key_index(d, k);
    if i < 0 {
        None
    } else {
        Some(d[i].1)
    }
}

/// `d` with the field `k` set to `v`: replaced in place where present, appended otherwise.
pub open spec fn with_field(d: DocModel, k: Seq<char>, v: Val) -> DocModel {
    let i = key_index(d, k);
    if i < 0 {
        d.push((k, v))
    } else {
        d.update(i, (k, v))
    }
}

/// `d` with every field of `s` set in turn.
pub open spec fn with_fields(d: DocModel, s: DocModel) -> DocModel
    decreases s.len(),
{
    if s.len() == 0 {
        d
    } else {
        with_field(with_fields(d, s.drop_last()), s.last().0, s.last().1)
    }
}

/// Whether the document holds the text `v` under the key `k`.
pub open spec fn has_text(d: DocModel, k: Seq<char>, v: Seq<char>) -> bool {
    field_of(d, k) == Some(Val::Text(v))
}

proof fn lemma_key_index_from_range(d: DocModel, k: Seq<char>, i: int)
    ensures
        key_index_from(d, k, i) == -1 || (i <= key_index_from(d, k, i) < d.len() && d[key_index_from(d, k, i)].0 == k),
        key_index_from(d, k, i) == -1 ==> forall|j: int| 0 <= i <= j < d.len() ==> d[j].0 != k,
        forall|j: int| 0 <= i <= j < key_index_from(d, k, i) ==> d[j].0 != k,
    decreases d.len() - i,
{
    if i < 0 || i >= d.len() {
    } else if d[i].0 == k {
    } else {
        lemma_key_index_from_range(d, k, i + 1);
        assert forall|j: int| 0 <= i <= j < key_index_from(d, k, i) implies d[j].0 != k by {
            if j > i {
                assert(i + 1 <= j < key_index_from(d, k, i + 1));
            }
        }
    }
}

/// Characterises the first position of a key by what comes before it.
proof fn lemma_key_index_unique(d: DocModel, k: Seq<char>, i: int)
    requires
        -1 <= i < d.len(),
        i >= 0 ==> d[i].0 == k,
        forall|j: int| 0 <= j < d.len() && (i < 0 || j < i) ==> d[j].0 != k,
    ensures
        key_index(d, k) == i,
{
    lemma_key_index_from_range(d, k, 0);
}

/// Reading a field after setting one: the key that was set reads the new value, the others are untouched.
pub proof fn lemma_field_of_with_field(d: DocModel, k: Seq<char>, v: Val, k2: Seq<char>)
    ensures
        field_of(with_field(d, k, v), k2) == (if k2 == k {
            Some(v)
        } else {
            field_of(d, k2)
        }),
{
    let d2 = with_field(d, k, v);
    lemma_key_index_from_range(d, k, 0);
    lemma_key_index_from_range(d, k2, 0);
    let i = key_index(d, k);
    let i2 = key_index(d, k2);
    if k2 == k {
        lemma_key_index_unique(d2, k, if i < 0 { d.len() as int } else { i });
    } else {
        if i2 < 0 {
            assert forall|j: int| 0 <= j < d2.len() implies d2[j].0 != k2 by {
                if j < d.len() {
                    assert(d[j].0 != k2);
                }
            }
            lemma_key_index_unique(d2, k2, -1);
        } else {
            lemma_key_index_unique(d2, k2, i2);
        }
    }
}

} // verus!
