use vstd::prelude::*;

verus! {

/// Mathematical model of a document: a dynamically-typed tree of scalars,
/// arrays and key-value objects, with keys as character sequences.
#[verifier::ext_equal]
pub ghost enum Val {
    Null,
    Bool(bool),
    Int(int),
    Text(Seq<char>),
    Arr(Seq<Val>),
    Obj(Seq<(Seq<char>, Val)>),
}

/// First entry of `entries` whose key equals `key`, if any.
pub open spec fn lookup_entry(entries: Seq<(Seq<char>, Val)>, key: Seq<char>) -> Option<Val>
    decreases entries.len(),
{
    if entries.len() <= 0 {
        None
    } else if entries[0].0 == key {
        Some(entries[0].1)
    } else {
        lookup_entry(entries.skip(1), key)
    }
}

impl Val {
    /// Value stored under `key`, for object documents.
    pub open spec fn get(self, key: Seq<char>) -> Option<Val> {
        match self {
            Val::Obj(entries) => lookup_entry(entries, key),
            _ => None,
        }
    }

    /// Adding a field to an object document: the new entry shadows any
    /// older entry with the same key. Non-object documents are unchanged.
    pub open spec fn put(self, key: Seq<char>, value: Val) -> Val {
        match self {
            Val::Obj(entries) => Val::Obj(seq![(key, value)] + entries),
            _ => self,
        }
    }

    /// The schema version a document declares: the value of its `version`
    /// field when that is an integer between 0 and `u32::MAX`, and 0 when
    /// the field is absent or malformed. Reading the version never fails.
    pub open spec fn version(self) -> u32 {
        match self.get("version"@) {
            Some(v) => match v {
                Val::Int(n) => if 0 <= n <= u32::MAX { n as u32 } else { 0u32 },
                _ => 0u32,
            },
            None => 0u32,
        }
    }
}

/// A document: a dynamically-typed tree value representing stored
/// configuration before it is bound to a concrete schema type.
pub enum Doc {
    Null,
    Bool(bool),
    Int(i64),
    Text(String),
    Arr(Vec<Doc>),
    Obj(Vec<(String, Doc)>),
}

/// Model of one stored object entry.
pub open spec fn entry_view(kv: (String, Doc)) -> (Seq<char>, Val)
    decreases kv,
{
    (kv.0@, kv.1@)
}

/// Model of the stored entries of an object document.
pub open spec fn entries_view(es: Seq<(String, Doc)>) -> Seq<(Seq<char>, Val)>
    decreases es,
{
    Seq::new(
        es.len(),
        |i: int|
            if 0 <= i < es.len() {
                entry_view(es[i])
            } else {
                (Seq::<char>::empty(), Val::Null)
            },
    )
}

impl View for Doc {
    type V = Val;

    open spec fn view(&self) -> Val
        decreases self,
    {
        match self {
            Doc::Null => Val::Null,
            Doc::Bool(b) => Val::Bool(*b),
            Doc::Int(n) => Val::Int(*n as int),
            Doc::Text(s) => Val::Text(s@),
            Doc::Arr(items) => Val::Arr(
                Seq::new(
                    items@.len(),
                    |i: int|
                        if 0 <= i < items@.len() {
                            items@[i]@
                        } else {
                            Val::Null
                        },
                ),
            ),
            Doc::Obj(entries) => Val::Obj(entries_view(entries@)),
        }
    }
}

impl Doc {
    /// An object document with no fields yet.
    pub fn new_obj() -> (d: Doc)
        ensures
            d@ == Val::Obj(Seq::<(Seq<char>, Val)>::empty()),
    {
        let entries: Vec<(String, Doc)> = Vec::new();
        let d = Doc::Obj(entries);
        proof {
            assert(entries_view(entries@) =~= Seq::<(Seq<char>, Val)>::empty());
        }
        d
    }

    /// Adds a field to an object document; the new entry shadows any older
    /// entry with the same key. A non-object document is returned unchanged.
    pub fn with_field(self, key: &str, value: Doc) -> (d: Doc)
        ensures
            d@ == self@.put(key@, value@),
    {
        match self {
            Doc::Obj(mut entries) => {
                let ghost old_entries = entries@;
                entries.insert(0, (key.to_owned(), value));
                let d = Doc::Obj(entries);
                proof {
                    assert(entries_view(entries@) =~= seq![(key@, value@)] + entries_view(
                        old_entries,
                    ));
                }
                d
            },
            other => other,
        }
    }

    /// Adds an integer field to an object document.
    pub fn with_int(self, key: &str, n: i64) -> (d: Doc)
        ensures
            d@ == self@.put(key@, Val::Int(n as int)),
    {
        self.with_field(key, Doc::Int(n))
    }

    /// The integer stored under `key`, if this document is an object and
    /// holds an integer there.
    pub fn get_int(&self, key: &str) -> (r: Option<i64>)
        ensures
            match r {
                Some(n) => self@.get(key@) == Some(Val::Int(n as int)),
                None => forall|n: int| self@.get(key@) != Some(Val::Int(n)),
            },
    {
        match self {
            Doc::Obj(entries) => match find_entry(entries, key) {
                Some(i) => match &entries[i].1 {
                    Doc::Int(n) => Some(*n),
                    _ => None,
                },
                None => None,
            },
            _ => None,
        }
    }

    /// The schema version this document declares, read leniently: 0 when
    /// the `version` field is absent or malformed.
    pub(crate) fn read_version(&self) -> (v: u32)
        ensures
            v == self@.version(),
    {
        match self {
            Doc::Obj(entries) => match find_entry(entries, "version") {
                Some(i) => match &entries[i].1 {
                    Doc::Int(n) => {
                        if 0 <= *n && *n <= u32::MAX as i64 {
                            *n as u32
                        } else {
                            0
                        }
                    },
                    _ => 0,
                },
                None => 0,
            },
            _ => 0,
        }
    }
}

/// Looking up a key is unaffected by dropping leading entries whose keys
/// differ from it.
proof fn lemma_lookup_step(es: Seq<(Seq<char>, Val)>, key: Seq<char>, i: int)
    requires
        0 <= i < es.len(),
        es[i].0 != key,
        lookup_entry(es, key) == lookup_entry(es.skip(i), key),
    ensures
        lookup_entry(es, key) == lookup_entry(es.skip(i + 1), key),
{
    assert(es.skip(i).skip(1) =~= es.skip(i + 1));
    assert(es.skip(i)[0] == es[i]);
}

/// Index of the first entry whose key equals `key`, agreeing with the
/// model-level lookup.
fn find_entry(entries: &Vec<(String, Doc)>, key: &str) -> (r: Option<usize>)
    ensures
        match r {
            Some(i) => i < entries@.len() && entries@[i as int].0@ == key@ && lookup_entry(
                entries_view(entries@),
                key@,
            ) == Some(entries@[i as int].1@),
            None => lookup_entry(entries_view(entries@), key@) is None,
        },
{
    let k: String = key.to_owned();
    let ghost es = entries_view(entries@);
    proof {
        assert(es.skip(0) =~= es);
    }
    let mut i: usize = 0;
    while i < entries.len()
        invariant
            0 <= i <= entries@.len(),
            k@ == key@,
            es == entries_view(entries@),
            es.len() == entries@.len(),
            lookup_entry(es, key@) == lookup_entry(es.skip(i as int), key@),
            forall|j: int| 0 <= j < i ==> entries@[j].0@ != key@,
        decreases entries@.len() - i,
    {
        if entries[i].0 == k {
            proof {
                assert(es.skip(i as int)[0] == es[i as int]);
            }
            return Some(i);
        }
        proof {
            lemma_lookup_step(es, key@, i as int);
        }
        i = i + 1;
    }
    proof {
        assert(es.skip(i as int) =~= Seq::<(Seq<char>, Val)>::empty());
    }
    None
}

} // verus!
