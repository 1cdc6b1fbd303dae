use vstd::prelude::*;

use crate::doc::{Doc, Val};

verus! {

/// A concrete schema revision: documents of this shape are objects holding
/// the revision's fixed `version` tag and one integer data field with the
/// given name.
pub struct Schema {
    /// The version number documents of this schema carry.
    pub version: u32,
    /// Name of the schema's data field.
    pub field: String,
}

/// A document bound to a schema revision: the version it declares and the
/// value of the schema's data field.
#[derive(PartialEq, Eq, Structural, Clone, Copy, Debug)]
pub struct Typed {
    /// The version the document declared.
    pub version: u32,
    /// The value of the schema's data field.
    pub value: i64,
}

/// A value carrying an integer schema version.
pub trait Versioned {
    /// The version the value declares.
    spec fn spec_version(&self) -> u32;

    /// Reads the declared version.
    fn get_version(&self) -> (v: u32)
        ensures
            v == self.spec_version(),
    ;
}

impl Versioned for Typed {
    open spec fn spec_version(&self) -> u32 {
        self.version
    }

    fn get_version(&self) -> u32 {
        self.version
    }
}

impl Versioned for Doc {
    open spec fn spec_version(&self) -> u32 {
        self@.version()
    }

    fn get_version(&self) -> u32 {
        self.read_version()
    }
}

impl Schema {
    /// Strict reading of a document as this schema: the document must hold
    /// an integer `version` no larger than `u32::MAX` and an integer under
    /// the schema's field name. Other fields are ignored.
    pub open spec fn spec_from_doc(&self, v: Val) -> Option<Typed> {
        match (v.get("version"@), v.get(self.field@)) {
            (Some(Val::Int(ver)), Some(Val::Int(x))) => if 0 <= ver <= u32::MAX && i64::MIN <= x
                <= i64::MAX {
                Some(Typed { version: ver as u32, value: x as i64 })
            } else {
                None
            },
            _ => None,
        }
    }

    /// The default value of this schema: its fixed version tag and 0.
    pub open spec fn spec_default(&self) -> Typed {
        Typed { version: self.version, value: 0 }
    }

    /// What the lenient conversion returns: the parsed document, or the
    /// schema's default value when the document does not fit.
    pub open spec fn spec_from_doc_or_default(&self, v: Val) -> Typed {
        match self.spec_from_doc(v) {
            Some(t) => t,
            None => self.spec_default(),
        }
    }

    /// The canonical document of this schema for a data value: an object
    /// holding the schema's version tag and its data field.
    pub open spec fn spec_to_doc(&self, value: i64) -> Val {
        Val::Obj(
            seq![
                ("version"@, Val::Int(self.version as int)),
                (self.field@, Val::Int(value as int)),
            ],
        )
    }

    /// Reads a document as this schema, failing when it does not fit.
    pub fn from_doc(&self, d: &Doc) -> (r: Option<Typed>)
        ensures
            r == self.spec_from_doc(d@),
    {
        match (d.get_int("version"), d.get_int(self.field.as_str())) {
            (Some(ver), Some(x)) => {
                if 0 <= ver && ver <= u32::MAX as i64 {
                    Some(Typed { version: ver as u32, value: x })
                } else {
                    None
                }
            },
            _ => None,
        }
    }

    /// The schema's default value.
    pub fn default_typed(&self) -> (t: Typed)
        ensures
            t == self.spec_default(),
    {
        Typed { version: self.version, value: 0 }
    }

    /// Reads a document as this schema, substituting the schema's default
    /// value when the document does not fit. This conversion never fails.
    pub fn from_doc_or_default(&self, d: &Doc) -> (t: Typed)
        ensures
            t == self.spec_from_doc_or_default(d@),
    {
        match self.from_doc(d) {
            Some(t) => t,
            None => self.default_typed(),
        }
    }

    /// Writes a data value as this schema's canonical document.
    pub fn to_doc(&self, value: i64) -> (d: Doc)
        ensures
            d@ == self.spec_to_doc(value),
    {
        let d0 = Doc::new_obj();
        let d1 = d0.with_int(self.field.as_str(), value);
        let d = d1.with_int("version", self.version as i64);
        proof {
            let ghost empty = Seq::<(Seq<char>, Val)>::empty();
            let ghost fp = (self.field@, Val::Int(value as int));
            let ghost vp = ("version"@, Val::Int(self.version as int));
            assert(d0@ == Val::Obj(empty));
            assert(d1@ == Val::Obj(seq![fp] + empty));
            assert(d@ == Val::Obj(seq![vp] + (seq![fp] + empty)));
            assert(seq![vp] + (seq![fp] + empty) =~= seq![vp, fp]);
            assert(d@ =~~= self.spec_to_doc(value));
        }
        d
    }
}

/// The canonical document of a schema declares exactly the schema's
/// version: stamping is built into `to_doc`.
pub proof fn lemma_to_doc_version(s: Schema, value: i64)
    ensures
        s.spec_to_doc(value).version() == s.version,
{
    let es = seq![
        ("version"@, Val::Int(s.version as int)),
        (s.field@, Val::Int(value as int)),
    ];
    assert(crate::doc::lookup_entry(es, "version"@) == Some(Val::Int(s.version as int)));
}

} // verus!
