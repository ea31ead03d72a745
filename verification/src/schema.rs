//! A read-only schema oracle: a registry of named types and of the
//! fields each type declares, with the lookups the refetch strategies
//! need. Lookups are pure and deterministic; a well-formed schema has
//! unique type names and at most one field per (parent type, name) pair.

use vstd::prelude::*;

verus! {

/// The kind of a schema type.
#[derive(Clone, Copy, PartialEq, Eq, Structural, Debug)]
pub enum TypeKind {
    Object,
    Interface,
    Union,
    Scalar,
    Enum,
    InputObject,
}

/// A handle to a registered schema type: its kind and its index in the
/// schema's type registry.
#[derive(Clone, Copy, PartialEq, Eq, Structural, Debug)]
pub struct Type {
    pub kind: TypeKind,
    pub id: usize,
}

impl Type {
    /// Whether this handle names an object type.
    pub fn is_object(&self) -> (r: bool)
        ensures
            r == (self.kind == TypeKind::Object),
    {
        match self.kind {
            TypeKind::Object => true,
            _ => false,
        }
    }
}

/// A handle to a field: its index in the schema's field registry.
#[derive(Clone, Copy, PartialEq, Eq, Structural, Debug)]
pub struct FieldID(pub usize);

/// The type of a field or variable, possibly wrapped in list and
/// non-null markers.
#[derive(Debug)]
pub enum TypeReference {
    Named(Type),
    List(Box<TypeReference>),
    NonNull(Box<TypeReference>),
}

impl TypeReference {
    /// The named type left after stripping every list and non-null
    /// wrapper.
    pub open spec fn spec_inner(self) -> Type
        decreases self,
    {
        match self {
            TypeReference::Named(t) => t,
            TypeReference::List(inner) => inner.spec_inner(),
            TypeReference::NonNull(inner) => inner.spec_inner(),
        }
    }

    /// Strips every list and non-null wrapper.
    pub fn inner(&self) -> (t: Type)
        ensures
            t == self.spec_inner(),
        decreases self,
    {
        match self {
            TypeReference::Named(t) => *t,
            TypeReference::List(inner) => inner.inner(),
            TypeReference::NonNull(inner) => inner.inner(),
        }
    }
}

impl Clone for TypeReference {
    fn clone(&self) -> (r: Self)
        ensures
            r == *self,
        decreases self,
    {
        match self {
            TypeReference::Named(t) => TypeReference::Named(*t),
            TypeReference::List(inner) => TypeReference::List(Box::new((**inner).clone())),
            TypeReference::NonNull(inner) => TypeReference::NonNull(Box::new((**inner).clone())),
        }
    }
}

/// A declared argument of a field.
#[derive(Debug)]
pub struct FieldArgument {
    pub name: String,
    pub type_: TypeReference,
}

/// A field record: its name, its result type, and its declared
/// arguments.
#[derive(Debug)]
pub struct Field {
    pub name: String,
    pub type_: TypeReference,
    pub arguments: Vec<FieldArgument>,
}

/// One entry of the type registry.
#[derive(Debug)]
pub struct TypeEntry {
    pub name: String,
    pub kind: TypeKind,
}

/// One entry of the field registry: the type the field is declared on,
/// and the field record itself.
#[derive(Debug)]
pub struct FieldEntry {
    pub parent: Type,
    pub field: Field,
}

/// The schema oracle.
#[derive(Debug)]
pub struct Schema {
    pub types: Vec<TypeEntry>,
    pub fields: Vec<FieldEntry>,
    pub query_type: Option<Type>,
}

impl Schema {
    /// A type handle is valid when it indexes the registry and carries
    /// the kind registered there.
    pub open spec fn valid_type(self, t: Type) -> bool {
        &&& t.id < self.types@.len()
        &&& self.types@[t.id as int].kind == t.kind
    }

    /// The registered name of a valid type handle.
    pub open spec fn spec_type_name(self, t: Type) -> Seq<char> {
        self.types@[t.id as int].name@
    }

    /// Whether `t` is the registered type with name `name`.
    pub open spec fn type_has_name(self, t: Type, name: Seq<char>) -> bool {
        &&& self.valid_type(t)
        &&& self.spec_type_name(t) == name
    }

    /// Whether some registered type has name `name`.
    pub open spec fn has_type_named(self, name: Seq<char>) -> bool {
        exists|i: int| 0 <= i < self.types@.len() && self.types@[i].name@ == name
    }

    /// Whether `id` is the field named `name` on `parent`.
    pub open spec fn field_matches(self, id: FieldID, parent: Type, name: Seq<char>) -> bool {
        &&& id.0 < self.fields@.len()
        &&& self.fields@[id.0 as int].parent == parent
        &&& self.fields@[id.0 as int].field.name@ == name
    }

    /// Whether `parent` declares a field named `name`.
    pub open spec fn has_field(self, parent: Type, name: Seq<char>) -> bool {
        exists|id: FieldID| self.field_matches(id, parent, name)
    }

    /// Well-formedness: type names unique, at most one field per
    /// (parent, name) pair, field parents valid, and the query root (if
    /// set) a valid object type.
    pub open spec fn wf(self) -> bool {
        &&& forall|i: int, j: int|
            0 <= i < j < self.types@.len() ==> self.types@[i].name@ != self.types@[j].name@
        &&& forall|i: int, j: int|
            0 <= i < j < self.fields@.len() ==> !(self.fields@[i].parent
                == self.fields@[j].parent && self.fields@[i].field.name@
                == self.fields@[j].field.name@)
        &&& forall|i: int|
            0 <= i < self.fields@.len() ==> self.valid_type(#[trigger] self.fields@[i].parent)
        &&& match self.query_type {
            Some(q) => self.valid_type(q) && q.kind == TypeKind::Object,
            None => true,
        }
    }

    /// An empty schema.
    pub fn new() -> (s: Schema)
        ensures
            s.wf(),
            s.types@.len() == 0,
            s.fields@.len() == 0,
            s.query_type is None,
    {
        Schema { types: Vec::new(), fields: Vec::new(), query_type: None }
    }

    /// The schema's root query type, if one was registered.
    pub fn query_type(&self) -> (r: Option<Type>)
        ensures
            r == self.query_type,
    {
        self.query_type
    }

    /// The registered name of a valid type handle.
    pub fn get_type_name(&self, t: Type) -> (r: String)
        requires
            self.valid_type(t),
        ensures
            r@ == self.spec_type_name(t),
    {
        self.types[t.id].name.clone()
    }

    /// Looks a type up by name. Returns the registered handle exactly
    /// when a type of that name exists.
    pub fn get_type(&self, name: &String) -> (r: Option<Type>)
        ensures
            match r {
                Some(t) => self.type_has_name(t, name@),
                None => !self.has_type_named(name@),
            },
    {
        let mut i: usize = 0;
        while i < self.types.len()
            invariant
                i <= self.types@.len(),
                forall|k: int| 0 <= k < i ==> self.types@[k].name@ != name@,
            decreases self.types@.len() - i,
        {
            if self.types[i].name == *name {
                return Some(Type { kind: self.types[i].kind, id: i });
            }
            i = i + 1;
        }
        None
    }

    /// Looks a field up by parent type and name. Returns a handle
    /// exactly when the parent declares such a field.
    pub fn named_field(&self, parent: Type, name: &String) -> (r: Option<FieldID>)
        ensures
            match r {
                Some(id) => self.field_matches(id, parent, name@),
                None => !self.has_field(parent, name@),
            },
    {
        let mut i: usize = 0;
        while i < self.fields.len()
            invariant
                i <= self.fields@.len(),
                forall|k: int|
                    0 <= k < i ==> !(self.fields@[k].parent == parent && self.fields@[k].field.name@
                        == name@),
            decreases self.fields@.len() - i,
        {
            if self.fields[i].parent == parent && self.fields[i].field.name == *name {
                return Some(FieldID(i));
            }
            i = i + 1;
        }
        proof {
            assert forall|id: FieldID| !self.field_matches(id, parent, name@) by {
                if id.0 < self.fields@.len() {
                    assert(!(self.fields@[id.0 as int].parent == parent
                        && self.fields@[id.0 as int].field.name@ == name@));
                }
            }
        }
        None
    }

    /// The field record behind a handle.
    pub fn field(&self, id: FieldID) -> (r: &Field)
        requires
            id.0 < self.fields@.len(),
        ensures
            *r == self.fields@[id.0 as int].field,
    {
        &self.fields[id.0].field
    }

    /// Registers a type. Returns its handle, or `None` (leaving the
    /// schema unchanged) when the name is already taken.
    pub fn add_type(&mut self, name: String, kind: TypeKind) -> (r: Option<Type>)
        ensures
            match r {
                Some(t) => {
                    &&& !old(self).has_type_named(name@)
                    &&& final(self).types@ == old(self).types@.push(TypeEntry { name, kind })
                    &&& t == (Type { kind, id: old(self).types@.len() as usize })
                    &&& final(self).fields@ == old(self).fields@
                    &&& final(self).query_type == old(self).query_type
                    &&& old(self).wf() ==> final(self).wf()
                },
                None => {
                    &&& old(self).has_type_named(name@)
                    &&& *final(self) == *old(self)
                },
            },
    {
        if self.get_type(&name).is_some() {
            return None;
        }
        let id = self.types.len();
        let t = Type { kind, id };
        self.types.push(TypeEntry { name, kind });
        proof {
            if old(self).wf() {
                assert forall|i: int, j: int|
                    0 <= i < j < self.types@.len() implies self.types@[i].name@
                    != self.types@[j].name@ by {
                    if j < self.types@.len() - 1 {
                    } else {
                        assert(self.types@[i].name@ != self.types@[j].name@);
                    }
                }
                assert(self.wf());
            }
        }
        Some(t)
    }

    /// Declares a field on a type. Returns its handle, or `None`
    /// (leaving the schema unchanged) when the parent is not a valid
    /// type of this schema or already declares a field of that name.
    pub fn add_field(&mut self, parent: Type, field: Field) -> (r: Option<FieldID>)
        ensures
            match r {
                Some(id) => {
                    &&& old(self).valid_type(parent)
                    &&& !old(self).has_field(parent, field.name@)
                    &&& final(self).fields@ == old(self).fields@.push(FieldEntry { parent, field })
                    &&& id == (FieldID(old(self).fields@.len() as usize))
                    &&& final(self).types@ == old(self).types@
                    &&& final(self).query_type == old(self).query_type
                    &&& old(self).wf() ==> final(self).wf()
                },
                None => {
                    &&& !old(self).valid_type(parent) || old(self).has_field(parent, field.name@)
                    &&& *final(self) == *old(self)
                },
            },
    {
        let valid = parent.id < self.types.len() && {
            let registered = self.types[parent.id].kind;
            registered == parent.kind
        };
        if !valid {
            return None;
        }
        if self.named_field(parent, &field.name).is_some() {
            return None;
        }
        let id = FieldID(self.fields.len());
        self.fields.push(FieldEntry { parent, field });
        proof {
            if old(self).wf() {
                assert forall|i: int, j: int|
                    0 <= i < j < self.fields@.len() implies !(self.fields@[i].parent
                    == self.fields@[j].parent && self.fields@[i].field.name@
                    == self.fields@[j].field.name@) by {
                    if j < self.fields@.len() - 1 {
                    } else {
                        assert(self.fields@[i] == old(self).fields@[i]);
                        if self.fields@[i].parent == parent {
                            let fid = FieldID(i as usize);
                            assert(!old(self).field_matches(fid, parent, field.name@));
                        }
                    }
                }
                assert(self.wf());
            }
        }
        Some(id)
    }

    /// Sets the root query type. Returns `true` exactly when the handle
    /// is a valid object type of this schema; otherwise the schema is
    /// unchanged.
    pub fn set_query_type(&mut self, t: Type) -> (r: bool)
        ensures
            r == (old(self).valid_type(t) && t.kind == TypeKind::Object),
            r ==> final(self).query_type == Some(t) && final(self).types@ == old(self).types@
                && final(self).fields@ == old(self).fields@ && (old(self).wf() ==> final(self).wf()),
            !r ==> *final(self) == *old(self),
    {
        let valid = t.id < self.types.len() && {
            let registered = self.types[t.id].kind;
            registered == t.kind
        };
        if valid && t.is_object() {
            self.query_type = Some(t);
            true
        } else {
            false
        }
    }
}

/// In a well-formed schema, two valid handles with the same name are the
/// same type.
pub proof fn lemma_type_name_unique(s: Schema, t1: Type, t2: Type, name: Seq<char>)
    requires
        s.wf(),
        s.type_has_name(t1, name),
        s.type_has_name(t2, name),
    ensures
        t1 == t2,
{
    if t1.id != t2.id {
        if t1.id < t2.id {
            assert(s.types@[t1.id as int].name@ != s.types@[t2.id as int].name@);
        } else {
            assert(s.types@[t2.id as int].name@ != s.types@[t1.id as int].name@);
        }
    }
}

/// In a well-formed schema, a parent type declares at most one field of
/// a given name.
pub proof fn lemma_field_unique(s: Schema, parent: Type, name: Seq<char>, id1: FieldID, id2: FieldID)
    requires
        s.wf(),
        s.field_matches(id1, parent, name),
        s.field_matches(id2, parent, name),
    ensures
        id1 == id2,
{
    if id1.0 != id2.0 {
        if id1.0 < id2.0 {
            assert(!(s.fields@[id1.0 as int].parent == s.fields@[id2.0 as int].parent
                && s.fields@[id1.0 as int].field.name@ == s.fields@[id2.0 as int].field.name@));
        } else {
            assert(!(s.fields@[id2.0 as int].parent == s.fields@[id1.0 as int].parent
                && s.fields@[id2.0 as int].field.name@ == s.fields@[id1.0 as int].field.name@));
        }
    }
}

} // verus!
