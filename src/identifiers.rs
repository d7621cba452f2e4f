use vstd::prelude::*;

verus! {

#[verifier::external_type_specification]
#[verifier::external_body]
#[verifier::reject_recursive_types(T)]
pub struct ExURID<T: ?Sized>(urid::URID<T>);

/// Relies on `urid::URID::new`: it yields a URID exactly when the raw number is not zero.
pub assume_specification[ urid::URID::<()>::new ](raw_urid: u32) -> (r: Option<urid::URID>)
    ensures
        r.is_some() == (raw_urid != 0),
;

/// A URID: a small non-zero number that stands for a URI within one process.
#[derive(Clone, Copy, Debug, PartialEq, Eq)]
pub struct Urid {
    raw: u32,
}

impl Urid {
    #[verifier::type_invariant]
    spec fn nonzero(self) -> bool {
        self.raw != 0
    }

    /// The number this identifier carries.
    pub closed spec fn spec_raw(self) -> u32 {
        self.raw
    }

    /// Builds an identifier from a raw number; zero is not an identifier.
    pub fn new(raw: u32) -> (r: Option<Urid>)
        ensures
            r.is_some() == (raw != 0),
            r matches Some(u) ==> u.spec_raw() == raw,
    {
        match urid::URID::new(raw) {
            Some(_) => Some(Urid { raw }),
            None => None,
        }
    }

    /// The number this identifier carries, never zero.
    pub fn get(&self) -> (r: u32)
        ensures
            r == self.spec_raw(),
            r != 0,
    {
        proof {
            use_type_invariant(self);
        }
        self.raw
    }
}

/// The closed set of scalar kinds that can be written as atoms.
#[derive(Clone, Copy, Debug, PartialEq, Eq, Structural)]
pub enum ScalarKind {
    Int,
    Long,
    Float,
    Double,
    Urid,
    Bool,
}

impl ScalarKind {
    /// Number of body bytes an atom of this kind carries.
    pub open spec fn spec_body_size(self) -> nat {
        match self {
            ScalarKind::Int => 4,
            ScalarKind::Long => 8,
            ScalarKind::Float => 4,
            ScalarKind::Double => 8,
            ScalarKind::Urid => 4,
            ScalarKind::Bool => 1,
        }
    }

    /// The canonical, null-terminated URI that names this kind.
    pub open spec fn spec_uri(self) -> Seq<char> {
        match self {
            ScalarKind::Int => "http://lv2plug.in/ns/ext/atom#Int\0"@,
            ScalarKind::Long => "http://lv2plug.in/ns/ext/atom#Long\0"@,
            ScalarKind::Float => "http://lv2plug.in/ns/ext/atom#Float\0"@,
            ScalarKind::Double => "http://lv2plug.in/ns/ext/atom#Double\0"@,
            ScalarKind::Urid => "http://lv2plug.in/ns/ext/atom#URID\0"@,
            ScalarKind::Bool => "http://lv2plug.in/ns/ext/atom#Bool\0"@,
        }
    }

    pub fn body_size(&self) -> (r: u32)
        ensures
            r as nat == self.spec_body_size(),
    {
        match self {
            ScalarKind::Int => 4,
            ScalarKind::Long => 8,
            ScalarKind::Float => 4,
            ScalarKind::Double => 8,
            ScalarKind::Urid => 4,
            ScalarKind::Bool => 1,
        }
    }

    pub fn uri(&self) -> (r: &'static str)
        ensures
            r@ == self.spec_uri(),
    {
        match self {
            ScalarKind::Int => "http://lv2plug.in/ns/ext/atom#Int\0",
            ScalarKind::Long => "http://lv2plug.in/ns/ext/atom#Long\0",
            ScalarKind::Float => "http://lv2plug.in/ns/ext/atom#Float\0",
            ScalarKind::Double => "http://lv2plug.in/ns/ext/atom#Double\0",
            ScalarKind::Urid => "http://lv2plug.in/ns/ext/atom#URID\0",
            ScalarKind::Bool => "http://lv2plug.in/ns/ext/atom#Bool\0",
        }
    }
}

/// The identifiers of the six scalar kinds, resolved once and read-only after.
#[derive(Clone, Copy, Debug)]
pub struct MappedURIDs {
    int_type: Urid,
    long_type: Urid,
    float_type: Urid,
    double_type: Urid,
    urid_type: Urid,
    bool_type: Urid,
}

/// No two of the given numbers are equal.
pub open spec fn pairwise_distinct(ids: Seq<u32>) -> bool {
    forall|i: int, j: int| 0 <= i < ids.len() && 0 <= j < ids.len() && i != j ==> ids[i] != ids[j]
}

impl MappedURIDs {
    /// The identifier held for a kind.
    pub closed spec fn spec_resolve(self, kind: ScalarKind) -> Urid {
        match kind {
            ScalarKind::Int => self.int_type,
            ScalarKind::Long => self.long_type,
            ScalarKind::Float => self.float_type,
            ScalarKind::Double => self.double_type,
            ScalarKind::Urid => self.urid_type,
            ScalarKind::Bool => self.bool_type,
        }
    }

    /// Distinct kinds hold distinct identifiers.
    pub open spec fn coherent(self) -> bool {
        forall|a: ScalarKind, b: ScalarKind|
            #![trigger self.spec_resolve(a), self.spec_resolve(b)]
            self.spec_resolve(a).spec_raw() == self.spec_resolve(b).spec_raw() ==> a == b
    }

    /// The numbers of six identifiers, in the order of the kinds.
    pub open spec fn raw_ids(a: Urid, b: Urid, c: Urid, d: Urid, e: Urid, f: Urid) -> Seq<u32> {
        seq![a.spec_raw(), b.spec_raw(), c.spec_raw(), d.spec_raw(), e.spec_raw(), f.spec_raw()]
    }

    /// Builds a table from the identifiers a registry gave for the six kinds;
    /// refuses one that gives an identifier to two kinds.
    pub fn new(
        int_type: Urid,
        long_type: Urid,
        float_type: Urid,
        double_type: Urid,
        urid_type: Urid,
        bool_type: Urid,
    ) -> (r:
        Option<MappedURIDs>)
        ensures
            r.is_some() == pairwise_distinct(
                Self::raw_ids(int_type, long_type, float_type, double_type, urid_type, bool_type),
            ),
            r matches Some(t) ==> {
                &&& t.coherent()
                &&& t.spec_resolve(ScalarKind::Int) == int_type
                &&& t.spec_resolve(ScalarKind::Long) == long_type
                &&& t.spec_resolve(ScalarKind::Float) == float_type
                &&& t.spec_resolve(ScalarKind::Double) == double_type
                &&& t.spec_resolve(ScalarKind::Urid) == urid_type
                &&& t.spec_resolve(ScalarKind::Bool) == bool_type
            },
    {
        let ids: Vec<u32> = vec![int_type.get(), long_type.get(), float_type.get(), double_type.get(), urid_type.get(), bool_type.get()];
        let ghost s = Self::raw_ids(int_type, long_type, float_type, double_type, urid_type, bool_type);
        assert(ids@ =~= s);
        let mut i: usize = 0;
        while i < ids.len()
            invariant
                ids@ == s,
                s == Self::raw_ids(int_type, long_type, float_type, double_type, urid_type, bool_type),
                i <= ids.len(),
                forall|a: int, b: int| 0 <= a < i && 0 <= b < ids.len() && a != b ==> ids@[a] != ids@[b],
            decreases ids.len() - i,
        {
            let mut j: usize = 0;
            while j < ids.len()
                invariant
                    ids@ == s,
                    s == Self::raw_ids(int_type, long_type, float_type, double_type, urid_type, bool_type),
                s == Self::raw_ids(int_type, long_type, float_type, double_type, urid_type, bool_type),
                    i < ids.len(),
                    j <= ids.len(),
                    forall|a: int, b: int| 0 <= a < i && 0 <= b < ids.len() && a != b ==> ids@[a] != ids@[b],
                    forall|b: int| 0 <= b < j && i != b ==> ids@[i as int] != ids@[b],
                decreases ids.len() - j,
            {
                if i != j && ids[i] == ids[j] {
                    assert(!pairwise_distinct(s)) by {
                        assert(s[i as int] == s[j as int]);
                    }
                    return None;
                }
                j = j + 1;
            }
            i = i + 1;
        }
        let t = MappedURIDs { int_type, long_type, float_type, double_type, urid_type, bool_type };
        assert forall|a: ScalarKind, b: ScalarKind|
            t.spec_resolve(a).spec_raw() == t.spec_resolve(b).spec_raw() implies a == b by {
            let ia: int = match a {
                ScalarKind::Int => 0,
                ScalarKind::Long => 1,
                ScalarKind::Float => 2,
                ScalarKind::Double => 3,
                ScalarKind::Urid => 4,
                ScalarKind::Bool => 5,
            };
            let ib: int = match b {
                ScalarKind::Int => 0,
                ScalarKind::Long => 1,
                ScalarKind::Float => 2,
                ScalarKind::Double => 3,
                ScalarKind::Urid => 4,
                ScalarKind::Bool => 5,
            };
            assert(s[ia] == t.spec_resolve(a).spec_raw());
            assert(s[ib] == t.spec_resolve(b).spec_raw());
        }
        Some(t)
    }

    /// The identifier of a kind; the same on every call on one table.
    pub fn resolve(&self, kind: ScalarKind) -> (r: Urid)
        ensures
            r == self.spec_resolve(kind),
    {
        match kind {
            ScalarKind::Int => self.int_type,
            ScalarKind::Long => self.long_type,
            ScalarKind::Float => self.float_type,
            ScalarKind::Double => self.double_type,
            ScalarKind::Urid => self.urid_type,
            ScalarKind::Bool => self.bool_type,
        }
    }
}

/// Resolving in one table is stable: a kind has one identifier, and an
/// identifier stands for one kind only.
pub proof fn lemma_resolve_stable(t: MappedURIDs, a: ScalarKind, b: ScalarKind)
    requires
        t.coherent(),
    ensures
        a == b ==> t.spec_resolve(a) == t.spec_resolve(b),
        t.spec_resolve(a).spec_raw() == t.spec_resolve(b).spec_raw() <==> a == b,
{
}

/// Two tables built independently are each coherent on their own; nothing
/// relates the identifiers of one to those of the other.
pub proof fn lemma_tables_self_coherent(t: MappedURIDs, u: MappedURIDs)
    requires
        t.coherent(),
        u.coherent(),
    ensures
        forall|a: ScalarKind, b: ScalarKind|
            #![trigger t.spec_resolve(a), t.spec_resolve(b)]
            t.spec_resolve(a).spec_raw() == t.spec_resolve(b).spec_raw() <==> a == b,
        forall|a: ScalarKind, b: ScalarKind|
            #![trigger u.spec_resolve(a), u.spec_resolve(b)]
            u.spec_resolve(a).spec_raw() == u.spec_resolve(b).spec_raw() <==> a == b,
{
}

} // verus!
