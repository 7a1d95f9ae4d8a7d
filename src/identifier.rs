use vstd::prelude::*;

verus! {

/// The key of a cache slot: a path or an integer index.
#[derive(Debug, Eq, Hash, PartialOrd, Ord, Clone)]
pub enum Identifier {
    Path(String),
    Index(usize),
}

/// What a key stands for, as a mathematical value.
pub enum IdView {
    Path(Seq<char>),
    Index(usize),
}

impl View for Identifier {
    type V = IdView;

    open spec fn view(&self) -> IdView {
        match self {
            Identifier::Path(p) => IdView::Path(p@),
            Identifier::Index(i) => IdView::Index(*i),
        }
    }
}

impl Identifier {
    /// Whether two keys name the same slot.
    pub fn same(&self, other: &Identifier) -> (r: bool)
        ensures
            r == (self@ == other@),
    {
        match (self, other) {
            (Identifier::Path(a), Identifier::Path(b)) => a.eq(b),
            (Identifier::Index(a), Identifier::Index(b)) => *a == *b,
            _ => false,
        }
    }
}

impl Identifier {
    /// A copy of this key that names the same slot.
    pub fn duplicate(&self) -> (r: Identifier)
        ensures
            r@ == self@,
    {
        match self {
            Identifier::Path(p) => Identifier::Path(p.clone()),
            Identifier::Index(i) => Identifier::Index(*i),
        }
    }
}

impl PartialEq for Identifier {
    fn eq(&self, other: &Identifier) -> (r: bool) {
        self.same(other)
    }
}

impl vstd::std_specs::cmp::PartialEqSpecImpl for Identifier {
    open spec fn obeys_eq_spec() -> bool {
        true
    }

    open spec fn eq_spec(&self, other: &Identifier) -> bool {
        self@ == other@
    }
}

impl From<String> for Identifier {
    fn from(p: String) -> (r: Identifier) {
        Identifier::Path(p)
    }
}

impl vstd::std_specs::convert::FromSpecImpl<String> for Identifier {
    open spec fn obeys_from_spec() -> bool {
        true
    }

    open spec fn from_spec(p: String) -> Identifier {
        Identifier::Path(p)
    }
}

impl From<usize> for Identifier {
    fn from(u: usize) -> (r: Identifier) {
        Identifier::Index(u)
    }
}

impl vstd::std_specs::convert::FromSpecImpl<usize> for Identifier {
    open spec fn obeys_from_spec() -> bool {
        true
    }

    open spec fn from_spec(u: usize) -> Identifier {
        Identifier::Index(u)
    }
}

} // verus!
