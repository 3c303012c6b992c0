use vstd::prelude::*;

verus! {

/// Identifier of the underlying instrument that a risk factor or a shock refers to.
pub struct Symbol {
    pub id: String,
}

impl Symbol {
    /// The identifier as text.
    pub fn as_string(&self) -> (r: String)
        ensures
            r@ == self.id@,
    {
        self.id.clone()
    }
}

impl Clone for Symbol {
    fn clone(&self) -> (r: Symbol)
        ensures
            r == *self,
    {
        Symbol { id: self.id.clone() }
    }
}

impl vstd::std_specs::cmp::PartialEqSpecImpl for Symbol {
    open spec fn obeys_eq_spec() -> bool {
        true
    }

    open spec fn eq_spec(&self, other: &Symbol) -> bool {
        self.id@ == other.id@
    }
}

impl PartialEq for Symbol {
    fn eq(&self, other: &Symbol) -> (r: bool)
        ensures
            r == (self.id@ == other.id@),
    {
        self.id == other.id
    }
}

impl Eq for Symbol {

}

impl From<String> for Symbol {
    fn from(value: String) -> (r: Symbol)
        ensures
            r.id@ == value@,
    {
        Symbol { id: value }
    }
}

impl vstd::std_specs::convert::FromSpecImpl<String> for Symbol {
    open spec fn obeys_from_spec() -> bool {
        true
    }

    open spec fn from_spec(v: String) -> Symbol {
        Symbol { id: v }
    }
}

impl From<&str> for Symbol {
    fn from(value: &str) -> (r: Symbol)
        ensures
            r.id@ == value@,
    {
        Symbol { id: value.to_owned() }
    }
}

impl vstd::std_specs::convert::FromSpecImpl<&str> for Symbol {
    open spec fn obeys_from_spec() -> bool {
        false
    }

    open spec fn from_spec(v: &str) -> Symbol {
        arbitrary()
    }
}

} // verus!
