//! What a package says of one package that it depends on.

use vstd::prelude::*;

verus! {

/// A dependency: the name of the package depended on and two flags.
#[derive(Debug)]
pub struct Dependency {
    name: String,
    optional: bool,
    transitive: bool,
}

/// A `Dependency` as a mathematical value.
pub struct DependencyView {
    pub name: Seq<char>,
    /// The dependency is only built where a feature asks for it.
    pub optional: bool,
    /// The dependency is needed by those who use the package, not only by
    /// those who build and test it.
    pub transitive: bool,
}

impl View for Dependency {
    type V = DependencyView;

    closed spec fn view(&self) -> DependencyView {
        DependencyView { name: self.name@, optional: self.optional, transitive: self.transitive }
    }
}

impl Dependency {
    /// A dependency on `name` that is transitive and not optional.
    pub fn new(name: &str) -> (dependency: Dependency)
        ensures
            dependency@ == (DependencyView { name: name@, optional: false, transitive: true }),
    {
        Dependency { name: String::from_str(name), optional: false, transitive: true }
    }

    /// The same dependency with the optional flag set to `optional`.
    pub fn optional(self, optional: bool) -> (dependency: Dependency)
        ensures
            dependency@ == (DependencyView { optional, ..self@ }),
    {
        Dependency { name: self.name, optional, transitive: self.transitive }
    }

    /// The same dependency with the transitive flag set to `transitive`.
    pub fn transitive(self, transitive: bool) -> (dependency: Dependency)
        ensures
            dependency@ == (DependencyView { transitive, ..self@ }),
    {
        Dependency { name: self.name, optional: self.optional, transitive }
    }

    /// The name of the package depended on.
    pub fn get_name(&self) -> (name: &str)
        ensures
            name@ == self@.name,
    {
        self.name.as_str()
    }

    /// Whether the dependency is optional.
    pub fn is_optional(&self) -> (optional: bool)
        ensures
            optional == self@.optional,
    {
        self.optional
    }

    /// Whether the dependency is transitive.
    pub fn is_transitive(&self) -> (transitive: bool)
        ensures
            transitive == self@.transitive,
    {
        self.transitive
    }
}

impl Clone for Dependency {
    fn clone(&self) -> (copy: Dependency)
        ensures
            copy@ == self@,
    {
        Dependency { name: self.name.clone(), optional: self.optional, transitive: self.transitive }
    }
}

impl PartialEq for Dependency {
    fn eq(&self, other: &Dependency) -> (equal: bool) {
        let equal = self.name == other.name && self.optional == other.optional && self.transitive
            == other.transitive;
        assert(equal == (self@ == other@)) by {
            if equal {
                assert(self@.name =~= other@.name);
            }
        }
        equal
    }
}

impl vstd::std_specs::cmp::PartialEqSpecImpl for Dependency {
    open spec fn obeys_eq_spec() -> bool {
        true
    }

    open spec fn eq_spec(&self, other: &Dependency) -> bool {
        self@ == other@
    }
}

impl Eq for Dependency {}

} // verus!
