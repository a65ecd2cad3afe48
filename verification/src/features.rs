//! The features of a package: named switches, each with the list of what it
//! turns on.

use crate::text::copy_texts;
use crate::text::same_text;
use crate::text::same_texts;
use crate::text::texts;
use vstd::prelude::*;

verus! {

/// One feature as a mathematical value: its name and, in order, the names
/// that it lists.
pub struct FeatureModel {
    pub name: Seq<char>,
    pub targets: Seq<Seq<char>>,
}

/// `name` is the name of one of `features`.
pub open spec fn has_feature(features: Seq<FeatureModel>, name: Seq<char>) -> bool {
    exists|i: int| 0 <= i < features.len() && #[trigger] features[i].name == name
}

/// No two of `features` have the same name.
pub open spec fn distinct_names(features: Seq<FeatureModel>) -> bool {
    forall|i: int, j: int|
        0 <= i < j < features.len() ==> #[trigger] features[i].name != #[trigger] features[j].name
}

#[derive(Debug)]
struct Feature {
    name: String,
    targets: Vec<String>,
}

/// A map from feature names to the lists of names that the features turn on.
/// It keeps the features in the order in which their names first came in.
#[derive(Debug)]
pub struct FeatureMap {
    entries: Vec<Feature>,
}

/// The features of a list as mathematical values.
spec fn models(entries: Seq<Feature>) -> Seq<FeatureModel> {
    Seq::new(
        entries.len(),
        |i: int| FeatureModel { name: entries[i].name@, targets: texts(entries[i].targets@) },
    )
}

impl View for FeatureMap {
    type V = Seq<FeatureModel>;

    closed spec fn view(&self) -> Seq<FeatureModel> {
        models(self.entries@)
    }
}

impl FeatureMap {
    /// No name stands for two features. This holds of every feature map.
    #[verifier::type_invariant]
    pub open spec fn well_formed(&self) -> bool {
        distinct_names(self@)
    }

    /// A map without features.
    pub fn new() -> (features: FeatureMap)
        ensures
            features@ == Seq::<FeatureModel>::empty(),
            features.well_formed(),
    {
        let entries: Vec<Feature> = Vec::new();
        assert(models(entries@) =~= Seq::<FeatureModel>::empty());
        FeatureMap { entries }
    }

    /// How many features there are.
    pub fn len(&self) -> (len: usize)
        ensures
            len == self@.len(),
    {
        self.entries.len()
    }

    /// The name of the feature at position `i`.
    pub fn name_at(&self, i: usize) -> (name: &str)
        requires
            i < self@.len(),
        ensures
            name@ == self@[i as int].name,
    {
        self.entries[i].name.as_str()
    }

    /// What the feature at position `i` lists.
    pub fn targets_at(&self, i: usize) -> (targets: &Vec<String>)
        requires
            i < self@.len(),
        ensures
            texts(targets@) == self@[i as int].targets,
    {
        &self.entries[i].targets
    }

    /// The position of the first feature `name`, if there is such a feature.
    pub fn position(&self, name: &str) -> (found: Option<usize>)
        ensures
            found is Some <==> has_feature(self@, name@),
            found matches Some(i) ==> i < self@.len() && self@[i as int].name == name@,
    {
        let mut i: usize = 0;
        while i < self.len()
            invariant
                i <= self@.len(),
                forall|k: int| 0 <= k < i ==> (#[trigger] self@[k]).name != name@,
            decreases self@.len() - i,
        {
            if same_text(self.name_at(i), name) {
                return Some(i);
            }
            i += 1;
        }
        None
    }

    /// Whether there is a feature `name`.
    pub fn contains_key(&self, name: &str) -> (found: bool)
        ensures
            found == has_feature(self@, name@),
    {
        self.position(name).is_some()
    }

    /// What the feature `name` lists, if there is such a feature. No other
    /// feature has that name.
    pub fn get(&self, name: &str) -> (targets: Option<&Vec<String>>)
        ensures
            targets is Some <==> has_feature(self@, name@),
            targets matches Some(list) ==> forall|i: int|
                0 <= i < self@.len() && (#[trigger] self@[i]).name == name@ ==> self@[i].targets
                    == texts(list@),
    {
        proof {
            use_type_invariant(self);
        }
        match self.position(name) {
            Some(i) => Some(self.targets_at(i)),
            None => None,
        }
    }

    /// Lets the feature `name` list `targets`. A feature of that name keeps
    /// its position and hands back what it listed before; a new name goes to
    /// the end.
    pub fn insert(&mut self, name: String, targets: Vec<String>) -> (previous: Option<Vec<String>>)
        ensures
            previous is Some <==> has_feature(old(self)@, name@),
            match previous {
                Some(list) => exists|i: int|
                    0 <= i < old(self)@.len() && #[trigger] old(self)@[i].name == name@ && old(
                        self,
                    )@[i].targets == texts(list@) && final(self)@ == old(self)@.update(
                        i,
                        FeatureModel { name: name@, targets: texts(targets@) },
                    ),
                None => final(self)@ == old(self)@.push(
                    FeatureModel { name: name@, targets: texts(targets@) },
                ),
            },
            final(self).well_formed(),
    {
        proof {
            use_type_invariant(&*self);
        }
        let ghost before = self@;
        let ghost added = FeatureModel { name: name@, targets: texts(targets@) };
        let found = self.position(name.as_str());
        let mut entries: Vec<Feature> = Vec::new();
        std::mem::swap(&mut self.entries, &mut entries);
        assert(models(entries@) =~= before);
        entries.push(Feature { name, targets });
        let previous = match found {
            Some(i) => {
                let replaced = entries.swap_remove(i);
                assert(models(entries@) =~= before.update(i as int, added));
                assert(before[i as int].name == added.name);
                assert(before[i as int].targets == texts(replaced.targets@));
                Some(replaced.targets)
            },
            None => {
                assert(models(entries@) =~= before.push(added));
                None
            },
        };
        assert(distinct_names(models(entries@)));
        std::mem::swap(&mut self.entries, &mut entries);
        previous
    }
}

impl Clone for FeatureMap {
    fn clone(&self) -> (copy: FeatureMap)
        ensures
            copy@ == self@,
    {
        proof {
            use_type_invariant(self);
        }
        let mut entries: Vec<Feature> = Vec::new();
        let mut i: usize = 0;
        while i < self.entries.len()
            invariant
                i <= self.entries.len(),
                entries.len() == i,
                forall|k: int|
                    0 <= k < i ==> (#[trigger] entries@[k]).name@ == self.entries@[k].name@
                        && texts(entries@[k].targets@) == texts(self.entries@[k].targets@),
            decreases self.entries.len() - i,
        {
            entries.push(
                Feature {
                    name: self.entries[i].name.clone(),
                    targets: copy_texts(&self.entries[i].targets),
                },
            );
            i += 1;
        }
        assert(models(entries@) =~= self@);
        FeatureMap { entries }
    }
}

impl PartialEq for FeatureMap {
    fn eq(&self, other: &FeatureMap) -> (equal: bool) {
        if self.len() != other.len() {
            return false;
        }
        let mut i: usize = 0;
        while i < self.len()
            invariant
                i <= self@.len(),
                self@.len() == other@.len(),
                forall|k: int| 0 <= k < i ==> self@[k] == other@[k],
            decreases self@.len() - i,
        {
            if !same_text(self.name_at(i), other.name_at(i)) || !same_texts(
                self.targets_at(i),
                other.targets_at(i),
            ) {
                return false;
            }
            i += 1;
        }
        assert(self@ =~= other@);
        true
    }
}

impl vstd::std_specs::cmp::PartialEqSpecImpl for FeatureMap {
    open spec fn obeys_eq_spec() -> bool {
        true
    }

    open spec fn eq_spec(&self, other: &FeatureMap) -> bool {
        self@ == other@
    }
}

impl Eq for FeatureMap {}

} // verus!
