//! Package summaries: an identity with its dependencies and features, checked
//! for consistency before the resolver sees it.

use crate::dependency::Dependency;
use crate::dependency::DependencyView;
use crate::error::ValidationError;
use crate::error::ValidationFailure;
use crate::features::has_feature;
use crate::features::FeatureMap;
use crate::features::FeatureModel;
use crate::package_id::PackageId;
use crate::package_id::PackageIdView;
use crate::package_id::SourceId;
use crate::text::same_text;
use crate::text::texts;
use crate::version::Version;
use vstd::prelude::*;

verus! {

/// `i` is the position of the first item of `items` that is not `None`.
pub open spec fn is_first_some_at<T>(items: Seq<Option<T>>, i: int) -> bool {
    &&& 0 <= i < items.len()
    &&& items[i] is Some
    &&& forall|j: int| 0 <= j < i ==> items[j] is None
}

/// The first item of `items` that is not `None`, or `None` if all are.
pub open spec fn first_some<T>(items: Seq<Option<T>>) -> Option<T> {
    if exists|i: int| is_first_some_at(items, i) {
        items[choose|i: int| is_first_some_at(items, i)]
    } else {
        None
    }
}

/// The first item that is not `None` is `first_some`.
pub proof fn lemma_first_some<T>(items: Seq<Option<T>>, i: int)
    requires
        is_first_some_at(items, i),
    ensures
        first_some(items) == items[i],
{
    let k = choose|k: int| is_first_some_at(items, k);
    assert(is_first_some_at(items, k));
    if k < i {
        assert(items[k] is None);
    } else if i < k {
        assert(items[i] is None);
    }
}

/// Where every item is `None`, so is `first_some`.
pub proof fn lemma_first_some_none<T>(items: Seq<Option<T>>)
    requires
        forall|i: int| 0 <= i < items.len() ==> items[i] is None,
    ensures
        first_some(items) is None,
{
    if exists|i: int| is_first_some_at(items, i) {
        let k = choose|k: int| is_first_some_at(items, k);
        assert(items[k] is None);
    }
}

/// The dependencies of a list as mathematical values.
pub open spec fn dependency_views(dependencies: Seq<Dependency>) -> Seq<DependencyView> {
    Seq::new(dependencies.len(), |i: int| dependencies[i]@)
}

/// What is wrong with one dependency by itself: its name is that of a
/// feature, or else it is optional without being transitive.
pub open spec fn dependency_fault(
    dependency: DependencyView,
    features: Seq<FeatureModel>,
) -> Option<ValidationFailure> {
    if has_feature(features, dependency.name) {
        Some(ValidationFailure::NameCollision(dependency.name))
    } else if dependency.optional && !dependency.transitive {
        Some(ValidationFailure::OptionalDevDependency(dependency.name))
    } else {
        None
    }
}

/// The first of `dependencies` whose name is `name`.
pub open spec fn find_dependency(dependencies: Seq<DependencyView>, name: Seq<char>) -> Option<
    DependencyView,
> {
    first_some(
        Seq::new(
            dependencies.len(),
            |i: int|
                if dependencies[i].name == name {
                    Some(dependencies[i])
                } else {
                    None
                },
        ),
    )
}

/// What is wrong with `target` in the list of the feature `feature`: it is
/// no feature, and the first dependency of that name is not optional, or there
/// is no dependency of that name.
pub open spec fn target_fault(
    feature: Seq<char>,
    target: Seq<char>,
    dependencies: Seq<DependencyView>,
    features: Seq<FeatureModel>,
) -> Option<ValidationFailure> {
    if has_feature(features, target) {
        None
    } else {
        match find_dependency(dependencies, target) {
            Some(dependency) => if dependency.optional {
                None
            } else {
                Some(ValidationFailure::FeatureRequiresNonOptionalDependency { feature, target })
            },
            None => Some(ValidationFailure::UnknownFeatureTarget { feature, target }),
        }
    }
}

/// What is wrong with the first name in the list of `feature` with which
/// anything is wrong.
pub open spec fn feature_fault(
    feature: FeatureModel,
    dependencies: Seq<DependencyView>,
    features: Seq<FeatureModel>,
) -> Option<ValidationFailure> {
    first_some(
        Seq::new(
            feature.targets.len(),
            |k: int| target_fault(feature.name, feature.targets[k], dependencies, features),
        ),
    )
}

/// What is wrong with the first of the dependencies with which anything is
/// wrong.
pub open spec fn dependencies_fault(
    dependencies: Seq<DependencyView>,
    features: Seq<FeatureModel>,
) -> Option<ValidationFailure> {
    first_some(
        Seq::new(dependencies.len(), |i: int| dependency_fault(dependencies[i], features)),
    )
}

/// What is wrong with the first of the features with which anything is wrong.
pub open spec fn features_fault(
    dependencies: Seq<DependencyView>,
    features: Seq<FeatureModel>,
) -> Option<ValidationFailure> {
    first_some(
        Seq::new(features.len(), |i: int| feature_fault(features[i], dependencies, features)),
    )
}

/// The reason for which dependencies and features cannot make a summary, if
/// there is one: the dependencies are looked at first, then the features.
pub open spec fn fault(dependencies: Seq<DependencyView>, features: Seq<FeatureModel>) -> Option<
    ValidationFailure,
> {
    match dependencies_fault(dependencies, features) {
        Some(failure) => Some(failure),
        None => features_fault(dependencies, features),
    }
}

/// A package as the resolver sees it. Its dependencies and features are
/// consistent, and nothing can change them.
#[derive(Debug)]
pub struct Summary {
    package_id: PackageId,
    dependencies: Vec<Dependency>,
    features: FeatureMap,
}

/// A `Summary` as a mathematical value.
pub struct SummaryView {
    pub package_id: PackageIdView,
    pub dependencies: Seq<DependencyView>,
    pub features: Seq<FeatureModel>,
}

impl SummaryView {
    /// No feature has the name of a dependency.
    pub open spec fn names_apart(self) -> bool {
        forall|i: int, j: int|
            0 <= i < self.features.len() && 0 <= j < self.dependencies.len() ==> (
            #[trigger] self.features[i]).name != (#[trigger] self.dependencies[j]).name
    }

    /// Every optional dependency is transitive.
    pub open spec fn optional_are_transitive(self) -> bool {
        forall|j: int|
            0 <= j < self.dependencies.len() && (#[trigger] self.dependencies[j]).optional
                ==> self.dependencies[j].transitive
    }

    /// `target` is a feature or an optional dependency.
    pub open spec fn knows(self, target: Seq<char>) -> bool {
        has_feature(self.features, target) || exists|j: int|
            0 <= j < self.dependencies.len() && (#[trigger] self.dependencies[j]).name == target
                && self.dependencies[j].optional
    }

    /// Every name that a feature lists is a feature or an optional dependency.
    pub open spec fn targets_known(self) -> bool {
        forall|i: int, k: int|
            0 <= i < self.features.len() && 0 <= k < self.features[i].targets.len()
                ==> self.knows(#[trigger] self.features[i].targets[k])
    }

    /// What holds of every summary.
    pub open spec fn consistent(self) -> bool {
        &&& self.names_apart()
        &&& self.optional_are_transitive()
        &&& self.targets_known()
    }
}

impl View for Summary {
    type V = SummaryView;

    closed spec fn view(&self) -> SummaryView {
        SummaryView {
            package_id: self.package_id@,
            dependencies: dependency_views(self.dependencies@),
            features: self.features@,
        }
    }
}

/// Looks at one dependency by itself.
fn check_dependency(dependency: &Dependency, features: &FeatureMap) -> (found: Option<
    ValidationError,
>)
    ensures
        found is Some <==> dependency_fault(dependency@, features@) is Some,
        found matches Some(e) ==> dependency_fault(dependency@, features@) == Some(e@),
{
    if features.contains_key(dependency.get_name()) {
        Some(ValidationError::NameCollision(String::from_str(dependency.get_name())))
    } else if dependency.is_optional() && !dependency.is_transitive() {
        Some(ValidationError::OptionalDevDependency(String::from_str(dependency.get_name())))
    } else {
        None
    }
}

/// Finds the first dependency of the name `name`.
fn lookup<'a>(dependencies: &'a Vec<Dependency>, name: &str) -> (found: Option<&'a Dependency>)
    ensures
        found is Some <==> find_dependency(dependency_views(dependencies@), name@) is Some,
        found matches Some(d) ==> find_dependency(dependency_views(dependencies@), name@) == Some(
            d@,
        ),
{
    let ghost views = dependency_views(dependencies@);
    let ghost hits = Seq::new(
        views.len(),
        |i: int|
            if views[i].name == name@ {
                Some(views[i])
            } else {
                None
            },
    );
    let mut i: usize = 0;
    while i < dependencies.len()
        invariant
            i <= dependencies.len(),
            views == dependency_views(dependencies@),
            hits == Seq::new(
                views.len(),
                |i: int|
                    if views[i].name == name@ {
                        Some(views[i])
                    } else {
                        None
                    },
            ),
            forall|j: int| 0 <= j < i ==> hits[j] is None,
        decreases dependencies.len() - i,
    {
        if same_text(dependencies[i].get_name(), name) {
            proof {
                lemma_first_some(hits, i as int);
            }
            return Some(&dependencies[i]);
        }
        i += 1;
    }
    proof {
        lemma_first_some_none(hits);
    }
    None
}

/// Looks at one name in the list of a feature.
fn check_target(
    feature: &str,
    target: &str,
    dependencies: &Vec<Dependency>,
    features: &FeatureMap,
) -> (found: Option<ValidationError>)
    ensures
        found is Some <==> target_fault(
            feature@,
            target@,
            dependency_views(dependencies@),
            features@,
        ) is Some,
        found matches Some(e) ==> target_fault(
            feature@,
            target@,
            dependency_views(dependencies@),
            features@,
        ) == Some(e@),
{
    if features.contains_key(target) {
        return None;
    }
    match lookup(dependencies, target) {
        Some(dependency) => {
            if dependency.is_optional() {
                None
            } else {
                Some(
                    ValidationError::FeatureRequiresNonOptionalDependency {
                        feature: String::from_str(feature),
                        target: String::from_str(target),
                    },
                )
            }
        },
        None => Some(
            ValidationError::UnknownFeatureTarget {
                feature: String::from_str(feature),
                target: String::from_str(target),
            },
        ),
    }
}

/// Looks at the list of the feature at position `at`.
fn check_feature(at: usize, dependencies: &Vec<Dependency>, features: &FeatureMap) -> (found:
    Option<ValidationError>)
    requires
        at < features@.len(),
    ensures
        found is Some <==> feature_fault(
            features@[at as int],
            dependency_views(dependencies@),
            features@,
        ) is Some,
        found matches Some(e) ==> feature_fault(
            features@[at as int],
            dependency_views(dependencies@),
            features@,
        ) == Some(e@),
{
    let feature = features.name_at(at);
    let list = features.targets_at(at);
    let ghost view = features@[at as int];
    let ghost faults = Seq::new(
        view.targets.len(),
        |k: int| target_fault(view.name, view.targets[k], dependency_views(dependencies@), features@),
    );
    let mut k: usize = 0;
    while k < list.len()
        invariant
            k <= list.len(),
            view == features@[at as int],
            feature@ == view.name,
            texts(list@) == view.targets,
            faults == Seq::new(
                view.targets.len(),
                |k: int|
                    target_fault(
                        view.name,
                        view.targets[k],
                        dependency_views(dependencies@),
                        features@,
                    ),
            ),
            forall|j: int| 0 <= j < k ==> faults[j] is None,
        decreases list.len() - k,
    {
        assert(texts(list@)[k as int] == list@[k as int]@);
        match check_target(feature, list[k].as_str(), dependencies, features) {
            Some(e) => {
                proof {
                    lemma_first_some(faults, k as int);
                }
                return Some(e);
            },
            None => {},
        }
        k += 1;
    }
    proof {
        lemma_first_some_none(faults);
    }
    None
}

impl Summary {
    #[verifier::type_invariant]
    spec fn faultless(self) -> bool {
        fault(dependency_views(self.dependencies@), self.features@) is None
    }

    /// Makes a summary of an identity, its dependencies and its features,
    /// which it keeps as they are. It fails with the first thing that is wrong:
    /// the dependencies are looked at in their order, then the features in
    /// theirs, and the names that a feature lists in the order of the list.
    pub fn new(pkg_id: PackageId, dependencies: Vec<Dependency>, features: FeatureMap) -> (made:
        Result<Summary, ValidationError>)
        ensures
            match made {
                Ok(summary) => {
                    &&& fault(dependency_views(dependencies@), features@) is None
                    &&& summary@ == (SummaryView {
                        package_id: pkg_id@,
                        dependencies: dependency_views(dependencies@),
                        features: features@,
                    })
                    &&& summary@.consistent()
                },
                Err(e) => fault(dependency_views(dependencies@), features@) == Some(e@),
            },
    {
        let ghost views = dependency_views(dependencies@);
        let ghost faults = Seq::new(views.len(), |i: int| dependency_fault(views[i], features@));
        let mut i: usize = 0;
        while i < dependencies.len()
            invariant
                i <= dependencies.len(),
                views == dependency_views(dependencies@),
                faults == Seq::new(views.len(), |i: int| dependency_fault(views[i], features@)),
                forall|j: int| 0 <= j < i ==> faults[j] is None,
            decreases dependencies.len() - i,
        {
            match check_dependency(&dependencies[i], &features) {
                Some(e) => {
                    proof {
                        lemma_first_some(faults, i as int);
                    }
                    return Err(e);
                },
                None => {},
            }
            i += 1;
        }
        proof {
            lemma_first_some_none(faults);
        }
        let ghost lists = Seq::new(
            features@.len(),
            |i: int| feature_fault(features@[i], views, features@),
        );
        let mut at: usize = 0;
        while at < features.len()
            invariant
                at <= features@.len(),
                views == dependency_views(dependencies@),
                dependencies_fault(views, features@) is None,
                lists == Seq::new(
                    features@.len(),
                    |i: int| feature_fault(features@[i], views, features@),
                ),
                forall|j: int| 0 <= j < at ==> lists[j] is None,
            decreases features@.len() - at,
        {
            match check_feature(at, &dependencies, &features) {
                Some(e) => {
                    proof {
                        lemma_first_some(lists, at as int);
                    }
                    return Err(e);
                },
                None => {},
            }
            at += 1;
        }
        proof {
            lemma_first_some_none(lists);
            lemma_faultless_is_consistent(pkg_id@, views, features@);
        }
        Ok(Summary { package_id: pkg_id, dependencies, features })
    }

    /// The identity of the package.
    pub fn get_package_id(&self) -> (package_id: &PackageId)
        ensures
            package_id@ == self@.package_id,
    {
        &self.package_id
    }

    /// The name of the package.
    pub fn get_name(&self) -> (name: &str)
        ensures
            name@ == self@.package_id.name,
    {
        self.get_package_id().get_name()
    }

    /// The version of the package.
    pub fn get_version(&self) -> (version: &Version)
        ensures
            version@ == self@.package_id.version,
    {
        self.get_package_id().get_version()
    }

    /// The source of the package.
    pub fn get_source_id(&self) -> (source_id: &SourceId)
        ensures
            source_id.url@ == self@.package_id.url,
    {
        self.package_id.get_source_id()
    }

    /// The dependencies, in the order in which they were given. They are
    /// consistent with the features.
    pub fn get_dependencies(&self) -> (dependencies: &[Dependency])
        ensures
            dependency_views(dependencies@) == self@.dependencies,
            self@.consistent(),
    {
        proof {
            use_type_invariant(self);
            lemma_faultless_is_consistent(
                self@.package_id,
                self@.dependencies,
                self@.features,
            );
        }
        self.dependencies.as_slice()
    }

    /// The features, as they were given. They are consistent with the
    /// dependencies, and no name stands for two of them.
    pub fn get_features(&self) -> (features: &FeatureMap)
        ensures
            features@ == self@.features,
            features.well_formed(),
            self@.consistent(),
    {
        proof {
            use_type_invariant(self);
            use_type_invariant(&self.features);
            lemma_faultless_is_consistent(
                self@.package_id,
                self@.dependencies,
                self@.features,
            );
        }
        &self.features
    }
}

/// A copy of a list of dependencies.
fn copy_dependencies(dependencies: &Vec<Dependency>) -> (copy: Vec<Dependency>)
    ensures
        dependency_views(copy@) == dependency_views(dependencies@),
{
    let mut copy: Vec<Dependency> = Vec::new();
    let mut i: usize = 0;
    while i < dependencies.len()
        invariant
            i <= dependencies.len(),
            copy.len() == i,
            forall|k: int| 0 <= k < i ==> copy@[k]@ == dependencies@[k]@,
        decreases dependencies.len() - i,
    {
        copy.push(dependencies[i].clone());
        i += 1;
    }
    assert(dependency_views(copy@) =~= dependency_views(dependencies@));
    copy
}

impl Clone for Summary {
    fn clone(&self) -> (copy: Summary)
        ensures
            copy@ == self@,
    {
        proof {
            use_type_invariant(self);
        }
        Summary {
            package_id: self.package_id.clone(),
            dependencies: copy_dependencies(&self.dependencies),
            features: self.features.clone(),
        }
    }
}

impl PartialEq for Summary {
    fn eq(&self, other: &Summary) -> (equal: bool) {
        if self.package_id != other.package_id || self.features != other.features
            || self.dependencies.len() != other.dependencies.len() {
            assert(self@.dependencies.len() == self.dependencies@.len());
            assert(other@.dependencies.len() == other.dependencies@.len());
            return false;
        }
        let mut i: usize = 0;
        while i < self.dependencies.len()
            invariant
                i <= self.dependencies.len(),
                self.dependencies.len() == other.dependencies.len(),
                forall|k: int| 0 <= k < i ==> self.dependencies@[k]@ == other.dependencies@[k]@,
            decreases self.dependencies.len() - i,
        {
            if self.dependencies[i] != other.dependencies[i] {
                assert(self@.dependencies[i as int] != other@.dependencies[i as int]);
                return false;
            }
            i += 1;
        }
        assert(self@.dependencies =~= other@.dependencies);
        true
    }
}

impl vstd::std_specs::cmp::PartialEqSpecImpl for Summary {
    open spec fn obeys_eq_spec() -> bool {
        true
    }

    open spec fn eq_spec(&self, other: &Summary) -> bool {
        self@ == other@
    }
}

/// Lists of summaries.
pub trait SummaryVec {
    /// The names of the packages of the list, in its order.
    spec fn package_names(&self) -> Seq<Seq<char>>;

    /// The names of the packages of the list, in its order.
    fn names(&self) -> (names: Vec<String>)
        ensures
            texts(names@) == self.package_names(),
    ;
}

impl SummaryVec for Vec<Summary> {
    open spec fn package_names(&self) -> Seq<Seq<char>> {
        Seq::new(self@.len(), |i: int| self@[i]@.package_id.name)
    }

    fn names(&self) -> (names: Vec<String>) {
        let mut names: Vec<String> = Vec::new();
        let mut i: usize = 0;
        while i < self.len()
            invariant
                i <= self.len(),
                names.len() == i,
                forall|k: int| 0 <= k < i ==> names@[k]@ == self@[k]@.package_id.name,
            decreases self.len() - i,
        {
            names.push(String::from_str(self[i].get_name()));
            i += 1;
        }
        assert(texts(names@) =~= self.package_names());
        names
    }
}

/// Dependencies and features with which nothing is wrong are consistent: no
/// feature has the name of a dependency, every optional dependency is
/// transitive, and every name that a feature lists is a feature or an
/// optional dependency.
pub proof fn lemma_faultless_is_consistent(
    package_id: PackageIdView,
    dependencies: Seq<DependencyView>,
    features: Seq<FeatureModel>,
)
    requires
        fault(dependencies, features) is None,
    ensures
        (SummaryView { package_id, dependencies, features }).consistent(),
{
    let summary = SummaryView { package_id, dependencies, features };
    let faults = Seq::new(dependencies.len(), |i: int| dependency_fault(dependencies[i], features));
    let lists = Seq::new(features.len(), |i: int| feature_fault(features[i], dependencies, features));
    assert forall|j: int| 0 <= j < dependencies.len() implies dependency_fault(
        #[trigger] dependencies[j],
        features,
    ) is None by {
        lemma_none_everywhere(faults, j);
    }
    assert(summary.names_apart()) by {
        assert forall|i: int, j: int|
            0 <= i < features.len() && 0 <= j < dependencies.len() implies (
        #[trigger] features[i]).name != (#[trigger] dependencies[j]).name by {
            assert(dependency_fault(dependencies[j], features) is None);
        }
    }
    assert(summary.optional_are_transitive());
    assert forall|i: int, k: int|
        0 <= i < features.len() && 0 <= k < features[i].targets.len() implies summary.knows(
        #[trigger] features[i].targets[k],
    ) by {
        let feature = features[i];
        let target = feature.targets[k];
        let targets = Seq::new(
            feature.targets.len(),
            |k: int| target_fault(feature.name, feature.targets[k], dependencies, features),
        );
        lemma_none_everywhere(lists, i);
        lemma_none_everywhere(targets, k);
        assert(target_fault(feature.name, target, dependencies, features) is None);
        if !has_feature(features, target) {
            let hits = Seq::new(
                dependencies.len(),
                |i: int|
                    if dependencies[i].name == target {
                        Some(dependencies[i])
                    } else {
                        None
                    },
            );
            assert(find_dependency(dependencies, target) == first_some(hits));
            assert(first_some(hits) is Some);
            let j = choose|j: int| is_first_some_at(hits, j);
            assert(is_first_some_at(hits, j));
            lemma_first_some(hits, j);
            assert(hits[j] == Some(dependencies[j]));
            assert(summary.dependencies[j].name == target && summary.dependencies[j].optional);
        }
        assert(summary.knows(target));
    }
}

/// Where `first_some` is `None`, every item is.
pub proof fn lemma_none_everywhere<T>(items: Seq<Option<T>>, i: int)
    requires
        first_some(items) is None,
        0 <= i < items.len(),
    ensures
        items[i] is None,
    decreases i,
{
    if items[i] is Some {
        if forall|j: int| 0 <= j < i ==> items[j] is None {
            assert(is_first_some_at(items, i));
            lemma_first_some(items, i);
        } else {
            let j = choose|j: int| 0 <= j < i && !(items[j] is None);
            lemma_none_everywhere(items, j);
        }
    }
}

} // verus!
