use vstd::prelude::*;

use crate::trait_def::LightClone;

verus! {

/// `im::Vector`: a persistent vector whose clones share structure.
#[verifier::external_type_specification]
#[verifier::external_body]
#[verifier::reject_recursive_types(A)]
pub struct ExImVector<A>(im::Vector<A>);

/// `im::HashMap`: a persistent hash map whose clones share structure.
#[verifier::external_type_specification]
#[verifier::external_body]
#[verifier::reject_recursive_types(K)]
#[verifier::reject_recursive_types(V)]
#[verifier::reject_recursive_types(S)]
pub struct ExImHashMap<K, V, S>(im::HashMap<K, V, S>);

/// `im::OrdMap`: a persistent ordered map whose clones share structure.
#[verifier::external_type_specification]
#[verifier::external_body]
#[verifier::reject_recursive_types(K)]
#[verifier::reject_recursive_types(V)]
pub struct ExImOrdMap<K, V>(im::OrdMap<K, V>);

/// `im::HashSet`: a persistent hash set whose clones share structure.
#[verifier::external_type_specification]
#[verifier::external_body]
#[verifier::reject_recursive_types(A)]
#[verifier::reject_recursive_types(S)]
pub struct ExImHashSet<A, S>(im::HashSet<A, S>);

/// `im::OrdSet`: a persistent ordered set whose clones share structure.
#[verifier::external_type_specification]
#[verifier::external_body]
#[verifier::reject_recursive_types(A)]
pub struct ExImOrdSet<A>(im::OrdSet<A>);

/// A persistent vector, cheap to clone.
pub type LcList<T> = im::Vector<T>;

/// A persistent hash map, cheap to clone.
pub type LcMap<K, V> = im::HashMap<K, V>;

/// A persistent hash set, cheap to clone.
pub type LcSet<T> = im::HashSet<T>;

/// A persistent ordered map, cheap to clone.
pub type LcOrdMap<K, V> = im::OrdMap<K, V>;

impl<T: Clone> LightClone for im::Vector<T> {}

impl<K: Clone + std::hash::Hash + Eq, V: Clone> LightClone for im::HashMap<K, V> {}

impl<K: Clone + Ord, V: Clone> LightClone for im::OrdMap<K, V> {}

impl<T: Clone + std::hash::Hash + Eq> LightClone for im::HashSet<T> {}

impl<T: Clone + Ord> LightClone for im::OrdSet<T> {}

} // verus!
