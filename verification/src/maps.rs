//! Taking values out of hash maps.
use crate::bytes::ParseError;
use std::borrow::Borrow;
use std::collections::HashMap;
use std::hash::Hash;
use vstd::prelude::*;
use vstd::std_specs::hash::{
    borrowed_key_removed, contains_borrowed_key, maps_borrowed_key_to_value, obeys_key_model,
};

verus! {

broadcast use vstd::std_specs::hash::group_hash_axioms;

/// Removing the value of a key that must be there.
pub trait HashMapExt<K, V> {
    /// Removes the value of `key` and returns it; an error when the map has
    /// no such key.
    fn remove_err<Q: ?Sized + Hash + Eq>(&mut self, key: &Q) -> Result<V, ParseError> where K: Borrow<Q>;
}

impl<K: Eq + Hash, V> HashMapExt<K, V> for HashMap<K, V> {
    fn remove_err<Q: ?Sized + Hash + Eq>(&mut self, key: &Q) -> (res: Result<V, ParseError>) where
        K: Borrow<Q>,
        ensures
            obeys_key_model::<K>() ==> {
                &&& borrowed_key_removed(old(self)@, final(self)@, key)
                &&& match res {
                    Ok(v) => maps_borrowed_key_to_value(old(self)@, key, v),
                    Err(_) => !contains_borrowed_key(old(self)@, key),
                }
            },
    {
        match self.remove(key) {
            Some(x) => Ok(x),
            None => Err(ParseError::Invalid),
        }
    }
}

} // verus!
