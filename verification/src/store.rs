//! The variable store: a shared, mutable mapping from a name to an optional
//! typed scalar, consulted and mutated by pipeline commands.
use vstd::prelude::*;
use vstd::hash_map::StringHashMap;
use crate::scalar::{Scalar, ScalarVal, scalar_display};

verus! {

/// A mutable mapping from variable name to an optional scalar value. An entry
/// must be declared (present in the map) before a command may read or change
/// it; a declared entry may still be unset.
pub struct VariableStore {
    m: StringHashMap<Option<Scalar>>,
}

/// What an integer read of a store entry finds.
#[derive(Debug, PartialEq, Eq)]
pub enum IntLookup {
    Undeclared,
    Unset,
    NotInt,
    Value(i64),
}

/// The optional scalar seen as its mathematical value.
pub open spec fn opt_val(o: Option<Scalar>) -> Option<ScalarVal> {
    match o {
        Some(s) => Some(s.view_val()),
        None => None,
    }
}

impl View for VariableStore {
    type V = Map<Seq<char>, Option<ScalarVal>>;

    closed spec fn view(&self) -> Map<Seq<char>, Option<ScalarVal>> {
        self.m@.map_values(|o: Option<Scalar>| opt_val(o))
    }
}

impl VariableStore {
    /// An empty store.
    pub fn new() -> (r: Self)
        ensures
            r@ == Map::<Seq<char>, Option<ScalarVal>>::empty(),
    {
        let r = VariableStore { m: StringHashMap::new() };
        proof {
            assert(r@ =~= Map::<Seq<char>, Option<ScalarVal>>::empty());
        }
        r
    }

    /// Declares a variable, giving it an initial value or leaving it unset.
    /// A name declared twice keeps the later value.
    pub fn declare(&mut self, name: String, value: Option<Scalar>)
        ensures
            final(self)@ == old(self)@.insert(name@, opt_val(value)),
    {
        let ghost prev = self@;
        let ghost v = opt_val(value);
        self.m.insert(name, value);
        proof {
            assert(self@ =~= prev.insert(name@, v));
        }
    }

    /// Whether the name is declared in the store.
    pub fn is_declared(&self, name: &str) -> (r: bool)
        ensures
            r == self@.contains_key(name@),
    {
        self.m.contains_key(name)
    }

    /// The text a reference to this variable substitutes to: the display form
    /// of its value. Nothing comes back when the name is undeclared or the
    /// entry is unset; either case is fatal to a pipeline run.
    pub fn lookup_display(&self, name: &str) -> (r: Option<String>)
        ensures
            match r {
                Some(s) => self@.contains_key(name@) && self@[name@] is Some && s@
                    == scalar_display(self@[name@]->0),
                None => !self@.contains_key(name@) || self@[name@] is None,
            },
{
        match self.m.get(name) {
            Some(entry) => match entry {
                Some(v) => Some(v.display_string()),
                None => None,
            },
            None => None,
        }
    }

    /// Sets a declared variable to the given value; an undeclared name is left
    /// alone, and the store unchanged.
    pub fn set(&mut self, name: &str, value: Scalar) -> (changed: bool)
        ensures
            changed == old(self)@.contains_key(name@),
            final(self)@ == if old(self)@.contains_key(name@) {
                old(self)@.insert(name@, Some(value.view_val()))
            } else {
                old(self)@
            },
{
        let ghost prev = self@;
        if self.m.contains_key(name) {
            let ghost v = value.view_val();
            self.m.insert(name.to_owned(), Some(value));
            proof {
                assert(self@ =~= prev.insert(name@, Some(v)));
            }
            true
        } else {
            false
        }
    }

    /// Adds a delta to a declared integer variable in place, wrapping on
    /// overflow. When the name is undeclared, unset, or not integer-typed,
    /// the store is left unchanged and `false` comes back.
    pub fn add_to_int(&mut self, name: &str, delta: i32) -> (changed: bool)
        ensures
            ({
                let had_int = old(self)@.contains_key(name@) && old(self)@[name@] matches Some(
                    ScalarVal::IntV(_),
                );
                &&& changed == had_int
                &&& final(self)@ == if had_int {
                    old(self)@.insert(
                        name@,
                        Some(
                            ScalarVal::IntV(
                                vstd::wrapping::i64_specs::wrapping_add(
                                    old(self)@[name@]->0->IntV_0,
                                    delta as i64,
                                ),
                            ),
                        ),
                    )
                } else {
                    old(self)@
                }
            }),
{
        let ghost prev = self@;
        let current: Option<i64> = match self.m.get(name) {
            Some(entry) => match entry {
                Some(Scalar::Int(n)) => Some(*n),
                _ => None,
            },
            None => None,
        };
        match current {
            Some(n) => {
                let updated = n.wrapping_add(delta as i64);
                self.m.insert(name.to_owned(), Some(Scalar::Int(updated)));
                proof {
                    assert(self@ =~= prev.insert(name@, Some(ScalarVal::IntV(updated))));
                }
                true
            },
            None => false,
        }
    }

    /// What an integer read of the entry finds: the value, or how it is
    /// missing.
    pub fn lookup_int(&self, name: &str) -> (r: IntLookup)
        ensures
            match r {
                IntLookup::Undeclared => !self@.contains_key(name@),
                IntLookup::Unset => self@.contains_key(name@) && self@[name@] is None,
                IntLookup::NotInt => self@.contains_key(name@) && self@[name@] is Some && !(
                self@[name@]->0 is IntV),
                IntLookup::Value(n) => self@.contains_key(name@) && self@[name@] == Some(
                    ScalarVal::IntV(n),
                ),
            },
{
        match self.m.get(name) {
            Some(entry) => match entry {
                Some(Scalar::Int(n)) => IntLookup::Value(*n),
                Some(_) => IntLookup::NotInt,
                None => IntLookup::Unset,
            },
            None => IntLookup::Undeclared,
        }
    }
}

} // verus!
