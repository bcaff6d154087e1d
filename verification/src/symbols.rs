//! Tables from symbol names to plain values.

use crate::text::str_eq;
use vstd::prelude::*;

verus! {

/// One entry of a table.
#[derive(Debug)]
pub struct SymbolEntry<T> {
    /// The symbol.
    pub name: String,
    /// What the table gives for it.
    pub value: T,
}

/// A table from symbol names to values. A later entry hides an earlier one of
/// the same name.
#[derive(Debug)]
pub struct SymbolTable<T> {
    entries: Vec<SymbolEntry<T>>,
}

/// The map that a sequence of entries makes.
pub open spec fn entry_map<T>(entries: Seq<SymbolEntry<T>>) -> Map<Seq<char>, T>
    decreases entries.len(),
{
    if entries.len() == 0 {
        Map::empty()
    } else {
        entry_map(entries.drop_last()).insert(entries.last().name@, entries.last().value)
    }
}

impl<T> View for SymbolTable<T> {
    type V = Map<Seq<char>, T>;

    closed spec fn view(&self) -> Map<Seq<char>, T> {
        entry_map(self.entries@)
    }
}

impl<T: Copy> SymbolTable<T> {
    /// An empty table.
    pub fn new() -> (r: SymbolTable<T>)
        ensures
            r@ == Map::<Seq<char>, T>::empty(),
    {
        SymbolTable { entries: Vec::new() }
    }

    /// Gives `name` the value `value`.
    pub fn insert(&mut self, name: &str, value: T)
        ensures
            final(self)@ == old(self)@.insert(name@, value),
    {
        self.entries.push(SymbolEntry { name: name.to_owned(), value });
        assert(self.entries@.drop_last() == old(self).entries@);
    }

    /// The value of `name`.
    pub fn get(&self, name: &str) -> (r: Option<T>)
        ensures
            r is Some <==> self@.dom().contains(name@),
            r matches Some(value) ==> value == self@[name@],
    {
        let mut i: usize = self.entries.len();
        assert(self.entries@.take(i as int) == self.entries@);
        while i > 0
            invariant
                i <= self.entries.len(),
                self@.dom().contains(name@) == entry_map(self.entries@.take(i as int)).dom().contains(
                    name@,
                ),
                self@.dom().contains(name@) ==> self@[name@] == entry_map(
                    self.entries@.take(i as int),
                )[name@],
            decreases i,
        {
            let ghost now = self.entries@.take(i as int);
            assert(now.last() == self.entries@[i - 1]);
            assert(now.drop_last() == self.entries@.take(i - 1));
            if str_eq(self.entries[i - 1].name.as_str(), name) {
                return Some(self.entries[i - 1].value);
            }
            i -= 1;
        }
        None
    }
}

}
