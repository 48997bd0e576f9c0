//! The table of variables that a template may refer to.

use vstd::prelude::*;
use crate::text::same_text;

verus! {

/// The table that a sequence of bindings amounts to: a later binding of a
/// name replaces an earlier one.
pub open spec fn table_of(entries: Seq<(&str, &str)>) -> Map<Seq<char>, Seq<char>>
    decreases entries.len(),
{
    if entries.len() == 0 {
        Map::empty()
    } else {
        table_of(entries.drop_last()).insert(entries.last().0@, entries.last().1@)
    }
}

/// A table from variable names to the texts that replace them.
pub struct Variables<'a> {
    entries: Vec<(&'a str, &'a str)>,
}

impl<'a> View for Variables<'a> {
    type V = Map<Seq<char>, Seq<char>>;

    closed spec fn view(&self) -> Map<Seq<char>, Seq<char>> {
        table_of(self.entries@)
    }
}

impl<'a> Variables<'a> {
    /// The empty table.
    pub fn new() -> (r: Variables<'a>)
        ensures
            r@ == Map::<Seq<char>, Seq<char>>::empty(),
    {
        Variables { entries: Vec::new() }
    }

    /// Binds `name` to `value`, in place of what it was bound to before.
    pub fn insert(&mut self, name: &'a str, value: &'a str)
        ensures
            final(self)@ == old(self)@.insert(name@, value@),
    {
        self.entries.push((name, value));
        proof {
            assert(self.entries@.drop_last() =~= old(self).entries@);
        }
    }

    /// The text bound to `token`, if the table binds exactly that name.
    pub fn resolve(&self, token: &str) -> (r: Option<&'a str>)
        ensures
            match r {
                Some(value) => self@.contains_key(token@) && value@ == self@[token@],
                None => !self@.contains_key(token@),
            },
    {
        let mut i: usize = self.entries.len();
        proof {
            assert(self.entries@.take(i as int) =~= self.entries@);
        }
        while i > 0
            invariant
                i <= self.entries.len(),
                self@.contains_key(token@) == table_of(self.entries@.take(i as int)).contains_key(
                    token@,
                ),
                self@.contains_key(token@) ==> self@[token@] == table_of(
                    self.entries@.take(i as int),
                )[token@],
            decreases i,
        {
            proof {
                assert(self.entries@.take(i as int).drop_last() =~= self.entries@.take(i - 1));
            }
            i -= 1;
            let entry = self.entries[i];
            if same_text(entry.0, token) {
                return Some(entry.1);
            }
        }
        None
    }
}

} // verus!
