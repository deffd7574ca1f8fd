//! A snapshot of the process environment.
//!
//! The configuration is resolved from a value of this type and never from
//! the live environment, so that the whole resolution is a function of its
//! inputs. The caller fills the snapshot once, at startup.

use crate::text::same_text;
use vstd::prelude::*;

verus! {

/// What reading one variable gave.
#[derive(Debug, Clone, PartialEq, Eq)]
pub enum EnvValue {
    /// The variable holds this text.
    Text(String),
    /// The variable is set, but its value is not valid Unicode.
    NotUnicode,
}

/// The model of an [`EnvValue`].
pub enum Reading {
    Text(Seq<char>),
    NotUnicode,
}

impl View for EnvValue {
    type V = Reading;

    open spec fn view(&self) -> Reading {
        match self {
            EnvValue::Text(t) => Reading::Text(t@),
            EnvValue::NotUnicode => Reading::NotUnicode,
        }
    }
}

/// One variable with the value read for it.
#[derive(Debug, Clone, PartialEq, Eq)]
struct EnvEntry {
    key: String,
    value: EnvValue,
}

/// The variables that were set when the snapshot was taken.
///
/// Its model is a map from names to readings. A name outside the map's
/// domain is a variable that was not set.
#[derive(Debug, Clone, PartialEq, Eq)]
pub struct Environment {
    entries: Vec<EnvEntry>,
}

/// The map that a list of entries stands for: a later entry replaces an
/// earlier one of the same name.
spec fn bindings(entries: Seq<EnvEntry>) -> Map<Seq<char>, Reading>
    decreases entries.len(),
{
    if entries.len() == 0 {
        Map::empty()
    } else {
        bindings(entries.drop_last()).insert(entries.last().key@, entries.last().value@)
    }
}

/// An entry that no later entry of the same name follows is the binding of
/// its name.
proof fn lemma_last_match(entries: Seq<EnvEntry>, i: int)
    requires
        0 <= i < entries.len(),
        forall|j: int| i < j < entries.len() ==> entries[j].key@ != entries[i].key@,
    ensures
        bindings(entries).dom().contains(entries[i].key@),
        bindings(entries)[entries[i].key@] == entries[i].value@,
    decreases entries.len(),
{
    if i < entries.len() - 1 {
        let front = entries.drop_last();
        assert(forall|j: int| i < j < front.len() ==> front[j] == entries[j]);
        lemma_last_match(front, i);
    }
}

/// A name that no entry carries is not bound.
proof fn lemma_no_match(entries: Seq<EnvEntry>, key: Seq<char>)
    requires
        forall|j: int| 0 <= j < entries.len() ==> entries[j].key@ != key,
    ensures
        !bindings(entries).dom().contains(key),
    decreases entries.len(),
{
    if entries.len() > 0 {
        let front = entries.drop_last();
        assert(forall|j: int| 0 <= j < front.len() ==> front[j] == entries[j]);
        lemma_no_match(front, key);
    }
}

impl View for Environment {
    type V = Map<Seq<char>, Reading>;

    closed spec fn view(&self) -> Map<Seq<char>, Reading> {
        bindings(self.entries@)
    }
}

impl Environment {
    /// The environment in which no variable is set.
    pub fn new() -> (env: Environment)
        ensures
            env@ == Map::<Seq<char>, Reading>::empty(),
    {
        Environment { entries: Vec::new() }
    }

    /// Records that the variable `key` holds `value`, in place of whatever
    /// was recorded for `key` before.
    pub fn set(&mut self, key: &str, value: &str)
        ensures
            final(self)@ == old(self)@.insert(key@, Reading::Text(value@)),
    {
        self.record(key, EnvValue::Text(value.to_owned()));
    }

    /// Records that the variable `key` is set to something that is not
    /// valid Unicode, in place of whatever was recorded for `key` before.
    pub fn set_not_unicode(&mut self, key: &str)
        ensures
            final(self)@ == old(self)@.insert(key@, Reading::NotUnicode),
    {
        self.record(key, EnvValue::NotUnicode);
    }

    fn record(&mut self, key: &str, value: EnvValue)
        ensures
            final(self)@ == old(self)@.insert(key@, value@),
    {
        let entry = EnvEntry { key: key.to_owned(), value };
        self.entries.push(entry);
        assert(self.entries@.drop_last() =~= old(self).entries@);
    }

    /// What was recorded for the variable `key`, if it was set.
    pub fn lookup(&self, key: &str) -> (found: Option<&EnvValue>)
        ensures
            match found {
                Some(value) => self@.dom().contains(key@) && self@[key@] == value@,
                None => !self@.dom().contains(key@),
            },
    {
        let mut i: usize = self.entries.len();
        while i > 0
            invariant
                i <= self.entries@.len(),
                forall|j: int| i <= j < self.entries@.len() ==> self.entries@[j].key@ != key@,
            decreases i,
        {
            i = i - 1;
            if same_text(self.entries[i].key.as_str(), key) {
                proof {
                    lemma_last_match(self.entries@, i as int);
                }
                return Some(&self.entries[i].value);
            }
        }
        proof {
            lemma_no_match(self.entries@, key@);
        }
        None
    }
}

} // verus!
