//! The environment variables that a process was started with.

use vstd::prelude::*;
use vstd::string::*;

verus! {

/// The mapping that a list of assignments leaves, a later assignment replacing an earlier one.
pub open spec fn assigned(entries: Seq<(String, String)>) -> Map<Seq<char>, Seq<char>>
    decreases entries.len(),
{
    if entries.len() == 0 {
        Map::empty()
    } else {
        assigned(entries.drop_last()).insert(entries.last().0@, entries.last().1@)
    }
}

/// Environment variables by name. Its view maps each name that is set to its value.
pub struct Environment {
    entries: Vec<(String, String)>,
}

impl View for Environment {
    type V = Map<Seq<char>, Seq<char>>;

    closed spec fn view(&self) -> Map<Seq<char>, Seq<char>> {
        assigned(self.entries@)
    }
}

impl Environment {
    /// An environment in which no variable is set.
    pub fn new() -> (environment: Environment)
        ensures
            environment@ == Map::<Seq<char>, Seq<char>>::empty(),
    {
        Environment { entries: Vec::new() }
    }

    /// Sets a variable, replacing the value that it had.
    pub fn set(&mut self, name: String, value: String)
        ensures
            final(self)@ == old(self)@.insert(name@, value@),
    {
        let ghost before = self.entries@;
        self.entries.push((name, value));
        assert(self.entries@.drop_last() == before);
    }

    /// The value of a variable, if it is set.
    pub fn get(&self, name: &str) -> (value: Option<String>)
        ensures
            optional_text(value) == value_of(self@, name@),
            value is Some <==> self@.contains_key(name@),
            value matches Some(value) ==> value@ == self@[name@],
    {
        let wanted: String = name.to_string();
        let mut i: usize = self.entries.len();
        proof {
            assert(self.entries@.take(i as int) == self.entries@);
        }
        while i > 0
            invariant
                wanted@ == name@,
                i <= self.entries@.len(),
                self@.contains_key(name@) == assigned(self.entries@.take(i as int)).contains_key(
                    name@,
                ),
                self@.contains_key(name@) ==> self@[name@] == assigned(
                    self.entries@.take(i as int),
                )[name@],
            decreases i,
        {
            i = i - 1;
            proof {
                assert(self.entries@.take(i + 1).drop_last() == self.entries@.take(i as int));
                assert(self.entries@.take(i + 1).last() == self.entries@[i as int]);
            }
            if self.entries[i].0 == wanted {
                return Some(self.entries[i].1.clone());
            }
        }
        None
    }

    /// The value of `name`, or that of `fallback` if only that one is set.
    pub fn first(&self, name: &str, fallback: &str) -> (value: Option<String>)
        ensures
            optional_text(value) == first_value(self@, name@, fallback@),
            self@.contains_key(name@) ==> (value matches Some(value) && value@ == self@[name@]),
            !self@.contains_key(name@) && self@.contains_key(fallback@) ==> (value matches Some(
                value,
            ) && value@ == self@[fallback@]),
            !self@.contains_key(name@) && !self@.contains_key(fallback@) ==> value is None,
    {
        match self.get(name) {
            Some(value) => Some(value),
            None => self.get(fallback),
        }
    }
}

/// The value of `name` in an environment, if it is set there.
pub open spec fn value_of(
    environment: Map<Seq<char>, Seq<char>>,
    name: Seq<char>,
) -> Option<Seq<char>> {
    if environment.contains_key(name) {
        Some(environment[name])
    } else {
        None
    }
}

/// The value of `name` in an environment, or that of `fallback` if only that one is set.
pub open spec fn first_value(
    environment: Map<Seq<char>, Seq<char>>,
    name: Seq<char>,
    fallback: Seq<char>,
) -> Option<Seq<char>> {
    match value_of(environment, name) {
        Some(value) => Some(value),
        None => value_of(environment, fallback),
    }
}

/// The characters of a text that may be absent.
pub open spec fn optional_text(text: Option<String>) -> Option<Seq<char>> {
    match text {
        Some(text) => Some(text@),
        None => None,
    }
}

/// A text, or `default` if it is absent.
pub open spec fn text_or(text: Option<Seq<char>>, default: Seq<char>) -> Seq<char> {
    match text {
        Some(text) => text,
        None => default,
    }
}

/// A variable has the value that it was set to, the empty one not excepted, and none once it is
/// removed; and what happens to one variable leaves every other as it was.
pub proof fn law_variables_are_what_they_were_set_to(
    environment: Map<Seq<char>, Seq<char>>,
    name: Seq<char>,
    value: Seq<char>,
    other: Seq<char>,
)
    requires
        other != name,
    ensures
        value_of(environment.insert(name, value), name) == Some(value),
        value_of(environment.remove(name), name) is None,
        value_of(environment.insert(name, value), other) == value_of(environment, other),
        value_of(environment.remove(name), other) == value_of(environment, other),
{
}

/// The fallback counts only where the variable itself is not set, whatever that is set to.
pub proof fn law_fallback_counts_only_where_nothing_is_set(
    environment: Map<Seq<char>, Seq<char>>,
    name: Seq<char>,
    fallback: Seq<char>,
    value: Seq<char>,
)
    requires
        name != fallback,
    ensures
        first_value(environment.insert(name, value), name, fallback) == Some(value),
        first_value(environment.remove(name).insert(fallback, value), name, fallback) == Some(value),
        first_value(environment.remove(name).remove(fallback), name, fallback) is None,
{
}

/// A text that is there is never taken for an absent one, though it be empty.
pub proof fn law_present_texts_count(text: String, default: Seq<char>)
    ensures
        optional_text(Some(text)) == Some(text@),
        optional_text(None) is None,
        text_or(Some(text@), default) == text@,
        text_or(None, default) == default,
{
}

/// A text, or `default` if it is absent.
pub(crate) fn unwrap_text(text: Option<String>, default: &str) -> (value: String)
    ensures
        value@ == text_or(optional_text(text), default@),
{
    match text {
        Some(text) => text,
        None => default.to_string(),
    }
}

} // verus!
