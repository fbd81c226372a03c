//! A snapshot of the environment variables that configure the service.
use crate::table::{self, Table};
use crate::text::{self, blank};
use vstd::prelude::*;

verus! {

/// The environment variables, as they stood when the snapshot was taken.
pub struct Settings {
    vars: Table<String>,
}

/// The texts of a table of strings.
pub open spec fn text_map(m: Map<Seq<char>, String>) -> Map<Seq<char>, Seq<char>> {
    m.map_values(|s: String| s@)
}

/// The value of a variable that is set, whatever it holds.
pub open spec fn set_value(vars: Map<Seq<char>, Seq<char>>, key: Seq<char>) -> Option<Seq<char>> {
    if vars.contains_key(key) {
        Some(vars[key])
    } else {
        None
    }
}

/// The value of a variable that is set to more than white space.
pub open spec fn picked(vars: Map<Seq<char>, Seq<char>>, key: Seq<char>) -> Option<Seq<char>> {
    if vars.contains_key(key) && !text::is_blank(vars[key]) {
        Some(vars[key])
    } else {
        None
    }
}

/// The first of two values that is there.
pub open spec fn either<T>(first: Option<T>, second: Option<T>) -> Option<T> {
    if first is Some {
        first
    } else {
        second
    }
}

/// The value if there is one, else `fallback`.
pub open spec fn or_else<T>(value: Option<T>, fallback: T) -> T {
    match value {
        Some(v) => v,
        None => fallback,
    }
}

impl View for Settings {
    type V = Map<Seq<char>, Seq<char>>;

    closed spec fn view(&self) -> Map<Seq<char>, Seq<char>> {
        text_map(self.vars@)
    }
}

impl Settings {
    /// The snapshot of a list of variables with their values.
    pub fn from_vars(vars: Vec<(String, String)>) -> (settings: Settings)
        ensures
            settings@ == text_map(table::entries_map(vars@)),
    {
        Settings { vars: Table::from_entries(vars) }
    }

    /// The value of a variable, whatever it holds.
    pub fn var(&self, key: &str) -> (r: Option<&str>)
        ensures
            match r {
                Some(value) => set_value(self@, key@) == Some(value@),
                None => set_value(self@, key@) is None,
            },
    {
        match self.vars.get(key) {
            Some(value) => Some(value.as_str()),
            None => None,
        }
    }

    /// The value of a variable that holds more than white space.
    pub fn pick(&self, key: &str) -> (r: Option<String>)
        ensures
            match r {
                Some(value) => picked(self@, key@) == Some(value@),
                None => picked(self@, key@) is None,
            },
    {
        match self.var(key) {
            Some(value) => if blank(value) {
                None
            } else {
                Some(value.to_owned())
            },
            None => None,
        }
    }

    /// The first of two variables that holds more than white space.
    pub fn pick_either(&self, first: &str, second: &str) -> (r: Option<String>)
        ensures
            match r {
                Some(value) => either(picked(self@, first@), picked(self@, second@)) == Some(value@),
                None => either(picked(self@, first@), picked(self@, second@)) is None,
            },
    {
        match self.pick(first) {
            Some(value) => Some(value),
            None => self.pick(second),
        }
    }

    /// The first of two variables that is set.
    pub fn var_either(&self, first: &str, second: &str) -> (r: Option<String>)
        ensures
            match r {
                Some(value) => either(set_value(self@, first@), set_value(self@, second@)) == Some(
                    value@,
                ),
                None => either(set_value(self@, first@), set_value(self@, second@)) is None,
            },
    {
        match self.var(first) {
            Some(value) => Some(value.to_owned()),
            None => match self.var(second) {
                Some(value) => Some(value.to_owned()),
                None => None,
            },
        }
    }
}

/// A setting counts where it is set to more than white space, and then as it is
/// written.
pub proof fn law_blank_settings_do_not_count(
    vars: Map<Seq<char>, Seq<char>>,
    key: Seq<char>,
    other: Option<Seq<char>>,
    fallback: Seq<char>,
)
    ensures
        picked(vars, key) is Some <==> vars.contains_key(key) && exists|i: int|
            0 <= i < vars[key].len() && !text::is_white_space(#[trigger] vars[key][i]),
        picked(vars, key) matches Some(value) ==> value == vars[key],
        set_value(vars, key) is Some <==> vars.contains_key(key),
        set_value(vars, key) matches Some(value) ==> value == vars[key],
        picked(vars, key) matches Some(value) ==> either(picked(vars, key), other) == Some(value)
            && or_else(picked(vars, key), fallback) == value,
        picked(vars, key) is None ==> either(picked(vars, key), other) == other && or_else(
            picked(vars, key),
            fallback,
        ) == fallback,
{
    if vars.contains_key(key) {
        text::law_trimming_takes_white_space(vars[key]);
    }
}

} // verus!
