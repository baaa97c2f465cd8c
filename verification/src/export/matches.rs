//! The arguments that a parsed command line holds, as plain values.

use vstd::prelude::*;

verus! {

/// One argument that the command line gave: its name, and its first value
/// where it took one.
#[derive(Clone, Debug, PartialEq, Eq)]
pub struct Matched {
    pub name: String,
    pub value: Option<String>,
}

/// The arguments of a parsed command line, in the order in which they were
/// recorded. Where a name occurs twice, the first entry counts.
#[derive(Clone, Debug, PartialEq, Eq)]
pub struct Matches {
    pub args: Vec<Matched>,
}

/// The value of an argument, viewed.
pub open spec fn value_view(value: Option<String>) -> Option<Seq<char>> {
    match value {
        Some(v) => Some(v@),
        None => None,
    }
}

/// The map from names to values that the first `n` entries of `args` make,
/// the earliest entry of a name winning.
pub open spec fn args_map(args: Seq<Matched>, n: int) -> Map<Seq<char>, Option<Seq<char>>>
    decreases n,
{
    if n <= 0 {
        Map::empty()
    } else {
        let earlier = args_map(args, n - 1);
        if earlier.contains_key(args[n - 1].name@) {
            earlier
        } else {
            earlier.insert(args[n - 1].name@, value_view(args[n - 1].value))
        }
    }
}

impl View for Matches {
    type V = Map<Seq<char>, Option<Seq<char>>>;

    open spec fn view(&self) -> Map<Seq<char>, Option<Seq<char>>> {
        args_map(self.args@, self.args@.len() as int)
    }
}

/// The value that a command line gives for a name: that of the argument
/// where it is present and took one, and none otherwise.
pub open spec fn value_in(matches: Map<Seq<char>, Option<Seq<char>>>, name: Seq<char>) -> Option<
    Seq<char>,
> {
    if matches.contains_key(name) {
        matches[name]
    } else {
        None
    }
}

/// The view of a borrowed value.
pub open spec fn str_view(value: Option<&str>) -> Option<Seq<char>> {
    match value {
        Some(v) => Some(v@),
        None => None,
    }
}

/// Entries beyond the first of a name change nothing in the map.
proof fn lemma_args_map_grows(args: Seq<Matched>, n: int, m: int, name: Seq<char>)
    requires
        0 <= n <= m,
        args_map(args, n).contains_key(name),
    ensures
        args_map(args, m).contains_key(name),
        args_map(args, m)[name] == args_map(args, n)[name],
    decreases m - n,
{
    if n < m {
        lemma_args_map_grows(args, n, m - 1, name);
    }
}

/// A name that none of the first `n` entries carries is not in their map.
proof fn lemma_args_map_misses(args: Seq<Matched>, n: int, name: Seq<char>)
    requires
        0 <= n <= args.len(),
        forall|j: int| 0 <= j < n ==> (#[trigger] args[j]).name@ != name,
    ensures
        !args_map(args, n).contains_key(name),
    decreases n,
{
    if n > 0 {
        lemma_args_map_misses(args, n - 1, name);
    }
}

impl Matches {
    /// The position of the first entry with the given name.
    fn find(&self, name: &str) -> (found: Option<usize>)
        ensures
            match found {
                Some(i) => {
                    &&& i < self.args@.len()
                    &&& self.args@[i as int].name@ == name@
                    &&& self@.contains_key(name@)
                    &&& self@[name@] == value_view(self.args@[i as int].value)
                },
                None => !self@.contains_key(name@),
            },
    {
        let wanted = String::from_str(name);
        let n: usize = self.args.len();
        let mut i: usize = 0;
        while i < n
            invariant
                n == self.args@.len(),
                i <= n,
                wanted@ == name@,
                forall|j: int| 0 <= j < i ==> (#[trigger] self.args@[j]).name@ != name@,
            decreases n - i,
        {
            if self.args[i].name == wanted {
                proof {
                    lemma_args_map_misses(self.args@, i as int, name@);
                    lemma_args_map_grows(self.args@, i as int + 1, n as int, name@);
                }
                return Some(i);
            }
            i = i + 1;
        }
        proof {
            lemma_args_map_misses(self.args@, n as int, name@);
        }
        None
    }

    /// Whether the command line gave the argument of this name.
    pub fn is_present(&self, name: &str) -> (present: bool)
        ensures
            present == self@.contains_key(name@),
    {
        self.find(name).is_some()
    }

    /// The value that the command line gave for the argument of this name.
    pub fn value_of(&self, name: &str) -> (value: Option<&str>)
        ensures
            str_view(value) == value_in(self@, name@),
    {
        match self.find(name) {
            Some(i) => match &self.args[i].value {
                Some(v) => Some(v.as_str()),
                None => None,
            },
            None => None,
        }
    }
}

} // verus!
