//! The options of a listing, and the values they are resolved from.

use vstd::prelude::*;
use vstd::std_specs::convert::FromSpecImpl;
use vstd::string::*;

verus! {

/// One value given on the command line: a switch or a text.
#[derive(Clone, PartialEq, Eq, Hash, Debug)]
pub enum Value {
    Bool(bool),
    String(String),
}

impl From<String> for Value {
    fn from(other: String) -> (value: Value) {
        Value::String(other)
    }
}

impl FromSpecImpl<String> for Value {
    open spec fn obeys_from_spec() -> bool {
        true
    }

    open spec fn from_spec(other: String) -> Value {
        Value::String(other)
    }
}

impl From<bool> for Value {
    fn from(other: bool) -> (value: Value) {
        Value::Bool(other)
    }
}

impl FromSpecImpl<bool> for Value {
    open spec fn obeys_from_spec() -> bool {
        true
    }

    open spec fn from_spec(other: bool) -> Value {
        Value::Bool(other)
    }
}

/// The switch that `val` stands for: its own value if it is a switch,
/// off if it is a text.
pub open spec fn switch_of(val: Value) -> bool {
    match val {
        Value::Bool(value) => value,
        Value::String(_) => false,
    }
}

/// Reads `val` as a switch; a text counts as off.
pub fn value_bool(val: &Value) -> (res: &bool)
    ensures
        *res == switch_of(*val),
{
    let res;
    match val {
        Value::Bool(value) => res = value,
        _ => res = &false,
    }
    res
}

/// What a listing is asked to show.
#[derive(Clone, Debug)]
pub struct Options {
    /// The directory to list.
    pub dir: String,
    /// Whether entries whose name starts with a dot are listed.
    pub show_hidden: bool,
    /// Whether sizes are scaled to units rather than given in bytes.
    pub human_readable: bool,
}

/// What an `Options` stands for.
pub ghost struct OptionsView {
    pub dir: Seq<char>,
    pub show_hidden: bool,
    pub human_readable: bool,
}

impl View for Options {
    type V = OptionsView;

    open spec fn view(&self) -> OptionsView {
        OptionsView {
            dir: self.dir@,
            show_hidden: self.show_hidden,
            human_readable: self.human_readable,
        }
    }
}

/// The options when nothing is given: the current directory, hidden
/// entries left out, sizes in bytes.
pub open spec fn default_options() -> OptionsView {
    OptionsView { dir: "."@, show_hidden: false, human_readable: false }
}

/// The options after one more value, given under `name`.
///
/// `dir` takes a text, `all` and `size` take a switch; a `dir` that is not
/// a text, and any other name, change nothing.
pub open spec fn updated(options: OptionsView, name: Seq<char>, value: Value) -> OptionsView {
    if name == "dir"@ {
        match value {
            Value::String(dir) => OptionsView { dir: dir@, ..options },
            Value::Bool(_) => options,
        }
    } else if name == "all"@ {
        OptionsView { show_hidden: switch_of(value), ..options }
    } else if name == "size"@ {
        OptionsView { human_readable: switch_of(value), ..options }
    } else {
        options
    }
}

/// The options that a run of named values leads to, each value applied in
/// turn to the defaults, so that of two values for one name the later wins.
pub open spec fn resolved(values: Seq<(String, Value)>) -> OptionsView
    decreases values.len(),
{
    if values.len() == 0 {
        default_options()
    } else {
        updated(resolved(values.drop_last()), values.last().0@, values.last().1)
    }
}

impl Options {
    /// The options when nothing is given.
    pub fn new() -> (options: Options)
        ensures
            options@ == default_options(),
    {
        Options { dir: ".".to_owned(), show_hidden: false, human_readable: false }
    }

    /// Applies one value, given under `name`.
    pub fn update(&mut self, name: &String, value: &Value)
        ensures
            final(self)@ == updated(old(self)@, name@, *value),
    {
        if *name == "dir".to_owned() {
            match value {
                Value::String(dir) => {
                    self.dir = dir.clone();
                },
                Value::Bool(_) => {},
            }
        } else if *name == "all".to_owned() {
            self.show_hidden = *value_bool(value);
        } else if *name == "size".to_owned() {
            self.human_readable = *value_bool(value);
        }
    }

    /// Resolves named values, in the order they were given, to options.
    pub fn resolve(values: &Vec<(String, Value)>) -> (options: Options)
        ensures
            options@ == resolved(values@),
    {
        let mut options = Options::new();
        let mut i: usize = 0;
        while i < values.len()
            invariant
                i <= values.len(),
                options@ == resolved(values@.take(i as int)),
            decreases values.len() - i,
        {
            options.update(&values[i].0, &values[i].1);
            proof {
                assert(values@.take(i + 1).drop_last() == values@.take(i as int));
            }
            i = i + 1;
        }
        proof {
            assert(values@.take(values.len() as int) == values@);
        }
        options
    }
}

} // verus!
