//! What the library needs to know of the process it runs in, handed over as plain
//! values, and the decisions that rest on it.

use crate::text::{join, same_text};
use vstd::prelude::*;

verus! {

/// A snapshot of the process: whether its standard input and output are terminals,
/// and its environment variables, each a name and a value.
#[derive(Debug)]
pub struct Environment {
    pub stdin_is_terminal: bool,
    pub stdout_is_terminal: bool,
    pub variables: Vec<(String, String)>,
}

/// The value of the first variable called `name`, if there is one.
pub open spec fn first_value(variables: Seq<(String, String)>, name: Seq<char>) -> Option<
    Seq<char>,
>
    decreases variables.len(),
{
    if variables.len() == 0 {
        None
    } else if variables[0].0@ == name {
        Some(variables[0].1@)
    } else {
        first_value(variables.drop_first(), name)
    }
}

impl Environment {
    /// The value of the variable `name`, if it is set.
    pub open spec fn value_of(&self, name: Seq<char>) -> Option<Seq<char>> {
        first_value(self.variables@, name)
    }

    /// The variable `name` is set.
    pub open spec fn is_set(&self, name: Seq<char>) -> bool {
        self.value_of(name) is Some
    }

    /// One of the variables by which continuous-integration services announce
    /// themselves is set.
    pub open spec fn announces_ci(&self) -> bool {
        ||| self.is_set("CI"@)
        ||| self.is_set("CONTINUOUS_INTEGRATION"@)
        ||| self.is_set("BUILD_NUMBER"@)
        ||| self.is_set("GITHUB_ACTIONS"@)
        ||| self.is_set("TEAMCITY_VERSION"@)
        ||| self.is_set("TRAVIS"@)
    }

    /// An operator sits at the process: both standard streams are terminals and no
    /// continuous-integration service runs it.
    pub open spec fn interactive(&self) -> bool {
        self.stdin_is_terminal && self.stdout_is_terminal && !self.announces_ci()
    }

    /// Looks a variable up by its name.
    pub fn variable(&self, name: &str) -> (value: Option<&str>)
        ensures
            match value {
                Some(text) => self.value_of(name@) == Some(text@),
                None => self.value_of(name@) is None,
            },
    {
        let mut i: usize = 0;
        assert(self.variables@.skip(0) == self.variables@);
        while i < self.variables.len()
            invariant
                i <= self.variables.len(),
                first_value(self.variables@, name@) == first_value(
                    self.variables@.skip(i as int),
                    name@,
                ),
            decreases self.variables.len() - i,
        {
            let rest = Ghost(self.variables@.skip(i as int));
            if same_text(self.variables[i].0.as_str(), name) {
                return Some(self.variables[i].1.as_str());
            }
            proof {
                assert(rest@.drop_first() == self.variables@.skip(i + 1));
            }
            i += 1;
        }
        None
    }
}

/// Decides whether a continuous-integration service runs the process.
pub fn is_ci_environment(environment: &Environment) -> (ci: bool)
    ensures
        ci == environment.announces_ci(),
{
    environment.variable("CI").is_some() || environment.variable(
        "CONTINUOUS_INTEGRATION",
    ).is_some() || environment.variable("BUILD_NUMBER").is_some() || environment.variable(
        "GITHUB_ACTIONS",
    ).is_some() || environment.variable("TEAMCITY_VERSION").is_some() || environment.variable(
        "TRAVIS",
    ).is_some()
}

/// Decides whether an operator can be asked a question.
pub fn is_interactive(environment: &Environment) -> (interactive: bool)
    ensures
        interactive == environment.interactive(),
{
    environment.stdin_is_terminal && environment.stdout_is_terminal && !is_ci_environment(
        environment,
    )
}

/// An answer grants consent exactly when it begins with `y` or `Y`. No answer, an
/// empty one and every other one refuse.
pub open spec fn affirmative(answer: Option<Seq<char>>) -> bool {
    answer matches Some(text) && text.len() > 0 && (text[0] == 'y' || text[0] == 'Y')
}

/// The line that puts a yes-or-no question to the operator.
pub fn yes_no_prompt(question: &str) -> (line: String)
    ensures
        line@ == question@ + " (y/n)"@,
{
    join(question, " (y/n)")
}

/// Decides whether the operator's answer grants consent.
pub fn is_affirmative(answer: Option<&str>) -> (yes: bool)
    ensures
        yes == affirmative(
            match answer {
                Some(text) => Some(text@),
                None => None,
            },
        ),
{
    match answer {
        None => false,
        Some(text) => {
            let mut chars = text.chars();
            match chars.next() {
                Some(first) => first == 'y' || first == 'Y',
                None => false,
            }
        },
    }
}

/// A variable has a value exactly when one of that name is in the list, and the
/// value is that of the first such.
pub proof fn lemma_first_value(variables: Seq<(String, String)>, name: Seq<char>)
    ensures
        first_value(variables, name) is Some <==> exists|i: int|
            0 <= i < variables.len() && (#[trigger] variables[i]).0@ == name,
        first_value(variables, name) matches Some(value) ==> exists|i: int|
            0 <= i < variables.len() && (#[trigger] variables[i]).0@ == name && variables[i].1@
                == value && forall|j: int| 0 <= j < i ==> (#[trigger] variables[j]).0@ != name,
    decreases variables.len(),
{
    if variables.len() > 0 {
        if variables[0].0@ == name {
            assert(variables[0].0@ == name && variables[0].1@ == first_value(variables, name)->0);
        } else {
            let rest = variables.drop_first();
            lemma_first_value(rest, name);
            assert forall|i: int| 0 <= i < rest.len() implies rest[i] == variables[i + 1] by {}
            if first_value(rest, name) is Some {
                let value = first_value(rest, name)->0;
                let i = choose|i: int|
                    0 <= i < rest.len() && (#[trigger] rest[i]).0@ == name && rest[i].1@ == value
                        && forall|j: int| 0 <= j < i ==> (#[trigger] rest[j]).0@ != name;
                assert(variables[i + 1].0@ == name && variables[i + 1].1@ == value);
                assert forall|j: int| 0 <= j < i + 1 implies (#[trigger] variables[j]).0@
                    != name by {
                    if j > 0 {
                        assert(rest[j - 1] == variables[j]);
                    }
                }
            }
            if exists|i: int| 0 <= i < variables.len() && (#[trigger] variables[i]).0@ == name {
                let i = choose|i: int|
                    0 <= i < variables.len() && (#[trigger] variables[i]).0@ == name;
                assert(rest[i - 1] == variables[i]);
            }
        }
    }
}

} // verus!
