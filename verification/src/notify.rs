//! Desktop notifications: templates, their variables and their rendering.

use vstd::prelude::*;
use vstd::string::*;

use crate::text::{same_text, text_view};

verus! {

/// The templates of a notification. `${NAME}` stands for a variable and a
/// leading `~` for the home directory.
#[derive(Debug)]
pub struct NotifyHook {
    pub summary: String,
    pub body: String,
}

/// A notification to show.
#[derive(Debug)]
pub struct Notification {
    pub summary: String,
    pub body: String,
}

/// The variables of a template.
///
/// The hook's own variables come first: a name among them has the value
/// given there, or none, whatever the environment holds. Every other name
/// has the value that the environment gives it.
pub struct Variables<'a> {
    /// The variables that the hook makes up, with their values.
    pub synthesized: Vec<(String, Option<String>)>,
    /// The environment of the process.
    pub environment: &'a Vec<(String, String)>,
}

/// The value of the first entry for `key` among the hook's own variables;
/// the outer option says whether there is such an entry.
pub open spec fn synthesized_value(
    entries: Seq<(Seq<char>, Option<Seq<char>>)>,
    key: Seq<char>,
) -> Option<Option<Seq<char>>>
    decreases entries.len(),
{
    if entries.len() == 0 {
        None
    } else if entries[0].0 == key {
        Some(entries[0].1)
    } else {
        synthesized_value(entries.drop_first(), key)
    }
}

/// The value of the first entry for `key` in the environment.
pub open spec fn environment_value(
    entries: Seq<(Seq<char>, Seq<char>)>,
    key: Seq<char>,
) -> Option<Seq<char>>
    decreases entries.len(),
{
    if entries.len() == 0 {
        None
    } else if entries[0].0 == key {
        Some(entries[0].1)
    } else {
        environment_value(entries.drop_first(), key)
    }
}

/// The value of the variable `key`.
pub open spec fn variable_value(
    synthesized: Seq<(Seq<char>, Option<Seq<char>>)>,
    environment: Seq<(Seq<char>, Seq<char>)>,
    key: Seq<char>,
) -> Option<Seq<char>> {
    match synthesized_value(synthesized, key) {
        Some(value) => value,
        None => environment_value(environment, key),
    }
}

/// What `shellexpand::full_with_context` makes of `template` when the home
/// directory is `home` and the variables have the values that
/// [`variable_value`] gives them; nothing where it reports an error.
pub uninterp spec fn shell_expanded(
    template: Seq<char>,
    home: Option<Seq<char>>,
    synthesized: Seq<(Seq<char>, Option<Seq<char>>)>,
    environment: Seq<(Seq<char>, Seq<char>)>,
) -> Option<Seq<char>>;

/// The text that a template stands for, given its expansion: the
/// expansion, or the template itself where there is none.
pub open spec fn expansion_or(expanded: Option<Seq<char>>, template: Seq<char>) -> Seq<char> {
    match expanded {
        Some(text) => text,
        None => template,
    }
}

/// The text that a template stands for: its expansion, or the template
/// itself where the expansion fails.
pub open spec fn rendered(
    template: Seq<char>,
    home: Option<Seq<char>>,
    synthesized: Seq<(Seq<char>, Option<Seq<char>>)>,
    environment: Seq<(Seq<char>, Seq<char>)>,
) -> Seq<char> {
    expansion_or(shell_expanded(template, home, synthesized, environment), template)
}

/// The text that a template stands for, given its expansion.
pub fn or_template(expanded: Option<String>, template: &str) -> (text: String)
    ensures
        text@ == expansion_or(text_view(expanded), template@),
{
    match expanded {
        Some(text) => text,
        None => String::from_str(template),
    }
}

/// Calls `shellexpand::full_with_context`; the home directory is `home` and
/// a variable is looked up with [`Variables::lookup`]. The contract only
/// names the outcome.
#[verifier::external_body]
fn expand(template: &str, home: &Option<String>, variables: &Variables) -> (expanded: Option<String>)
    ensures
        text_view(expanded) == shell_expanded(
            template@,
            text_view(*home),
            variables.synthesized.deep_view(),
            variables.environment.deep_view(),
        ),
{
    let home_dir = || home.clone();
    let get_env = |key: &str| -> Result<Option<String>, ()> { Ok(variables.lookup(key)) };
    shellexpand::full_with_context(template, home_dir, get_env).ok().map(|text| text.into_owned())
}

impl<'a> Variables<'a> {
    /// The value of the variable `key`: the hook's own value where the hook
    /// makes the variable up, and else that of the environment.
    pub fn lookup(&self, key: &str) -> (value: Option<String>)
        ensures
            text_view(value) == variable_value(
                self.synthesized.deep_view(),
                self.environment.deep_view(),
                key@,
            ),
    {
        let ghost synthesized = self.synthesized.deep_view();
        let ghost environment = self.environment.deep_view();
        let mut i: usize = 0;
        assert(synthesized.skip(0) =~= synthesized);
        assert(environment.skip(0) =~= environment);
        while i < self.synthesized.len()
            invariant
                i <= self.synthesized.len(),
                synthesized == self.synthesized.deep_view(),
                synthesized_value(synthesized, key@) == synthesized_value(
                    synthesized.skip(i as int),
                    key@,
                ),
            decreases self.synthesized.len() - i,
        {
            let ghost rest = synthesized.skip(i as int);
            assert(rest.drop_first() =~= synthesized.skip(i + 1));
            if same_text(self.synthesized[i].0.as_str(), key) {
                let value = match &self.synthesized[i].1 {
                    Some(text) => Some(text.clone()),
                    None => None,
                };
                return value;
            }
            i = i + 1;
        }
        let mut j: usize = 0;
        while j < self.environment.len()
            invariant
                j <= self.environment.len(),
                environment == self.environment.deep_view(),
                synthesized == self.synthesized.deep_view(),
                synthesized_value(synthesized, key@) is None,
                variable_value(synthesized, environment, key@) == environment_value(
                    environment,
                    key@,
                ),
                environment_value(environment, key@) == environment_value(
                    environment.skip(j as int),
                    key@,
                ),
            decreases self.environment.len() - j,
        {
            let ghost rest = environment.skip(j as int);
            assert(rest.drop_first() =~= environment.skip(j + 1));
            if same_text(self.environment[j].0.as_str(), key) {
                return Some(self.environment[j].1.clone());
            }
            j = j + 1;
        }
        None
    }

    /// The text that `template` stands for.
    pub fn render(&self, template: &str, home: &Option<String>) -> (text: String)
        ensures
            text@ == rendered(
                template@,
                text_view(*home),
                self.synthesized.deep_view(),
                self.environment.deep_view(),
            ),
    {
        or_template(expand(template, home, self), template)
    }
}

impl NotifyHook {
    /// The notification that the templates stand for.
    pub fn notification(&self, home: &Option<String>, variables: &Variables) -> (shown:
        Notification)
        ensures
            shown.summary@ == rendered(
                self.summary@,
                text_view(*home),
                variables.synthesized.deep_view(),
                variables.environment.deep_view(),
            ),
            shown.body@ == rendered(
                self.body@,
                text_view(*home),
                variables.synthesized.deep_view(),
                variables.environment.deep_view(),
            ),
    {
        Notification {
            summary: variables.render(self.summary.as_str(), home),
            body: variables.render(self.body.as_str(), home),
        }
    }
}

/// A variable that the hook makes up has the hook's value, whatever the
/// environment says.
pub proof fn lemma_synthesized_first(
    synthesized: Seq<(Seq<char>, Option<Seq<char>>)>,
    environment: Seq<(Seq<char>, Seq<char>)>,
    other: Seq<(Seq<char>, Seq<char>)>,
    key: Seq<char>,
)
    requires
        synthesized_value(synthesized, key) is Some,
    ensures
        variable_value(synthesized, environment, key) == variable_value(synthesized, other, key),
{
}

} // verus!
