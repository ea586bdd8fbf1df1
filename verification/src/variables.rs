//! The panel the part's variables are edited in: the row being typed into,
//! the row that adds a variable, and what went wrong with the last thing
//! asked of the part.
//!
//! The part reads a formula and takes or refuses a change; the panel decides
//! what is asked of it, what is kept to be fixed, and what a refusal names.

use vstd::prelude::*;

use crate::model::DimensionTarget;

verus! {

/// A variable of the part, by its rank.
#[derive(Clone, Copy, Debug, PartialEq, Eq, Hash, Structural)]
pub struct VariableId(pub usize);

/// A row being typed into, not yet asked of the part.
#[derive(Debug, Default, PartialEq)]
pub struct Typed {
    pub name: String,
    pub formula: String,
}

impl Clone for Typed {
    fn clone(&self) -> (r: Self)
        ensures
            r == *self,
    {
        Typed { name: self.name.clone(), formula: self.formula.clone() }
    }
}

/// Something of the part that uses a variable.
#[derive(Clone, Copy, Debug, PartialEq, Eq, Hash, Structural)]
pub enum Use {
    /// A dimension of a sketch.
    Dimension { sketch: usize, target: DimensionTarget },
    /// Another variable's formula.
    Variable(VariableId),
    /// A step of the history.
    Operation(u32),
}

/// Something a change would break.
#[derive(Clone, Copy, Debug, PartialEq, Eq, Hash, Structural)]
pub enum Broken {
    Dimension { sketch: usize, target: DimensionTarget },
    Variable(VariableId),
    Operation(u32),
    /// A step whose number would change, with the one that follows it.
    Renumbered { changed: u32, followed_by: u32 },
    /// Something left standing nowhere, which nothing on screen can show.
    Adrift,
}

/// Why the part refused a change: the variable is still used, the change
/// would break something, or some other reason the part gives (`N`).
#[derive(Clone, Debug, PartialEq)]
pub enum Refused<N> {
    InUse(Vec<Use>),
    Breaks(Vec<Broken>),
    Other(N),
}

/// What the panel refused: a formula that does not read (`U`, as the part
/// reads it), or a change the part refused.
#[derive(Clone, Debug, PartialEq)]
pub enum Problem<U, N> {
    Formula(U),
    Refused(Refused<N>),
}

/// What the last refusal named that stands somewhere to be seen: values on a
/// drawing, variables of the table, steps of the history.
#[derive(Clone, Debug, Default, PartialEq)]
pub struct Named {
    pub values: Vec<(usize, DimensionTarget)>,
    pub variables: Vec<VariableId>,
    pub steps: Vec<u32>,
}

impl Named {
    pub fn is_empty(&self) -> (r: bool)
        ensures
            r == (self.values@.len() == 0 && self.variables@.len() == 0 && self.steps@.len()
                == 0),
    {
        self.values.len() == 0 && self.variables.len() == 0 && self.steps.len() == 0
    }
}

/// The values, the variables and the steps a list of uses names, each in the
/// order the part gave them.
pub open spec fn named_by_uses(uses: Seq<Use>) -> (Seq<(usize, DimensionTarget)>, Seq<VariableId>, Seq<u32>)
    decreases uses.len(),
{
    if uses.len() == 0 {
        (Seq::empty(), Seq::empty(), Seq::empty())
    } else {
        let (values, variables, steps) = named_by_uses(uses.drop_last());
        match uses.last() {
            Use::Dimension { sketch, target } => (values.push((sketch, target)), variables, steps),
            Use::Variable(variable) => (values, variables.push(variable), steps),
            Use::Operation(number) => (values, variables, steps.push(number)),
        }
    }
}

/// The same for what a change would break: a step renumbered names itself
/// and the one following it, and what is adrift names nothing.
pub open spec fn named_by_breaks(broken: Seq<Broken>) -> (Seq<(usize, DimensionTarget)>, Seq<VariableId>, Seq<u32>)
    decreases broken.len(),
{
    if broken.len() == 0 {
        (Seq::empty(), Seq::empty(), Seq::empty())
    } else {
        let (values, variables, steps) = named_by_breaks(broken.drop_last());
        match broken.last() {
            Broken::Dimension { sketch, target } => (values.push((sketch, target)), variables, steps),
            Broken::Variable(variable) => (values, variables.push(variable), steps),
            Broken::Operation(number) => (values, variables, steps.push(number)),
            Broken::Renumbered { changed, followed_by } => (
                values,
                variables,
                steps.push(changed).push(followed_by),
            ),
            Broken::Adrift => (values, variables, steps),
        }
    }
}

/// What a problem names: what still uses a variable, or what a change would
/// break; nothing for any other problem.
pub open spec fn named_spec<U, N>(problem: Option<Problem<U, N>>) -> (Seq<(usize, DimensionTarget)>, Seq<VariableId>, Seq<u32>) {
    match problem {
        Some(Problem::Refused(Refused::InUse(uses))) => named_by_uses(uses@),
        Some(Problem::Refused(Refused::Breaks(broken))) => named_by_breaks(broken@),
        _ => (Seq::empty(), Seq::empty(), Seq::empty()),
    }
}

/// White space as Unicode's White_Space property lists it, which is what the
/// standard library's `char::is_whitespace` and `str::trim` go by: the
/// controls from tab to carriage return, the space, the next-line control,
/// the no-break space, the ogham space mark, the spaces from the en quad to
/// the hair space, the line and paragraph separators, the narrow no-break
/// space, the medium mathematical space and the ideographic space.
pub open spec fn white(c: char) -> bool {
    let n = c as u32;
    ||| 0x9 <= n <= 0xD
    ||| n == 0x20
    ||| n == 0x85
    ||| n == 0xA0
    ||| n == 0x1680
    ||| 0x2000 <= n <= 0x200A
    ||| n == 0x2028
    ||| n == 0x2029
    ||| n == 0x202F
    ||| n == 0x205F
    ||| n == 0x3000
}

/// A text without the white space it starts with.
pub open spec fn trim_start(text: Seq<char>) -> Seq<char>
    decreases text.len(),
{
    if text.len() > 0 && white(text[0]) {
        trim_start(text.drop_first())
    } else {
        text
    }
}

/// A text without the white space it ends with.
pub open spec fn trim_end(text: Seq<char>) -> Seq<char>
    decreases text.len(),
{
    if text.len() > 0 && white(text.last()) {
        trim_end(text.drop_last())
    } else {
        text
    }
}

/// A text without the white space before and after it.
pub open spec fn trim_of(text: Seq<char>) -> Seq<char> {
    trim_end(trim_start(text))
}

/// `str::trim`, then `str::to_string`: the text with its leading and trailing
/// white space removed, white space as Unicode's White_Space property has it.
#[verifier::external_body]
fn trimmed(text: &String) -> (r: String)
    ensures
        r@ == trim_of(text@),
{
    text.trim().to_string()
}

/// What a commit of the row being edited asks.
#[derive(Debug, PartialEq)]
pub enum Commit<F> {
    /// No row is being edited.
    NotEditing,
    /// The formula does not read: the problem is kept, and so is what was
    /// typed, to be fixed where it was typed.
    Refused,
    /// The row says what the part already has: nothing is recorded.
    Unchanged,
    /// The change to ask the part for. `typed` is kept to be put back in the
    /// row should the part refuse it.
    Ask { variable: VariableId, name: String, formula: F, typed: Typed },
}

/// What adding the variable the foot of the table names asks.
#[derive(Debug, PartialEq)]
pub enum Add<F> {
    /// The formula does not read: nothing is added, and the foot keeps what
    /// was typed.
    Refused,
    /// The variable to ask the part for.
    Ask { name: String, formula: F },
}

/// The panel of variables, between frames.
pub struct VariablesPanel<U, N> {
    /// The one row being typed into, and what its two fields hold.
    editing: Option<(VariableId, Typed)>,
    /// The row at the foot of the table, which adds a variable.
    adding: Typed,
    problem: Option<Problem<U, N>>,
}

impl<U, N> VariablesPanel<U, N> {
    pub closed spec fn editing_spec(&self) -> Option<(VariableId, Typed)> {
        self.editing
    }

    pub closed spec fn problem_spec(&self) -> Option<Problem<U, N>> {
        self.problem
    }

    pub closed spec fn adding_spec(&self) -> Typed {
        self.adding
    }

    /// A panel editing nothing, with an empty foot and nothing wrong.
    pub fn new() -> (r: Self)
        ensures
            r.editing_spec() is None,
            r.problem_spec() is None,
            r.adding_spec().name@.len() == 0,
            r.adding_spec().formula@.len() == 0,
    {
        VariablesPanel {
            editing: None,
            adding: Typed { name: String::new(), formula: String::new() },
            problem: None,
        }
    }

    /// What the foot of the table holds, as typed so far.
    pub fn adding(&self) -> (r: &Typed)
        ensures
            *r == self.adding_spec(),
    {
        &self.adding
    }

    /// Takes what was typed into the foot of the table.
    pub fn typed_into_foot(&mut self, name: String, formula: String)
        ensures
            final(self).adding_spec() == (Typed { name, formula }),
            final(self).editing_spec() == old(self).editing_spec(),
            final(self).problem_spec() == old(self).problem_spec(),
    {
        self.adding = Typed { name, formula };
    }

    /// What a row's two fields show: what is being typed into it, or what the
    /// table holds.
    pub fn texts(&self, variable: VariableId, name: &String, formula: &String) -> (r: Typed)
        ensures
            match self.editing_spec() {
                Some((editing, typed)) => if editing == variable {
                    r == typed
                } else {
                    r.name@ == name@ && r.formula@ == formula@
                },
                None => r.name@ == name@ && r.formula@ == formula@,
            },
    {
        match &self.editing {
            Some((editing, typed)) => if *editing == variable {
                return typed.clone();
            },
            None => {},
        }
        Typed { name: name.clone(), formula: formula.clone() }
    }

    /// Takes what was typed into a row. Typing into another row drops what
    /// the one before held: only one is edited at a time.
    pub fn typed_into(&mut self, variable: VariableId, name: String, formula: String)
        ensures
            final(self).editing_spec() == Some((variable, Typed { name, formula })),
            final(self).problem_spec() == old(self).problem_spec(),
            final(self).adding_spec() == old(self).adding_spec(),
    {
        self.editing = Some((variable, Typed { name, formula }));
    }

    pub fn is_editing(&self, variable: VariableId) -> (r: bool)
        ensures
            r == (self.editing_spec() matches Some((editing, _)) && editing == variable),
    {
        match &self.editing {
            Some((editing, _)) => *editing == variable,
            None => false,
        }
    }

    /// The row being edited, as it is typed so far.
    pub fn editing(&self) -> (r: Option<&(VariableId, Typed)>)
        ensures
            match r {
                Some(e) => self.editing_spec() == Some(*e),
                None => self.editing_spec() is None,
            },
    {
        self.editing.as_ref()
    }

    /// Drops what was typed into the row being edited.
    pub fn cancel(&mut self)
        ensures
            final(self).editing_spec() is None,
            final(self).problem_spec() is None,
            final(self).adding_spec() == old(self).adding_spec(),
    {
        self.editing = None;
        self.problem = None;
    }

    /// What went wrong with the last thing asked, until something else is.
    pub fn problem(&self) -> (r: Option<&Problem<U, N>>)
        ensures
            match r {
                Some(p) => self.problem_spec() == Some(*p),
                None => self.problem_spec() is None,
            },
    {
        self.problem.as_ref()
    }

    fn done(&mut self) -> (r: bool)
        ensures
            r,
            final(self).problem_spec() is None,
            final(self).editing_spec() == old(self).editing_spec(),
            final(self).adding_spec() == old(self).adding_spec(),
    {
        self.problem = None;
        true
    }

    /// Keeps what was typed, so it can be fixed where it was typed.
    fn refused(&mut self, problem: Problem<U, N>, editing: Option<(VariableId, Typed)>) -> (r: bool)
        ensures
            !r,
            final(self).problem_spec() == Some(problem),
            final(self).editing_spec() == if editing is Some {
                editing
            } else {
                old(self).editing_spec()
            },
            final(self).adding_spec() == old(self).adding_spec(),
    {
        self.problem = Some(problem);
        if editing.is_some() {
            self.editing = editing;
        }
        false
    }

    /// Commits the row being edited. `read` is its formula as the part reads
    /// it, and `found` the variable's name and whether its formula already is
    /// the one read — nothing when the part has no such variable.
    ///
    /// A row committed as it was records nothing; one whose formula does not
    /// read keeps what was typed, to be fixed where it was typed.
    pub fn commit<F>(&mut self, read: Result<F, U>, found: Option<(&String, bool)>) -> (r: Commit<F>)
        ensures
            match old(self).editing_spec() {
                None => r == Commit::<F>::NotEditing && *final(self) == *old(self),
                Some((variable, typed)) => match read {
                    Err(wrong) => {
                        &&& r == Commit::<F>::Refused
                        &&& final(self).problem_spec() == Some(Problem::<U, N>::Formula(wrong))
                        &&& final(self).editing_spec() == Some((variable, typed))
                    },
                    Ok(formula) => {
                        let name = trim_of(typed.name@);
                        let unchanged = found matches Some((was, same)) && was@ == name && same;
                        &&& final(self).editing_spec() is None
                        &&& unchanged ==> r == Commit::<F>::Unchanged
                            && final(self).problem_spec() is None
                        &&& !unchanged ==> (r matches Commit::Ask {
                            variable: v,
                            name: n,
                            formula: f,
                            typed: t,
                        } && v == variable && n@ == name && f == formula && t == typed
                            && final(self).problem_spec() == old(self).problem_spec())
                    },
                },
            },
            final(self).adding_spec() == old(self).adding_spec(),
    {
        let (variable, typed) = match self.editing.take() {
            Some(editing) => editing,
            None => return Commit::NotEditing,
        };
        let formula = match read {
            Ok(formula) => formula,
            Err(wrong) => {
                self.refused(Problem::Formula(wrong), Some((variable, typed)));
                return Commit::Refused;
            },
        };
        let name = trimmed(&typed.name);
        self.commit_as(variable, typed, formula, name, found)
    }

    /// The end of a commit, once the name typed has been trimmed (`name`): a
    /// row that says what the part already has — its name, and a formula the
    /// part finds the same (`found`) — records nothing and clears the problem;
    /// any other change is asked of the part, what was typed kept alongside.
    pub fn commit_as<F>(
        &mut self,
        variable: VariableId,
        typed: Typed,
        formula: F,
        name: String,
        found: Option<(&String, bool)>,
    ) -> (r: Commit<F>)
        ensures
            (found matches Some((was, same)) && was@ == name@ && same) ==> r == Commit::<F>::Unchanged
                && final(self).problem_spec() is None,
            !(found matches Some((was, same)) && was@ == name@ && same) ==> r == (Commit::Ask {
                variable,
                name,
                formula,
                typed,
            }) && final(self).problem_spec() == old(self).problem_spec(),
            final(self).editing_spec() == old(self).editing_spec(),
            final(self).adding_spec() == old(self).adding_spec(),
    {
        let unchanged = match found {
            Some((was, same)) => *was == name && same,
            None => false,
        };
        if unchanged {
            self.problem = None;
            return Commit::Unchanged;
        }
        Commit::Ask { variable, name, formula, typed }
    }

    /// What the part made of the change a commit asked: taken, the problem is
    /// gone; refused, the refusal is kept and so is what was typed.
    pub fn committed(&mut self, answer: Result<(), Refused<N>>, variable: VariableId, typed: Typed) -> (r: bool)
        ensures
            r == answer is Ok,
            match answer {
                Ok(()) => final(self).problem_spec() is None && final(self).editing_spec()
                    == old(self).editing_spec(),
                Err(refused) => final(self).problem_spec() == Some(
                    Problem::<U, N>::Refused(refused),
                ) && final(self).editing_spec() == Some((variable, typed)),
            },
            final(self).adding_spec() == old(self).adding_spec(),
    {
        match answer {
            Ok(()) => self.done(),
            Err(refused) => self.refused(Problem::Refused(refused), Some((variable, typed))),
        }
    }

    /// Asks for the variable the foot of the table names. `read` is its
    /// formula as the part reads it.
    pub fn add<F>(&mut self, read: Result<F, U>) -> (r: Add<F>)
        ensures
            match read {
                Err(wrong) => r == Add::<F>::Refused && final(self).problem_spec() == Some(
                    Problem::<U, N>::Formula(wrong),
                ),
                Ok(formula) => (r matches Add::Ask { name, formula: f } && name@ == trim_of(
                    old(self).adding_spec().name@,
                ) && f == formula) && final(self).problem_spec() == old(self).problem_spec(),
            },
            final(self).editing_spec() == old(self).editing_spec(),
            final(self).adding_spec() == old(self).adding_spec(),
    {
        match read {
            Err(wrong) => {
                self.refused(Problem::Formula(wrong), None);
                Add::Refused
            },
            Ok(formula) => Add::Ask { name: trimmed(&self.adding.name), formula },
        }
    }

    /// What the part made of the variable asked for: taken, the foot of the
    /// table is emptied for the next one.
    pub fn added(&mut self, answer: Result<(), Refused<N>>) -> (r: bool)
        ensures
            r == answer is Ok,
            match answer {
                Ok(()) => final(self).problem_spec() is None && final(self).adding_spec().name@.len() == 0
                    && final(self).adding_spec().formula@.len() == 0,
                Err(refused) => final(self).problem_spec() == Some(
                    Problem::<U, N>::Refused(refused),
                ) && final(self).adding_spec() == old(self).adding_spec(),
            },
            final(self).editing_spec() == old(self).editing_spec(),
    {
        match answer {
            Ok(()) => {
                self.adding = Typed { name: String::new(), formula: String::new() };
                self.done()
            },
            Err(refused) => self.refused(Problem::Refused(refused), None),
        }
    }

    /// What the part made of erasing a variable: erased, no row is edited any
    /// more; refused, the panel says what still uses it.
    pub fn erased(&mut self, answer: Result<(), Refused<N>>) -> (r: bool)
        ensures
            r == answer is Ok,
            match answer {
                Ok(()) => final(self).problem_spec() is None && final(self).editing_spec() is None,
                Err(refused) => final(self).problem_spec() == Some(
                    Problem::<U, N>::Refused(refused),
                ) && final(self).editing_spec() == old(self).editing_spec(),
            },
            final(self).adding_spec() == old(self).adding_spec(),
    {
        match answer {
            Ok(()) => {
                self.editing = None;
                self.done()
            },
            Err(refused) => self.refused(Problem::Refused(refused), None),
        }
    }

    /// What the last refusal named — what a change would break, what still
    /// uses a variable — for the screen to show where it stands.
    pub fn named(&self) -> (r: Named)
        ensures
            (r.values@, r.variables@, r.steps@) == named_spec(self.problem_spec()),
    {
        let mut named = Named { values: Vec::new(), variables: Vec::new(), steps: Vec::new() };
        match &self.problem {
            Some(Problem::Refused(Refused::InUse(uses))) => {
                let mut i: usize = 0;
                while i < uses.len()
                    invariant
                        i <= uses.len(),
                        (named.values@, named.variables@, named.steps@) == named_by_uses(
                            uses@.take(i as int),
                        ),
                    decreases uses.len() - i,
                {
                    proof {
                        assert(uses@.take(i + 1).drop_last() =~= uses@.take(i as int));
                        assert(uses@.take(i + 1).last() == uses@[i as int]);
                    }
                    match uses[i] {
                        Use::Dimension { sketch, target } => named.values.push((sketch, target)),
                        Use::Variable(variable) => named.variables.push(variable),
                        Use::Operation(number) => named.steps.push(number),
                    }
                    i += 1;
                }
                proof {
                    assert(uses@.take(uses.len() as int) =~= uses@);
                }
            },
            Some(Problem::Refused(Refused::Breaks(broken))) => {
                let mut i: usize = 0;
                while i < broken.len()
                    invariant
                        i <= broken.len(),
                        (named.values@, named.variables@, named.steps@) == named_by_breaks(
                            broken@.take(i as int),
                        ),
                    decreases broken.len() - i,
                {
                    proof {
                        assert(broken@.take(i + 1).drop_last() =~= broken@.take(i as int));
                        assert(broken@.take(i + 1).last() == broken@[i as int]);
                    }
                    match broken[i] {
                        Broken::Dimension { sketch, target } => named.values.push((sketch, target)),
                        Broken::Variable(variable) => named.variables.push(variable),
                        Broken::Operation(number) => named.steps.push(number),
                        Broken::Renumbered { changed, followed_by } => {
                            named.steps.push(changed);
                            named.steps.push(followed_by);
                        },
                        Broken::Adrift => {},
                    }
                    i += 1;
                }
                proof {
                    assert(broken@.take(broken.len() as int) =~= broken@);
                }
            },
            _ => {},
        }
        named
    }
}

} // verus!
