//! Checks made on requests before anything is stored.

use vstd::prelude::*;
use vstd::string::*;

pub mod existence;
pub mod rules;
pub mod uniqueness;

verus! {

/// One rule that a request field broke.
#[derive(Clone, Debug, PartialEq, Eq)]
pub struct FieldError {
    /// The name of the field.
    pub field: String,
    /// What the rule asks for.
    pub message: String,
}

impl View for FieldError {
    type V = (Seq<char>, Seq<char>);

    open spec fn view(&self) -> (Seq<char>, Seq<char>) {
        (self.field@, self.message@)
    }
}

/// The rules that a request broke, in the order of its fields.
#[derive(Clone, Debug, PartialEq, Eq)]
pub struct ValidationErrors {
    pub errors: Vec<FieldError>,
}

impl View for ValidationErrors {
    type V = Seq<(Seq<char>, Seq<char>)>;

    open spec fn view(&self) -> Seq<(Seq<char>, Seq<char>)> {
        self.errors@.map_values(|e: FieldError| e@)
    }
}

/// How one broken rule is shown: the field, a colon, the message.
pub open spec fn error_line(error: (Seq<char>, Seq<char>)) -> Seq<char> {
    error.0 + ": "@ + error.1
}

/// How a list of broken rules is shown: one line each, separated by newlines.
pub open spec fn error_lines(errors: Seq<(Seq<char>, Seq<char>)>) -> Seq<char>
    decreases errors.len(),
{
    if errors.len() == 0 {
        Seq::empty()
    } else if errors.len() == 1 {
        error_line(errors[0])
    } else {
        error_lines(errors.drop_last()) + "\n"@ + error_line(errors.last())
    }
}

/// What one rule adds to the list of broken rules: nothing where it holds.
pub open spec fn broken(holds: bool, field: Seq<char>, message: Seq<char>) -> Seq<
    (Seq<char>, Seq<char>),
> {
    if holds {
        Seq::empty()
    } else {
        seq![(field, message)]
    }
}

impl ValidationErrors {
    /// An empty list.
    pub fn new() -> (list: ValidationErrors)
        ensures
            list@ == Seq::<(Seq<char>, Seq<char>)>::empty(),
    {
        let list = ValidationErrors { errors: Vec::new() };
        assert(list@ =~= Seq::<(Seq<char>, Seq<char>)>::empty());
        list
    }

    /// Whether no rule was broken.
    pub fn is_empty(&self) -> (empty: bool)
        ensures
            empty == (self@.len() == 0),
    {
        self.errors.len() == 0
    }

    /// Records one more broken rule.
    pub fn add(&mut self, field: &str, message: &str)
        ensures
            final(self)@ == old(self)@.push((field@, message@)),
    {
        self.errors.push(
            FieldError { field: String::from_str(field), message: String::from_str(message) },
        );
        assert(self@ =~= old(self)@.push((field@, message@)));
    }

    /// Records a rule as broken unless it holds.
    pub fn check(&mut self, holds: bool, field: &str, message: &str)
        ensures
            final(self)@ == old(self)@ + broken(holds, field@, message@),
    {
        if !holds {
            self.add(field, message);
        }
        assert(self@ =~= old(self)@ + broken(holds, field@, message@));
    }

    /// The broken rules as text.
    pub fn to_string(&self) -> (text: String)
        ensures
            text@ == error_lines(self@),
    {
        let mut text = String::new();
        let mut i: usize = 0;
        while i < self.errors.len()
            invariant
                i <= self.errors.len(),
                text@ == error_lines(self@.take(i as int)),
            decreases self.errors.len() - i,
        {
            proof {
                assert(self@.take(i as int + 1).drop_last() =~= self@.take(i as int));
                assert(self@.take(i as int + 1).last() == self@[i as int]);
                assert(self@[i as int] == self.errors@[i as int]@);
            }
            if i > 0 {
                text.append("\n");
            }
            text.append(self.errors[i].field.as_str());
            text.append(": ");
            text.append(self.errors[i].message.as_str());
            proof {
                let line = error_line(self@[i as int]);
                if i == 0 {
                    assert(text@ =~= line);
                } else {
                    assert(text@ =~= error_lines(self@.take(i as int)) + "\n"@ + line);
                }
            }
            i += 1;
        }
        assert(self@.take(i as int) =~= self@);
        text
    }
}

} // verus!
