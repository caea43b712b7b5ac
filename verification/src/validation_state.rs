//! The verdict on one document.

use crate::config::ActionType;
use crate::engine::{engine_errors, error_count, EngineError};
use crate::validation_error::{error_of_engine, error_view, errors_view, ErrorView, ValidationError};
use valico::json_schema::ValidationState as EngineState;
use vstd::prelude::*;

verus! {

/// The verdict on one document: what kind it was taken for, under which path
/// it is shown, and every violation found, in a fixed order.
#[derive(Debug)]
pub struct ValidationState {
    pub action_type: Option<ActionType>,
    pub file_path: Option<String>,
    pub errors: Vec<ValidationError>,
}

/// The mathematical content of a [`ValidationState`].
pub struct StateView {
    pub action_type: Option<ActionType>,
    pub file_path: Option<Seq<char>>,
    pub errors: Seq<ErrorView>,
}

/// What a state says: its kind, its path and the views of its errors in order.
pub open spec fn state_view(s: ValidationState) -> StateView
    decreases s,
{
    StateView {
        action_type: s.action_type,
        file_path: match s.file_path {
            Some(p) => Some(p@),
            None => None,
        },
        errors: errors_view(s.errors@),
    }
}

/// The state that stands for a report of the engine: neither kind nor path,
/// and one error for each of the engine's, in the engine's order.
pub open spec fn state_of_engine(report: Seq<EngineError>) -> StateView
    decreases report,
{
    StateView {
        action_type: None,
        file_path: None,
        errors: Seq::new(
            report.len(),
            |i: int|
                if 0 <= i < report.len() {
                    error_of_engine(report[i])
                } else {
                    arbitrary()
                },
        ),
    }
}

impl View for ValidationState {
    type V = StateView;

    open spec fn view(&self) -> StateView {
        state_view(*self)
    }
}

impl ValidationState {
    /// The state that stands for a state of the engine.
    pub fn from_engine(state: &EngineState) -> (r: ValidationState)
        ensures
            r@ == state_of_engine(engine_errors(*state)),
        decreases engine_errors(*state), 1nat,
    {
        let n = error_count(state);
        let mut errors: Vec<ValidationError> = Vec::new();
        let mut i: usize = 0;
        while i < n
            invariant
                n == engine_errors(*state).len(),
                i <= n,
                errors@.len() == i,
                forall|k: int| 0 <= k < i ==> error_view(#[trigger] errors@[k]) == error_of_engine(engine_errors(*state)[k]),
            decreases n - i,
        {
            match ValidationError::from_engine(state, i) {
                Some(e) => {
                    errors.push(e);
                },
                None => {},
            }
            i = i + 1;
        }
        let r = ValidationState { action_type: None, file_path: None, errors };
        assert(r@.errors =~= state_of_engine(engine_errors(*state)).errors);
        r
    }

    /// Appends one error and leaves the rest as it is.
    pub fn push_error(&mut self, e: ValidationError)
        ensures
            final(self)@.errors == old(self)@.errors.push(e@),
            final(self)@.action_type == old(self)@.action_type,
            final(self)@.file_path == old(self)@.file_path,
    {
        self.errors.push(e);
    }

    /// A document is valid exactly when nothing was found against it.
    pub fn is_valid(&self) -> (valid: bool)
        ensures
            valid == (self@.errors.len() == 0),
    {
        self.errors.is_empty()
    }
}

} // verus!
