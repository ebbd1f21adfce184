//! A table of resources to pick one from.

use vstd::prelude::*;
use crate::input::KeyCode;

verus! {

/// A resource on offer.
#[derive(Debug)]
pub struct Resource {
    pub name: String,
    pub description: String,
    pub instructions: String,
}

impl Resource {
    pub fn new(name: &str, description: &str, instructions: &str) -> (resource: Self)
        ensures
            resource.name@ == name@,
            resource.description@ == description@,
            resource.instructions@ == instructions@,
    {
        Resource {
            name: name.to_owned(),
            description: description.to_owned(),
            instructions: instructions.to_owned(),
        }
    }
}

/// What a key does to the table.
#[derive(Clone, Copy, Debug, PartialEq, Eq, Structural)]
pub enum TableStep {
    /// The selection moves to, or stays on, this row.
    Select(Option<usize>),
    /// The selected row is taken and the table is left.
    Choose(usize),
    /// The table is left with nothing taken.
    Leave,
}

/// The effect of a key on a table of `rows` rows with the given
/// selection: Down and Up move the selection by one row and stop at the
/// ends, Enter takes the selected row, Escape leaves, and any other key
/// changes nothing.
pub open spec fn spec_table_step(selected: Option<usize>, rows: usize, key: KeyCode) -> TableStep {
    match (key, selected) {
        (KeyCode::Down, Some(row)) => if row + 1 < rows {
            TableStep::Select(Some((row + 1) as usize))
        } else {
            TableStep::Select(selected)
        },
        (KeyCode::Up, Some(row)) => if row > 0 {
            TableStep::Select(Some((row - 1) as usize))
        } else {
            TableStep::Select(selected)
        },
        (KeyCode::Enter, Some(row)) => TableStep::Choose(row),
        (KeyCode::Esc, _) => TableStep::Leave,
        _ => TableStep::Select(selected),
    }
}

/// Works out what a key does to the table.
pub fn table_step(selected: Option<usize>, rows: usize, key: KeyCode) -> (step: TableStep)
    ensures
        step == spec_table_step(selected, rows, key),
{
    match key {
        KeyCode::Esc => TableStep::Leave,
        KeyCode::Down => match selected {
            Some(row) => if row < rows && row + 1 < rows {
                TableStep::Select(Some(row + 1))
            } else {
                TableStep::Select(selected)
            },
            None => TableStep::Select(selected),
        },
        KeyCode::Up => match selected {
            Some(row) => if row > 0 {
                TableStep::Select(Some(row - 1))
            } else {
                TableStep::Select(selected)
            },
            None => TableStep::Select(selected),
        },
        KeyCode::Enter => match selected {
            Some(row) => TableStep::Choose(row),
            None => TableStep::Select(selected),
        },
        _ => TableStep::Select(selected),
    }
}

} // verus!
