//! Where the columns that a chart configuration names stand in a result,
//! or why a chart cannot be drawn from it.

use vstd::prelude::*;
use crate::chart::ChartConfig;
use crate::text::{concat, str_eq, str_to_string};

verus! {

/// `i` is the first position of `name` among the columns.
pub open spec fn first_at(cols: Seq<String>, name: Seq<char>, i: int) -> bool {
    0 <= i < cols.len() && cols[i]@ == name && forall|j: int| 0 <= j < i ==> (#[trigger] cols[j])@ != name
}

/// Some column is named `name`.
pub open spec fn has_column(cols: Seq<String>, name: Seq<char>) -> bool {
    exists|i: int| 0 <= i < cols.len() && (#[trigger] cols[i])@ == name
}

/// The message for a column of an axis that the result lacks.
pub open spec fn missing_column_message(name: Seq<char>) -> Seq<char> {
    "Column \""@ + name + "\" not found in query results. Edit chart settings to fix."@
}

/// The message for a group-by column that the result lacks.
pub open spec fn missing_group_message(name: Seq<char>) -> Seq<char> {
    "Group By column \""@ + name + "\" not found in query results."@
}

/// The positions of the X, Y and group-by columns.
pub struct ChartColumns {
    pub x: usize,
    pub y: usize,
    pub group: Option<usize>,
}

fn position(cols: &Vec<String>, name: &str) -> (r: Option<usize>)
    ensures
        match r {
            Some(i) => first_at(cols@, name@, i as int),
            None => !has_column(cols@, name@),
        },
{
    let mut i: usize = 0;
    while i < cols.len()
        invariant
            i <= cols@.len(),
            forall|j: int| 0 <= j < i ==> (#[trigger] cols@[j])@ != name@,
        decreases cols@.len() - i,
    {
        if str_eq(cols[i].as_str(), name) {
            return Some(i);
        }
        i += 1;
    }
    None
}

fn missing(name: &str) -> (r: String)
    ensures
        r@ == missing_column_message(name@),
{
    let a = concat("Column \"", name);
    concat(a.as_str(), "\" not found in query results. Edit chart settings to fix.")
}

/// Finds the columns that a chart configuration names: the X and Y
/// columns must be chosen, and each named column must be in the result
/// (the first column of that name is taken). The first of these checks that
/// fails gives the error.
pub fn chart_columns(cols: &Vec<String>, config: &ChartConfig) -> (r: Result<ChartColumns, String>)
    ensures
        match config.x_column {
            None => r matches Err(e) && e@ == "No X column selected"@,
            Some(x) => match config.y_column {
                None => r matches Err(e) && e@ == "No Y column selected"@,
                Some(y) => if !has_column(cols@, x@) {
                    r matches Err(e) && e@ == missing_column_message(x@)
                } else if !has_column(cols@, y@) {
                    r matches Err(e) && e@ == missing_column_message(y@)
                } else {
                    match config.group_by {
                        Some(g) => if !has_column(cols@, g@) {
                            r matches Err(e) && e@ == missing_group_message(g@)
                        } else {
                            r matches Ok(c) && first_at(cols@, x@, c.x as int) && first_at(cols@, y@, c.y as int)
                                && (c.group matches Some(gi) && first_at(cols@, g@, gi as int))
                        },
                        None => r matches Ok(c) && first_at(cols@, x@, c.x as int) && first_at(cols@, y@, c.y as int)
                            && c.group is None,
                    }
                },
            },
        },
{
    let x = match &config.x_column {
        Some(x) => x,
        None => {
            return Err(str_to_string("No X column selected"));
        },
    };
    let y = match &config.y_column {
        Some(y) => y,
        None => {
            return Err(str_to_string("No Y column selected"));
        },
    };
    let xi = match position(cols, x.as_str()) {
        Some(i) => i,
        None => {
            return Err(missing(x.as_str()));
        },
    };
    let yi = match position(cols, y.as_str()) {
        Some(i) => i,
        None => {
            return Err(missing(y.as_str()));
        },
    };
    let group = match &config.group_by {
        Some(g) => match position(cols, g.as_str()) {
            Some(i) => Some(i),
            None => {
                let a = concat("Group By column \"", g.as_str());
                return Err(concat(a.as_str(), "\" not found in query results."));
            },
        },
        None => None,
    };
    Ok(ChartColumns { x: xi, y: yi, group })
}

} // verus!
