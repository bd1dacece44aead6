//! Storage-facing decisions for tasks: the parameterised partial-update
//! statement and the outcome of a delete.
use vstd::prelude::*;
use crate::error::AppError;
use crate::task::UpdateTaskRequest;
use crate::text::{decimal_string, decimal_text};

verus! {

/// One `column = value` pair of an update, when the value was supplied.
pub open spec fn assignment(column: Seq<char>, value: Option<String>) -> Seq<(Seq<char>, Seq<char>)> {
    match value {
        Some(v) => seq![(column, v@)],
        None => seq![],
    }
}

/// The columns that an update request sets, with their new values, in the
/// fixed order in which the statement lists them.
pub open spec fn update_assignments(r: UpdateTaskRequest) -> Seq<(Seq<char>, Seq<char>)> {
    assignment("title"@, r.title) + assignment("description"@, r.description) + assignment(
        "category"@,
        r.category,
    ) + assignment("assigned_to"@, r.assigned_to) + assignment(
        "assigned_to_email"@,
        r.assigned_to_email,
    ) + assignment("priority"@, r.priority) + assignment("status"@, r.status) + assignment(
        "notes"@,
        r.notes,
    ) + assignment("attachments_folder_url"@, r.attachments_folder_url)
}

/// `column = $n`
pub open spec fn set_clause(column: Seq<char>, n: nat) -> Seq<char> {
    column + " = $"@ + decimal_text(n)
}

/// The comma-separated `SET` list; the i-th column takes placeholder `$i+1`.
pub open spec fn set_list(a: Seq<(Seq<char>, Seq<char>)>) -> Seq<char>
    decreases a.len(),
{
    if a.len() == 0 {
        seq![]
    } else if a.len() == 1 {
        set_clause(a[0].0, 1)
    } else {
        set_list(a.drop_last()) + ", "@ + set_clause(a.last().0, a.len())
    }
}

/// The statement text: values are placeholders, the row id the last one.
pub open spec fn update_sql(a: Seq<(Seq<char>, Seq<char>)>) -> Seq<char> {
    "UPDATE tasks SET "@ + set_list(a) + " WHERE id = $"@ + decimal_text(a.len() + 1)
        + " RETURNING *"@
}

pub open spec fn texts_of(v: Seq<String>) -> Seq<Seq<char>> {
    v.map_values(|s: String| s@)
}

pub open spec fn values_of(a: Seq<(Seq<char>, Seq<char>)>) -> Seq<Seq<char>> {
    a.map_values(|p: (Seq<char>, Seq<char>)| p.1)
}

/// A parameterised statement: the text names only columns and placeholders;
/// `params` are bound to `$1 ..` in order, and the task id after them.
#[derive(Debug, Clone)]
pub struct UpdateStatement {
    pub sql: String,
    pub params: Vec<String>,
}

fn push_assignment(
    sql: &mut String,
    params: &mut Vec<String>,
    column: &str,
    value: &Option<String>,
    Ghost(done): Ghost<Seq<(Seq<char>, Seq<char>)>>,
)
    requires
        old(sql)@ == set_list(done),
        texts_of(old(params)@) == values_of(done),
        done.len() < 9,
    ensures
        final(sql)@ == set_list(done + assignment(column@, *value)),
        texts_of(final(params)@) == values_of(done + assignment(column@, *value)),
        final(params)@.len() == old(params)@.len() + assignment(column@, *value).len(),
{
    proof {
        assert(old(params)@.len() == texts_of(old(params)@).len());
    }
    match value {
        Some(v) => {
            let ghost next = done + assignment(column@, *value);
            let n = params.len() as u64 + 1;
            if params.len() > 0 {
                sql.append(", ");
            }
            let clause = String::from_str(column).concat(" = $").concat(
                decimal_string(n).as_str(),
            );
            sql.append(clause.as_str());
            let c = v.clone();
            params.push(c);
            proof {
                assert(next.drop_last() =~= done);
                assert(next.last() == (column@, v@));
                assert(sql@ =~= set_list(next));
                assert(params@ =~= old(params)@.push(c));
                assert(texts_of(params@) =~= texts_of(old(params)@).push(v@));
                assert(values_of(next) =~= values_of(done).push(v@));
            }
        },
        None => {
            proof {
                assert(done + assignment(column@, *value) =~= done);
            }
        },
    }
}

/// Builds the single statement that sets exactly the supplied fields of one
/// row. A request that supplies no field is refused: there is nothing to set.
pub fn build_update_statement(req: &UpdateTaskRequest) -> (r: Result<UpdateStatement, AppError>)
    ensures
        update_assignments(*req).len() == 0 <==> r is Err,
        r matches Ok(s) ==> s.sql@ == update_sql(update_assignments(*req)) && texts_of(s.params@)
            == values_of(update_assignments(*req)),
        r matches Err(e) ==> e is ValidationError && e->ValidationError_0@
            == "no fields to update"@,
{
    let mut set = String::new();
    let mut params: Vec<String> = Vec::new();
    let ghost empty: Seq<(Seq<char>, Seq<char>)> = seq![];
    let ghost a0 = assignment("title"@, req.title);
    let ghost a1 = a0 + assignment("description"@, req.description);
    let ghost a2 = a1 + assignment("category"@, req.category);
    let ghost a3 = a2 + assignment("assigned_to"@, req.assigned_to);
    let ghost a4 = a3 + assignment("assigned_to_email"@, req.assigned_to_email);
    let ghost a5 = a4 + assignment("priority"@, req.priority);
    let ghost a6 = a5 + assignment("status"@, req.status);
    let ghost a7 = a6 + assignment("notes"@, req.notes);
    proof {
        assert(texts_of(params@) =~= values_of(empty));
        assert(empty + a0 =~= a0);
    }
    push_assignment(&mut set, &mut params, "title", &req.title, Ghost(empty));
    push_assignment(&mut set, &mut params, "description", &req.description, Ghost(a0));
    push_assignment(&mut set, &mut params, "category", &req.category, Ghost(a1));
    push_assignment(&mut set, &mut params, "assigned_to", &req.assigned_to, Ghost(a2));
    push_assignment(
        &mut set,
        &mut params,
        "assigned_to_email",
        &req.assigned_to_email,
        Ghost(a3),
    );
    push_assignment(&mut set, &mut params, "priority", &req.priority, Ghost(a4));
    push_assignment(&mut set, &mut params, "status", &req.status, Ghost(a5));
    push_assignment(&mut set, &mut params, "notes", &req.notes, Ghost(a6));
    push_assignment(
        &mut set,
        &mut params,
        "attachments_folder_url",
        &req.attachments_folder_url,
        Ghost(a7),
    );
    proof {
        assert(a7 + assignment("attachments_folder_url"@, req.attachments_folder_url)
            =~= update_assignments(*req));
        assert(params@.len() == update_assignments(*req).len());
    }
    if params.len() == 0 {
        return Err(AppError::ValidationError(String::from_str("no fields to update")));
    }
    let n = params.len() as u64 + 1;
    let sql = String::from_str("UPDATE tasks SET ").concat(set.as_str()).concat(
        " WHERE id = $",
    ).concat(decimal_string(n).as_str()).concat(" RETURNING *");
    proof {
        assert(sql@ =~= update_sql(update_assignments(*req)));
    }
    Ok(UpdateStatement { sql, params })
}

/// An update that supplies only `notes` sets that one column and no other,
/// so every other field of the row keeps its value; an update that supplies
/// nothing has no assignment at all, and `build_update_statement` refuses it.
pub proof fn lemma_partial_update_scope(req: UpdateTaskRequest)
    requires
        req.title is None,
        req.description is None,
        req.category is None,
        req.assigned_to is None,
        req.assigned_to_email is None,
        req.priority is None,
        req.status is None,
        req.attachments_folder_url is None,
    ensures
        req.notes matches Some(n) ==> update_assignments(req) == seq![("notes"@, n@)],
        req.notes matches Some(n) ==> update_sql(update_assignments(req))
            == "UPDATE tasks SET notes = $1 WHERE id = $2 RETURNING *"@,
        req.notes is None ==> update_assignments(req).len() == 0,
{
    reveal_strlit("UPDATE tasks SET notes = $1 WHERE id = $2 RETURNING *");
    reveal_strlit("notes");
    reveal_strlit(" = $");
    reveal_strlit("UPDATE tasks SET ");
    reveal_strlit(" WHERE id = $");
    reveal_strlit(" RETURNING *");
    match req.notes {
        Some(n) => {
            let a = update_assignments(req);
            assert(a =~= seq![("notes"@, n@)]);
            assert(decimal_text(1) =~= seq!['1']);
            assert(decimal_text(2) =~= seq!['2']);
            assert(update_sql(a) =~= "UPDATE tasks SET notes = $1 WHERE id = $2 RETURNING *"@);
        },
        None => {
            assert(update_assignments(req) =~= seq![]);
        },
    }
}

/// Whether a delete that affected `rows_affected` rows removed the task.
pub open spec fn row_removed(rows_affected: u64) -> bool {
    rows_affected > 0
}

/// Deleting an id that names no row affects no row, and is reported as
/// `false`, never as an error.
pub proof fn lemma_delete_of_missing_row()
    ensures
        !row_removed(0),
{
}

/// Whether a delete removed a row. Deleting an id that does not exist is no
/// error: it removes nothing and reports `false`.
pub fn delete_outcome(rows_affected: u64) -> (r: bool)
    ensures
        r == row_removed(rows_affected),
        rows_affected == 0 ==> !r,
{
    rows_affected > 0
}

} // verus!
