//! Querying the worklist source of a worklist entry.
use vstd::prelude::*;
use crate::failure::{store_unavailable, Failure};
use crate::gateway::{rows_read, rows_received, GatewayRequest};
use crate::models::ApiResponse;
use crate::records::{accepted, Table};
use crate::sequence::{
    out_of_turn, reject, reject_out_of_turn, resolution, resolved, settled, Action, Event,
};
use crate::text::copy_text;

verus! {

/// Where the sequence of a worklist query stands.
#[derive(Debug)]
pub enum SearchWorklist {
    /// The command as it arrived: the key of the worklist entry.
    Requested { id: String },
    /// The worklist entry is being read.
    AwaitWorklist { id: String },
    /// The engine is querying the worklist source.
    AwaitEngine,
    /// The sequence has ended.
    Done,
}

/// One step of a worklist query: what follows from `state` and `event`.
///
/// The worklist entry is read, the engine queries its source, and the rows
/// come back as the engine serialised them. Nothing is written.
pub open spec fn search_worklist_data_step(
    state: SearchWorklist,
    event: Event,
    next: SearchWorklist,
    action: Action<String>,
) -> bool {
    match (state, event) {
        (SearchWorklist::Done, _) => next is Done && action.rejects(out_of_turn()),
        (_, Event::Unavailable(reason)) => next is Done && action.rejects(
            store_unavailable(reason@),
        ),
        (SearchWorklist::Requested { id }, Event::Begin) => {
            &&& next == (SearchWorklist::AwaitWorklist { id })
            &&& action == (Action::<String>::Get { table: Table::Worklist, key: id })
        },
        (SearchWorklist::AwaitWorklist { id }, Event::Worklist(answer)) => match resolution(
            Table::Worklist,
            id@,
            answer,
        ) {
            Ok(worklist) => {
                &&& next is AwaitEngine
                &&& action == (Action::<String>::Call {
                    request: GatewayRequest::QueryWorklist { worklist },
                })
            },
            Err(failure) => next is Done && action.rejects(failure),
        },
        (SearchWorklist::AwaitEngine, Event::Rows(reply)) => match rows_read(reply) {
            Ok(rows) => next is Done && action.responds(accepted("Worklist queried"@, rows)),
            Err(failure) => next is Done && action.rejects(failure),
        },
        _ => next is Done && action.rejects(out_of_turn()),
    }
}

/// Advances the sequence of a worklist query by one step.
pub fn search_worklist_data(state: SearchWorklist, event: Event) -> (step: (
    SearchWorklist,
    Action<String>,
))
    ensures
        search_worklist_data_step(state, event, step.0, step.1),
        settled(step.1),
        step.0 is Done <==> step.1 is Respond,
        !step.1.writes(),
{
    match (state, event) {
        (SearchWorklist::Done, _) => (SearchWorklist::Done, reject_out_of_turn()),
        (_, Event::Unavailable(reason)) => (
            SearchWorklist::Done,
            reject(Failure::unavailable(reason)),
        ),
        (SearchWorklist::Requested { id }, Event::Begin) => {
            let key = copy_text(&id);
            (SearchWorklist::AwaitWorklist { id }, Action::Get { table: Table::Worklist, key })
        },
        (SearchWorklist::AwaitWorklist { id }, Event::Worklist(answer)) => match resolved(
            Table::Worklist,
            id.as_str(),
            answer,
        ) {
            Ok(worklist) => (
                SearchWorklist::AwaitEngine,
                Action::Call { request: GatewayRequest::QueryWorklist { worklist } },
            ),
            Err(failure) => (SearchWorklist::Done, reject(failure)),
        },
        (SearchWorklist::AwaitEngine, Event::Rows(reply)) => match rows_received(reply) {
            Ok(rows) => (
                SearchWorklist::Done,
                Action::Respond { response: ApiResponse::success("Worklist queried", Some(rows)) },
            ),
            Err(failure) => (SearchWorklist::Done, reject(failure)),
        },
        _ => (SearchWorklist::Done, reject_out_of_turn()),
    }
}

} // verus!
