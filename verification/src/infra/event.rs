//! The statements of the event log's repository, and the errors that it
//! reports. The log is append-only: events are inserted and searched, never
//! changed.

use crate::error::{Error, ErrorView};
use crate::sql::where_builder::{WhereBuilder, WhereBuilderView};
use std::fmt::Display;
use vstd::prelude::*;

verus! {

/// Inserts one event. The parameters are the event's id, topic, code,
/// timestamp and payload, in this order.
pub const INSERT_EVENT: &'static str =
    "INSERT INTO events (id, topic, code, timestamp, payload) VALUES ($1, $2, $3, $4, $5)";

/// The builder after a filter was offered that applies only where its value
/// is present.
pub open spec fn offered<T>(
    builder: WhereBuilderView<T>,
    template: Seq<char>,
    value: Option<T>,
) -> WhereBuilderView<T> {
    match value {
        Some(v) => builder.add_param_opt(template, v, true),
        None => builder,
    }
}

/// The filters of a search: by topic, by code, and by the two ends of a
/// range of timestamps, each only where its value is present.
pub open spec fn search_filters<T>(
    topic: Option<T>,
    code: Option<T>,
    from: Option<T>,
    to: Option<T>,
) -> WhereBuilderView<T> {
    offered(
        offered(
            offered(offered(WhereBuilderView::empty(), "topic = $$"@, topic), "code = $$"@, code),
            "timestamp >= $$"@,
            from,
        ),
        "timestamp <= $$"@,
        to,
    )
}

/// The text of a search with the given clause: every event where the clause
/// is empty, else those that the clause admits, the oldest first.
pub open spec fn search_text(clause: Seq<char>) -> Seq<char> {
    if clause.len() == 0 {
        "SELECT * FROM events"@ + " ORDER BY timestamp ASC"@
    } else {
        "SELECT * FROM events"@ + " WHERE "@ + clause + " ORDER BY timestamp ASC"@
    }
}

fn offer<T>(builder: WhereBuilder<T>, template: &str, value: Option<T>) -> (next: WhereBuilder<T>)
    ensures
        next@ == offered(builder@, template@, value),
{
    match value {
        Some(v) => builder.add_param_opt(template, v, true),
        None => builder,
    }
}

/// The statement that searches the log, and the values to bind to it. The
/// `WHERE` keyword is written only where a filter applies.
pub fn search_statement<T>(
    topic: Option<T>,
    code: Option<T>,
    from: Option<T>,
    to: Option<T>,
) -> (query: (String, Vec<T>))
    ensures
        query.0@ == search_text(search_filters(topic, code, from, to).clause()),
        query.1@ == search_filters(topic, code, from, to).params,
{
    let builder = offer(WhereBuilder::new(), "topic = $$", topic);
    let builder = offer(builder, "code = $$", code);
    let builder = offer(builder, "timestamp >= $$", from);
    let builder = offer(builder, "timestamp <= $$", to);
    let (clause, params) = builder.build();
    let mut text = "SELECT * FROM events".to_owned();
    if !clause.as_str().is_empty() {
        text.append(" WHERE ");
        text.append(clause.as_str());
    }
    text.append(" ORDER BY timestamp ASC");
    (text, params)
}

/// The error of a search that the store refused: the events were not found,
/// and the store's failure is the cause.
pub fn search_failed<E: Display>(err: E) -> (result: Error)
    ensures
        result@.wraps_rendering(ErrorView::new("event"@, "not_found"@).set_status(404), &err),
{
    Error::not_found("event").wrap_raw(err)
}

/// The error of an insert that the store refused: the event was not created,
/// and the store's failure is the cause.
pub fn save_failed<E: Display>(err: E) -> (result: Error)
    ensures
        result@.wraps_rendering(ErrorView::new("event"@, "create"@), &err),
{
    Error::new("event", "create").wrap_raw(err)
}

} // verus!
