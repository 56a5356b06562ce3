//! The pages of the web interface.

use vstd::prelude::*;
use vstd::string::StringExecFns;

use crate::escape::{escape_text, escaped, quote_attribute, quoted};
use crate::model::{
    AdministratorAudit, Attempt, Capability, Checkpoint, Dashboard, QueueSummary, ScheduleDetail,
    ScheduleOccurrence, ScheduleSummary, Signal, TaskDetail, TaskSummary, WorkerDetail,
    WorkerSummary,
};
use crate::text::{decimal, decimal_text, signed_decimal, signed_decimal_text};
use crate::time::{nanos_in_second, parts_exist, second_of, Timestamp};
use crate::unique::{uuid_text, Uuid};

verus! {

/// The style sheet of every page.
pub open spec fn style_text() -> Seq<char> {
    "body{font:15px system-ui;max-width:1200px;margin:0 auto;padding:24px;color:#17202a}nav{display:flex;gap:16px;margin-bottom:24px}a{color:#075985}table{width:100%;border-collapse:collapse;margin:12px 0 28px}th,td{text-align:left;padding:8px;border-bottom:1px solid #d5d8dc;vertical-align:top}th{font-size:13px;color:#566573}code,pre{font:13px ui-monospace,monospace}pre{white-space:pre-wrap;background:#f4f6f7;padding:12px;border-radius:6px}.state{font-weight:600}.muted{color:#707b7c}.grid{display:grid;grid-template-columns:repeat(auto-fit,minmax(240px,1fr));gap:16px}.card{border:1px solid #d5d8dc;border-radius:8px;padding:16px}.card h2{margin-top:0}input{padding:8px;width:min(420px,80%)}button{padding:8px;margin-right:8px}.actions{display:flex;gap:8px}"@
}

fn style() -> (result: &'static str)
    ensures
        result@ == style_text(),
{
    "body{font:15px system-ui;max-width:1200px;margin:0 auto;padding:24px;color:#17202a}nav{display:flex;gap:16px;margin-bottom:24px}a{color:#075985}table{width:100%;border-collapse:collapse;margin:12px 0 28px}th,td{text-align:left;padding:8px;border-bottom:1px solid #d5d8dc;vertical-align:top}th{font-size:13px;color:#566573}code,pre{font:13px ui-monospace,monospace}pre{white-space:pre-wrap;background:#f4f6f7;padding:12px;border-radius:6px}.state{font-weight:600}.muted{color:#707b7c}.grid{display:grid;grid-template-columns:repeat(auto-fit,minmax(240px,1fr));gap:16px}.card{border:1px solid #d5d8dc;border-radius:8px;padding:16px}.card h2{margin-top:0}input{padding:8px;width:min(420px,80%)}button{padding:8px;margin-right:8px}.actions{display:flex;gap:8px}"
}

/// What `chrono` prints for the instant `nanos` nanoseconds after the `secs`-th second of the Unix
/// epoch, in RFC 3339 with milliseconds and `Z`.
pub uninterp spec fn rfc3339_millis(secs: i64, nanos: u32) -> Seq<char>;

/// Calls `chrono::DateTime::<Utc>::to_rfc3339_opts` for milliseconds and `Z`. Every instant that
/// `Timestamp` holds is one that `chrono` holds; the text itself stays unsaid.
#[verifier::external_body]
fn format_rfc3339(secs: i64, nanos: u32) -> (result: String)
    requires
        parts_exist(secs, nanos),
    ensures
        result@ == rfc3339_millis(secs, nanos),
{
    chrono::DateTime::from_timestamp(secs, nanos)
        .unwrap_or_default()
        .to_rfc3339_opts(chrono::SecondsFormat::Millis, true)
}

/// An instant on a page.
pub open spec fn time_text(value: Timestamp) -> Seq<char> {
    rfc3339_millis(second_of(value@) as i64, nanos_in_second(value@) as u32)
}

fn time(value: Timestamp) -> (result: String)
    ensures
        result@ == time_text(value),
{
    let (secs, nanos) = value.split();
    format_rfc3339(secs, nanos)
}

/// An instant on a page, or a dash where there is none.
pub open spec fn optional_time_text(value: Option<Timestamp>) -> Seq<char> {
    match value {
        Some(value) => time_text(value),
        None => "-"@,
    }
}

fn optional_time(value: Option<Timestamp>) -> (result: String)
    ensures
        result@ == optional_time_text(value),
{
    match value {
        Some(value) => time(value),
        None => "-".to_owned(),
    }
}

/// A text, or nothing where there is none.
pub open spec fn text_or_nothing(text: Option<String>) -> Seq<char> {
    match text {
        Some(text) => text@,
        None => ""@,
    }
}

fn str_or_nothing(text: &Option<String>) -> (result: &str)
    ensures
        result@ == text_or_nothing(*text),
{
    match text {
        Some(text) => text.as_str(),
        None => "",
    }
}

/// What was searched for, or nothing.
pub open spec fn query_text(query: Option<&str>) -> Seq<char> {
    match query {
        Some(query) => query@,
        None => ""@,
    }
}

fn query_str<'a>(query: Option<&'a str>) -> (result: &'a str)
    ensures
        result@ == query_text(query),
{
    match query {
        Some(query) => query,
        None => "",
    }
}

/// A flag in words.
pub open spec fn flag_text(value: bool) -> Seq<char> {
    if value {
        "true"@
    } else {
        "false"@
    }
}

fn flag(value: bool) -> (result: &'static str)
    ensures
        result@ == flag_text(value),
{
    if value {
        "true"
    } else {
        "false"
    }
}

/// Whether something is paused, in words.
pub open spec fn status_text(paused_at: Option<Timestamp>) -> Seq<char> {
    if paused_at is Some {
        "paused"@
    } else {
        "active"@
    }
}

fn status(paused_at: Option<Timestamp>) -> (result: &'static str)
    ensures
        result@ == status_text(paused_at),
{
    if paused_at.is_some() {
        "paused"
    } else {
        "active"
    }
}

/// A page: a title, the navigation, and a body.
pub open spec fn layout_text(title: Seq<char>, body: Seq<char>) -> Seq<char> {
    "<!doctype html><html lang=\"en\"><head><meta charset=\"utf-8\"><meta name=\"viewport\" content=\"width=device-width,initial-scale=1\"><title>"@
        + escaped(title)
        + "</title><style>"@
        + style_text()
        + "</style></head><body><nav><strong>pgtask</strong><a href=\"/\">Queues</a><a href=\"/tasks\">Tasks</a><a href=\"/schedules\">Schedules</a><a href=\"/workers\">Workers</a></nav>"@
        + body
        + "</body></html>"@
}

fn layout(title: &str, body: &str) -> (result: String)
    ensures
        result@ == layout_text(title@, body@),
{
    let mut text = "<!doctype html><html lang=\"en\"><head><meta charset=\"utf-8\"><meta name=\"viewport\" content=\"width=device-width,initial-scale=1\"><title>".to_owned();
    text.append(escape_text(title).as_str());
    text.append("</title><style>");
    text.append(style());
    text.append("</style></head><body><nav><strong>pgtask</strong><a href=\"/\">Queues</a><a href=\"/tasks\">Tasks</a><a href=\"/schedules\">Schedules</a><a href=\"/workers\">Workers</a></nav>");
    text.append(body);
    text.append("</body></html>");
    text
}

/// One queue in a table.
pub open spec fn queue_row_text(queue: QueueSummary) -> Seq<char> {
    "<tr><td>"@
        + escaped(queue.name@)
        + "</td><td class=\"state\">"@
        + status_text(queue.paused_at)
        + "</td><td>"@
        + signed_decimal_text(queue.pending_count as int)
        + "</td><td>"@
        + signed_decimal_text(queue.ready_count as int)
        + "</td><td>"@
        + signed_decimal_text(queue.routable_count as int)
        + "</td><td>"@
        + signed_decimal_text(queue.unroutable_count as int)
        + "</td><td>"@
        + signed_decimal_text(queue.running_count as int)
        + "</td><td>"@
        + signed_decimal_text(queue.waiting_count as int)
        + "</td><td>"@
        + signed_decimal_text(queue.terminal_count as int)
        + "</td></tr>"@
}

fn queue_row(queue: &QueueSummary) -> (result: String)
    ensures
        result@ == queue_row_text(*queue),
{
    let mut text = "<tr><td>".to_owned();
    text.append(escape_text(queue.name.as_str()).as_str());
    text.append("</td><td class=\"state\">");
    text.append(status(queue.paused_at));
    text.append("</td><td>");
    text.append(signed_decimal(queue.pending_count as i64).as_str());
    text.append("</td><td>");
    text.append(signed_decimal(queue.ready_count as i64).as_str());
    text.append("</td><td>");
    text.append(signed_decimal(queue.routable_count as i64).as_str());
    text.append("</td><td>");
    text.append(signed_decimal(queue.unroutable_count as i64).as_str());
    text.append("</td><td>");
    text.append(signed_decimal(queue.running_count as i64).as_str());
    text.append("</td><td>");
    text.append(signed_decimal(queue.waiting_count as i64).as_str());
    text.append("</td><td>");
    text.append(signed_decimal(queue.terminal_count as i64).as_str());
    text.append("</td></tr>");
    text
}

/// Queues in a table.
pub open spec fn queue_rows_text(items: Seq<QueueSummary>) -> Seq<char>
    decreases items.len(),
{
    if items.len() == 0 {
        Seq::empty()
    } else {
        queue_rows_text(items.drop_last()) + queue_row_text(items.last())
    }
}

fn queue_rows(items: &Vec<QueueSummary>) -> (result: String)
    ensures
        result@ == queue_rows_text(items@),
{
    let mut text = String::new();
    let mut index: usize = 0;
    assert(items@.take(0) =~= Seq::empty());
    while index < items.len()
        invariant
            index <= items@.len(),
            text@ == queue_rows_text(items@.take(index as int)),
        decreases items@.len() - index,
    {
        assert(items@.take(index + 1).drop_last() =~= items@.take(index as int));
        text.append(queue_row(&items[index]).as_str());
        index += 1;
    }
    assert(items@.take(index as int) =~= items@);
    text
}

/// One task in a table.
pub open spec fn task_row_text(task: TaskSummary) -> Seq<char> {
    "<tr><td><a href=\"/tasks/"@
        + uuid_text(task.id.value)
        + "\"><code>"@
        + uuid_text(task.id.value)
        + "</code></a></td><td>"@
        + escaped(task.queue_name@)
        + "</td><td>"@
        + escaped(task.task_name@)
        + "</td><td class=\"state\">"@
        + escaped(task.state@)
        + "</td><td>"@
        + signed_decimal_text(task.attempt as int)
        + "</td><td>"@
        + time_text(task.created_at)
        + "</td><td>"@
        + optional_time_text(task.completed_at)
        + "</td></tr>"@
}

fn task_row(task: &TaskSummary) -> (result: String)
    ensures
        result@ == task_row_text(*task),
{
    let mut text = "<tr><td><a href=\"/tasks/".to_owned();
    text.append(task.id.to_text().as_str());
    text.append("\"><code>");
    text.append(task.id.to_text().as_str());
    text.append("</code></a></td><td>");
    text.append(escape_text(task.queue_name.as_str()).as_str());
    text.append("</td><td>");
    text.append(escape_text(task.task_name.as_str()).as_str());
    text.append("</td><td class=\"state\">");
    text.append(escape_text(task.state.as_str()).as_str());
    text.append("</td><td>");
    text.append(signed_decimal(task.attempt as i64).as_str());
    text.append("</td><td>");
    text.append(time(task.created_at).as_str());
    text.append("</td><td>");
    text.append(optional_time(task.completed_at).as_str());
    text.append("</td></tr>");
    text
}

/// Tasks in a table.
pub open spec fn task_rows_text(items: Seq<TaskSummary>) -> Seq<char>
    decreases items.len(),
{
    if items.len() == 0 {
        Seq::empty()
    } else {
        task_rows_text(items.drop_last()) + task_row_text(items.last())
    }
}

fn task_rows(items: &Vec<TaskSummary>) -> (result: String)
    ensures
        result@ == task_rows_text(items@),
{
    let mut text = String::new();
    let mut index: usize = 0;
    assert(items@.take(0) =~= Seq::empty());
    while index < items.len()
        invariant
            index <= items@.len(),
            text@ == task_rows_text(items@.take(index as int)),
        decreases items@.len() - index,
    {
        assert(items@.take(index + 1).drop_last() =~= items@.take(index as int));
        text.append(task_row(&items[index]).as_str());
        index += 1;
    }
    assert(items@.take(index as int) =~= items@);
    text
}

/// One schedule in a table.
pub open spec fn schedule_row_text(schedule: ScheduleSummary) -> Seq<char> {
    "<tr><td><a href=\"/schedules/"@
        + uuid_text(schedule.id.value)
        + "\">"@
        + escaped(schedule.name@)
        + "</a></td><td>"@
        + escaped(schedule.kind@)
        + "</td><td>"@
        + escaped(schedule.queue_name@)
        + "</td><td>"@
        + escaped(schedule.task_name@)
        + "</td><td>"@
        + time_text(schedule.next_run_at)
        + "</td><td class=\"state\">"@
        + status_text(schedule.paused_at)
        + "</td></tr>"@
}

fn schedule_row(schedule: &ScheduleSummary) -> (result: String)
    ensures
        result@ == schedule_row_text(*schedule),
{
    let mut text = "<tr><td><a href=\"/schedules/".to_owned();
    text.append(schedule.id.to_text().as_str());
    text.append("\">");
    text.append(escape_text(schedule.name.as_str()).as_str());
    text.append("</a></td><td>");
    text.append(escape_text(schedule.kind.as_str()).as_str());
    text.append("</td><td>");
    text.append(escape_text(schedule.queue_name.as_str()).as_str());
    text.append("</td><td>");
    text.append(escape_text(schedule.task_name.as_str()).as_str());
    text.append("</td><td>");
    text.append(time(schedule.next_run_at).as_str());
    text.append("</td><td class=\"state\">");
    text.append(status(schedule.paused_at));
    text.append("</td></tr>");
    text
}

/// Schedules in a table.
pub open spec fn schedule_rows_text(items: Seq<ScheduleSummary>) -> Seq<char>
    decreases items.len(),
{
    if items.len() == 0 {
        Seq::empty()
    } else {
        schedule_rows_text(items.drop_last()) + schedule_row_text(items.last())
    }
}

fn schedule_rows(items: &Vec<ScheduleSummary>) -> (result: String)
    ensures
        result@ == schedule_rows_text(items@),
{
    let mut text = String::new();
    let mut index: usize = 0;
    assert(items@.take(0) =~= Seq::empty());
    while index < items.len()
        invariant
            index <= items@.len(),
            text@ == schedule_rows_text(items@.take(index as int)),
        decreases items@.len() - index,
    {
        assert(items@.take(index + 1).drop_last() =~= items@.take(index as int));
        text.append(schedule_row(&items[index]).as_str());
        index += 1;
    }
    assert(items@.take(index as int) =~= items@);
    text
}

/// One worker in a table.
pub open spec fn worker_row_text(worker: WorkerSummary) -> Seq<char> {
    "<tr><td><a href=\"/workers/"@
        + uuid_text(worker.id.value)
        + "\"><code>"@
        + uuid_text(worker.id.value)
        + "</code></a></td><td>"@
        + escaped(worker.queue_name@)
        + "</td><td>"@
        + escaped(worker.version@)
        + "</td><td class=\"state\">"@
        + (if worker.live { "live"@ } else { "expired"@ })
        + "</td><td>"@
        + flag_text(worker.draining)
        + "</td><td>"@
        + time_text(worker.heartbeat_at)
        + "</td><td>"@
        + time_text(worker.expires_at)
        + "</td></tr>"@
}

fn worker_row(worker: &WorkerSummary) -> (result: String)
    ensures
        result@ == worker_row_text(*worker),
{
    let mut text = "<tr><td><a href=\"/workers/".to_owned();
    text.append(worker.id.to_text().as_str());
    text.append("\"><code>");
    text.append(worker.id.to_text().as_str());
    text.append("</code></a></td><td>");
    text.append(escape_text(worker.queue_name.as_str()).as_str());
    text.append("</td><td>");
    text.append(escape_text(worker.version.as_str()).as_str());
    text.append("</td><td class=\"state\">");
    text.append(if worker.live { "live" } else { "expired" });
    text.append("</td><td>");
    text.append(flag(worker.draining));
    text.append("</td><td>");
    text.append(time(worker.heartbeat_at).as_str());
    text.append("</td><td>");
    text.append(time(worker.expires_at).as_str());
    text.append("</td></tr>");
    text
}

/// Workers in a table.
pub open spec fn worker_rows_text(items: Seq<WorkerSummary>) -> Seq<char>
    decreases items.len(),
{
    if items.len() == 0 {
        Seq::empty()
    } else {
        worker_rows_text(items.drop_last()) + worker_row_text(items.last())
    }
}

fn worker_rows(items: &Vec<WorkerSummary>) -> (result: String)
    ensures
        result@ == worker_rows_text(items@),
{
    let mut text = String::new();
    let mut index: usize = 0;
    assert(items@.take(0) =~= Seq::empty());
    while index < items.len()
        invariant
            index <= items@.len(),
            text@ == worker_rows_text(items@.take(index as int)),
        decreases items@.len() - index,
    {
        assert(items@.take(index + 1).drop_last() =~= items@.take(index as int));
        text.append(worker_row(&items[index]).as_str());
        index += 1;
    }
    assert(items@.take(index as int) =~= items@);
    text
}

/// The page of all queues.
pub open spec fn dashboard_text(data: Dashboard) -> Seq<char> {
    layout_text(
        "pgtask queues"@,
        "<h1>Queues</h1><table><thead><tr><th>Queue</th><th>Status</th><th>Pending</th><th>Ready</th><th>Routable</th><th>Unroutable</th><th>Running</th><th>Waiting</th><th>Terminal</th></tr></thead><tbody>"@
        + queue_rows_text(data.queues@)
        + "</tbody></table><div class=\"grid\"><div class=\"card\"><h2>Recent tasks</h2><p>"@
        + decimal_text(data.tasks@.len())
        + " visible</p><a href=\"/tasks\">Inspect tasks</a></div><div class=\"card\"><h2>Schedules</h2><p>"@
        + decimal_text(data.schedules@.len())
        + " configured</p><a href=\"/schedules\">Inspect schedules</a></div><div class=\"card\"><h2>Workers</h2><p>"@
        + decimal_text(data.workers@.len())
        + " registered</p><a href=\"/workers\">Inspect workers</a></div></div>"@,
    )
}

pub fn dashboard(data: &Dashboard) -> (result: String)
    ensures
        result@ == dashboard_text(*data),
{
    let mut text = "<h1>Queues</h1><table><thead><tr><th>Queue</th><th>Status</th><th>Pending</th><th>Ready</th><th>Routable</th><th>Unroutable</th><th>Running</th><th>Waiting</th><th>Terminal</th></tr></thead><tbody>".to_owned();
    text.append(queue_rows(&data.queues).as_str());
    text.append("</tbody></table><div class=\"grid\"><div class=\"card\"><h2>Recent tasks</h2><p>");
    text.append(decimal(data.tasks.len() as u64).as_str());
    text.append(" visible</p><a href=\"/tasks\">Inspect tasks</a></div><div class=\"card\"><h2>Schedules</h2><p>");
    text.append(decimal(data.schedules.len() as u64).as_str());
    text.append(" configured</p><a href=\"/schedules\">Inspect schedules</a></div><div class=\"card\"><h2>Workers</h2><p>");
    text.append(decimal(data.workers.len() as u64).as_str());
    text.append(" registered</p><a href=\"/workers\">Inspect workers</a></div></div>");
    layout("pgtask queues", text.as_str())
}

/// The page of tasks that a search found.
pub open spec fn tasks_text(found: Seq<TaskSummary>, query: Option<&str>) -> Seq<char> {
    layout_text(
        "pgtask tasks"@,
        "<h1>Tasks</h1><form method=\"get\"><input name=\"query\" value=\""@
        + quoted(query_text(query))
        + "\" placeholder=\"Task name or task ID\"><button type=\"submit\">Search</button></form><table><thead><tr><th>ID</th><th>Queue</th><th>Task</th><th>State</th><th>Attempt</th><th>Created</th><th>Completed</th></tr></thead><tbody>"@
        + task_rows_text(found)
        + "</tbody></table>"@,
    )
}

pub fn tasks(found: &Vec<TaskSummary>, query: Option<&str>) -> (result: String)
    ensures
        result@ == tasks_text(found@, query),
{
    let mut text = "<h1>Tasks</h1><form method=\"get\"><input name=\"query\" value=\"".to_owned();
    text.append(quote_attribute(query_str(query)).as_str());
    text.append("\" placeholder=\"Task name or task ID\"><button type=\"submit\">Search</button></form><table><thead><tr><th>ID</th><th>Queue</th><th>Task</th><th>State</th><th>Attempt</th><th>Created</th><th>Completed</th></tr></thead><tbody>");
    text.append(task_rows(found).as_str());
    text.append("</tbody></table>");
    layout("pgtask tasks", text.as_str())
}

/// One attempt in a table.
pub open spec fn attempt_row_text(attempt: Attempt) -> Seq<char> {
    "<tr><td>"@
        + signed_decimal_text(attempt.number as int)
        + "</td><td>"@
        + escaped(attempt.state@)
        + "</td><td>"@
        + time_text(attempt.started_at)
        + "</td><td>"@
        + optional_time_text(attempt.finished_at)
        + "</td><td><pre>"@
        + escaped(text_or_nothing(attempt.error))
        + "</pre></td></tr>"@
}

fn attempt_row(attempt: &Attempt) -> (result: String)
    ensures
        result@ == attempt_row_text(*attempt),
{
    let mut text = "<tr><td>".to_owned();
    text.append(signed_decimal(attempt.number as i64).as_str());
    text.append("</td><td>");
    text.append(escape_text(attempt.state.as_str()).as_str());
    text.append("</td><td>");
    text.append(time(attempt.started_at).as_str());
    text.append("</td><td>");
    text.append(optional_time(attempt.finished_at).as_str());
    text.append("</td><td><pre>");
    text.append(escape_text(str_or_nothing(&attempt.error)).as_str());
    text.append("</pre></td></tr>");
    text
}

/// Attempts in a table.
pub open spec fn attempt_rows_text(items: Seq<Attempt>) -> Seq<char>
    decreases items.len(),
{
    if items.len() == 0 {
        Seq::empty()
    } else {
        attempt_rows_text(items.drop_last()) + attempt_row_text(items.last())
    }
}

fn attempt_rows(items: &Vec<Attempt>) -> (result: String)
    ensures
        result@ == attempt_rows_text(items@),
{
    let mut text = String::new();
    let mut index: usize = 0;
    assert(items@.take(0) =~= Seq::empty());
    while index < items.len()
        invariant
            index <= items@.len(),
            text@ == attempt_rows_text(items@.take(index as int)),
        decreases items@.len() - index,
    {
        assert(items@.take(index + 1).drop_last() =~= items@.take(index as int));
        text.append(attempt_row(&items[index]).as_str());
        index += 1;
    }
    assert(items@.take(index as int) =~= items@);
    text
}

/// One checkpoint in a table.
pub open spec fn checkpoint_row_text(checkpoint: Checkpoint) -> Seq<char> {
    "<tr><td>"@
        + escaped(checkpoint.step_name@)
        + "</td><td>"@
        + signed_decimal_text(checkpoint.occurrence as int)
        + "</td><td><pre>"@
        + escaped(checkpoint.value@)
        + "</pre></td><td>"@
        + time_text(checkpoint.created_at)
        + "</td></tr>"@
}

fn checkpoint_row(checkpoint: &Checkpoint) -> (result: String)
    ensures
        result@ == checkpoint_row_text(*checkpoint),
{
    let mut text = "<tr><td>".to_owned();
    text.append(escape_text(checkpoint.step_name.as_str()).as_str());
    text.append("</td><td>");
    text.append(signed_decimal(checkpoint.occurrence as i64).as_str());
    text.append("</td><td><pre>");
    text.append(escape_text(checkpoint.value.as_str()).as_str());
    text.append("</pre></td><td>");
    text.append(time(checkpoint.created_at).as_str());
    text.append("</td></tr>");
    text
}

/// Checkpoints in a table.
pub open spec fn checkpoint_rows_text(items: Seq<Checkpoint>) -> Seq<char>
    decreases items.len(),
{
    if items.len() == 0 {
        Seq::empty()
    } else {
        checkpoint_rows_text(items.drop_last()) + checkpoint_row_text(items.last())
    }
}

fn checkpoint_rows(items: &Vec<Checkpoint>) -> (result: String)
    ensures
        result@ == checkpoint_rows_text(items@),
{
    let mut text = String::new();
    let mut index: usize = 0;
    assert(items@.take(0) =~= Seq::empty());
    while index < items.len()
        invariant
            index <= items@.len(),
            text@ == checkpoint_rows_text(items@.take(index as int)),
        decreases items@.len() - index,
    {
        assert(items@.take(index + 1).drop_last() =~= items@.take(index as int));
        text.append(checkpoint_row(&items[index]).as_str());
        index += 1;
    }
    assert(items@.take(index as int) =~= items@);
    text
}

/// One signal in a table.
pub open spec fn signal_row_text(signal: Signal) -> Seq<char> {
    "<tr><td>"@
        + escaped(signal.name@)
        + "</td><td>"@
        + signed_decimal_text(signal.occurrence as int)
        + "</td><td><pre>"@
        + escaped(signal.value@)
        + "</pre></td><td>"@
        + time_text(signal.created_at)
        + "</td></tr>"@
}

fn signal_row(signal: &Signal) -> (result: String)
    ensures
        result@ == signal_row_text(*signal),
{
    let mut text = "<tr><td>".to_owned();
    text.append(escape_text(signal.name.as_str()).as_str());
    text.append("</td><td>");
    text.append(signed_decimal(signal.occurrence as i64).as_str());
    text.append("</td><td><pre>");
    text.append(escape_text(signal.value.as_str()).as_str());
    text.append("</pre></td><td>");
    text.append(time(signal.created_at).as_str());
    text.append("</td></tr>");
    text
}

/// Signals in a table.
pub open spec fn signal_rows_text(items: Seq<Signal>) -> Seq<char>
    decreases items.len(),
{
    if items.len() == 0 {
        Seq::empty()
    } else {
        signal_rows_text(items.drop_last()) + signal_row_text(items.last())
    }
}

fn signal_rows(items: &Vec<Signal>) -> (result: String)
    ensures
        result@ == signal_rows_text(items@),
{
    let mut text = String::new();
    let mut index: usize = 0;
    assert(items@.take(0) =~= Seq::empty());
    while index < items.len()
        invariant
            index <= items@.len(),
            text@ == signal_rows_text(items@.take(index as int)),
        decreases items@.len() - index,
    {
        assert(items@.take(index + 1).drop_last() =~= items@.take(index as int));
        text.append(signal_row(&items[index]).as_str());
        index += 1;
    }
    assert(items@.take(index as int) =~= items@);
    text
}

/// One act of an administrator in a table.
pub open spec fn audit_row_text(event: AdministratorAudit) -> Seq<char> {
    "<tr><td>"@
        + escaped(event.action@)
        + "</td><td>"@
        + escaped(event.actor@)
        + "</td><td>"@
        + time_text(event.occurred_at)
        + "</td></tr>"@
}

fn audit_row(event: &AdministratorAudit) -> (result: String)
    ensures
        result@ == audit_row_text(*event),
{
    let mut text = "<tr><td>".to_owned();
    text.append(escape_text(event.action.as_str()).as_str());
    text.append("</td><td>");
    text.append(escape_text(event.actor.as_str()).as_str());
    text.append("</td><td>");
    text.append(time(event.occurred_at).as_str());
    text.append("</td></tr>");
    text
}

/// Acts of administrators in a table.
pub open spec fn audit_rows_text(items: Seq<AdministratorAudit>) -> Seq<char>
    decreases items.len(),
{
    if items.len() == 0 {
        Seq::empty()
    } else {
        audit_rows_text(items.drop_last()) + audit_row_text(items.last())
    }
}

fn audit_rows(items: &Vec<AdministratorAudit>) -> (result: String)
    ensures
        result@ == audit_rows_text(items@),
{
    let mut text = String::new();
    let mut index: usize = 0;
    assert(items@.take(0) =~= Seq::empty());
    while index < items.len()
        invariant
            index <= items@.len(),
            text@ == audit_rows_text(items@.take(index as int)),
        decreases items@.len() - index,
    {
        assert(items@.take(index + 1).drop_last() =~= items@.take(index as int));
        text.append(audit_row(&items[index]).as_str());
        index += 1;
    }
    assert(items@.take(index as int) =~= items@);
    text
}

/// What an administrator can do to a task.
pub open spec fn task_actions_text(id: Uuid) -> Seq<char> {
    "<h2>Administrator actions</h2><div class=\"actions\"><form method=\"post\" action=\"/admin/tasks/"@
        + uuid_text(id.value)
        + "/cancel\"><button type=\"submit\">Cancel</button></form><form method=\"post\" action=\"/admin/tasks/"@
        + uuid_text(id.value)
        + "/retry\"><button type=\"submit\">Retry</button></form></div>"@
}

fn task_actions(id: Uuid) -> (result: String)
    ensures
        result@ == task_actions_text(id),
{
    let mut text = "<h2>Administrator actions</h2><div class=\"actions\"><form method=\"post\" action=\"/admin/tasks/".to_owned();
    text.append(id.to_text().as_str());
    text.append("/cancel\"><button type=\"submit\">Cancel</button></form><form method=\"post\" action=\"/admin/tasks/");
    text.append(id.to_text().as_str());
    text.append("/retry\"><button type=\"submit\">Retry</button></form></div>");
    text
}

/// What an administrator can do to a task; nothing for others.
pub open spec fn task_actions_for(id: Uuid, administrator: bool) -> Seq<char> {
    if administrator {
        task_actions_text(id)
    } else {
        Seq::empty()
    }
}

/// The page of a task.
pub open spec fn task_text(detail: TaskDetail, administrator: bool) -> Seq<char> {
    layout_text(
        "pgtask task"@,
        "<h1><code>"@
        + uuid_text(detail.id.value)
        + "</code></h1><p><strong>"@
        + escaped(detail.state@)
        + "</strong> on "@
        + escaped(detail.queue_name@)
        + " - "@
        + escaped(detail.task_name@)
        + " v"@
        + signed_decimal_text(detail.handler_version as int)
        + " - attempt "@
        + signed_decimal_text(detail.attempt as int)
        + "/"@
        + signed_decimal_text(detail.max_attempts as int)
        + "</p><p class=\"muted\">Run "@
        + time_text(detail.run_at)
        + " - created "@
        + time_text(detail.created_at)
        + " - completed "@
        + optional_time_text(detail.completed_at)
        + "</p><h2>Payload</h2><pre>"@
        + escaped(detail.payload@)
        + "</pre><h2>Result</h2><pre>"@
        + escaped(text_or_nothing(detail.result))
        + "</pre><h2>Error</h2><pre>"@
        + escaped(text_or_nothing(detail.error))
        + "</pre><h2>Attempts</h2><table><tr><th>Attempt</th><th>State</th><th>Started</th><th>Finished</th><th>Error</th></tr>"@
        + attempt_rows_text(detail.attempts@)
        + "</table><h2>Checkpoints</h2><table><tr><th>Step</th><th>Occurrence</th><th>Value</th><th>Created</th></tr>"@
        + checkpoint_rows_text(detail.checkpoints@)
        + "</table><h2>Signals</h2><table><tr><th>Name</th><th>Occurrence</th><th>Value</th><th>Created</th></tr>"@
        + signal_rows_text(detail.signals@)
        + "</table><h2>Administrator audit</h2><table><tr><th>Action</th><th>Actor</th><th>Time</th></tr>"@
        + audit_rows_text(detail.administrator_audit@)
        + "</table>"@
        + task_actions_for(detail.id, administrator),
    )
}

pub fn task(detail: &TaskDetail, administrator: bool) -> (result: String)
    ensures
        result@ == task_text(*detail, administrator),
{
    let actions = if administrator {
        task_actions(detail.id)
    } else {
        String::new()
    };
    assert(actions@ =~= task_actions_for(detail.id, administrator));
    let mut text = "<h1><code>".to_owned();
    text.append(detail.id.to_text().as_str());
    text.append("</code></h1><p><strong>");
    text.append(escape_text(detail.state.as_str()).as_str());
    text.append("</strong> on ");
    text.append(escape_text(detail.queue_name.as_str()).as_str());
    text.append(" - ");
    text.append(escape_text(detail.task_name.as_str()).as_str());
    text.append(" v");
    text.append(signed_decimal(detail.handler_version as i64).as_str());
    text.append(" - attempt ");
    text.append(signed_decimal(detail.attempt as i64).as_str());
    text.append("/");
    text.append(signed_decimal(detail.max_attempts as i64).as_str());
    text.append("</p><p class=\"muted\">Run ");
    text.append(time(detail.run_at).as_str());
    text.append(" - created ");
    text.append(time(detail.created_at).as_str());
    text.append(" - completed ");
    text.append(optional_time(detail.completed_at).as_str());
    text.append("</p><h2>Payload</h2><pre>");
    text.append(escape_text(detail.payload.as_str()).as_str());
    text.append("</pre><h2>Result</h2><pre>");
    text.append(escape_text(str_or_nothing(&detail.result)).as_str());
    text.append("</pre><h2>Error</h2><pre>");
    text.append(escape_text(str_or_nothing(&detail.error)).as_str());
    text.append("</pre><h2>Attempts</h2><table><tr><th>Attempt</th><th>State</th><th>Started</th><th>Finished</th><th>Error</th></tr>");
    text.append(attempt_rows(&detail.attempts).as_str());
    text.append("</table><h2>Checkpoints</h2><table><tr><th>Step</th><th>Occurrence</th><th>Value</th><th>Created</th></tr>");
    text.append(checkpoint_rows(&detail.checkpoints).as_str());
    text.append("</table><h2>Signals</h2><table><tr><th>Name</th><th>Occurrence</th><th>Value</th><th>Created</th></tr>");
    text.append(signal_rows(&detail.signals).as_str());
    text.append("</table><h2>Administrator audit</h2><table><tr><th>Action</th><th>Actor</th><th>Time</th></tr>");
    text.append(audit_rows(&detail.administrator_audit).as_str());
    text.append("</table>");
    text.append(actions.as_str());
    layout("pgtask task", text.as_str())
}

/// The page of all schedules.
pub open spec fn schedules_text(found: Seq<ScheduleSummary>) -> Seq<char> {
    layout_text(
        "pgtask schedules"@,
        "<h1>Schedules</h1><table><tr><th>Name</th><th>Kind</th><th>Queue</th><th>Task</th><th>Next run</th><th>Status</th></tr>"@
        + schedule_rows_text(found)
        + "</table>"@,
    )
}

pub fn schedules(found: &Vec<ScheduleSummary>) -> (result: String)
    ensures
        result@ == schedules_text(found@),
{
    let mut text = "<h1>Schedules</h1><table><tr><th>Name</th><th>Kind</th><th>Queue</th><th>Task</th><th>Next run</th><th>Status</th></tr>".to_owned();
    text.append(schedule_rows(found).as_str());
    text.append("</table>");
    layout("pgtask schedules", text.as_str())
}

/// One occurrence of a schedule in a table.
pub open spec fn occurrence_row_text(occurrence: ScheduleOccurrence) -> Seq<char> {
    "<tr><td>"@
        + time_text(occurrence.scheduled_for)
        + "</td><td><a href=\"/tasks/"@
        + uuid_text(occurrence.task_id.value)
        + "\"><code>"@
        + uuid_text(occurrence.task_id.value)
        + "</code></a></td><td>"@
        + escaped(occurrence.state@)
        + "</td><td>"@
        + time_text(occurrence.created_at)
        + "</td><td>"@
        + optional_time_text(occurrence.completed_at)
        + "</td></tr>"@
}

fn occurrence_row(occurrence: &ScheduleOccurrence) -> (result: String)
    ensures
        result@ == occurrence_row_text(*occurrence),
{
    let mut text = "<tr><td>".to_owned();
    text.append(time(occurrence.scheduled_for).as_str());
    text.append("</td><td><a href=\"/tasks/");
    text.append(occurrence.task_id.to_text().as_str());
    text.append("\"><code>");
    text.append(occurrence.task_id.to_text().as_str());
    text.append("</code></a></td><td>");
    text.append(escape_text(occurrence.state.as_str()).as_str());
    text.append("</td><td>");
    text.append(time(occurrence.created_at).as_str());
    text.append("</td><td>");
    text.append(optional_time(occurrence.completed_at).as_str());
    text.append("</td></tr>");
    text
}

/// Occurrences of a schedule in a table.
pub open spec fn occurrence_rows_text(items: Seq<ScheduleOccurrence>) -> Seq<char>
    decreases items.len(),
{
    if items.len() == 0 {
        Seq::empty()
    } else {
        occurrence_rows_text(items.drop_last()) + occurrence_row_text(items.last())
    }
}

fn occurrence_rows(items: &Vec<ScheduleOccurrence>) -> (result: String)
    ensures
        result@ == occurrence_rows_text(items@),
{
    let mut text = String::new();
    let mut index: usize = 0;
    assert(items@.take(0) =~= Seq::empty());
    while index < items.len()
        invariant
            index <= items@.len(),
            text@ == occurrence_rows_text(items@.take(index as int)),
        decreases items@.len() - index,
    {
        assert(items@.take(index + 1).drop_last() =~= items@.take(index as int));
        text.append(occurrence_row(&items[index]).as_str());
        index += 1;
    }
    assert(items@.take(index as int) =~= items@);
    text
}

/// What an administrator can do to a schedule.
pub open spec fn schedule_actions_text(id: Uuid) -> Seq<char> {
    "<h2>Administrator actions</h2><div class=\"actions\"><form method=\"post\" action=\"/admin/schedules/"@
        + uuid_text(id.value)
        + "/pause\"><button type=\"submit\">Pause</button></form><form method=\"post\" action=\"/admin/schedules/"@
        + uuid_text(id.value)
        + "/resume\"><button type=\"submit\">Resume</button></form></div>"@
}

fn schedule_actions(id: Uuid) -> (result: String)
    ensures
        result@ == schedule_actions_text(id),
{
    let mut text = "<h2>Administrator actions</h2><div class=\"actions\"><form method=\"post\" action=\"/admin/schedules/".to_owned();
    text.append(id.to_text().as_str());
    text.append("/pause\"><button type=\"submit\">Pause</button></form><form method=\"post\" action=\"/admin/schedules/");
    text.append(id.to_text().as_str());
    text.append("/resume\"><button type=\"submit\">Resume</button></form></div>");
    text
}

/// What an administrator can do to a schedule; nothing for others.
pub open spec fn schedule_actions_for(id: Uuid, administrator: bool) -> Seq<char> {
    if administrator {
        schedule_actions_text(id)
    } else {
        Seq::empty()
    }
}

/// The page of a schedule.
pub open spec fn schedule_text(detail: ScheduleDetail, administrator: bool) -> Seq<char> {
    layout_text(
        "pgtask schedule"@,
        "<h1>"@
        + escaped(detail.schedule.name@)
        + "</h1><p>"@
        + escaped(detail.schedule.kind@)
        + " schedule for "@
        + escaped(detail.schedule.task_name@)
        + " on "@
        + escaped(detail.schedule.queue_name@)
        + ". Next run: "@
        + time_text(detail.schedule.next_run_at)
        + ".</p><h2>Occurrences</h2><table><tr><th>Scheduled for</th><th>Task</th><th>State</th><th>Created</th><th>Completed</th></tr>"@
        + occurrence_rows_text(detail.occurrences@)
        + "</table><h2>Administrator audit</h2><table><tr><th>Action</th><th>Actor</th><th>Time</th></tr>"@
        + audit_rows_text(detail.administrator_audit@)
        + "</table>"@
        + schedule_actions_for(detail.schedule.id, administrator),
    )
}

pub fn schedule(detail: &ScheduleDetail, administrator: bool) -> (result: String)
    ensures
        result@ == schedule_text(*detail, administrator),
{
    let actions = if administrator {
        schedule_actions(detail.schedule.id)
    } else {
        String::new()
    };
    assert(actions@ =~= schedule_actions_for(detail.schedule.id, administrator));
    let mut text = "<h1>".to_owned();
    text.append(escape_text(detail.schedule.name.as_str()).as_str());
    text.append("</h1><p>");
    text.append(escape_text(detail.schedule.kind.as_str()).as_str());
    text.append(" schedule for ");
    text.append(escape_text(detail.schedule.task_name.as_str()).as_str());
    text.append(" on ");
    text.append(escape_text(detail.schedule.queue_name.as_str()).as_str());
    text.append(". Next run: ");
    text.append(time(detail.schedule.next_run_at).as_str());
    text.append(".</p><h2>Occurrences</h2><table><tr><th>Scheduled for</th><th>Task</th><th>State</th><th>Created</th><th>Completed</th></tr>");
    text.append(occurrence_rows(&detail.occurrences).as_str());
    text.append("</table><h2>Administrator audit</h2><table><tr><th>Action</th><th>Actor</th><th>Time</th></tr>");
    text.append(audit_rows(&detail.administrator_audit).as_str());
    text.append("</table>");
    text.append(actions.as_str());
    layout("pgtask schedule", text.as_str())
}

/// The page of all workers.
pub open spec fn workers_text(found: Seq<WorkerSummary>) -> Seq<char> {
    layout_text(
        "pgtask workers"@,
        "<h1>Workers</h1><table><tr><th>ID</th><th>Queue</th><th>Version</th><th>Status</th><th>Draining</th><th>Heartbeat</th><th>Expires</th></tr>"@
        + worker_rows_text(found)
        + "</table>"@,
    )
}

pub fn workers(found: &Vec<WorkerSummary>) -> (result: String)
    ensures
        result@ == workers_text(found@),
{
    let mut text = "<h1>Workers</h1><table><tr><th>ID</th><th>Queue</th><th>Version</th><th>Status</th><th>Draining</th><th>Heartbeat</th><th>Expires</th></tr>".to_owned();
    text.append(worker_rows(found).as_str());
    text.append("</table>");
    layout("pgtask workers", text.as_str())
}

/// One handler of a worker in a table.
pub open spec fn capability_row_text(capability: Capability) -> Seq<char> {
    "<tr><td>"@
        + escaped(capability.task_name@)
        + "</td><td>"@
        + signed_decimal_text(capability.handler_version as int)
        + "</td></tr>"@
}

fn capability_row(capability: &Capability) -> (result: String)
    ensures
        result@ == capability_row_text(*capability),
{
    let mut text = "<tr><td>".to_owned();
    text.append(escape_text(capability.task_name.as_str()).as_str());
    text.append("</td><td>");
    text.append(signed_decimal(capability.handler_version as i64).as_str());
    text.append("</td></tr>");
    text
}

/// Handlers of a worker in a table.
pub open spec fn capability_rows_text(items: Seq<Capability>) -> Seq<char>
    decreases items.len(),
{
    if items.len() == 0 {
        Seq::empty()
    } else {
        capability_rows_text(items.drop_last()) + capability_row_text(items.last())
    }
}

fn capability_rows(items: &Vec<Capability>) -> (result: String)
    ensures
        result@ == capability_rows_text(items@),
{
    let mut text = String::new();
    let mut index: usize = 0;
    assert(items@.take(0) =~= Seq::empty());
    while index < items.len()
        invariant
            index <= items@.len(),
            text@ == capability_rows_text(items@.take(index as int)),
        decreases items@.len() - index,
    {
        assert(items@.take(index + 1).drop_last() =~= items@.take(index as int));
        text.append(capability_row(&items[index]).as_str());
        index += 1;
    }
    assert(items@.take(index as int) =~= items@);
    text
}

/// The page of a worker.
pub open spec fn worker_text(detail: WorkerDetail) -> Seq<char> {
    layout_text(
        "pgtask worker"@,
        "<h1><code>"@
        + uuid_text(detail.worker.id.value)
        + "</code></h1><p>"@
        + (if detail.worker.live { "Live"@ } else { "Expired"@ })
        + " worker on "@
        + escaped(detail.worker.queue_name@)
        + ". Version "@
        + escaped(detail.worker.version@)
        + ". Draining: "@
        + flag_text(detail.worker.draining)
        + ".</p><p class=\"muted\">Heartbeat "@
        + time_text(detail.worker.heartbeat_at)
        + " - expires "@
        + time_text(detail.worker.expires_at)
        + "</p><h2>Capabilities</h2><table><tr><th>Task</th><th>Version</th></tr>"@
        + capability_rows_text(detail.capabilities@)
        + "</table>"@,
    )
}

pub fn worker(detail: &WorkerDetail) -> (result: String)
    ensures
        result@ == worker_text(*detail),
{
    let mut text = "<h1><code>".to_owned();
    text.append(detail.worker.id.to_text().as_str());
    text.append("</code></h1><p>");
    text.append(if detail.worker.live { "Live" } else { "Expired" });
    text.append(" worker on ");
    text.append(escape_text(detail.worker.queue_name.as_str()).as_str());
    text.append(". Version ");
    text.append(escape_text(detail.worker.version.as_str()).as_str());
    text.append(". Draining: ");
    text.append(flag(detail.worker.draining));
    text.append(".</p><p class=\"muted\">Heartbeat ");
    text.append(time(detail.worker.heartbeat_at).as_str());
    text.append(" - expires ");
    text.append(time(detail.worker.expires_at).as_str());
    text.append("</p><h2>Capabilities</h2><table><tr><th>Task</th><th>Version</th></tr>");
    text.append(capability_rows(&detail.capabilities).as_str());
    text.append("</table>");
    layout("pgtask worker", text.as_str())
}

/// The page of an error.
pub open spec fn error_text(status: u16, message: Seq<char>) -> Seq<char> {
    layout_text(
        "pgtask error"@,
        "<h1>"@
        + decimal_text(status as nat)
        + "</h1><p>"@
        + escaped(message)
        + "</p>"@,
    )
}

pub fn error(status: u16, message: &str) -> (result: String)
    ensures
        result@ == error_text(status, message@),
{
    let mut text = "<h1>".to_owned();
    text.append(decimal(status as u64).as_str());
    text.append("</h1><p>");
    text.append(escape_text(message).as_str());
    text.append("</p>");
    layout("pgtask error", text.as_str())
}

/// Whether a page shows a text.
pub open spec fn shows(page: Seq<char>, text: Seq<char>) -> bool {
    exists|start: int| #[trigger] shows_at(page, text, start)
}

/// Whether a page shows a text at a place.
pub open spec fn shows_at(page: Seq<char>, text: Seq<char>, start: int) -> bool {
    0 <= start && start + text.len() <= page.len() && page.subrange(start, start + text.len())
        == text
}

/// What a part of a page shows, the page shows.
broadcast proof fn lemma_parts_show(left: Seq<char>, right: Seq<char>, text: Seq<char>)
    ensures
        (shows(left, text) || shows(right, text)) ==> #[trigger] shows(left + right, text),
{
    let page = left + right;
    if shows(left, text) {
        let start = choose|start: int| #[trigger] shows_at(left, text, start);
        assert(page.subrange(start, start + text.len()) =~= left.subrange(
            start,
            start + text.len(),
        ));
        assert(shows_at(page, text, start));
    } else if shows(right, text) {
        let start = choose|start: int| #[trigger] shows_at(right, text, start);
        let moved = left.len() + start;
        assert(page.subrange(moved, moved + text.len()) =~= right.subrange(
            start,
            start + text.len(),
        ));
        assert(shows_at(page, text, moved));
    }
}

/// A page shows itself.
broadcast proof fn lemma_page_shows_itself(page: Seq<char>, text: Seq<char>)
    ensures
        page == text ==> #[trigger] shows(page, text),
{
    if page == text {
        assert(page.subrange(0, page.len() as int) =~= page);
        assert(shows_at(page, text, 0));
    }
}

/// A page shows its last two parts side by side.
broadcast proof fn lemma_neighbours_show(
    before: Seq<char>,
    left: Seq<char>,
    right: Seq<char>,
    text: Seq<char>,
)
    ensures
        text == left + right ==> #[trigger] shows(before + left + right, text),
{
    if text == left + right {
        let page = before + left + right;
        assert(page =~= before + text);
        assert(page.subrange(before.len() as int, page.len() as int) =~= text);
        assert(shows_at(page, text, before.len() as int));
    }
}

/// Parts of a page can be put together in any order of steps.
proof fn lemma_parts_join(left: Seq<char>, middle: Seq<char>, right: Seq<char>)
    ensures
        left + middle + right == left + (middle + right),
{
    assert(left + middle + right =~= left + (middle + right));
}

/// A page shows a part that stands between two others.
proof fn lemma_part_in_the_middle(before: Seq<char>, text: Seq<char>, after: Seq<char>)
    ensures
        shows(before + text + after, text),
{
    lemma_page_shows_itself(text, text);
    lemma_parts_show(before, text, text);
    lemma_parts_show(before + text, after, text);
}

broadcast group group_shows {
    lemma_parts_show,
    lemma_page_shows_itself,
    lemma_neighbours_show,
}

/// A page has its title, escaped, and its body.
pub proof fn pages_show_their_title_and_body(title: Seq<char>, body: Seq<char>, part: Seq<char>)
    ensures
        shows(layout_text(title, body), escaped(title)),
        shows(layout_text(title, body), body),
        shows(body, part) ==> shows(layout_text(title, body), part),
{
    broadcast use group_shows;

}

/// A table has a row for each of its entries, in their order.
pub proof fn queue_tables_are_complete(items: Seq<QueueSummary>, place: int)
    requires
        0 <= place < items.len(),
    ensures
        shows(queue_rows_text(items), queue_row_text(items[place])),
        queue_rows_text(items) == queue_rows_text(items.take(place)) + queue_row_text(items[place])
            + queue_rows_text(items.skip(place + 1)),
        queue_rows_text(Seq::<QueueSummary>::empty()) == Seq::<char>::empty(),
    decreases items.len(),
{
    let earlier = items.drop_last();
    let before = queue_rows_text(items.take(place));
    let row = queue_row_text(items[place]);
    let after = queue_rows_text(items.skip(place + 1));
    if place == items.len() - 1 {
        assert(items.take(place) =~= earlier);
        assert(items.skip(place + 1) =~= Seq::<QueueSummary>::empty());
        assert(before + row + after =~= before + row);
    } else {
        queue_tables_are_complete(earlier, place);
        assert(earlier.take(place) =~= items.take(place));
        assert(earlier.skip(place + 1) =~= items.skip(place + 1).drop_last());
        lemma_parts_join(
            before + row,
            queue_rows_text(earlier.skip(place + 1)),
            queue_row_text(items.last()),
        );
    }
    lemma_part_in_the_middle(before, row, after);
}

/// A table has a row for each of its entries, in their order.
pub proof fn task_tables_are_complete(items: Seq<TaskSummary>, place: int)
    requires
        0 <= place < items.len(),
    ensures
        shows(task_rows_text(items), task_row_text(items[place])),
        task_rows_text(items) == task_rows_text(items.take(place)) + task_row_text(items[place])
            + task_rows_text(items.skip(place + 1)),
        task_rows_text(Seq::<TaskSummary>::empty()) == Seq::<char>::empty(),
    decreases items.len(),
{
    let earlier = items.drop_last();
    let before = task_rows_text(items.take(place));
    let row = task_row_text(items[place]);
    let after = task_rows_text(items.skip(place + 1));
    if place == items.len() - 1 {
        assert(items.take(place) =~= earlier);
        assert(items.skip(place + 1) =~= Seq::<TaskSummary>::empty());
        assert(before + row + after =~= before + row);
    } else {
        task_tables_are_complete(earlier, place);
        assert(earlier.take(place) =~= items.take(place));
        assert(earlier.skip(place + 1) =~= items.skip(place + 1).drop_last());
        lemma_parts_join(
            before + row,
            task_rows_text(earlier.skip(place + 1)),
            task_row_text(items.last()),
        );
    }
    lemma_part_in_the_middle(before, row, after);
}

/// A table has a row for each of its entries, in their order.
pub proof fn schedule_tables_are_complete(items: Seq<ScheduleSummary>, place: int)
    requires
        0 <= place < items.len(),
    ensures
        shows(schedule_rows_text(items), schedule_row_text(items[place])),
        schedule_rows_text(items) == schedule_rows_text(items.take(place)) + schedule_row_text(items[place])
            + schedule_rows_text(items.skip(place + 1)),
        schedule_rows_text(Seq::<ScheduleSummary>::empty()) == Seq::<char>::empty(),
    decreases items.len(),
{
    let earlier = items.drop_last();
    let before = schedule_rows_text(items.take(place));
    let row = schedule_row_text(items[place]);
    let after = schedule_rows_text(items.skip(place + 1));
    if place == items.len() - 1 {
        assert(items.take(place) =~= earlier);
        assert(items.skip(place + 1) =~= Seq::<ScheduleSummary>::empty());
        assert(before + row + after =~= before + row);
    } else {
        schedule_tables_are_complete(earlier, place);
        assert(earlier.take(place) =~= items.take(place));
        assert(earlier.skip(place + 1) =~= items.skip(place + 1).drop_last());
        lemma_parts_join(
            before + row,
            schedule_rows_text(earlier.skip(place + 1)),
            schedule_row_text(items.last()),
        );
    }
    lemma_part_in_the_middle(before, row, after);
}

/// A table has a row for each of its entries, in their order.
pub proof fn worker_tables_are_complete(items: Seq<WorkerSummary>, place: int)
    requires
        0 <= place < items.len(),
    ensures
        shows(worker_rows_text(items), worker_row_text(items[place])),
        worker_rows_text(items) == worker_rows_text(items.take(place)) + worker_row_text(items[place])
            + worker_rows_text(items.skip(place + 1)),
        worker_rows_text(Seq::<WorkerSummary>::empty()) == Seq::<char>::empty(),
    decreases items.len(),
{
    let earlier = items.drop_last();
    let before = worker_rows_text(items.take(place));
    let row = worker_row_text(items[place]);
    let after = worker_rows_text(items.skip(place + 1));
    if place == items.len() - 1 {
        assert(items.take(place) =~= earlier);
        assert(items.skip(place + 1) =~= Seq::<WorkerSummary>::empty());
        assert(before + row + after =~= before + row);
    } else {
        worker_tables_are_complete(earlier, place);
        assert(earlier.take(place) =~= items.take(place));
        assert(earlier.skip(place + 1) =~= items.skip(place + 1).drop_last());
        lemma_parts_join(
            before + row,
            worker_rows_text(earlier.skip(place + 1)),
            worker_row_text(items.last()),
        );
    }
    lemma_part_in_the_middle(before, row, after);
}

/// A table has a row for each of its entries, in their order.
pub proof fn attempt_tables_are_complete(items: Seq<Attempt>, place: int)
    requires
        0 <= place < items.len(),
    ensures
        shows(attempt_rows_text(items), attempt_row_text(items[place])),
        attempt_rows_text(items) == attempt_rows_text(items.take(place)) + attempt_row_text(items[place])
            + attempt_rows_text(items.skip(place + 1)),
        attempt_rows_text(Seq::<Attempt>::empty()) == Seq::<char>::empty(),
    decreases items.len(),
{
    let earlier = items.drop_last();
    let before = attempt_rows_text(items.take(place));
    let row = attempt_row_text(items[place]);
    let after = attempt_rows_text(items.skip(place + 1));
    if place == items.len() - 1 {
        assert(items.take(place) =~= earlier);
        assert(items.skip(place + 1) =~= Seq::<Attempt>::empty());
        assert(before + row + after =~= before + row);
    } else {
        attempt_tables_are_complete(earlier, place);
        assert(earlier.take(place) =~= items.take(place));
        assert(earlier.skip(place + 1) =~= items.skip(place + 1).drop_last());
        lemma_parts_join(
            before + row,
            attempt_rows_text(earlier.skip(place + 1)),
            attempt_row_text(items.last()),
        );
    }
    lemma_part_in_the_middle(before, row, after);
}

/// A table has a row for each of its entries, in their order.
pub proof fn checkpoint_tables_are_complete(items: Seq<Checkpoint>, place: int)
    requires
        0 <= place < items.len(),
    ensures
        shows(checkpoint_rows_text(items), checkpoint_row_text(items[place])),
        checkpoint_rows_text(items) == checkpoint_rows_text(items.take(place)) + checkpoint_row_text(items[place])
            + checkpoint_rows_text(items.skip(place + 1)),
        checkpoint_rows_text(Seq::<Checkpoint>::empty()) == Seq::<char>::empty(),
    decreases items.len(),
{
    let earlier = items.drop_last();
    let before = checkpoint_rows_text(items.take(place));
    let row = checkpoint_row_text(items[place]);
    let after = checkpoint_rows_text(items.skip(place + 1));
    if place == items.len() - 1 {
        assert(items.take(place) =~= earlier);
        assert(items.skip(place + 1) =~= Seq::<Checkpoint>::empty());
        assert(before + row + after =~= before + row);
    } else {
        checkpoint_tables_are_complete(earlier, place);
        assert(earlier.take(place) =~= items.take(place));
        assert(earlier.skip(place + 1) =~= items.skip(place + 1).drop_last());
        lemma_parts_join(
            before + row,
            checkpoint_rows_text(earlier.skip(place + 1)),
            checkpoint_row_text(items.last()),
        );
    }
    lemma_part_in_the_middle(before, row, after);
}

/// A table has a row for each of its entries, in their order.
pub proof fn signal_tables_are_complete(items: Seq<Signal>, place: int)
    requires
        0 <= place < items.len(),
    ensures
        shows(signal_rows_text(items), signal_row_text(items[place])),
        signal_rows_text(items) == signal_rows_text(items.take(place)) + signal_row_text(items[place])
            + signal_rows_text(items.skip(place + 1)),
        signal_rows_text(Seq::<Signal>::empty()) == Seq::<char>::empty(),
    decreases items.len(),
{
    let earlier = items.drop_last();
    let before = signal_rows_text(items.take(place));
    let row = signal_row_text(items[place]);
    let after = signal_rows_text(items.skip(place + 1));
    if place == items.len() - 1 {
        assert(items.take(place) =~= earlier);
        assert(items.skip(place + 1) =~= Seq::<Signal>::empty());
        assert(before + row + after =~= before + row);
    } else {
        signal_tables_are_complete(earlier, place);
        assert(earlier.take(place) =~= items.take(place));
        assert(earlier.skip(place + 1) =~= items.skip(place + 1).drop_last());
        lemma_parts_join(
            before + row,
            signal_rows_text(earlier.skip(place + 1)),
            signal_row_text(items.last()),
        );
    }
    lemma_part_in_the_middle(before, row, after);
}

/// A table has a row for each of its entries, in their order.
pub proof fn audit_tables_are_complete(items: Seq<AdministratorAudit>, place: int)
    requires
        0 <= place < items.len(),
    ensures
        shows(audit_rows_text(items), audit_row_text(items[place])),
        audit_rows_text(items) == audit_rows_text(items.take(place)) + audit_row_text(items[place])
            + audit_rows_text(items.skip(place + 1)),
        audit_rows_text(Seq::<AdministratorAudit>::empty()) == Seq::<char>::empty(),
    decreases items.len(),
{
    let earlier = items.drop_last();
    let before = audit_rows_text(items.take(place));
    let row = audit_row_text(items[place]);
    let after = audit_rows_text(items.skip(place + 1));
    if place == items.len() - 1 {
        assert(items.take(place) =~= earlier);
        assert(items.skip(place + 1) =~= Seq::<AdministratorAudit>::empty());
        assert(before + row + after =~= before + row);
    } else {
        audit_tables_are_complete(earlier, place);
        assert(earlier.take(place) =~= items.take(place));
        assert(earlier.skip(place + 1) =~= items.skip(place + 1).drop_last());
        lemma_parts_join(
            before + row,
            audit_rows_text(earlier.skip(place + 1)),
            audit_row_text(items.last()),
        );
    }
    lemma_part_in_the_middle(before, row, after);
}

/// A table has a row for each of its entries, in their order.
pub proof fn occurrence_tables_are_complete(items: Seq<ScheduleOccurrence>, place: int)
    requires
        0 <= place < items.len(),
    ensures
        shows(occurrence_rows_text(items), occurrence_row_text(items[place])),
        occurrence_rows_text(items) == occurrence_rows_text(items.take(place)) + occurrence_row_text(items[place])
            + occurrence_rows_text(items.skip(place + 1)),
        occurrence_rows_text(Seq::<ScheduleOccurrence>::empty()) == Seq::<char>::empty(),
    decreases items.len(),
{
    let earlier = items.drop_last();
    let before = occurrence_rows_text(items.take(place));
    let row = occurrence_row_text(items[place]);
    let after = occurrence_rows_text(items.skip(place + 1));
    if place == items.len() - 1 {
        assert(items.take(place) =~= earlier);
        assert(items.skip(place + 1) =~= Seq::<ScheduleOccurrence>::empty());
        assert(before + row + after =~= before + row);
    } else {
        occurrence_tables_are_complete(earlier, place);
        assert(earlier.take(place) =~= items.take(place));
        assert(earlier.skip(place + 1) =~= items.skip(place + 1).drop_last());
        lemma_parts_join(
            before + row,
            occurrence_rows_text(earlier.skip(place + 1)),
            occurrence_row_text(items.last()),
        );
    }
    lemma_part_in_the_middle(before, row, after);
}

/// A table has a row for each of its entries, in their order.
pub proof fn capability_tables_are_complete(items: Seq<Capability>, place: int)
    requires
        0 <= place < items.len(),
    ensures
        shows(capability_rows_text(items), capability_row_text(items[place])),
        capability_rows_text(items) == capability_rows_text(items.take(place)) + capability_row_text(items[place])
            + capability_rows_text(items.skip(place + 1)),
        capability_rows_text(Seq::<Capability>::empty()) == Seq::<char>::empty(),
    decreases items.len(),
{
    let earlier = items.drop_last();
    let before = capability_rows_text(items.take(place));
    let row = capability_row_text(items[place]);
    let after = capability_rows_text(items.skip(place + 1));
    if place == items.len() - 1 {
        assert(items.take(place) =~= earlier);
        assert(items.skip(place + 1) =~= Seq::<Capability>::empty());
        assert(before + row + after =~= before + row);
    } else {
        capability_tables_are_complete(earlier, place);
        assert(earlier.take(place) =~= items.take(place));
        assert(earlier.skip(place + 1) =~= items.skip(place + 1).drop_last());
        lemma_parts_join(
            before + row,
            capability_rows_text(earlier.skip(place + 1)),
            capability_row_text(items.last()),
        );
    }
    lemma_part_in_the_middle(before, row, after);
}

/// A row of a queue shows its name, whether it is paused, and how many tasks it has of each kind, in
/// this order.
#[verifier::rlimit(60)]
#[verifier::spinoff_prover]
pub proof fn queue_rows_show_their_queue(queue: QueueSummary)
    ensures
        ({
            let row = queue_row_text(queue);
            let cell = "</td><td>"@;
            &&& shows(row, "<tr><td>"@ + escaped(queue.name@))
            &&& shows(
                row,
                "</td><td class=\"state\">"@ + if queue.paused_at is Some {
                    "paused"@
                } else {
                    "active"@
                },
            )
            &&& shows(row, cell + signed_decimal_text(queue.pending_count as int))
            &&& shows(row, cell + signed_decimal_text(queue.ready_count as int))
            &&& shows(row, cell + signed_decimal_text(queue.routable_count as int))
            &&& shows(row, cell + signed_decimal_text(queue.unroutable_count as int))
            &&& shows(row, cell + signed_decimal_text(queue.running_count as int))
            &&& shows(row, cell + signed_decimal_text(queue.waiting_count as int))
            &&& shows(row, cell + signed_decimal_text(queue.terminal_count as int))
        }),
{
    broadcast use group_shows;

}

/// The rows of tasks, schedules, workers and occurrences lead to what they are about, and show it
/// escaped.
#[verifier::rlimit(60)]
#[verifier::spinoff_prover]
pub proof fn rows_lead_to_what_they_are_about(
    task: TaskSummary,
    schedule: ScheduleSummary,
    worker: WorkerSummary,
    occurrence: ScheduleOccurrence,
)
    ensures
        shows(task_row_text(task), "<tr><td><a href=\"/tasks/"@ + uuid_text(task.id.value)),
        shows(task_row_text(task), escaped(task.queue_name@)),
        shows(task_row_text(task), escaped(task.task_name@)),
        shows(task_row_text(task), "</td><td class=\"state\">"@ + escaped(task.state@)),
        shows(task_row_text(task), signed_decimal_text(task.attempt as int)),
        shows(
            schedule_row_text(schedule),
            "<tr><td><a href=\"/schedules/"@ + uuid_text(schedule.id.value),
        ),
        shows(schedule_row_text(schedule), "\">"@ + escaped(schedule.name@)),
        shows(schedule_row_text(schedule), escaped(schedule.kind@)),
        shows(schedule_row_text(schedule), escaped(schedule.queue_name@)),
        shows(schedule_row_text(schedule), escaped(schedule.task_name@)),
        shows(
            schedule_row_text(schedule),
            "</td><td class=\"state\">"@ + if schedule.paused_at is Some {
                "paused"@
            } else {
                "active"@
            },
        ),
        shows(worker_row_text(worker), "<tr><td><a href=\"/workers/"@ + uuid_text(worker.id.value)),
        shows(worker_row_text(worker), escaped(worker.queue_name@)),
        shows(worker_row_text(worker), escaped(worker.version@)),
        shows(
            worker_row_text(worker),
            "</td><td class=\"state\">"@ + if worker.live {
                "live"@
            } else {
                "expired"@
            },
        ),
        shows(
            worker_row_text(worker),
            "</td><td>"@ + if worker.draining {
                "true"@
            } else {
                "false"@
            },
        ),
        shows(
            occurrence_row_text(occurrence),
            "</td><td><a href=\"/tasks/"@ + uuid_text(occurrence.task_id.value),
        ),
        shows(occurrence_row_text(occurrence), escaped(occurrence.state@)),
        shows(occurrence_row_text(occurrence), "<tr><td>"@ + time_text(occurrence.scheduled_for)),
        shows(schedule_row_text(schedule), "</td><td>"@ + time_text(schedule.next_run_at)),
        shows(worker_row_text(worker), "</td><td>"@ + time_text(worker.heartbeat_at)),
        shows(worker_row_text(worker), "</td><td>"@ + time_text(worker.expires_at)),
        shows(task_row_text(task), "</td><td>"@ + time_text(task.created_at)),
{
    broadcast use group_shows;

}

/// The rows of a task's attempts, checkpoints and signals, of what administrators did, and of a
/// worker's handlers, show what they are about, escaped.
#[verifier::rlimit(60)]
#[verifier::spinoff_prover]
pub proof fn rows_show_what_happened(
    attempt: Attempt,
    checkpoint: Checkpoint,
    signal: Signal,
    audit: AdministratorAudit,
    capability: Capability,
)
    ensures
        shows(
            attempt_row_text(attempt),
            "<tr><td>"@ + signed_decimal_text(attempt.number as int),
        ),
        shows(attempt_row_text(attempt), escaped(attempt.state@)),
        shows(attempt_row_text(attempt), "</td><td>"@ + time_text(attempt.started_at)),
        attempt.error matches Some(error) ==> shows(
            attempt_row_text(attempt),
            "</td><td><pre>"@ + escaped(error@),
        ),
        shows(checkpoint_row_text(checkpoint), "<tr><td>"@ + escaped(checkpoint.step_name@)),
        shows(
            checkpoint_row_text(checkpoint),
            "</td><td>"@ + signed_decimal_text(checkpoint.occurrence as int),
        ),
        shows(checkpoint_row_text(checkpoint), "</td><td><pre>"@ + escaped(checkpoint.value@)),
        shows(
            checkpoint_row_text(checkpoint),
            "</pre></td><td>"@ + time_text(checkpoint.created_at),
        ),
        shows(signal_row_text(signal), "<tr><td>"@ + escaped(signal.name@)),
        shows(
            signal_row_text(signal),
            "</td><td>"@ + signed_decimal_text(signal.occurrence as int),
        ),
        shows(signal_row_text(signal), "</td><td><pre>"@ + escaped(signal.value@)),
        shows(signal_row_text(signal), "</pre></td><td>"@ + time_text(signal.created_at)),
        shows(audit_row_text(audit), "<tr><td>"@ + escaped(audit.action@)),
        shows(audit_row_text(audit), "</td><td>"@ + escaped(audit.actor@)),
        shows(audit_row_text(audit), "</td><td>"@ + time_text(audit.occurred_at)),
        shows(capability_row_text(capability), "<tr><td>"@ + escaped(capability.task_name@)),
        shows(
            capability_row_text(capability),
            "</td><td>"@ + signed_decimal_text(capability.handler_version as int),
        ),
{
    broadcast use group_shows;

}

/// The page of a task shows its identifier, its state, what it works on, its result and its error
/// under their headings, escaped, and everything that happened to it; what an administrator can do
/// is offered to administrators only.
#[verifier::rlimit(60)]
#[verifier::spinoff_prover]
pub proof fn task_pages_show_the_task(detail: TaskDetail, administrator: bool)
    ensures
        ({
            let page = task_text(detail, administrator);
            &&& shows(page, "<h1><code>"@ + uuid_text(detail.id.value))
            &&& shows(page, "</code></h1><p><strong>"@ + escaped(detail.state@))
            &&& shows(page, "</strong> on "@ + escaped(detail.queue_name@))
            &&& shows(page, " - "@ + escaped(detail.task_name@))
            &&& shows(page, " v"@ + signed_decimal_text(detail.handler_version as int))
            &&& shows(page, " - attempt "@ + signed_decimal_text(detail.attempt as int))
            &&& shows(page, "/"@ + signed_decimal_text(detail.max_attempts as int))
            &&& shows(page, "</p><p class=\"muted\">Run "@ + time_text(detail.run_at))
            &&& shows(page, " - created "@ + time_text(detail.created_at))
            &&& shows(page, "</p><h2>Payload</h2><pre>"@ + escaped(detail.payload@))
            &&& detail.result matches Some(result) ==> shows(
                page,
                "</pre><h2>Result</h2><pre>"@ + escaped(result@),
            )
            &&& detail.error matches Some(error) ==> shows(
                page,
                "</pre><h2>Error</h2><pre>"@ + escaped(error@),
            )
            &&& shows(page, attempt_rows_text(detail.attempts@))
            &&& shows(page, checkpoint_rows_text(detail.checkpoints@))
            &&& shows(page, signal_rows_text(detail.signals@))
            &&& shows(page, audit_rows_text(detail.administrator_audit@))
            &&& administrator ==> shows(page, task_actions_text(detail.id))
        }),
        task_actions_for(detail.id, false) == Seq::<char>::empty(),
        task_actions_for(detail.id, true) == task_actions_text(detail.id),
{
    broadcast use group_shows;

}

/// The page of a schedule shows its name, its kind, its task, its queue, its next run, and its
/// occurrences; what an administrator can do is offered to administrators only.
#[verifier::rlimit(60)]
#[verifier::spinoff_prover]
pub proof fn schedule_pages_show_the_schedule(detail: ScheduleDetail, administrator: bool)
    ensures
        ({
            let page = schedule_text(detail, administrator);
            &&& shows(page, "<h1>"@ + escaped(detail.schedule.name@))
            &&& shows(page, "</h1><p>"@ + escaped(detail.schedule.kind@))
            &&& shows(page, " schedule for "@ + escaped(detail.schedule.task_name@))
            &&& shows(page, " on "@ + escaped(detail.schedule.queue_name@))
            &&& shows(page, ". Next run: "@ + time_text(detail.schedule.next_run_at))
            &&& shows(page, occurrence_rows_text(detail.occurrences@))
            &&& shows(page, audit_rows_text(detail.administrator_audit@))
            &&& administrator ==> shows(page, schedule_actions_text(detail.schedule.id))
        }),
        schedule_actions_for(detail.schedule.id, false) == Seq::<char>::empty(),
        schedule_actions_for(detail.schedule.id, true) == schedule_actions_text(detail.schedule.id),
{
    broadcast use group_shows;

}

/// The page of a worker shows its identifier, whether it lives, its queue, its version, whether it
/// is draining, its times and its handlers.
#[verifier::rlimit(60)]
#[verifier::spinoff_prover]
pub proof fn worker_pages_show_the_worker(detail: WorkerDetail)
    ensures
        ({
            let page = worker_text(detail);
            &&& shows(page, "<h1><code>"@ + uuid_text(detail.worker.id.value))
            &&& shows(
                page,
                "</code></h1><p>"@ + if detail.worker.live {
                    "Live"@
                } else {
                    "Expired"@
                },
            )
            &&& shows(page, " worker on "@ + escaped(detail.worker.queue_name@))
            &&& shows(page, ". Version "@ + escaped(detail.worker.version@))
            &&& shows(
                page,
                ". Draining: "@ + if detail.worker.draining {
                    "true"@
                } else {
                    "false"@
                },
            )
            &&& shows(page, ".</p><p class=\"muted\">Heartbeat "@ + time_text(detail.worker.heartbeat_at))
            &&& shows(page, " - expires "@ + time_text(detail.worker.expires_at))
            &&& shows(page, capability_rows_text(detail.capabilities@))
        }),
{
    broadcast use group_shows;

}

/// The overviews show all that they are about: the queues, what was found and what was searched
/// for, and an error with its number and its words.
#[verifier::rlimit(60)]
#[verifier::spinoff_prover]
pub proof fn overviews_show_everything(
    data: Dashboard,
    tasks: Seq<TaskSummary>,
    query: &str,
    schedules: Seq<ScheduleSummary>,
    workers: Seq<WorkerSummary>,
    status: u16,
    message: Seq<char>,
)
    ensures
        shows(dashboard_text(data), queue_rows_text(data.queues@)),
        shows(
            dashboard_text(data),
            decimal_text(data.tasks@.len())
                + " visible</p><a href=\"/tasks\">Inspect tasks</a></div><div class=\"card\"><h2>Schedules</h2><p>"@,
        ),
        shows(
            dashboard_text(data),
            decimal_text(data.schedules@.len())
                + " configured</p><a href=\"/schedules\">Inspect schedules</a></div><div class=\"card\"><h2>Workers</h2><p>"@,
        ),
        shows(
            dashboard_text(data),
            decimal_text(data.workers@.len())
                + " registered</p><a href=\"/workers\">Inspect workers</a></div></div>"@,
        ),
        shows(tasks_text(tasks, Some(query)), task_rows_text(tasks)),
        shows(
            tasks_text(tasks, Some(query)),
            "<h1>Tasks</h1><form method=\"get\"><input name=\"query\" value=\""@ + quoted(query@),
        ),
        shows(tasks_text(tasks, None), task_rows_text(tasks)),
        shows(schedules_text(schedules), schedule_rows_text(schedules)),
        shows(workers_text(workers), worker_rows_text(workers)),
        shows(error_text(status, message), "<h1>"@ + decimal_text(status as nat)),
        shows(error_text(status, message), "</h1><p>"@ + escaped(message)),
{
    broadcast use group_shows;

}

/// A time is written as its second and its nanoseconds say; one that is missing is a dash, and a
/// text that is missing is nothing.
pub proof fn what_is_missing_is_shown_as_missing(
    value: Timestamp,
    text: String,
    query: &str,
)
    ensures
        time_text(value) == rfc3339_millis(second_of(value@) as i64, nanos_in_second(value@) as u32),
        optional_time_text(Some(value)) == time_text(value),
        optional_time_text(None) == "-"@,
        text_or_nothing(Some(text)) == text@,
        text_or_nothing(None) == ""@,
        query_text(Some(query)) == query@,
        query_text(None) == ""@,
        flag_text(true) == "true"@,
        flag_text(false) == "false"@,
        status_text(Some(value)) == "paused"@,
        status_text(None) == "active"@,
{
}

} // verus!
