use pgtask::model::{
    AdministratorAudit, Attempt, Capability, Checkpoint, Dashboard, QueueSummary, ScheduleDetail,
    ScheduleOccurrence, ScheduleSummary, Signal, TaskDetail, TaskSummary, WorkerDetail,
    WorkerSummary,
};
use pgtask::pages;
use pgtask::time::Timestamp;
use pgtask::unique::Uuid;
use pgtask::web::{
    administrator_actor, default_actor_header, schedule_redirect, task_redirect, WebError,
};

const STYLE: &str = "body{font:15px system-ui;max-width:1200px;margin:0 auto;padding:24px;color:#17202a}\
nav{display:flex;gap:16px;margin-bottom:24px}a{color:#075985}table{width:100%;border-collapse:collapse;margin:12px 0 28px}\
th,td{text-align:left;padding:8px;border-bottom:1px solid #d5d8dc;vertical-align:top}th{font-size:13px;color:#566573}\
code,pre{font:13px ui-monospace,monospace}pre{white-space:pre-wrap;background:#f4f6f7;padding:12px;border-radius:6px}\
.state{font-weight:600}.muted{color:#707b7c}.grid{display:grid;grid-template-columns:repeat(auto-fit,minmax(240px,1fr));gap:16px}\
.card{border:1px solid #d5d8dc;border-radius:8px;padding:16px}.card h2{margin-top:0}input{padding:8px;width:min(420px,80%)}\
button{padding:8px;margin-right:8px}.actions{display:flex;gap:8px}";

fn layout(title: &str, body: &str) -> String {
    format!(
        "<!doctype html><html lang=\"en\"><head><meta charset=\"utf-8\"><meta name=\"viewport\" \
         content=\"width=device-width,initial-scale=1\"><title>{title}</title><style>{STYLE}</style></head><body>\
         <nav><strong>pgtask</strong><a href=\"/\">Queues</a><a href=\"/tasks\">Tasks</a>\
         <a href=\"/schedules\">Schedules</a><a href=\"/workers\">Workers</a></nav>{body}</body></html>"
    )
}

const ID: &str = "00000000-0000-0000-0000-00000000002a";
const OTHER_ID: &str = "ffffffff-ffff-ffff-ffff-ffffffffffff";
const NOON: &str = "2026-08-15T12:00:00.250Z";

fn id() -> Uuid {
    Uuid::from_u128(42)
}

fn other_id() -> Uuid {
    Uuid::from_u128(u128::MAX)
}

fn noon() -> Timestamp {
    Timestamp::from_unix_nanos(1_786_795_200_250_999_999).unwrap()
}

fn text(value: &str) -> String {
    value.to_owned()
}

fn task_summary() -> TaskSummary {
    TaskSummary {
        id: id(),
        queue_name: text("a&b"),
        task_name: text("<task>"),
        state: text("running"),
        attempt: 3,
        created_at: noon(),
        completed_at: None,
    }
}

fn schedule_summary() -> ScheduleSummary {
    ScheduleSummary {
        id: id(),
        name: text("nightly"),
        kind: text("interval"),
        queue_name: text("default"),
        task_name: text("report"),
        next_run_at: noon(),
        paused_at: Some(noon()),
    }
}

fn worker_summary(live: bool) -> WorkerSummary {
    WorkerSummary {
        id: id(),
        queue_name: text("default"),
        version: text("1.0"),
        draining: !live,
        live,
        heartbeat_at: noon(),
        expires_at: noon(),
    }
}

fn audit() -> AdministratorAudit {
    AdministratorAudit {
        actor: text("alice@example.com"),
        action: text("task.cancel"),
        occurred_at: noon(),
    }
}

fn task_detail() -> TaskDetail {
    TaskDetail {
        id: id(),
        parent_task_id: None,
        queue_name: text("default"),
        task_name: text("report"),
        handler_version: 2,
        state: text("failed"),
        attempt: 1,
        max_attempts: 5,
        payload: text("{\"unsafe\": \"<script>\"}"),
        result: None,
        error: Some(text("a > b")),
        run_at: noon(),
        created_at: noon(),
        completed_at: Some(noon()),
        attempts: vec![Attempt {
            number: 1,
            state: text("failed"),
            started_at: noon(),
            finished_at: None,
            error: Some(text("<oops>")),
        }],
        checkpoints: vec![Checkpoint {
            step_name: text("render"),
            occurrence: 0,
            value: text("true"),
            created_at: noon(),
        }],
        signals: vec![Signal {
            name: text("audit"),
            occurrence: 4,
            value: text("null"),
            created_at: noon(),
        }],
        administrator_audit: vec![audit()],
    }
}

#[test]
fn the_dashboard_shows_queues_and_counts() {
    let queue = |name: &str, paused_at: Option<Timestamp>, count: i64| QueueSummary {
        name: text(name),
        paused_at,
        pending_count: count,
        ready_count: count + 1,
        routable_count: count + 2,
        unroutable_count: count + 3,
        running_count: count + 4,
        waiting_count: count + 5,
        terminal_count: count + 6,
    };
    let page = pages::dashboard(&Dashboard {
        queues: vec![queue("one", None, 10), queue("two", Some(noon()), -3)],
        tasks: vec![task_summary(), task_summary()],
        schedules: Vec::new(),
        workers: vec![worker_summary(true)],
    });
    let body = "<h1>Queues</h1><table><thead><tr><th>Queue</th><th>Status</th><th>Pending</th><th>Ready</th>\
         <th>Routable</th><th>Unroutable</th><th>Running</th><th>Waiting</th><th>Terminal</th></tr></thead>\
         <tbody><tr><td>one</td><td class=\"state\">active</td><td>10</td><td>11</td><td>12</td><td>13</td>\
         <td>14</td><td>15</td><td>16</td></tr>\
         <tr><td>two</td><td class=\"state\">paused</td><td>-3</td><td>-2</td><td>-1</td><td>0</td>\
         <td>1</td><td>2</td><td>3</td></tr></tbody></table>\
         <div class=\"grid\"><div class=\"card\"><h2>Recent tasks</h2><p>2 visible</p><a href=\"/tasks\">Inspect tasks</a></div>\
         <div class=\"card\"><h2>Schedules</h2><p>0 configured</p><a href=\"/schedules\">Inspect schedules</a></div>\
         <div class=\"card\"><h2>Workers</h2><p>1 registered</p><a href=\"/workers\">Inspect workers</a></div></div>";
    assert_eq!(page, layout("pgtask queues", body));
}

#[test]
fn found_tasks_are_escaped() {
    let page = pages::tasks(&vec![task_summary()], Some("\"<script>\"&"));
    let body = format!(
        "<h1>Tasks</h1><form method=\"get\"><input name=\"query\" value=\"&quot;&lt;script&gt;&quot;&amp;\" \
         placeholder=\"Task name or task ID\"><button type=\"submit\">Search</button></form>\
         <table><thead><tr><th>ID</th><th>Queue</th><th>Task</th><th>State</th><th>Attempt</th>\
         <th>Created</th><th>Completed</th></tr></thead><tbody>\
         <tr><td><a href=\"/tasks/{ID}\"><code>{ID}</code></a></td><td>a&amp;b</td><td>&lt;task&gt;</td>\
         <td class=\"state\">running</td><td>3</td><td>{NOON}</td><td>-</td></tr></tbody></table>"
    );
    assert_eq!(page, layout("pgtask tasks", &body));
    assert!(pages::tasks(&Vec::new(), None).contains("value=\"\""));
}

fn task_body() -> String {
    format!(
        "<h1><code>{ID}</code></h1><p><strong>failed</strong> on default - report v2 - attempt 1/5</p>\
         <p class=\"muted\">Run {NOON} - created {NOON} - completed {NOON}</p><h2>Payload</h2>\
         <pre>{{\"unsafe\": \"&lt;script&gt;\"}}</pre>\
         <h2>Result</h2><pre></pre><h2>Error</h2><pre>a &gt; b</pre>\
         <h2>Attempts</h2><table><tr><th>Attempt</th><th>State</th><th>Started</th><th>Finished</th><th>Error</th></tr>\
         <tr><td>1</td><td>failed</td><td>{NOON}</td><td>-</td><td><pre>&lt;oops&gt;</pre></td></tr></table>\
         <h2>Checkpoints</h2><table><tr><th>Step</th><th>Occurrence</th><th>Value</th><th>Created</th></tr>\
         <tr><td>render</td><td>0</td><td><pre>true</pre></td><td>{NOON}</td></tr></table>\
         <h2>Signals</h2><table><tr><th>Name</th><th>Occurrence</th><th>Value</th><th>Created</th></tr>\
         <tr><td>audit</td><td>4</td><td><pre>null</pre></td><td>{NOON}</td></tr></table>\
         <h2>Administrator audit</h2><table><tr><th>Action</th><th>Actor</th><th>Time</th></tr>\
         <tr><td>task.cancel</td><td>alice@example.com</td><td>{NOON}</td></tr></table>"
    )
}

#[test]
fn a_task_is_shown_with_its_history() {
    assert_eq!(
        pages::task(&task_detail(), false),
        layout("pgtask task", &task_body())
    );
}

#[test]
fn administrators_may_act_on_a_task() {
    let body = format!(
        "{}<h2>Administrator actions</h2><div class=\"actions\">\
         <form method=\"post\" action=\"/admin/tasks/{ID}/cancel\"><button type=\"submit\">Cancel</button></form>\
         <form method=\"post\" action=\"/admin/tasks/{ID}/retry\"><button type=\"submit\">Retry</button></form></div>",
        task_body()
    );
    assert_eq!(
        pages::task(&task_detail(), true),
        layout("pgtask task", &body)
    );
}

#[test]
fn schedules_are_listed() {
    let body = format!(
        "<h1>Schedules</h1><table><tr><th>Name</th><th>Kind</th><th>Queue</th><th>Task</th><th>Next run</th>\
         <th>Status</th></tr><tr><td><a href=\"/schedules/{ID}\">nightly</a></td><td>interval</td><td>default</td>\
         <td>report</td><td>{NOON}</td><td class=\"state\">paused</td></tr></table>"
    );
    assert_eq!(
        pages::schedules(&vec![schedule_summary()]),
        layout("pgtask schedules", &body)
    );
}

#[test]
fn a_schedule_is_shown_with_its_occurrences() {
    let detail = ScheduleDetail {
        schedule: schedule_summary(),
        occurrences: vec![ScheduleOccurrence {
            scheduled_for: noon(),
            task_id: other_id(),
            state: text("succeeded"),
            created_at: noon(),
            completed_at: Some(noon()),
        }],
        administrator_audit: vec![audit()],
    };
    let body = format!(
        "<h1>nightly</h1><p>interval schedule for report on default. Next run: {NOON}.</p><h2>Occurrences</h2>\
         <table><tr><th>Scheduled for</th><th>Task</th><th>State</th><th>Created</th><th>Completed</th></tr>\
         <tr><td>{NOON}</td><td><a href=\"/tasks/{OTHER_ID}\"><code>{OTHER_ID}</code></a></td><td>succeeded</td>\
         <td>{NOON}</td><td>{NOON}</td></tr></table>\
         <h2>Administrator audit</h2><table><tr><th>Action</th><th>Actor</th><th>Time</th></tr>\
         <tr><td>task.cancel</td><td>alice@example.com</td><td>{NOON}</td></tr></table>"
    );
    assert_eq!(
        pages::schedule(&detail, false),
        layout("pgtask schedule", &body)
    );
    let actions = format!(
        "<h2>Administrator actions</h2><div class=\"actions\">\
         <form method=\"post\" action=\"/admin/schedules/{ID}/pause\"><button type=\"submit\">Pause</button></form>\
         <form method=\"post\" action=\"/admin/schedules/{ID}/resume\"><button type=\"submit\">Resume</button></form></div>"
    );
    assert_eq!(
        pages::schedule(&detail, true),
        layout("pgtask schedule", &format!("{body}{actions}"))
    );
}

#[test]
fn workers_are_listed_and_shown() {
    let body = format!(
        "<h1>Workers</h1><table><tr><th>ID</th><th>Queue</th><th>Version</th><th>Status</th><th>Draining</th>\
         <th>Heartbeat</th><th>Expires</th></tr>\
         <tr><td><a href=\"/workers/{ID}\"><code>{ID}</code></a></td><td>default</td><td>1.0</td>\
         <td class=\"state\">live</td><td>false</td><td>{NOON}</td><td>{NOON}</td></tr>\
         <tr><td><a href=\"/workers/{ID}\"><code>{ID}</code></a></td><td>default</td><td>1.0</td>\
         <td class=\"state\">expired</td><td>true</td><td>{NOON}</td><td>{NOON}</td></tr></table>"
    );
    assert_eq!(
        pages::workers(&vec![worker_summary(true), worker_summary(false)]),
        layout("pgtask workers", &body)
    );
    let detail = |live: bool| WorkerDetail {
        worker: worker_summary(live),
        capabilities: vec![Capability {
            task_name: text("report"),
            handler_version: 7,
        }],
    };
    let body = |status: &str, draining: bool| {
        format!(
            "<h1><code>{ID}</code></h1><p>{status} worker on default. Version 1.0. Draining: {draining}.</p>\
             <p class=\"muted\">Heartbeat {NOON} - expires {NOON}</p><h2>Capabilities</h2>\
             <table><tr><th>Task</th><th>Version</th></tr><tr><td>report</td><td>7</td></tr></table>"
        )
    };
    assert_eq!(
        pages::worker(&detail(true)),
        layout("pgtask worker", &body("Live", false))
    );
    assert_eq!(
        pages::worker(&detail(false)),
        layout("pgtask worker", &body("Expired", true))
    );
}

#[test]
fn errors_have_a_status_and_a_page() {
    for (error, status, message) in [
        (WebError::Database, 500, "database query failed"),
        (WebError::NotFound, 404, "resource not found"),
        (WebError::Unauthorized, 401, "administrator identity is required"),
    ] {
        assert_eq!(error.to_string(), message);
        assert_eq!(error.status(), status);
        assert_eq!(
            error.into_response(),
            (
                status,
                layout("pgtask error", &format!("<h1>{status}</h1><p>{message}</p>"))
            )
        );
    }
    assert_eq!(
        pages::error(418, "<&>"),
        layout("pgtask error", "<h1>418</h1><p>&lt;&amp;&gt;</p>")
    );
}

#[test]
fn administrators_are_named_by_a_header() {
    assert_eq!(default_actor_header(), "x-pgtask-actor");
    assert_eq!(
        administrator_actor(true, Some("alice@example.com")),
        Ok("alice@example.com")
    );
    assert_eq!(administrator_actor(true, Some("")), Err(WebError::Unauthorized));
    assert_eq!(administrator_actor(true, None), Err(WebError::Unauthorized));
    assert_eq!(administrator_actor(false, Some("alice")), Err(WebError::NotFound));
}

#[test]
fn acts_that_change_nothing_are_not_found() {
    assert_eq!(task_redirect(id(), true), Ok(format!("/tasks/{ID}")));
    assert_eq!(task_redirect(id(), false), Err(WebError::NotFound));
    assert_eq!(schedule_redirect(id(), true), Ok(format!("/schedules/{ID}")));
    assert_eq!(schedule_redirect(id(), false), Err(WebError::NotFound));
}

#[test]
fn instants_before_the_epoch_are_printed() {
    let mut summary = task_summary();
    summary.created_at = Timestamp::from_unix_nanos(-1).unwrap();
    let page = pages::tasks(&vec![summary], None);
    assert!(page.contains("<td>1969-12-31T23:59:59.999Z</td>"));
}
