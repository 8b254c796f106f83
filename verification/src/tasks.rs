//! The session-scoped task checklist tool: a replaceable list of titled
//! tasks with statuses, guarded by the security policy for every
//! mutating action. The tool answers in JSON text; its arguments arrive
//! as JSON text and are shaped by a thin trusted parse.

use vstd::prelude::*;

use crate::plugin_proto::{json_string, spec_json_string};
use crate::security::{gate_admits, SecurityPolicy, ToolOperation};
use crate::text::{lower_char, spec_u64_digits, str_eq, str_trim, trim_chars, u64_to_string};

verus! {

/// The status of one task.
#[derive(Clone, Copy, Debug, PartialEq, Eq, Structural)]
pub enum TaskStatus {
    Pending,
    InProgress,
    Completed,
}

impl TaskStatus {
    /// Parse a status word, ignoring case and surrounding space.
    pub fn parse(raw: &str) -> (r: Option<TaskStatus>)
        ensures
            r == spec_parse_status(raw@),
    {
        let k = crate::text::to_ascii_lowercase_str(str_trim(raw));
        if str_eq(k.as_str(), "pending") {
            Some(TaskStatus::Pending)
        } else if str_eq(k.as_str(), "in_progress") {
            Some(TaskStatus::InProgress)
        } else if str_eq(k.as_str(), "completed") {
            Some(TaskStatus::Completed)
        } else {
            None
        }
    }

    pub fn as_str(self) -> (r: &'static str)
        ensures
            r@ == spec_status_str(self),
    {
        match self {
            TaskStatus::Pending => "pending",
            TaskStatus::InProgress => "in_progress",
            TaskStatus::Completed => "completed",
        }
    }
}

pub open spec fn spec_parse_status(raw: Seq<char>) -> Option<TaskStatus> {
    let k = trim_chars(raw).map_values(|c: char| crate::text::lower_char(c));
    if k == "pending"@ {
        Some(TaskStatus::Pending)
    } else if k == "in_progress"@ {
        Some(TaskStatus::InProgress)
    } else if k == "completed"@ {
        Some(TaskStatus::Completed)
    } else {
        None
    }
}

pub open spec fn spec_status_str(s: TaskStatus) -> Seq<char> {
    match s {
        TaskStatus::Pending => "pending"@,
        TaskStatus::InProgress => "in_progress"@,
        TaskStatus::Completed => "completed"@,
    }
}

/// One checklist entry.
#[derive(Clone, Debug)]
pub struct TaskItem {
    pub id: u64,
    pub title: String,
    pub status: TaskStatus,
}

/// The checklist: ids are assigned from a counter that never repeats.
#[derive(Debug)]
pub struct TaskPlanState {
    pub tasks: Vec<TaskItem>,
    pub next_id: u64,
}

impl TaskPlanState {
    /// A zero counter is treated as uninitialised and bumped to one.
    pub fn ensure_next_id_initialized(&mut self)
        ensures
            final(self).next_id == if old(self).next_id == 0 {
                1int
            } else {
                old(self).next_id as int
            },
            final(self).tasks@ == old(self).tasks@,
    {
        if self.next_id == 0 {
            self.next_id = 1;
        }
    }

    /// Drop every task and restart the counter.
    pub fn clear(&mut self)
        ensures
            final(self).tasks@.len() == 0,
            final(self).next_id == 1,
    {
        self.tasks.clear();
        self.next_id = 1;
    }

    /// Append one task with the next id.
    pub fn add_task(&mut self, title: String, status: TaskStatus) -> (id: u64)
        ensures
            id == if old(self).next_id == 0 {
                1int
            } else {
                old(self).next_id as int
            },
            final(self).next_id == if id == u64::MAX {
                u64::MAX as int
            } else {
                id + 1
            },
            final(self).tasks@ == old(self).tasks@.push(
                (TaskItem { id, title: final(self).tasks@.last().title, status }),
            ),
            final(self).tasks@.last().title@ == title@,
    {
        self.ensure_next_id_initialized();
        let id = self.next_id;
        self.next_id = if self.next_id == u64::MAX {
            u64::MAX
        } else {
            self.next_id + 1
        };
        self.tasks.push(TaskItem { id, title, status });
        id
    }

    /// Replace the whole checklist: the new tasks get ids 1, 2, and so
    /// on, in order.
    pub fn set_tasks(&mut self, tasks: Vec<(String, TaskStatus)>)
        requires
            tasks@.len() < u64::MAX,
        ensures
            final(self).tasks@.len() == tasks@.len(),
            forall|k: int|
                0 <= k < tasks@.len() ==> {
                    let t = #[trigger] final(self).tasks@[k];
                    t.title@ == (#[trigger] tasks@[k]).0@ && t.status == tasks@[k].1 && t.id == k
                        + 1
                },
    {
        self.clear();
        let ghost orig = tasks@;
        let mut items = tasks;
        let n = items.len();
        let mut i: usize = 0;
        while i < n
            invariant
                i <= n,
                n == orig.len() < u64::MAX,
                items@ == orig.subrange(i as int, n as int),
                self.next_id == i + 1,
                self.tasks@.len() == i,
                forall|k: int|
                    0 <= k < i ==> {
                        let t = #[trigger] self.tasks@[k];
                        t.title@ == (#[trigger] orig[k]).0@ && t.status == orig[k].1 && t.id == k
                            + 1
                    },
            decreases n - i,
        {
            proof {
                assert(items@[0] == orig[i as int]);
            }
            let (title, status) = items.remove(0);
            proof {
                assert(items@ =~= orig.subrange(i as int + 1, n as int));
            }
            let _ = self.add_task(title, status);
            i = i + 1;
        }
    }

    /// Set the status of the task with the given id, if it exists.
    pub fn update_status(&mut self, task_id: u64, status: TaskStatus) -> (updated: bool)
        ensures
            updated == exists|k: int|
                0 <= k < old(self).tasks@.len() && (#[trigger] old(self).tasks@[k]).id == task_id,
            final(self).tasks@.len() == old(self).tasks@.len(),
            forall|k: int|
                0 <= k < old(self).tasks@.len() ==> {
                    let t = #[trigger] old(self).tasks@[k];
                    let u = #[trigger] final(self).tasks@[k];
                    u.id == t.id && u.title == t.title && u.status == (if t.id == task_id {
                        status
                    } else {
                        t.status
                    })
                },
            final(self).next_id == old(self).next_id,
    {
        let n = self.tasks.len();
        let mut i: usize = 0;
        let mut updated = false;
        while i < n
            invariant
                i <= n,
                n == self.tasks@.len(),
                n == old(self).tasks@.len(),
                self.next_id == old(self).next_id,
                updated == exists|k: int|
                    0 <= k < i && (#[trigger] old(self).tasks@[k]).id == task_id,
                forall|k: int|
                    i <= k < n ==> #[trigger] self.tasks@[k] == old(self).tasks@[k],
                forall|k: int|
                    0 <= k < i ==> {
                        let t = #[trigger] old(self).tasks@[k];
                        let u = #[trigger] self.tasks@[k];
                        u.id == t.id && u.title == t.title && u.status == (if t.id == task_id {
                            status
                        } else {
                            t.status
                        })
                    },
            decreases n - i,
        {
            if self.tasks[i].id == task_id {
                let t = TaskItem {
                    id: self.tasks[i].id,
                    title: self.tasks[i].title.clone(),
                    status,
                };
                self.tasks.set(i, t);
                updated = true;
            }
            i = i + 1;
        }
        updated
    }

    /// Render the checklist and its summary counts as a JSON document:
    /// exactly [`spec_snapshot_json`] of the held tasks, whose summary
    /// carries the total and the per-status counts.
    pub fn snapshot_json(&self) -> (r: String)
        ensures
            r@ == spec_snapshot_json(self.tasks@),
    {
        proof {
            lemma_count_status_bound(self.tasks@, TaskStatus::Pending);
            lemma_count_status_bound(self.tasks@, TaskStatus::InProgress);
            lemma_count_status_bound(self.tasks@, TaskStatus::Completed);
        }
        let mut pending: u64 = 0;
        let mut in_progress: u64 = 0;
        let mut completed: u64 = 0;
        let mut items = String::new();
        let n = self.tasks.len();
        let mut i: usize = 0;
        while i < n
            invariant
                n == self.tasks@.len(),
                i <= n,
                pending == count_status(self.tasks@.subrange(0, i as int), TaskStatus::Pending),
                in_progress == count_status(
                    self.tasks@.subrange(0, i as int),
                    TaskStatus::InProgress,
                ),
                completed == count_status(
                    self.tasks@.subrange(0, i as int),
                    TaskStatus::Completed,
                ),
                pending <= i && in_progress <= i && completed <= i,
                items@ == spec_tasks_json(self.tasks@.subrange(0, i as int)),
            decreases n - i,
        {
            proof {
                lemma_count_status_bound(self.tasks@.subrange(0, i as int), TaskStatus::Pending);
                lemma_count_status_bound(
                    self.tasks@.subrange(0, i as int),
                    TaskStatus::InProgress,
                );
                lemma_count_status_bound(self.tasks@.subrange(0, i as int), TaskStatus::Completed);
            }
            match self.tasks[i].status {
                TaskStatus::Pending => {
                    pending = pending + 1;
                },
                TaskStatus::InProgress => {
                    in_progress = in_progress + 1;
                },
                TaskStatus::Completed => {
                    completed = completed + 1;
                },
            }
            if i > 0 {
                items.append(",");
            }
            items.append("{\"id\":");
            items.append(u64_to_string(self.tasks[i].id).as_str());
            items.append(",\"title\":");
            items.append(json_string(self.tasks[i].title.as_str()).as_str());
            items.append(",\"status\":");
            items.append(json_string(self.tasks[i].status.as_str()).as_str());
            items.append("}");
            i = i + 1;
            proof {
                let pre = self.tasks@.subrange(0, i as int);
                assert(pre.drop_last() =~= self.tasks@.subrange(0, i as int - 1));
                assert(pre.last() == self.tasks@[i as int - 1]);
                assert(items@ =~= spec_tasks_json(pre));
            }
        }
        proof {
            assert(self.tasks@.subrange(0, n as int) == self.tasks@);
        }
        let mut out = String::new();
        out.append("{\"summary\":{\"total\":");
        out.append(u64_to_string(n as u64).as_str());
        out.append(",\"pending\":");
        out.append(u64_to_string(pending).as_str());
        out.append(",\"in_progress\":");
        out.append(u64_to_string(in_progress).as_str());
        out.append(",\"completed\":");
        out.append(u64_to_string(completed).as_str());
        out.append("},\"tasks\":[");
        out.append(items.as_str());
        out.append("]}");
        proof {
            assert(out@ =~= spec_snapshot_json(self.tasks@));
        }
        out
    }
}

/// Tasks of a checklist with the given status.
pub open spec fn count_status(ts: Seq<TaskItem>, st: TaskStatus) -> int
    decreases ts.len(),
{
    if ts.len() == 0 {
        0
    } else {
        count_status(ts.drop_last(), st) + (if ts.last().status == st {
            1int
        } else {
            0int
        })
    }
}

proof fn lemma_count_status_bound(ts: Seq<TaskItem>, st: TaskStatus)
    ensures
        0 <= count_status(ts, st) <= ts.len(),
    decreases ts.len(),
{
    if ts.len() > 0 {
        lemma_count_status_bound(ts.drop_last(), st);
    }
}

/// One checklist entry as it appears in the snapshot document.
pub open spec fn spec_task_json(t: TaskItem) -> Seq<char> {
    "{\"id\":"@ + spec_u64_digits(t.id as nat) + ",\"title\":"@ + spec_json_string(t.title@)
        + ",\"status\":"@ + spec_json_string(spec_status_str(t.status)) + "}"@
}

/// The snapshot's task array body: the entries, comma-separated.
pub open spec fn spec_tasks_json(ts: Seq<TaskItem>) -> Seq<char>
    decreases ts.len(),
{
    if ts.len() == 0 {
        Seq::empty()
    } else if ts.len() == 1 {
        spec_task_json(ts[0])
    } else {
        spec_tasks_json(ts.drop_last()) + ","@ + spec_task_json(ts.last())
    }
}

/// The whole snapshot document: the summary (total and per-status
/// counts) followed by the task array.
pub open spec fn spec_snapshot_json(ts: Seq<TaskItem>) -> Seq<char> {
    "{\"summary\":{\"total\":"@ + spec_u64_digits(ts.len()) + ",\"pending\":"@ + spec_u64_digits(
        count_status(ts, TaskStatus::Pending) as nat,
    ) + ",\"in_progress\":"@ + spec_u64_digits(count_status(ts, TaskStatus::InProgress) as nat)
        + ",\"completed\":"@ + spec_u64_digits(count_status(ts, TaskStatus::Completed) as nat)
        + "},\"tasks\":["@ + spec_tasks_json(ts) + "]}"@
}

/// Whether one `tasks` element is well-formed for a create action.
pub open spec fn spec_item_ok(item: TaskArgItem) -> bool {
    match item {
        TaskArgItem::Text(t) => trim_chars(t@).len() > 0,
        TaskArgItem::Entry { title, status } => (match title {
            Some(t) => trim_chars(t@).len() > 0,
            None => false,
        }) && (match status {
            Some(sv) => spec_parse_status(sv@) is Some,
            None => true,
        }),
        TaskArgItem::Malformed => false,
    }
}

/// The trimmed title a well-formed `tasks` element yields.
pub open spec fn spec_item_title(item: TaskArgItem) -> Seq<char> {
    match item {
        TaskArgItem::Text(t) => trim_chars(t@),
        TaskArgItem::Entry { title: Some(t), .. } => trim_chars(t@),
        _ => Seq::empty(),
    }
}

/// The status a well-formed `tasks` element yields.
pub open spec fn spec_item_status(item: TaskArgItem) -> TaskStatus {
    match item {
        TaskArgItem::Entry { status: Some(sv), .. } => match spec_parse_status(sv@) {
            Some(st) => st,
            None => TaskStatus::Pending,
        },
        _ => TaskStatus::Pending,
    }
}

/// The result a tool call answers with.
#[derive(Clone, Debug)]
pub struct ToolResult {
    pub success: bool,
    pub output: String,
    pub error: Option<String>,
}

/// A `tasks` array element, shaped from JSON: a bare string title, an
/// object with a title and an optional status, or something else.
pub enum TaskArgItem {
    Text(String),
    Entry { title: Option<String>, status: Option<String> },
    Malformed,
}

/// The `tasks` parameter, shaped from JSON.
pub enum TasksField {
    Absent,
    NotArray,
    Items(Vec<TaskArgItem>),
}

/// One string-typed parameter, shaped from JSON.
pub enum FieldStr {
    Absent,
    NotString,
    Val(String),
}

/// The task-plan tool's arguments, shaped from JSON.
pub struct TaskPlanArgs {
    pub action: FieldStr,
    pub tasks: TasksField,
    pub title: FieldStr,
    pub task_id: Option<u64>,
    pub status: FieldStr,
}

/// Relies on `serde_json::from_str` and the `Value` accessors: the named
/// string member of a JSON document; absent, wrongly-typed and
/// well-typed members are distinguished. Unparseable text has no
/// members.
#[verifier::external_body]
fn json_field_shape(args_json: &str, field: &str) -> (r: FieldStr) {
    let v: serde_json::Value = serde_json::from_str(args_json).unwrap_or(serde_json::Value::Null);
    match v.get(field) {
        None => FieldStr::Absent,
        Some(serde_json::Value::String(s)) => FieldStr::Val(s.clone()),
        Some(_) => FieldStr::NotString,
    }
}

/// Relies on `serde_json::from_str` and `Value::as_u64`: the named
/// unsigned-integer member of a JSON document, when present and numeric.
#[verifier::external_body]
fn json_field_u64(args_json: &str, field: &str) -> (r: Option<u64>) {
    let v: serde_json::Value = serde_json::from_str(args_json).unwrap_or(serde_json::Value::Null);
    v.get(field).and_then(serde_json::Value::as_u64)
}

/// Relies on `serde_json::from_str` and the `Value` accessors: the
/// `tasks` member of a JSON document, shaped element by element — bare
/// string titles, objects with `title` and `status`, anything else
/// malformed.
#[verifier::external_body]
fn json_tasks_field(args_json: &str) -> (r: TasksField) {
    let v: serde_json::Value = serde_json::from_str(args_json).unwrap_or(serde_json::Value::Null);
    match v.get("tasks") {
        None => TasksField::Absent,
        Some(serde_json::Value::Array(items)) => TasksField::Items(items.iter().map(|x| match x {
            serde_json::Value::String(s) => TaskArgItem::Text(s.clone()),
            serde_json::Value::Object(o) => TaskArgItem::Entry {
                title: o.get("title").and_then(|t| t.as_str()).map(String::from),
                status: o.get("status").and_then(|t| t.as_str()).map(String::from),
            },
            _ => TaskArgItem::Malformed,
        }).collect()),
        Some(_) => TasksField::NotArray,
    }
}

/// Shape the tool-call arguments from JSON text.
pub fn parse_task_plan_args(args_json: &str) -> (r: TaskPlanArgs) {
    TaskPlanArgs {
        action: json_field_shape(args_json, "action"),
        tasks: json_tasks_field(args_json),
        title: json_field_shape(args_json, "title"),
        task_id: json_field_u64(args_json, "task_id"),
        status: json_field_shape(args_json, "status"),
    }
}

/// The session task checklist tool.
pub struct TaskPlanTool {
    pub security: SecurityPolicy,
    pub state: TaskPlanState,
}

impl TaskPlanTool {
    pub fn new(security: SecurityPolicy) -> (r: TaskPlanTool)
        ensures
            r.security == security,
            r.state.tasks@.len() == 0,
            r.state.next_id == 1,
    {
        TaskPlanTool { security, state: TaskPlanState { tasks: Vec::new(), next_id: 1 } }
    }

    pub fn name(&self) -> (r: &'static str)
        ensures
            r@ == "task_plan"@,
    {
        "task_plan"
    }

    pub fn description(&self) -> (r: &'static str)
        ensures
            r@
                == "Session-scoped task checklist for multi-step work. Actions: create, add, update, list, delete."@,
    {
        "Session-scoped task checklist for multi-step work. Actions: create, add, update, list, delete."
    }

    /// The tool's JSON parameter schema.
    pub fn parameters_schema(&self) -> (r: String)
    {
        let mut out = String::new();
        out.append("{\"type\":\"object\",\"properties\":{");
        out.append("\"action\":{\"type\":\"string\",\"enum\":[\"create\",\"add\",\"update\",\"list\",\"delete\"],");
        out.append("\"description\":\"Checklist action to run.\"},");
        out.append("\"tasks\":{\"type\":\"array\",\"description\":\"For create: array of task titles or objects with title and status. Replaces the checklist.\",");
        out.append("\"items\":{\"oneOf\":[{\"type\":\"string\"},{\"type\":\"object\",\"properties\":{\"title\":{\"type\":\"string\"},");
        out.append("\"status\":{\"type\":\"string\",\"enum\":[\"pending\",\"in_progress\",\"completed\"]}},\"required\":[\"title\"]}]}},");
        out.append("\"title\":{\"type\":\"string\",\"description\":\"For add: task title.\"},");
        out.append("\"task_id\":{\"type\":\"integer\",\"minimum\":1,\"description\":\"For update: task id.\"},");
        out.append("\"status\":{\"type\":\"string\",\"enum\":[\"pending\",\"in_progress\",\"completed\"],\"description\":\"For update: new task status.\"}},");
        out.append("\"required\":[\"action\"]}");
        out
    }

    fn fail(message: String) -> (r: ToolResult)
        ensures
            !r.success,
            r.error matches Some(e) && e@ == message@,
            r.output@.len() == 0,
    {
        ToolResult { success: false, output: String::new(), error: Some(message) }
    }

    fn success(payload: String) -> (r: ToolResult)
        ensures
            r.success,
            r.output@ == payload@,
            r.error is None,
    {
        ToolResult { success: true, output: payload, error: None }
    }

    /// Parse the `tasks` parameter of a create action: at least one
    /// entry; a bare string is a pending task; an object needs a
    /// non-blank title and may carry a status.
    fn parse_create_tasks(items: &Vec<TaskArgItem>) -> (r: Result<
        Vec<(String, TaskStatus)>,
        ToolResult,
    >)
        ensures
            r matches Ok(parsed) ==> (parsed@.len() == items@.len() && forall|k: int|
                0 <= k && k < items@.len() ==> ((#[trigger] parsed@[k]).0@ == spec_item_title(
                    items@[k],
                ) && parsed@[k].1 == spec_item_status(items@[k]))),
            r is Ok ==> forall|k: int|
                0 <= k && k < items@.len() ==> spec_item_ok(#[trigger] items@[k]),
            r matches Err(f) ==> !f.success,
            items@.len() == 0 ==> r is Err,
            (items@.len() > 0 && (forall|k: int|
                0 <= k && k < items@.len() ==> spec_item_ok(#[trigger] items@[k]))) ==> r is Ok,
    {
        if items.len() == 0 {
            return Err(
                Self::fail(
                    "'tasks' must include at least one task for action 'create'".to_owned(),
                ),
            );
        }
        let mut parsed: Vec<(String, TaskStatus)> = Vec::new();
        let n = items.len();
        let mut i: usize = 0;
        while i < n
            invariant
                i <= n,
                n == items@.len(),
                parsed@.len() == i,
                forall|k: int|
                    0 <= k < i ==> ((#[trigger] parsed@[k]).0@ == spec_item_title(items@[k])
                        && parsed@[k].1 == spec_item_status(items@[k])),
                forall|k: int| 0 <= k < i ==> spec_item_ok(#[trigger] items@[k]),
            decreases n - i,
        {
            match &items[i] {
                TaskArgItem::Text(title_raw) => {
                    let title = str_trim(title_raw.as_str());
                    if title.unicode_len() == 0 {
                        proof {
                            assert(!spec_item_ok(items@[i as int]));
                            assert(!(forall|k: int|
                                0 <= k && k < items@.len() ==> spec_item_ok(
                                    #[trigger] items@[k],
                                )));
                        }
                        let mut msg = "'tasks[".to_owned();
                        msg.append(u64_to_string(i as u64).as_str());
                        msg.append("]' must not be an empty string title");
                        return Err(Self::fail(msg));
                    }
                    parsed.push((title.to_owned(), TaskStatus::Pending));
                },
                TaskArgItem::Entry { title, status } => {
                    let title = match title {
                        Some(t) => {
                            let trimmed = str_trim(t.as_str());
                            if trimmed.unicode_len() == 0 {
                                proof {
                                    assert(!spec_item_ok(items@[i as int]));
                                    assert(!(forall|k: int|
                                        0 <= k && k < items@.len() ==> spec_item_ok(
                                            #[trigger] items@[k],
                                        )));
                                }
                                let mut msg = "'tasks[".to_owned();
                                msg.append(u64_to_string(i as u64).as_str());
                                msg.append("].title' must not be empty");
                                return Err(Self::fail(msg));
                            }
                            trimmed.to_owned()
                        },
                        None => {
                            proof {
                                assert(!spec_item_ok(items@[i as int]));
                                assert(!(forall|k: int|
                                    0 <= k && k < items@.len() ==> spec_item_ok(
                                        #[trigger] items@[k],
                                    )));
                            }
                            let mut msg = "Missing 'tasks[".to_owned();
                            msg.append(u64_to_string(i as u64).as_str());
                            msg.append("].title'");
                            return Err(Self::fail(msg));
                        },
                    };
                    let status = match status {
                        Some(raw) => {
                            match TaskStatus::parse(raw.as_str()) {
                                Some(st) => st,
                                None => {
                                    proof {
                                        assert(!spec_item_ok(items@[i as int]));
                                        assert(!(forall|k: int|
                                            0 <= k && k < items@.len() ==> spec_item_ok(
                                                #[trigger] items@[k],
                                            )));
                                    }
                                    let mut msg = "Invalid status '".to_owned();
                                    msg.append(raw.as_str());
                                    msg.append("'. Use pending|in_progress|completed");
                                    return Err(Self::fail(msg));
                                },
                            }
                        },
                        None => TaskStatus::Pending,
                    };
                    parsed.push((title, status));
                },
                TaskArgItem::Malformed => {
                    proof {
                        assert(!spec_item_ok(items@[i as int]));
                        assert(!(forall|k: int|
                            0 <= k && k < items@.len() ==> spec_item_ok(#[trigger] items@[k])));
                    }
                    let mut msg = "'tasks[".to_owned();
                    msg.append(u64_to_string(i as u64).as_str());
                    msg.append("]' must be either a string title or object with title/status");
                    return Err(Self::fail(msg));
                },
            }
            i = i + 1;
        }
        Ok(parsed)
    }

    /// Run one tool call. `list` is always allowed; every other action
    /// is gated by the security policy, and a gated refusal reports the
    /// policy's reason. The shaped arguments decide the rest: unknown or
    /// missing actions, missing parameters and unknown statuses fail
    /// without touching the checklist.
    #[verifier::rlimit(100)]
    #[verifier::spinoff_prover]
    pub fn execute_args(&mut self, args: TaskPlanArgs) -> (r: ToolResult)
        ensures
            (args.action is Absent || args.action is NotString) ==> (!r.success && final(self).state.tasks@
                == old(self).state.tasks@),
            (args.action matches FieldStr::Val(a) && trim_chars(a@).len() == 0) ==> !r.success,
            args.action matches FieldStr::Val(a) ==> ({
                let act = trim_chars(a@).map_values(|c: char| lower_char(c));
                &&& ((act.len() > 0 && act != "list"@ && old(self).security.autonomy
                    == crate::security::AutonomyLevel::ReadOnly) ==> (!r.success
                    && final(self).state.tasks@ == old(self).state.tasks@))
                &&& ((act.len() > 0 && act != "list"@ && old(self).security.autonomy
                    != crate::security::AutonomyLevel::ReadOnly && old(self).security.actions_recorded
                    >= old(self).security.max_actions_per_hour) ==> (!r.success
                    && final(self).state.tasks@ == old(self).state.tasks@))
                &&& (act == "list"@ ==> (r.success && final(self).state.tasks@ == old(
                    self,
                ).state.tasks@))
                &&& ((act == "delete"@ && gate_admits(old(self).security)) ==> (r.success
                    && final(self).state.tasks@.len() == 0))
                &&& ((act == "add"@ && gate_admits(old(self).security)) ==> (match args.title {
                    FieldStr::Val(t) => if trim_chars(t@).len() > 0 {
                        &&& r.success
                        &&& final(self).state.tasks@.len() == old(self).state.tasks@.len() + 1
                        &&& final(self).state.tasks@.subrange(
                            0,
                            old(self).state.tasks@.len() as int,
                        ) == old(self).state.tasks@
                        &&& final(self).state.tasks@.last().title@ == trim_chars(t@)
                        &&& final(self).state.tasks@.last().status == TaskStatus::Pending
                    } else {
                        !r.success && final(self).state.tasks@ == old(self).state.tasks@
                    },
                    _ => !r.success && final(self).state.tasks@ == old(self).state.tasks@,
                }))
                &&& ((act == "update"@ && gate_admits(old(self).security)) ==> (match (
                    args.task_id,
                    args.status,
                ) {
                    (Some(tid), FieldStr::Val(sv)) => (match spec_parse_status(sv@) {
                        Some(st) => {
                            &&& (r.success <==> exists|k: int|
                                0 <= k && k < old(self).state.tasks@.len() && (#[trigger] old(
                                    self,
                                ).state.tasks@[k]).id == tid)
                            &&& (r.success ==> (final(self).state.tasks@.len() == old(
                                self,
                            ).state.tasks@.len() && forall|k: int|
                                0 <= k && k < old(self).state.tasks@.len() ==> {
                                    let t = #[trigger] old(self).state.tasks@[k];
                                    let u = #[trigger] final(self).state.tasks@[k];
                                    u.id == t.id && u.title == t.title && u.status == (if t.id
                                        == tid {
                                        st
                                    } else {
                                        t.status
                                    })
                                }))
                            &&& (!r.success ==> final(self).state.tasks@ == old(
                                self,
                            ).state.tasks@)
                        },
                        None => !r.success && final(self).state.tasks@ == old(self).state.tasks@,
                    }),
                    _ => !r.success && final(self).state.tasks@ == old(self).state.tasks@,
                }))
                &&& ((act == "create"@ && gate_admits(old(self).security)) ==> (match args.tasks {
                    TasksField::Items(items) => if items@.len() > 0 && items@.len() < usize::MAX
                        && (forall|k: int|
                        0 <= k && k < items@.len() ==> spec_item_ok(#[trigger] items@[k])) {
                        &&& r.success
                        &&& final(self).state.tasks@.len() == items@.len()
                        &&& forall|k: int|
                            0 <= k && k < items@.len() ==> {
                                let t = #[trigger] final(self).state.tasks@[k];
                                t.title@ == spec_item_title(#[trigger] items@[k]) && t.status
                                    == spec_item_status(items@[k]) && t.id == k + 1
                            }
                    } else {
                        !r.success && final(self).state.tasks@ == old(self).state.tasks@
                    },
                    _ => !r.success && final(self).state.tasks@ == old(self).state.tasks@,
                }))
                &&& ((act.len() > 0 && act != "list"@ && old(self).security.autonomy
                    == crate::security::AutonomyLevel::ReadOnly) ==> (r.error matches Some(e) && e@
                    == "Action '"@ + "task_plan."@ + act + "' blocked: autonomy is read-only"@
                    && final(self).security == old(self).security))
                &&& ((act.len() > 0 && act != "list"@ && old(self).security.autonomy
                    != crate::security::AutonomyLevel::ReadOnly && old(self).security.actions_recorded
                    >= old(self).security.max_actions_per_hour) ==> (r.error matches Some(e) && e@
                    == "Action '"@ + "task_plan."@ + act + "' blocked: Rate limit exceeded"@
                    && final(self).security == old(self).security))
                &&& (act == "list"@ ==> final(self).security == old(self).security)
                &&& ((act.len() > 0 && act != "list"@ && gate_admits(old(self).security))
                    ==> final(self).security == (SecurityPolicy {
                    actions_recorded: (old(self).security.actions_recorded + 1) as u32,
                    ..old(self).security
                }))
            }),
    {
        proof {
            reveal_strlit("list");
            reveal_strlit("create");
            reveal_strlit("add");
            reveal_strlit("update");
            reveal_strlit("delete");
        }
        let TaskPlanArgs { action: action_field, tasks: tasks_field, title: title_field, task_id, status: status_field } = args;
        let action_raw: String = match action_field {
            FieldStr::Val(a) => a,
            _ => {
                return Self::fail("Missing 'action' parameter".to_owned());
            },
        };
        let trimmed = str_trim(action_raw.as_str());
        if trimmed.unicode_len() == 0 {
            proof {
                reveal_strlit("list");
                reveal_strlit("create");
                reveal_strlit("add");
                reveal_strlit("update");
                reveal_strlit("delete");
                assert("list"@.len() == 4 && "create"@.len() == 6 && "add"@.len() == 3
                    && "update"@.len() == 6 && "delete"@.len() == 6);
            }
            return Self::fail("'action' must not be empty".to_owned());
        }
        let action = crate::text::to_ascii_lowercase_str(trimmed);
        proof {
            assert(args.action matches FieldStr::Val(a2) && trim_chars(a2@).map_values(
                |c: char| lower_char(c),
            ) == action@);
            assert("list"@.len() == 4);
            assert("add"@.len() == 3);
            assert("delete"@.len() == 6);
            assert("create"@.len() == 6);
            assert("update"@.len() == 6);
            assert("create"@[0] == 'c' && "update"@[0] == 'u' && "delete"@[0] == 'd');
            assert("create"@ != "update"@ && "create"@ != "delete"@ && "update"@ != "delete"@);
        }
        if !str_eq(action.as_str(), "list") {
            let mut op_name = "task_plan.".to_owned();
            op_name.append(action.as_str());
            match self.security.enforce_tool_operation(ToolOperation::Act, op_name.as_str()) {
                Ok(_) => {},
                Err(e) => {
                    proof {
                        assert(op_name@ == "task_plan."@ + action@);
                        if old(self).security.autonomy
                            == crate::security::AutonomyLevel::ReadOnly {
                            assert(e@ =~= "Action '"@ + "task_plan."@ + action@
                                + "' blocked: autonomy is read-only"@);
                        } else {
                            assert(e@ =~= "Action '"@ + "task_plan."@ + action@
                                + "' blocked: Rate limit exceeded"@);
                        }
                    }
                    return Self::fail(e);
                },
            }
        }
        if str_eq(action.as_str(), "create") {
            let items = match tasks_field {
                TasksField::Items(items) => items,
                TasksField::NotArray => {
                    return Self::fail("'tasks' must be an array".to_owned());
                },
                TasksField::Absent => {
                    return Self::fail("Missing 'tasks' parameter for action 'create'".to_owned());
                },
            };
            let parsed = match Self::parse_create_tasks(&items) {
                Ok(parsed) => parsed,
                Err(failure) => {
                    return failure;
                },
            };
            if parsed.len() == usize::MAX {
                return Self::fail("'tasks' holds too many entries".to_owned());
            }
            let ghost gparsed = parsed@;
            self.state.set_tasks(parsed);
            proof {
                assert forall|k: int| 0 <= k && k < items@.len() implies {
                    let t = #[trigger] self.state.tasks@[k];
                    t.title@ == spec_item_title(items@[k]) && t.status == spec_item_status(
                        items@[k],
                    ) && t.id == k + 1
                } by {
                    assert((#[trigger] gparsed[k]).0@ == spec_item_title(items@[k]));
                    assert(self.state.tasks@[k].title@ == gparsed[k].0@);
                    assert(self.state.tasks@[k].status == gparsed[k].1);
                }
            }
            let mut payload = "{\"message\":\"Task plan created\",\"plan\":".to_owned();
            payload.append(self.state.snapshot_json().as_str());
            payload.append("}");
            Self::success(payload)
        } else if str_eq(action.as_str(), "add") {
            let title = match title_field {
                FieldStr::Val(t) => {
                    let trimmed_title = str_trim(t.as_str());
                    if trimmed_title.unicode_len() == 0 {
                        return Self::fail("'title' must not be empty".to_owned());
                    }
                    trimmed_title.to_owned()
                },
                FieldStr::NotString => {
                    return Self::fail("'title' must be a string".to_owned());
                },
                FieldStr::Absent => {
                    return Self::fail("Missing 'title' parameter for action 'add'".to_owned());
                },
            };
            let id = self.state.add_task(title, TaskStatus::Pending);
            let mut payload = "{\"message\":\"Task added\",\"task_id\":".to_owned();
            payload.append(u64_to_string(id).as_str());
            payload.append(",\"plan\":");
            payload.append(self.state.snapshot_json().as_str());
            payload.append("}");
            Self::success(payload)
        } else if str_eq(action.as_str(), "update") {
            let task_id = match task_id {
                Some(task_id) => task_id,
                None => {
                    return Self::fail(
                        "Missing or invalid 'task_id' parameter for action 'update'".to_owned(),
                    );
                },
            };
            let status = match status_field {
                FieldStr::Val(raw) => {
                    match TaskStatus::parse(raw.as_str()) {
                        Some(st) => st,
                        None => {
                            let mut msg = "Invalid status '".to_owned();
                            msg.append(raw.as_str());
                            msg.append("'. Use pending|in_progress|completed");
                            return Self::fail(msg);
                        },
                    }
                },
                FieldStr::NotString => {
                    return Self::fail("'status' must be a string".to_owned());
                },
                FieldStr::Absent => {
                    return Self::fail("Missing 'status' parameter for action 'update'".to_owned());
                },
            };
            if !self.state.update_status(task_id, status) {
                let mut msg = "Task with id ".to_owned();
                msg.append(u64_to_string(task_id).as_str());
                msg.append(" was not found");
                return Self::fail(msg);
            }
            let mut payload = "{\"message\":\"Task updated\",\"task_id\":".to_owned();
            payload.append(u64_to_string(task_id).as_str());
            payload.append(",\"status\":");
            payload.append(json_string(status.as_str()).as_str());
            payload.append(",\"plan\":");
            payload.append(self.state.snapshot_json().as_str());
            payload.append("}");
            Self::success(payload)
        } else if str_eq(action.as_str(), "list") {
            let mut payload = "{\"message\":\"Task plan listed\",\"plan\":".to_owned();
            payload.append(self.state.snapshot_json().as_str());
            payload.append("}");
            Self::success(payload)
        } else if str_eq(action.as_str(), "delete") {
            self.state.clear();
            let mut payload = "{\"message\":\"Task plan cleared\",\"plan\":".to_owned();
            payload.append(self.state.snapshot_json().as_str());
            payload.append("}");
            Self::success(payload)
        } else {
            let mut msg = "Unknown action '".to_owned();
            msg.append(action.as_str());
            msg.append("'. Use create|add|update|list|delete");
            Self::fail(msg)
        }
    }

    /// Run one tool call given as JSON text.
    pub fn execute(&mut self, args_json: &str) -> (r: ToolResult) {
        let args = parse_task_plan_args(args_json);
        self.execute_args(args)
    }
}

} // verus!
