//! Agent tasks: typed kinds, risk levels, task identifiers, and the
//! dependency graph of tasks.
use vstd::prelude::*;

use crate::core_types::RiskLevel;
use crate::json::clone_opt_json;
use crate::text::{clone_opt_string, opt_view, to_owned_string};

verus! {

/// The risk a task exposes (mirrors the four core risk levels).
#[derive(Debug, Clone, Copy, PartialEq, Eq, Hash, Structural)]
pub enum TaskRisk {
    Low,
    Medium,
    High,
    Critical,
}

impl TaskRisk {
    /// The corresponding core `RiskLevel`.
    pub fn to_risk_level(self) -> (r: RiskLevel)
        ensures
            r == spec_task_risk_to_level(self),
    {
        match self {
            TaskRisk::Low => RiskLevel::Low,
            TaskRisk::Medium => RiskLevel::Medium,
            TaskRisk::High => RiskLevel::High,
            TaskRisk::Critical => RiskLevel::Critical,
        }
    }

    /// The task risk for a core `RiskLevel`.
    pub fn from_risk_level(r: RiskLevel) -> (t: TaskRisk)
        ensures
            spec_task_risk_to_level(t) == r,
    {
        match r {
            RiskLevel::Low => TaskRisk::Low,
            RiskLevel::Medium => TaskRisk::Medium,
            RiskLevel::High => TaskRisk::High,
            RiskLevel::Critical => TaskRisk::Critical,
        }
    }
}

/// Maps each task risk to the core risk level of the same name.
pub open spec fn spec_task_risk_to_level(t: TaskRisk) -> RiskLevel {
    match t {
        TaskRisk::Low => RiskLevel::Low,
        TaskRisk::Medium => RiskLevel::Medium,
        TaskRisk::High => RiskLevel::High,
        TaskRisk::Critical => RiskLevel::Critical,
    }
}

/// Converting a task risk to a core risk level and back is the identity.
pub proof fn law_task_risk_round_trip(t: TaskRisk, r: RiskLevel)
    ensures
        spec_task_risk_to_level(t) == r ==> t == (match r {
            RiskLevel::Low => TaskRisk::Low,
            RiskLevel::Medium => TaskRisk::Medium,
            RiskLevel::High => TaskRisk::High,
            RiskLevel::Critical => TaskRisk::Critical,
        }),
{
}

/// What kind of work a task is.
#[derive(Debug, Clone, Copy, PartialEq, Eq, Hash, Structural)]
pub enum TaskKind {
    RestartService,
    Notify,
    ProposeUpdate,
    ProposeInstall,
    ProposeCleanup,
    ProposeSecurityScan,
    DeviceControl,
    DisplayControl,
    PowerControl,
    SecurityControl,
    Custom,
}

/// The kebab-case name of each task kind.
pub open spec fn spec_task_kind_name(k: TaskKind) -> Seq<char> {
    match k {
        TaskKind::RestartService => "restart-service"@,
        TaskKind::Notify => "notify"@,
        TaskKind::ProposeUpdate => "propose-update"@,
        TaskKind::ProposeInstall => "propose-install"@,
        TaskKind::ProposeCleanup => "propose-cleanup"@,
        TaskKind::ProposeSecurityScan => "propose-security-scan"@,
        TaskKind::DeviceControl => "device-control"@,
        TaskKind::DisplayControl => "display-control"@,
        TaskKind::PowerControl => "power-control"@,
        TaskKind::SecurityControl => "security-control"@,
        TaskKind::Custom => "custom"@,
    }
}

/// The default risk of each task kind: proposals that change the system
/// (update, install), direct control of devices, displays, power or
/// security, and custom work are `High`, restarts and clean-up or scan
/// proposals `Medium`, notifications `Low`.
pub open spec fn spec_default_risk(k: TaskKind) -> TaskRisk {
    match k {
        TaskKind::RestartService => TaskRisk::Medium,
        TaskKind::Notify => TaskRisk::Low,
        TaskKind::ProposeUpdate => TaskRisk::High,
        TaskKind::ProposeInstall => TaskRisk::High,
        TaskKind::ProposeCleanup => TaskRisk::Medium,
        TaskKind::ProposeSecurityScan => TaskRisk::Medium,
        TaskKind::DeviceControl => TaskRisk::High,
        TaskKind::DisplayControl => TaskRisk::High,
        TaskKind::PowerControl => TaskRisk::High,
        TaskKind::SecurityControl => TaskRisk::High,
        TaskKind::Custom => TaskRisk::High,
    }
}

impl TaskKind {
    /// The canonical kebab-case name.
    pub fn as_str(&self) -> (r: &'static str)
        ensures
            r@ == spec_task_kind_name(*self),
    {
        match self {
            TaskKind::RestartService => "restart-service",
            TaskKind::Notify => "notify",
            TaskKind::ProposeUpdate => "propose-update",
            TaskKind::ProposeInstall => "propose-install",
            TaskKind::ProposeCleanup => "propose-cleanup",
            TaskKind::ProposeSecurityScan => "propose-security-scan",
            TaskKind::DeviceControl => "device-control",
            TaskKind::DisplayControl => "display-control",
            TaskKind::PowerControl => "power-control",
            TaskKind::SecurityControl => "security-control",
            TaskKind::Custom => "custom",
        }
    }

    /// The default risk level for a task of this kind.
    pub fn default_risk(&self) -> (r: TaskRisk)
        ensures
            r == spec_default_risk(*self),
    {
        match self {
            TaskKind::RestartService => TaskRisk::Medium,
            TaskKind::Notify => TaskRisk::Low,
            TaskKind::ProposeUpdate => TaskRisk::High,
            TaskKind::ProposeInstall => TaskRisk::High,
            TaskKind::ProposeCleanup => TaskRisk::Medium,
            TaskKind::ProposeSecurityScan => TaskRisk::Medium,
            TaskKind::DeviceControl => TaskRisk::High,
            TaskKind::DisplayControl => TaskRisk::High,
            TaskKind::PowerControl => TaskRisk::High,
            TaskKind::SecurityControl => TaskRisk::High,
            TaskKind::Custom => TaskRisk::High,
        }
    }
}

/// A unique identifier for a task: any non-empty string.
#[derive(Debug, Hash, PartialOrd, Ord)]
pub struct TaskId(String);

impl View for TaskId {
    type V = Seq<char>;

    closed spec fn view(&self) -> Seq<char> {
        self.0@
    }
}

impl TaskId {
    /// Creates a `TaskId` from a non-empty string; `None` for the empty string.
    pub fn new(value: &str) -> (r: Option<TaskId>)
        ensures
            r is Some <==> value@.len() > 0,
            r matches Some(id) ==> id@ == value@,
    {
        if value.is_empty() {
            return None;
        }
        Some(TaskId(value.to_string()))
    }

    /// The inner string.
    pub fn as_str(&self) -> (r: &str)
        ensures
            r@ == self@,
    {
        self.0.as_str()
    }
}

impl Clone for TaskId {
    fn clone(&self) -> (r: Self)
        ensures
            r@ == self@,
    {
        TaskId(self.0.clone())
    }
}

impl PartialEq for TaskId {
    fn eq(&self, other: &Self) -> (r: bool) {
        self.0 == other.0
    }
}

impl vstd::std_specs::cmp::PartialEqSpecImpl for TaskId {
    open spec fn obeys_eq_spec() -> bool {
        true
    }

    open spec fn eq_spec(&self, other: &TaskId) -> bool {
        self@ == other@
    }
}

impl Eq for TaskId {}

/// Equality of task ids by their strings.
pub fn task_id_eq(a: &TaskId, b: &TaskId) -> (r: bool)
    ensures
        r == (a@ == b@),
{
    a == b
}

/// Reasons a task cannot be inserted into a task graph.
#[derive(Debug, Clone, PartialEq, Eq)]
pub enum TaskDependencyError {
    /// The task id is empty.
    EmptyTaskId,
    /// A dependency points at a task id that is not in the graph.
    UnknownDependency { task: TaskId, missing: TaskId },
    /// The task would close a cycle of dependencies.
    Cycle { task: TaskId },
    /// A task with the same id already exists.
    Duplicate { id: TaskId },
}

/// `TaskDependencyError` with its ids as character sequences.
pub enum TaskDependencyErrorView {
    EmptyTaskId,
    UnknownDependency { task: Seq<char>, missing: Seq<char> },
    Cycle { task: Seq<char> },
    Duplicate { id: Seq<char> },
}

impl View for TaskDependencyError {
    type V = TaskDependencyErrorView;

    open spec fn view(&self) -> TaskDependencyErrorView {
        match self {
            TaskDependencyError::EmptyTaskId => TaskDependencyErrorView::EmptyTaskId,
            TaskDependencyError::UnknownDependency { task, missing } => TaskDependencyErrorView::UnknownDependency {
                task: task@,
                missing: missing@,
            },
            TaskDependencyError::Cycle { task } => TaskDependencyErrorView::Cycle { task: task@ },
            TaskDependencyError::Duplicate { id } => TaskDependencyErrorView::Duplicate { id: id@ },
        }
    }
}

/// The message of each error.
pub open spec fn spec_dependency_error_message(e: TaskDependencyErrorView) -> Seq<char> {
    match e {
        TaskDependencyErrorView::EmptyTaskId => "task id is empty"@,
        TaskDependencyErrorView::UnknownDependency { task, missing } => "task '"@ + task
            + "' depends on unknown task '"@ + missing + "'"@,
        TaskDependencyErrorView::Cycle { task } => "inserting task '"@ + task + "' would create a cycle"@,
        TaskDependencyErrorView::Duplicate { id } => "task '"@ + id + "' already exists"@,
    }
}

impl TaskDependencyError {
    /// The human-readable message.
    pub fn to_string(&self) -> (r: String)
        ensures
            r@ == spec_dependency_error_message(self@),
    {
        match self {
            TaskDependencyError::EmptyTaskId => String::from_str("task id is empty"),
            TaskDependencyError::UnknownDependency { task, missing } => {
                let mut r = String::from_str("task '");
                r.append(task.as_str());
                r.append("' depends on unknown task '");
                r.append(missing.as_str());
                r.append("'");
                r
            },
            TaskDependencyError::Cycle { task } => {
                let mut r = String::from_str("inserting task '");
                r.append(task.as_str());
                r.append("' would create a cycle");
                r
            },
            TaskDependencyError::Duplicate { id } => {
                let mut r = String::from_str("task '");
                r.append(id.as_str());
                r.append("' already exists");
                r
            },
        }
    }
}

// ---------------------------------------------------------------- tasks

/// A unit of work the agent may run.
#[derive(Debug)]
pub struct AgentTask {
    /// The task's identifier.
    pub id: TaskId,
    /// What kind of work it is.
    pub kind: TaskKind,
    /// A short title.
    pub title: String,
    /// What the task does.
    pub description: String,
    /// The tasks that must finish first.
    pub depends_on: Vec<TaskId>,
    /// The task's risk.
    pub risk: TaskRisk,
    /// What the task acts on, if anything.
    pub target: Option<String>,
    /// Structured arguments.
    pub arguments: Option<serde_json::Value>,
}

/// The ids of a list of task ids.
pub open spec fn ids_view(s: Seq<TaskId>) -> Seq<Seq<char>> {
    s.map_values(|d: TaskId| d@)
}

/// The ids a task depends on.
pub open spec fn task_deps(t: AgentTask) -> Seq<Seq<char>> {
    ids_view(t.depends_on@)
}

/// Two tasks are copies of each other.
pub open spec fn same_task(a: AgentTask, b: AgentTask) -> bool {
    &&& a.id@ == b.id@
    &&& a.kind == b.kind
    &&& a.title@ == b.title@
    &&& a.description@ == b.description@
    &&& task_deps(a) == task_deps(b)
    &&& a.risk == b.risk
    &&& opt_view(a.target) == opt_view(b.target)
    &&& a.arguments == b.arguments
}

/// A copy of a list of task ids.
pub fn clone_ids(v: &Vec<TaskId>) -> (r: Vec<TaskId>)
    ensures
        ids_view(r@) == ids_view(v@),
{
    let mut r: Vec<TaskId> = Vec::new();
    let mut i: usize = 0;
    while i < v.len()
        invariant
            i <= v@.len(),
            ids_view(r@) == ids_view(v@).subrange(0, i as int),
        decreases v@.len() - i,
    {
        let ghost before = r@;
        r.push(v[i].clone());
        proof {
            assert(ids_view(r@) =~= ids_view(before).push(v@[i as int]@));
            assert(ids_view(v@).subrange(0, i + 1) =~= ids_view(v@).subrange(0, i as int).push(v@[i as int]@));
        }
        i += 1;
    }
    proof {
        assert(ids_view(v@).subrange(0, v@.len() as int) =~= ids_view(v@));
    }
    r
}

impl Clone for AgentTask {
    fn clone(&self) -> (r: Self)
        ensures
            same_task(r, *self),
    {
        AgentTask {
            id: self.id.clone(),
            kind: self.kind,
            title: self.title.clone(),
            description: self.description.clone(),
            depends_on: clone_ids(&self.depends_on),
            risk: self.risk,
            target: clone_opt_string(&self.target),
            arguments: clone_opt_json(&self.arguments),
        }
    }
}

impl AgentTask {
    /// A task with no dependencies, no target and no arguments, at its
    /// kind's default risk; `None` when the id, title or description is
    /// empty.
    pub fn new(id: &str, kind: TaskKind, title: &str, description: &str) -> (r: Option<AgentTask>)
        ensures
            r is Some <==> id@.len() > 0 && title@.len() > 0 && description@.len() > 0,
            r matches Some(t) ==> {
                &&& t.id@ == id@
                &&& t.kind == kind
                &&& t.title@ == title@
                &&& t.description@ == description@
                &&& t.depends_on@.len() == 0
                &&& t.risk == spec_default_risk(kind)
                &&& t.target is None
                &&& t.arguments is None
            },
    {
        let id = match TaskId::new(id) {
            Some(i) => i,
            None => {
                return None;
            },
        };
        if title.is_empty() || description.is_empty() {
            return None;
        }
        Some(
            AgentTask {
                id,
                kind,
                title: to_owned_string(title),
                description: to_owned_string(description),
                depends_on: Vec::new(),
                risk: kind.default_risk(),
                target: None,
                arguments: None,
            },
        )
    }

    /// The same task depending on one more task.
    pub fn with_dependency(self, dep: TaskId) -> (r: AgentTask)
        ensures
            task_deps(r) == task_deps(self).push(dep@),
            r == (AgentTask { depends_on: r.depends_on, ..self }),
    {
        let mut r = self;
        let ghost before = r.depends_on@;
        r.depends_on.push(dep);
        assert(ids_view(r.depends_on@) =~= ids_view(before).push(dep@));
        r
    }

    /// The same task depending on more tasks, in the given order.
    pub fn with_dependencies(self, deps: Vec<TaskId>) -> (r: AgentTask)
        ensures
            task_deps(r) == task_deps(self) + ids_view(deps@),
            r == (AgentTask { depends_on: r.depends_on, ..self }),
    {
        let mut r = self;
        let ghost before = r.depends_on@;
        let mut rest = deps;
        let ghost all = rest@;
        let total = rest.len();
        let mut i: usize = 0;
        while rest.len() > 0
            invariant
                total == all.len(),
                r == (AgentTask { depends_on: r.depends_on, ..self }),
                i + rest@.len() == all.len(),
                rest@ == all.subrange(i as int, all.len() as int),
                ids_view(r.depends_on@) == ids_view(before) + ids_view(all.subrange(0, i as int)),
            decreases rest@.len(),
        {
            let d = rest.remove(0);
            let ghost prev = r.depends_on@;
            r.depends_on.push(d);
            proof {
                assert(ids_view(r.depends_on@) =~= ids_view(prev).push(d@));
                assert(ids_view(all.subrange(0, i + 1)) =~= ids_view(all.subrange(0, i as int)).push(all[i as int]@));
                assert(rest@ =~= all.subrange(i + 1, all.len() as int));
            }
            i += 1;
        }
        proof {
            assert(all.subrange(0, i as int) =~= all);
        }
        r
    }

    /// The same task at another risk.
    pub fn with_risk(self, risk: TaskRisk) -> (r: AgentTask)
        ensures
            r == (AgentTask { risk, ..self }),
    {
        let mut r = self;
        r.risk = risk;
        r
    }

    /// The same task acting on `target`.
    pub fn with_target(self, target: &str) -> (r: AgentTask)
        ensures
            opt_view(r.target) == Some(target@),
            r == (AgentTask { target: r.target, ..self }),
    {
        let mut r = self;
        r.target = Some(to_owned_string(target));
        r
    }

    /// The same task with structured arguments.
    pub fn with_arguments(self, args: serde_json::Value) -> (r: AgentTask)
        ensures
            r == (AgentTask { arguments: Some(args), ..self }),
    {
        let mut r = self;
        r.arguments = Some(args);
        r
    }
}

// ---------------------------------------------------------------- graph

/// Whether, following dependencies from `deps` through tasks found below
/// position `bound`, the id `target` is reached.
pub open spec fn reaches(ts: Seq<AgentTask>, deps: Seq<Seq<char>>, target: Seq<char>, bound: int) -> bool
    decreases bound, deps.len(),
{
    if deps.len() == 0 || bound < 0 {
        false
    } else {
        let d = deps.last();
        let via = if exists|j: int| 0 <= j < bound && ts[j].id@ == d {
            let j = choose|j: int| 0 <= j < bound && ts[j].id@ == d;
            reaches(ts, task_deps(ts[j]), target, j)
        } else {
            false
        };
        d == target || via || reaches(ts, deps.drop_last(), target, bound)
    }
}

/// No two tasks share an id.
pub open spec fn ids_unique(ts: Seq<AgentTask>) -> bool {
    forall|i: int, j: int| 0 <= i < j < ts.len() ==> ts[i].id@ != ts[j].id@
}

/// Every dependency of a task is either absent from the graph or found
/// before the task: the graph's order is a topological order.
pub open spec fn deps_precede(ts: Seq<AgentTask>) -> bool {
    forall|i: int, k: int, j: int|
        0 <= i < ts.len() && 0 <= k < task_deps(ts[i]).len() && 0 <= j < ts.len() && ts[j].id@ == task_deps(
            ts[i],
        )[k] ==> j < i
}

/// Every id of `deps` names, if any task, one below `bound`.
pub open spec fn deps_below(ts: Seq<AgentTask>, deps: Seq<Seq<char>>, bound: int) -> bool {
    forall|k: int, j: int| 0 <= k < deps.len() && 0 <= j < ts.len() && ts[j].id@ == deps[k] ==> j < bound
}

/// The error inserting `t` into the graph `ts` earns, if any: an empty id,
/// a duplicate id, the first unknown dependency, or a cycle.
pub open spec fn spec_insert_error(ts: Seq<AgentTask>, t: AgentTask) -> Option<TaskDependencyErrorView> {
    if t.id@.len() == 0 {
        Some(TaskDependencyErrorView::EmptyTaskId)
    } else if exists|i: int| 0 <= i < ts.len() && ts[i].id@ == t.id@ {
        Some(TaskDependencyErrorView::Duplicate { id: t.id@ })
    } else if exists|k: int| 0 <= k < task_deps(t).len() && !graph_has(ts, task_deps(t)[k]) {
        let k = choose|k: int|
            0 <= k < task_deps(t).len() && !graph_has(ts, task_deps(t)[k]) && forall|m: int|
                0 <= m < k ==> graph_has(ts, task_deps(t)[m]);
        Some(TaskDependencyErrorView::UnknownDependency { task: t.id@, missing: task_deps(t)[k] })
    } else if exists|i: int| 0 <= i < ts.len() && reaches(ts, task_deps(ts[i]), t.id@, ts.len() as int) {
        Some(TaskDependencyErrorView::Cycle { task: t.id@ })
    } else {
        None
    }
}

/// Some task of the graph has this id.
pub open spec fn graph_has(ts: Seq<AgentTask>, id: Seq<char>) -> bool {
    exists|i: int| 0 <= i < ts.len() && ts[i].id@ == id
}

/// Every dependency of `t` is among `done`.
pub open spec fn deps_done(t: AgentTask, done: Seq<Seq<char>>) -> bool {
    forall|k: int| 0 <= k < task_deps(t).len() ==> done.contains(#[trigger] task_deps(t)[k])
}

/// The positions, below `n`, of the tasks all of whose dependencies are
/// done.
pub open spec fn ready_positions(ts: Seq<AgentTask>, done: Seq<Seq<char>>, n: int) -> Seq<int>
    decreases n,
{
    if n <= 0 {
        Seq::empty()
    } else {
        let rest = ready_positions(ts, done, n - 1);
        if deps_done(ts[n - 1], done) {
            rest.push(n - 1)
        } else {
            rest
        }
    }
}

/// Reaching through a prefix of the dependencies reaches through all of
/// them.
pub proof fn lemma_reaches_prefix(ts: Seq<AgentTask>, deps: Seq<Seq<char>>, target: Seq<char>, bound: int, m: int)
    requires
        0 <= m <= deps.len(),
        reaches(ts, deps.subrange(0, m), target, bound),
    ensures
        reaches(ts, deps, target, bound),
    decreases deps.len() - m,
{
    if m < deps.len() {
        assert(deps.drop_last().subrange(0, m) =~= deps.subrange(0, m));
        lemma_reaches_prefix(ts, deps.drop_last(), target, bound, m);
    } else {
        assert(deps.subrange(0, m) =~= deps);
    }
}

/// A dependency graph of tasks, in insertion order.
pub struct TaskGraph {
    tasks: Vec<AgentTask>,
}

impl TaskGraph {
    /// The tasks, in insertion order.
    pub closed spec fn spec_tasks(&self) -> Seq<AgentTask> {
        self.tasks@
    }

    /// No id occurs twice, and the insertion order is a topological order
    /// of the dependencies.
    pub open spec fn wf(&self) -> bool {
        ids_unique(self.spec_tasks()) && deps_precede(self.spec_tasks())
    }

    /// An empty graph.
    pub fn new() -> (r: TaskGraph)
        ensures
            r.spec_tasks().len() == 0,
            r.wf(),
    {
        TaskGraph { tasks: Vec::new() }
    }

    /// The number of tasks.
    pub fn len(&self) -> (r: usize)
        ensures
            r == self.spec_tasks().len(),
    {
        self.tasks.len()
    }

    /// Whether the graph holds no task.
    pub fn is_empty(&self) -> (r: bool)
        ensures
            r == (self.spec_tasks().len() == 0),
    {
        self.tasks.len() == 0
    }

    /// The tasks, in insertion order.
    pub fn tasks(&self) -> (r: &[AgentTask])
        ensures
            r@ == self.spec_tasks(),
    {
        self.tasks.as_slice()
    }

    fn position(&self, id: &TaskId) -> (r: Option<usize>)
        ensures
            match r {
                Some(i) => i < self.spec_tasks().len() && self.spec_tasks()[i as int].id@ == id@ && forall|j: int|
                    0 <= j < i ==> self.spec_tasks()[j].id@ != id@,
                None => !graph_has(self.spec_tasks(), id@),
            },
    {
        let mut i: usize = 0;
        while i < self.tasks.len()
            invariant
                i <= self.tasks@.len(),
                forall|j: int| 0 <= j < i ==> self.tasks@[j].id@ != id@,
            decreases self.tasks@.len() - i,
        {
            if task_id_eq(&self.tasks[i].id, id) {
                return Some(i);
            }
            i += 1;
        }
        None
    }

    /// The task with this id, if any.
    pub fn get(&self, id: &TaskId) -> (r: Option<&AgentTask>)
        ensures
            r is Some <==> graph_has(self.spec_tasks(), id@),
            r matches Some(t) ==> exists|i: int|
                0 <= i < self.spec_tasks().len() && self.spec_tasks()[i] == *t && t.id@ == id@ && forall|j: int|
                    0 <= j < i ==> self.spec_tasks()[j].id@ != id@,
    {
        match self.position(id) {
            Some(i) => Some(&self.tasks[i]),
            None => None,
        }
    }

    /// Whether following dependencies from `deps`, through tasks below
    /// position `bound`, reaches `target`.
    fn reaches_from(&self, deps: &Vec<TaskId>, target: &TaskId, bound: usize) -> (r: bool)
        requires
            self.wf(),
            bound <= self.spec_tasks().len(),
            deps_below(self.spec_tasks(), ids_view(deps@), bound as int),
        ensures
            r == reaches(self.spec_tasks(), ids_view(deps@), target@, bound as int),
        decreases bound, deps@.len(),
    {
        let ghost ts = self.tasks@;
        let ghost ds = ids_view(deps@);
        let mut k: usize = 0;
        while k < deps.len()
            invariant
                ts == self.tasks@,
                ds == ids_view(deps@),
                self.wf(),
                bound <= ts.len(),
                deps_below(ts, ds, bound as int),
                k <= deps@.len(),
                !reaches(ts, ds.subrange(0, k as int), target@, bound as int),
            decreases deps@.len() - k,
        {
            let ghost pre = ds.subrange(0, k + 1);
            proof {
                assert(pre.drop_last() =~= ds.subrange(0, k as int));
                assert(pre.last() == deps@[k as int]@);
            }
            if task_id_eq(&deps[k], target) {
                proof {
                    lemma_reaches_prefix(ts, ds, target@, bound as int, k + 1);
                }
                return true;
            }
            match self.position(&deps[k]) {
                Some(j) => {
                    proof {
                        assert(ts[j as int].id@ == ds[k as int]);
                        assert(j < bound);
                        assert forall|k2: int, j2: int|
                            0 <= k2 < task_deps(ts[j as int]).len() && 0 <= j2 < ts.len() && ts[j2].id@
                                == task_deps(ts[j as int])[k2] implies j2 < j by {
                            assert(deps_precede(ts));
                        }
                        assert(deps_below(ts, task_deps(ts[j as int]), j as int));
                        let w = choose|w: int| 0 <= w < bound && ts[w].id@ == ds[k as int];
                        assert(ids_unique(ts));
                        if w != j {
                            if w < j {
                                assert(ts[w].id@ != ts[j as int].id@);
                            } else {
                                assert(ts[j as int].id@ != ts[w].id@);
                            }
                        }
                    }
                    if self.reaches_from(&self.tasks[j].depends_on, target, j) {
                        proof {
                            lemma_reaches_prefix(ts, ds, target@, bound as int, k + 1);
                        }
                        return true;
                    }
                },
                None => {
                    proof {
                        if exists|w: int| 0 <= w < bound && ts[w].id@ == ds[k as int] {
                            let w = choose|w: int| 0 <= w < bound && ts[w].id@ == ds[k as int];
                            assert(graph_has(ts, deps@[k as int]@));
                        }
                    }
                },
            }
            k += 1;
        }
        proof {
            assert(ds.subrange(0, deps@.len() as int) =~= ds);
        }
        false
    }

    /// Whether `start` depends, directly or through other tasks of the
    /// graph, on `target`.
    pub fn transitively_depends_on(&self, start: &AgentTask, target: &TaskId) -> (r: bool)
        requires
            self.wf(),
        ensures
            r == reaches(self.spec_tasks(), task_deps(*start), target@, self.spec_tasks().len() as int),
    {
        self.reaches_from(&start.depends_on, target, self.tasks.len())
    }

    /// Inserts a task whose dependencies are all in the graph and which
    /// closes no cycle; refuses an empty id, a duplicate id, an unknown
    /// dependency or a cycle, leaving the graph unchanged.
    pub fn insert(&mut self, task: AgentTask) -> (r: Result<(), TaskDependencyError>)
        requires
            old(self).wf(),
        ensures
            final(self).wf(),
            match spec_insert_error(old(self).spec_tasks(), task) {
                Some(e) => r matches Err(x) && x@ == e && final(self).spec_tasks() == old(self).spec_tasks(),
                None => r is Ok && final(self).spec_tasks() == old(self).spec_tasks().push(task),
            },
    {
        let ghost ts = self.tasks@;
        if task.id.as_str().is_empty() {
            return Err(TaskDependencyError::EmptyTaskId);
        }
        match self.position(&task.id) {
            Some(_) => {
                return Err(TaskDependencyError::Duplicate { id: task.id.clone() });
            },
            None => {},
        }
        let mut k: usize = 0;
        while k < task.depends_on.len()
            invariant
                ts == self.tasks@,
                ts == old(self).spec_tasks(),
                self.wf(),
                task.id@.len() > 0,
                !graph_has(ts, task.id@),
                k <= task.depends_on@.len(),
                forall|m: int| 0 <= m < k ==> graph_has(ts, task_deps(task)[m]),
            decreases task.depends_on@.len() - k,
        {
            match self.position(&task.depends_on[k]) {
                Some(_) => {},
                None => {
                    proof {
                        let ds = task_deps(task);
                        assert(!graph_has(ts, ds[k as int]));
                        let c = choose|c: int|
                            0 <= c < ds.len() && !graph_has(ts, ds[c]) && forall|m: int|
                                0 <= m < c ==> graph_has(ts, ds[m]);
                        if c < k {
                            assert(graph_has(ts, ds[c]));
                        } else if c > k {
                            assert(graph_has(ts, ds[k as int]));
                        }
                    }
                    return Err(
                        TaskDependencyError::UnknownDependency {
                            task: task.id.clone(),
                            missing: task.depends_on[k].clone(),
                        },
                    );
                },
            }
            k += 1;
        }
        let mut i: usize = 0;
        while i < self.tasks.len()
            invariant
                ts == self.tasks@,
                ts == old(self).spec_tasks(),
                self.wf(),
                task.id@.len() > 0,
                !graph_has(ts, task.id@),
                forall|m: int| 0 <= m < task_deps(task).len() ==> graph_has(ts, task_deps(task)[m]),
                i <= ts.len(),
                forall|m: int| 0 <= m < i ==> !reaches(ts, task_deps(ts[m]), task.id@, ts.len() as int),
            decreases ts.len() - i,
        {
            if self.transitively_depends_on(&self.tasks[i], &task.id) {
                return Err(TaskDependencyError::Cycle { task: task.id.clone() });
            }
            i += 1;
        }
        proof {
            let n = ts.len();
            let t2 = ts.push(task);
            assert forall|a: int, b: int| 0 <= a < b < t2.len() implies t2[a].id@ != t2[b].id@ by {
                if b == n {
                    assert(t2[a] == ts[a]);
                }
            }
            assert forall|a: int, kk: int, j: int|
                0 <= a < t2.len() && 0 <= kk < task_deps(t2[a]).len() && 0 <= j < t2.len() && t2[j].id@
                    == task_deps(t2[a])[kk] implies j < a by {
                if a < n {
                    assert(t2[a] == ts[a]);
                    if j == n {
                        let ds = task_deps(ts[a]);
                        assert(ds.subrange(0, kk + 1).last() == task.id@);
                        assert(reaches(ts, ds.subrange(0, kk + 1), task.id@, n as int));
                        lemma_reaches_prefix(ts, ds, task.id@, n as int, kk + 1);
                    } else {
                        assert(t2[j] == ts[j]);
                    }
                } else {
                    if j == n {
                        assert(graph_has(ts, task_deps(task)[kk]));
                        let w = choose|w: int| 0 <= w < ts.len() && ts[w].id@ == task_deps(task)[kk];
                        assert(!graph_has(ts, task.id@));
                    }
                }
            }
        }
        self.tasks.push(task);
        Ok(())
    }

    /// The tasks all of whose dependencies are among `done_ids`, in
    /// insertion order.
    pub fn ready(&self, done_ids: &[TaskId]) -> (r: Vec<&AgentTask>)
        ensures
            r@.len() == ready_positions(self.spec_tasks(), ids_view(done_ids@), self.spec_tasks().len() as int).len(),
            forall|k: int| 0 <= k < r@.len() ==> *r@[k] == self.spec_tasks()[ready_positions(
                self.spec_tasks(),
                ids_view(done_ids@),
                self.spec_tasks().len() as int,
            )[k]],
    {
        let ghost done = ids_view(done_ids@);
        let mut out: Vec<&AgentTask> = Vec::new();
        let mut i: usize = 0;
        while i < self.tasks.len()
            invariant
                done == ids_view(done_ids@),
                i <= self.tasks@.len(),
                out@.len() == ready_positions(self.tasks@, done, i as int).len(),
                forall|k: int| 0 <= k < out@.len() ==> *out@[k] == self.tasks@[ready_positions(
                    self.tasks@,
                    done,
                    i as int,
                )[k]],
            decreases self.tasks@.len() - i,
        {
            let t = &self.tasks[i];
            let mut all_done = true;
            let mut k: usize = 0;
            while k < t.depends_on.len()
                invariant
                    done == ids_view(done_ids@),
                    k <= t.depends_on@.len(),
                    all_done == forall|m: int| 0 <= m < k ==> done.contains(#[trigger] task_deps(*t)[m]),
                decreases t.depends_on@.len() - k,
            {
                let mut found = false;
                let mut q: usize = 0;
                while q < done_ids.len()
                    invariant
                        done == ids_view(done_ids@),
                        k < t.depends_on@.len(),
                        q <= done_ids@.len(),
                        found == exists|w: int| 0 <= w < q && done[w] == task_deps(*t)[k as int],
                    decreases done_ids@.len() - q,
                {
                    if task_id_eq(&done_ids[q], &t.depends_on[k]) {
                        assert(done[q as int] == task_deps(*t)[k as int]);
                        found = true;
                    }
                    q += 1;
                }
                proof {
                    if found {
                        let w = choose|w: int| 0 <= w < q && done[w] == task_deps(*t)[k as int];
                        assert(done.contains(task_deps(*t)[k as int]));
                    } else {
                        assert(!done.contains(task_deps(*t)[k as int]));
                    }
                }
                all_done = all_done && found;
                k += 1;
            }
            if all_done {
                out.push(t);
            }
            i += 1;
        }
        out
    }

    /// Removes the task with this id and returns it; dependencies on it
    /// are left as they are.
    pub fn remove(&mut self, id: &TaskId) -> (r: Option<AgentTask>)
        requires
            old(self).wf(),
        ensures
            final(self).wf(),
            r is Some <==> graph_has(old(self).spec_tasks(), id@),
            r matches Some(t) ==> t.id@ == id@ && exists|i: int|
                0 <= i < old(self).spec_tasks().len() && old(self).spec_tasks()[i] == t && final(self).spec_tasks()
                    == old(self).spec_tasks().remove(i),
            r is None ==> final(self).spec_tasks() == old(self).spec_tasks(),
    {
        match self.position(id) {
            Some(i) => {
                let ghost ts = self.tasks@;
                let t = self.tasks.remove(i);
                proof {
                    let t2 = self.tasks@;
                    assert(t2 =~= ts.remove(i as int));
                    assert forall|a: int, b: int| 0 <= a < b < t2.len() implies t2[a].id@ != t2[b].id@ by {
                        let a2 = if a < i { a } else { a + 1 };
                        let b2 = if b < i { b } else { b + 1 };
                        assert(t2[a] == ts[a2]);
                        assert(t2[b] == ts[b2]);
                    }
                    assert forall|a: int, kk: int, j: int|
                        0 <= a < t2.len() && 0 <= kk < task_deps(t2[a]).len() && 0 <= j < t2.len() && t2[j].id@
                            == task_deps(t2[a])[kk] implies j < a by {
                        let a2 = if a < i { a } else { a + 1 };
                        let j2 = if j < i { j } else { j + 1 };
                        assert(t2[a] == ts[a2]);
                        assert(t2[j] == ts[j2]);
                    }
                }
                Some(t)
            },
            None => None,
        }
    }
}

impl Default for TaskGraph {
    fn default() -> (r: TaskGraph)
        ensures
            r.spec_tasks().len() == 0,
            r.wf(),
    {
        TaskGraph::new()
    }
}

/// In a well-formed graph no task depends, directly or through others, on
/// itself: the dependency graph is acyclic.
pub proof fn law_task_graph_is_acyclic(ts: Seq<AgentTask>, i: int)
    requires
        ids_unique(ts),
        deps_precede(ts),
        0 <= i < ts.len(),
    ensures
        !reaches(ts, task_deps(ts[i]), ts[i].id@, ts.len() as int),
{
    lemma_no_reach_to_later(ts, task_deps(ts[i]), ts[i].id@, ts.len() as int, i);
}

/// From dependencies that all name tasks below `i`, no path reaches the id
/// of the task at `i` (nor of any later one).
proof fn lemma_no_reach_to_later(ts: Seq<AgentTask>, deps: Seq<Seq<char>>, target: Seq<char>, bound: int, i: int)
    requires
        ids_unique(ts),
        deps_precede(ts),
        0 <= i < ts.len(),
        ts[i].id@ == target,
        bound <= ts.len(),
        forall|k: int, j: int| 0 <= k < deps.len() && 0 <= j < ts.len() && ts[j].id@ == deps[k] ==> j < i,
    ensures
        !reaches(ts, deps, target, bound),
    decreases bound, deps.len(),
{
    if deps.len() == 0 || bound < 0 {
    } else {
        let d = deps.last();
        assert(d != target) by {
            if d == target {
                assert(ts[i].id@ == deps[deps.len() - 1]);
            }
        }
        if exists|j: int| 0 <= j < bound && ts[j].id@ == d {
            let j = choose|j: int| 0 <= j < bound && ts[j].id@ == d;
            assert(ts[j].id@ == deps[deps.len() - 1]);
            assert(j < i);
            assert forall|k: int, j2: int|
                0 <= k < task_deps(ts[j]).len() && 0 <= j2 < ts.len() && ts[j2].id@ == task_deps(ts[j])[k] implies j2
                < i by {
                assert(j2 < j);
            }
            lemma_no_reach_to_later(ts, task_deps(ts[j]), target, j, i);
        }
        assert forall|k: int, j: int|
            0 <= k < deps.drop_last().len() && 0 <= j < ts.len() && ts[j].id@ == deps.drop_last()[k] implies j < i by {
            assert(deps.drop_last()[k] == deps[k]);
        }
        lemma_no_reach_to_later(ts, deps.drop_last(), target, bound, i);
    }
}

} // verus!
