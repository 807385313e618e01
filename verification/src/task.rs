//! Tasks: the record, its creation and patch shapes, its filter, and the
//! mapper that offers the six operations on them.

use crate::mapper::MapperCRUD;
use crate::query::{
    condition_views, holds_part, is_at_least, is_at_most, lemma_narrower_finds_fewer,
    lemma_satisfies_both, lemma_satisfies_field, matching, passes, push_at_least, push_at_most,
    push_contains, push_equals, satisfies, when_at_least, when_at_most, when_contains,
    when_equals, Condition, ConditionView, Test, TestView,
};
use crate::record::{number_cell, number_of, text_cell, text_of, time_cell, Cell, CellView, Record};
use crate::text::{
    contains_pattern, contains_pattern_text, contains_text, lemma_contains_pattern, like_matches,
};
use crate::time::Timestamp;
use vstd::prelude::*;

verus! {

/// A task as the storage holds it.
#[derive(Debug, PartialEq, Eq)]
pub struct Task {
    task_id: i32,
    title: String,
    content: Option<String>,
    created_at: Option<Timestamp>,
    updated_at: Option<Timestamp>,
    user_id: Option<i32>,
}

/// A task as mathematics sees it.
pub struct TaskView {
    pub task_id: int,
    pub title: Seq<char>,
    pub content: Option<Seq<char>>,
    pub created_at: Option<Timestamp>,
    pub updated_at: Option<Timestamp>,
    pub user_id: Option<int>,
}

impl View for Task {
    type V = TaskView;

    closed spec fn view(&self) -> TaskView {
        TaskView {
            task_id: self.task_id as int,
            title: self.title@,
            content: text_of(self.content),
            created_at: self.created_at,
            updated_at: self.updated_at,
            user_id: number_of(self.user_id),
        }
    }
}

impl Task {
    pub fn new(
        task_id: i32,
        title: String,
        content: Option<String>,
        created_at: Option<Timestamp>,
        updated_at: Option<Timestamp>,
        user_id: Option<i32>,
    ) -> (r: Self)
        ensures
            r@ == (TaskView {
                task_id: task_id as int,
                title: title@,
                content: text_of(content),
                created_at,
                updated_at,
                user_id: number_of(user_id),
            }),
    {
        Task { task_id, title, content, created_at, updated_at, user_id }
    }

    pub fn task_id(&self) -> (r: i32)
        ensures
            r == self@.task_id,
    {
        self.task_id
    }

    pub fn title(&self) -> (r: &str)
        ensures
            r@ == self@.title,
    {
        self.title.as_str()
    }

    pub fn content(&self) -> (r: &Option<String>)
        ensures
            text_of(*r) == self@.content,
    {
        &self.content
    }

    pub fn created_at(&self) -> (r: Option<Timestamp>)
        ensures
            r == self@.created_at,
    {
        self.created_at
    }

    pub fn updated_at(&self) -> (r: Option<Timestamp>)
        ensures
            r == self@.updated_at,
    {
        self.updated_at
    }

    pub fn user_id(&self) -> (r: &Option<i32>)
        ensures
            number_of(*r) == self@.user_id,
    {
        &self.user_id
    }
}

impl Clone for Task {
    fn clone(&self) -> (r: Self)
        ensures
            r == *self,
    {
        Task {
            task_id: self.task_id,
            title: self.title.clone(),
            content: self.content.clone(),
            created_at: self.created_at,
            updated_at: self.updated_at,
            user_id: self.user_id,
        }
    }
}

/// What a creation brings: a task without an identifier.
#[derive(Debug, PartialEq, Eq)]
pub struct PostTask {
    title: String,
    content: Option<String>,
    created_at: Option<Timestamp>,
    updated_at: Option<Timestamp>,
    user_id: Option<i32>,
}

/// A task yet to be stored, as mathematics sees it.
pub struct PostTaskView {
    pub title: Seq<char>,
    pub content: Option<Seq<char>>,
    pub created_at: Option<Timestamp>,
    pub updated_at: Option<Timestamp>,
    pub user_id: Option<int>,
}

impl View for PostTask {
    type V = PostTaskView;

    closed spec fn view(&self) -> PostTaskView {
        PostTaskView {
            title: self.title@,
            content: text_of(self.content),
            created_at: self.created_at,
            updated_at: self.updated_at,
            user_id: number_of(self.user_id),
        }
    }
}

impl PostTask {
    pub fn new(
        title: String,
        content: Option<String>,
        created_at: Option<Timestamp>,
        updated_at: Option<Timestamp>,
        user_id: Option<i32>,
    ) -> (r: Self)
        ensures
            r@ == (PostTaskView {
                title: title@,
                content: text_of(content),
                created_at,
                updated_at,
                user_id: number_of(user_id),
            }),
    {
        PostTask { title, content, created_at, updated_at, user_id }
    }

    pub fn title(&self) -> (r: &str)
        ensures
            r@ == self@.title,
    {
        self.title.as_str()
    }

    pub fn content(&self) -> (r: &Option<String>)
        ensures
            text_of(*r) == self@.content,
    {
        &self.content
    }

    pub fn created_at(&self) -> (r: Option<Timestamp>)
        ensures
            r == self@.created_at,
    {
        self.created_at
    }

    pub fn updated_at(&self) -> (r: Option<Timestamp>)
        ensures
            r == self@.updated_at,
    {
        self.updated_at
    }

    pub fn user_id(&self) -> (r: &Option<i32>)
        ensures
            number_of(*r) == self@.user_id,
    {
        &self.user_id
    }
}

impl Clone for PostTask {
    fn clone(&self) -> (r: Self)
        ensures
            r == *self,
    {
        PostTask {
            title: self.title.clone(),
            content: self.content.clone(),
            created_at: self.created_at,
            updated_at: self.updated_at,
            user_id: self.user_id,
        }
    }
}

/// What an update brings: the fields of a task that may change.
#[derive(Debug, PartialEq, Eq)]
pub struct PatchTask {
    title: String,
    content: Option<String>,
    user_id: Option<i32>,
}

/// The patch of a task as mathematics sees it.
pub struct PatchTaskView {
    pub title: Seq<char>,
    pub content: Option<Seq<char>>,
    pub user_id: Option<int>,
}

impl View for PatchTask {
    type V = PatchTaskView;

    closed spec fn view(&self) -> PatchTaskView {
        PatchTaskView {
            title: self.title@,
            content: text_of(self.content),
            user_id: number_of(self.user_id),
        }
    }
}

impl PatchTask {
    pub fn new(
        title: String,
        content: Option<String>,
        user_id: Option<i32>,
    ) -> (r: Self)
        ensures
            r@ == (PatchTaskView {
                title: title@,
                content: text_of(content),
                user_id: number_of(user_id),
            }),
    {
        PatchTask { title, content, user_id }
    }

    pub fn title(&self) -> (r: &str)
        ensures
            r@ == self@.title,
    {
        self.title.as_str()
    }

    pub fn content(&self) -> (r: &Option<String>)
        ensures
            text_of(*r) == self@.content,
    {
        &self.content
    }

    pub fn user_id(&self) -> (r: &Option<i32>)
        ensures
            number_of(*r) == self@.user_id,
    {
        &self.user_id
    }
}

impl Clone for PatchTask {
    fn clone(&self) -> (r: Self)
        ensures
            r == *self,
    {
        PatchTask {
            title: self.title.clone(),
            content: self.content.clone(),
            user_id: self.user_id,
        }
    }
}

/// What an update writes into the row of a task: a value for every column
/// that may change, and the time of the change.
#[derive(Debug, PartialEq, Eq)]
pub struct TaskChanges {
    pub title: String,
    pub content: Option<String>,
    pub updated_at: Option<Timestamp>,
    pub user_id: Option<i32>,
}

/// What an update writes, as mathematics sees it.
pub struct TaskChangesView {
    pub title: Seq<char>,
    pub content: Option<Seq<char>>,
    pub updated_at: Option<Timestamp>,
    pub user_id: Option<int>,
}

impl View for TaskChanges {
    type V = TaskChangesView;

    open spec fn view(&self) -> TaskChangesView {
        TaskChangesView {
            title: self.title@,
            content: text_of(self.content),
            updated_at: self.updated_at,
            user_id: number_of(self.user_id),
        }
    }
}

impl PatchTaskView {
    /// What an update with this patch writes at the time `now`: every field
    /// of the patch, whether it differs from the stored one or not, and `now`
    /// as the time of the last change.
    pub open spec fn changes(self, now: Timestamp) -> TaskChangesView {
        TaskChangesView {
            title: self.title,
            content: self.content,
            updated_at: Some(now),
            user_id: self.user_id,
        }
    }
}

impl PatchTask {
    /// What an update with this patch writes at the time `now`.
    pub fn changes(&self, now: Timestamp) -> (r: TaskChanges)
        ensures
            r@ == self@.changes(now),
    {
        TaskChanges {
            title: self.title.clone(),
            content: self.content.clone(),
            updated_at: Some(now),
            user_id: self.user_id,
        }
    }
}

/// The columns of the task table.
#[derive(Clone, Copy, Debug, PartialEq, Eq, Structural)]
pub enum TaskColumn {
    TaskId,
    Title,
    Content,
    CreatedAt,
    UpdatedAt,
    UserId,
}

impl TaskView {
    /// What the task holds in `column`.
    pub open spec fn cell_at(self, column: TaskColumn) -> CellView {
        match column {
            TaskColumn::TaskId => CellView::Int(self.task_id),
            TaskColumn::Title => CellView::Text(self.title),
            TaskColumn::Content => text_cell(self.content),
            TaskColumn::CreatedAt => time_cell(self.created_at),
            TaskColumn::UpdatedAt => time_cell(self.updated_at),
            TaskColumn::UserId => number_cell(self.user_id),
        }
    }

    /// The task that `post` makes under the identifier `id`: every field as
    /// the creation brings it.
    pub open spec fn created(post: PostTaskView, id: int) -> TaskView {
        TaskView {
            task_id: id,
            title: post.title,
            content: post.content,
            created_at: post.created_at,
            updated_at: post.updated_at,
            user_id: post.user_id,
        }
    }

    /// The row after `changes` were written into it: the columns that the
    /// changes name take their values, the others stay.
    pub open spec fn changed(self, changes: TaskChangesView) -> TaskView {
        TaskView {
            task_id: self.task_id,
            title: changes.title,
            content: changes.content,
            created_at: self.created_at,
            updated_at: changes.updated_at,
            user_id: changes.user_id,
        }
    }

    /// The task after `patch` was applied at the time `now`: every field of
    /// the patch overwrites the stored one, the time of the last change
    /// becomes `now`, and the identifier and the time of creation stay.
    pub open spec fn revised(self, patch: PatchTaskView, now: Timestamp) -> TaskView {
        self.changed(patch.changes(now))
    }
}

impl Record for Task {
    type Column = TaskColumn;

    open spec fn key(&self) -> int {
        self@.task_id
    }

    open spec fn touched(&self) -> Option<Timestamp> {
        self@.updated_at
    }

    open spec fn cell_at(&self, column: TaskColumn) -> CellView {
        self@.cell_at(column)
    }

    fn record_id(&self) -> (r: i32) {
        self.task_id
    }

    fn last_touched(&self) -> (r: Option<Timestamp>) {
        self.updated_at
    }

    fn cell(&self, column: TaskColumn) -> (r: Cell<'_>) {
        match column {
            TaskColumn::TaskId => Cell::Int(self.task_id),
            TaskColumn::Title => Cell::Text(self.title.as_str()),
            TaskColumn::Content => Cell::of_text(&self.content),
            TaskColumn::CreatedAt => Cell::of_time(self.created_at),
            TaskColumn::UpdatedAt => Cell::of_time(self.updated_at),
            TaskColumn::UserId => Cell::of_number(self.user_id),
        }
    }

    fn duplicate(&self) -> (r: Self) {
        self.clone()
    }
}

/// The filter of a task search. A field that is absent does not constrain
/// the search; the fields that are there must all hold.
#[derive(Debug, PartialEq, Eq)]
pub struct TaskFilter {
    pub id: Option<i32>,
    pub title: Option<String>,
    pub content: Option<String>,
    pub created_at_min: Option<Timestamp>,
    pub created_at_max: Option<Timestamp>,
    pub updated_at_min: Option<Timestamp>,
    pub updated_at_max: Option<Timestamp>,
    pub user_id: Option<i32>,
}

/// The filter of a task search as mathematics sees it.
pub struct TaskFilterView {
    pub id: Option<int>,
    pub title: Option<Seq<char>>,
    pub content: Option<Seq<char>>,
    pub created_at_min: Option<Timestamp>,
    pub created_at_max: Option<Timestamp>,
    pub updated_at_min: Option<Timestamp>,
    pub updated_at_max: Option<Timestamp>,
    pub user_id: Option<int>,
}

impl View for TaskFilter {
    type V = TaskFilterView;

    open spec fn view(&self) -> TaskFilterView {
        TaskFilterView {
            id: number_of(self.id),
            title: text_of(self.title),
            content: text_of(self.content),
            created_at_min: self.created_at_min,
            created_at_max: self.created_at_max,
            updated_at_min: self.updated_at_min,
            updated_at_max: self.updated_at_max,
            user_id: number_of(self.user_id),
        }
    }
}

impl TaskFilterView {
    /// The conditions that the filter amounts to: one for each field that is
    /// there, in the order of the fields.
    pub open spec fn conditions(self) -> Seq<ConditionView<TaskColumn>> {
        when_equals(TaskColumn::TaskId, self.id) + when_contains(TaskColumn::Title, self.title)
            + when_contains(TaskColumn::Content, self.content) + when_at_least(
            TaskColumn::CreatedAt,
            self.created_at_min,
        ) + when_at_most(TaskColumn::CreatedAt, self.created_at_max) + when_at_least(
            TaskColumn::UpdatedAt,
            self.updated_at_min,
        ) + when_at_most(TaskColumn::UpdatedAt, self.updated_at_max) + when_equals(
            TaskColumn::UserId,
            self.user_id,
        )
    }

    /// Whether the filter lets `task` through: each field that is there must
    /// hold of the task, and a field of the task that is empty holds of
    /// nothing.
    pub open spec fn admits(self, task: TaskView) -> bool {
        &&& self.id matches Some(id) ==> task.task_id == id
        &&& self.title matches Some(part) ==> contains_text(task.title, part)
        &&& self.content matches Some(part) ==> holds_part(task.content, part)
        &&& self.created_at_min matches Some(bound) ==> is_at_least(task.created_at, bound)
        &&& self.created_at_max matches Some(bound) ==> is_at_most(task.created_at, bound)
        &&& self.updated_at_min matches Some(bound) ==> is_at_least(task.updated_at, bound)
        &&& self.updated_at_max matches Some(bound) ==> is_at_most(task.updated_at, bound)
        &&& self.user_id matches Some(id) ==> task.user_id == Some(id)
    }
}

impl TaskFilterView {
    /// Whether `refined` constrains at least what this filter does: every
    /// field that is there stands in `refined` with the same value, and
    /// `refined` may hold more.
    pub open spec fn is_refined_by(self, refined: TaskFilterView) -> bool {
        &&& self.id is Some ==> refined.id == self.id
        &&& self.title is Some ==> refined.title == self.title
        &&& self.content is Some ==> refined.content == self.content
        &&& self.created_at_min is Some ==> refined.created_at_min == self.created_at_min
        &&& self.created_at_max is Some ==> refined.created_at_max == self.created_at_max
        &&& self.updated_at_min is Some ==> refined.updated_at_min == self.updated_at_min
        &&& self.updated_at_max is Some ==> refined.updated_at_max == self.updated_at_max
        &&& self.user_id is Some ==> refined.user_id == self.user_id
    }
}

impl TaskFilter {
    /// The conditions that the filter amounts to.
    pub fn conditions(&self) -> (r: Vec<Condition<TaskColumn>>)
        ensures
            condition_views(r@) == self@.conditions(),
    {
        let mut out: Vec<Condition<TaskColumn>> = Vec::new();
        assert(condition_views(out@) =~= Seq::empty());
        push_equals(&mut out, TaskColumn::TaskId, &self.id);
        push_contains(&mut out, TaskColumn::Title, &self.title);
        push_contains(&mut out, TaskColumn::Content, &self.content);
        push_at_least(&mut out, TaskColumn::CreatedAt, &self.created_at_min);
        push_at_most(&mut out, TaskColumn::CreatedAt, &self.created_at_max);
        push_at_least(&mut out, TaskColumn::UpdatedAt, &self.updated_at_min);
        push_at_most(&mut out, TaskColumn::UpdatedAt, &self.updated_at_max);
        push_equals(&mut out, TaskColumn::UserId, &self.user_id);
        assert(condition_views(out@) =~= self@.conditions());
        out
    }
}

/// One condition on the task table in the form in which a storage takes it:
/// the column and the test in one, a text test with its pattern made.
#[derive(Debug, PartialEq, Eq)]
pub enum TaskPredicate {
    TaskIdIs(i32),
    TitleLike(String),
    ContentLike(String),
    CreatedNotBefore(Timestamp),
    CreatedNotAfter(Timestamp),
    UpdatedNotBefore(Timestamp),
    UpdatedNotAfter(Timestamp),
    UserIdIs(i32),
    /// A test that nothing in its column can pass.
    Nothing,
}

/// A condition in the form of the storage, as mathematics sees it.
pub enum TaskPredicateView {
    TaskIdIs(int),
    TitleLike(Seq<char>),
    ContentLike(Seq<char>),
    CreatedNotBefore(Timestamp),
    CreatedNotAfter(Timestamp),
    UpdatedNotBefore(Timestamp),
    UpdatedNotAfter(Timestamp),
    UserIdIs(int),
    Nothing,
}

impl View for TaskPredicate {
    type V = TaskPredicateView;

    open spec fn view(&self) -> TaskPredicateView {
        match *self {
            TaskPredicate::TaskIdIs(v) => TaskPredicateView::TaskIdIs(v as int),
            TaskPredicate::TitleLike(v) => TaskPredicateView::TitleLike(v@),
            TaskPredicate::ContentLike(v) => TaskPredicateView::ContentLike(v@),
            TaskPredicate::CreatedNotBefore(v) => TaskPredicateView::CreatedNotBefore(v),
            TaskPredicate::CreatedNotAfter(v) => TaskPredicateView::CreatedNotAfter(v),
            TaskPredicate::UpdatedNotBefore(v) => TaskPredicateView::UpdatedNotBefore(v),
            TaskPredicate::UpdatedNotAfter(v) => TaskPredicateView::UpdatedNotAfter(v),
            TaskPredicate::UserIdIs(v) => TaskPredicateView::UserIdIs(v as int),
            TaskPredicate::Nothing => TaskPredicateView::Nothing,
        }
    }
}

impl TaskPredicateView {
    /// The form that the storage takes `condition` in. A part of a text
    /// becomes the pattern that finds it; a test that does not go with
    /// its column becomes the test that nothing passes.
    pub open spec fn of(condition: ConditionView<TaskColumn>) -> TaskPredicateView {
        match (condition.column, condition.test) {
            (TaskColumn::TaskId, TestView::Equals(v)) => TaskPredicateView::TaskIdIs(v),
            (TaskColumn::Title, TestView::Contains(v)) => TaskPredicateView::TitleLike(contains_pattern_text(v)),
            (TaskColumn::Content, TestView::Contains(v)) => TaskPredicateView::ContentLike(contains_pattern_text(v)),
            (TaskColumn::CreatedAt, TestView::AtLeast(v)) => TaskPredicateView::CreatedNotBefore(v),
            (TaskColumn::CreatedAt, TestView::AtMost(v)) => TaskPredicateView::CreatedNotAfter(v),
            (TaskColumn::UpdatedAt, TestView::AtLeast(v)) => TaskPredicateView::UpdatedNotBefore(v),
            (TaskColumn::UpdatedAt, TestView::AtMost(v)) => TaskPredicateView::UpdatedNotAfter(v),
            (TaskColumn::UserId, TestView::Equals(v)) => TaskPredicateView::UserIdIs(v),
            _ => TaskPredicateView::Nothing,
        }
    }

    /// Whether the condition holds of `task`, read the way a storage reads
    /// it: numbers and times by their order, texts by their pattern, and an
    /// empty column holds of nothing.
    pub open spec fn holds(self, task: TaskView) -> bool {
        match self {
            TaskPredicateView::TaskIdIs(v) => task.task_id == v,
            TaskPredicateView::TitleLike(v) => like_matches(v, task.title),
            TaskPredicateView::ContentLike(v) => task.content matches Some(text) && like_matches(v, text),
            TaskPredicateView::CreatedNotBefore(v) => is_at_least(task.created_at, v),
            TaskPredicateView::CreatedNotAfter(v) => is_at_most(task.created_at, v),
            TaskPredicateView::UpdatedNotBefore(v) => is_at_least(task.updated_at, v),
            TaskPredicateView::UpdatedNotAfter(v) => is_at_most(task.updated_at, v),
            TaskPredicateView::UserIdIs(v) => task.user_id == Some(v),
            TaskPredicateView::Nothing => false,
        }
    }
}

impl TaskPredicate {
    /// The form that the storage takes `condition` in.
    pub fn of(condition: &Condition<TaskColumn>) -> (r: Self)
        ensures
            r@ == TaskPredicateView::of(condition@),
    {
        match (condition.column, &condition.test) {
            (TaskColumn::TaskId, Test::Equals(v)) => TaskPredicate::TaskIdIs(*v),
            (TaskColumn::Title, Test::Contains(part)) => {
                TaskPredicate::TitleLike(contains_pattern(part.as_str()))
            },
            (TaskColumn::Content, Test::Contains(part)) => {
                TaskPredicate::ContentLike(contains_pattern(part.as_str()))
            },
            (TaskColumn::CreatedAt, Test::AtLeast(v)) => TaskPredicate::CreatedNotBefore(*v),
            (TaskColumn::CreatedAt, Test::AtMost(v)) => TaskPredicate::CreatedNotAfter(*v),
            (TaskColumn::UpdatedAt, Test::AtLeast(v)) => TaskPredicate::UpdatedNotBefore(*v),
            (TaskColumn::UpdatedAt, Test::AtMost(v)) => TaskPredicate::UpdatedNotAfter(*v),
            (TaskColumn::UserId, Test::Equals(v)) => TaskPredicate::UserIdIs(*v),
            _ => TaskPredicate::Nothing,
        }
    }
}

/// The form in which the storage takes a condition holds of exactly the
/// tasks that the condition itself holds of: the pattern finds the part,
/// whatever characters the part is made of, and a test that does not go
/// with its column holds of none.
pub proof fn lemma_task_predicate(condition: ConditionView<TaskColumn>, task: TaskView)
    ensures
        TaskPredicateView::of(condition).holds(task) <==> passes(
            condition.test,
            task.cell_at(condition.column),
        ),
{
    match (condition.test, task.cell_at(condition.column)) {
        (TestView::Contains(part), CellView::Text(text)) => {
            lemma_contains_pattern(part, text);
        },
        _ => {},
    }
}

/// A task meets the conditions of a filter exactly when the filter lets it
/// through.
pub proof fn lemma_task_filter_meaning(filter: TaskFilterView, task: Task)
    ensures
        satisfies(task, filter.conditions()) <==> filter.admits(task@),
{
    let c1 = when_equals(TaskColumn::TaskId, filter.id);
    let c2 = c1 + when_contains(TaskColumn::Title, filter.title);
    let c3 = c2 + when_contains(TaskColumn::Content, filter.content);
    let c4 = c3 + when_at_least(TaskColumn::CreatedAt, filter.created_at_min);
    let c5 = c4 + when_at_most(TaskColumn::CreatedAt, filter.created_at_max);
    let c6 = c5 + when_at_least(TaskColumn::UpdatedAt, filter.updated_at_min);
    let c7 = c6 + when_at_most(TaskColumn::UpdatedAt, filter.updated_at_max);
    lemma_satisfies_both(task, c1, when_contains(TaskColumn::Title, filter.title));
    lemma_satisfies_both(task, c2, when_contains(TaskColumn::Content, filter.content));
    lemma_satisfies_both(task, c3, when_at_least(TaskColumn::CreatedAt, filter.created_at_min));
    lemma_satisfies_both(task, c4, when_at_most(TaskColumn::CreatedAt, filter.created_at_max));
    lemma_satisfies_both(task, c5, when_at_least(TaskColumn::UpdatedAt, filter.updated_at_min));
    lemma_satisfies_both(task, c6, when_at_most(TaskColumn::UpdatedAt, filter.updated_at_max));
    lemma_satisfies_both(task, c7, when_equals(TaskColumn::UserId, filter.user_id));
    lemma_satisfies_field(task, TaskColumn::TaskId);
    lemma_satisfies_field(task, TaskColumn::Title);
    lemma_satisfies_field(task, TaskColumn::Content);
    lemma_satisfies_field(task, TaskColumn::CreatedAt);
    lemma_satisfies_field(task, TaskColumn::UpdatedAt);
    lemma_satisfies_field(task, TaskColumn::UserId);
}

/// A filter with one more field, or with several more, never finds more
/// tasks than the filter without them.
pub proof fn lemma_refined_task_filter_finds_fewer(
    rows: Seq<Task>,
    filter: TaskFilterView,
    refined: TaskFilterView,
)
    requires
        filter.is_refined_by(refined),
    ensures
        forall|task: Task| #[trigger]
            satisfies(task, refined.conditions()) ==> satisfies(task, filter.conditions()),
        matching(rows, refined.conditions()).len() <= matching(rows, filter.conditions()).len(),
{
    assert forall|task: Task| #[trigger]
        satisfies(task, refined.conditions()) implies satisfies(task, filter.conditions()) by {
        lemma_task_filter_meaning(refined, task);
        lemma_task_filter_meaning(filter, task);
    }
    lemma_narrower_finds_fewer(rows, filter.conditions(), refined.conditions());
}

/// The mapper of the tasks.
pub struct TaskMapper {}

impl MapperCRUD for TaskMapper {
    type Item = Task;

    type PostItem = PostTask;

    type PatchItem = PatchTask;

    type Filter = TaskFilter;

    open spec fn is_created(item: Task, post: PostTask, id: int) -> bool {
        item@ == TaskView::created(post@, id)
    }

    open spec fn is_revised(item: Task, previous: Task, patch: PatchTask, now: Timestamp) -> bool {
        item@ == previous@.revised(patch@, now)
    }

    open spec fn filter_conditions(filter: TaskFilter) -> Seq<ConditionView<TaskColumn>> {
        filter@.conditions()
    }

    fn create(post: &PostTask, id: i32) -> (r: Task) {
        let r = Task {
            task_id: id,
            title: post.title.clone(),
            content: post.content.clone(),
            created_at: post.created_at,
            updated_at: post.updated_at,
            user_id: post.user_id,
        };
        assert(r.key() == id);
        r
    }

    fn revise(previous: &Task, patch: &PatchTask, now: Timestamp) -> (r: Task) {
        let changes = patch.changes(now);
        let r = Task {
            task_id: previous.task_id,
            title: changes.title,
            content: changes.content,
            created_at: previous.created_at,
            updated_at: changes.updated_at,
            user_id: changes.user_id,
        };
        assert(r.key() == previous.key() && r.touched() == Some(now));
        r
    }

    fn conditions(filter: &TaskFilter) -> (r: Vec<Condition<TaskColumn>>) {
        filter.conditions()
    }
}

} // verus!
