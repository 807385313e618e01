use crab_rocket::error::MapperError;
use crab_rocket::mapper::MapperCRUD;
use crab_rocket::pagination::PaginationParam;
use crab_rocket::query::{Condition, Test};
use crab_rocket::request::RequestParam;
use crab_rocket::response::Data;
use crab_rocket::table::Table;
use crab_rocket::task::{PatchTask, PostTask, Task, TaskColumn, TaskFilter, TaskMapper};
use crab_rocket::time::Timestamp;

fn stamp(naive: chrono::NaiveDateTime) -> Timestamp {
    let utc = naive.and_utc();
    Timestamp::new(utc.timestamp(), utc.timestamp_subsec_nanos())
}

fn at(secs: i64) -> Option<Timestamp> {
    Some(Timestamp::new(secs, 0))
}

fn post(title: &str, content: Option<&str>, touched: Option<Timestamp>, user: Option<i32>) -> PostTask {
    PostTask::new(title.to_string(), content.map(str::to_string), touched, touched, user)
}

fn no_filter() -> TaskFilter {
    TaskFilter {
        id: None,
        title: None,
        content: None,
        created_at_min: None,
        created_at_max: None,
        updated_at_min: None,
        updated_at_max: None,
        user_id: None,
    }
}

fn page(limit: i32, offset: i32, filter: Option<TaskFilter>) -> RequestParam<PaginationParam, TaskFilter> {
    RequestParam::new(PaginationParam::new(Some(limit), Some(offset)), filter)
}

fn titles(data: &Data<Vec<Task>>) -> Vec<String> {
    data.data.iter().map(|task| task.title().to_string()).collect()
}

/// Five tasks: ids 1 to 5, touched at 30, 10, 50, never, 30.
fn seeded() -> Table<Task> {
    let mut conn = Table::new();
    for (title, content, touched, user) in [
        ("write report", Some("quarterly numbers"), at(30), Some(4)),
        ("call bob", None, at(10), Some(4)),
        ("Bob Marley playlist", Some("for the office"), at(50), Some(7)),
        ("untimed", Some("no stamp"), None, None),
        ("report to bob", Some("numbers again"), at(30), Some(7)),
    ] {
        TaskMapper::add_single(&mut conn, &post(title, content, touched, user)).unwrap();
    }
    conn
}

#[test]
fn test_insert_task() {
    let mut conn: Table<Task> = Table::new();
    let task = PostTask::new(
        "title".to_string().into(),
        "new content".to_string().into(),
        Some(stamp(chrono::Local::now().naive_utc())),
        Some(stamp(chrono::Local::now().naive_utc())),
        Some(4),
    );
    let inserted = TaskMapper::add_single(&mut conn, &task).unwrap();
    assert_eq!(inserted.task_id(), 1);
    assert_eq!(inserted.title(), "title");
    assert_eq!(inserted.content(), &Some("new content".to_string()));
    assert_eq!(inserted.created_at(), task.created_at());
    assert_eq!(inserted.updated_at(), task.updated_at());
    assert_eq!(inserted.user_id(), &Some(4));
    assert_eq!(conn.len(), 1);
}

#[test]
fn test_fetch_all_tasks() {
    let mut conn = seeded();
    let param = RequestParam::new(PaginationParam::demo(), None);
    let all_tasks = TaskMapper::get_all(&mut conn, &param).unwrap();
    let mut pagination = serde_json::Map::new();
    pagination.insert("page".to_string(), serde_json::Value::from(all_tasks.pagination.page));
    pagination
        .insert("per_page".to_string(), serde_json::Value::from(all_tasks.pagination.per_page));
    pagination.insert(
        "total_pages".to_string(),
        serde_json::Value::from(all_tasks.pagination.total_pages),
    );
    pagination.insert(
        "total_count".to_string(),
        serde_json::Value::from(all_tasks.pagination.total_count),
    );
    pagination.insert("next".to_string(), serde_json::Value::from(all_tasks.pagination.next.clone()));
    pagination.insert(
        "previous".to_string(),
        serde_json::Value::from(all_tasks.pagination.previous.clone()),
    );
    let mut body = serde_json::Map::new();
    body.insert("data".to_string(), serde_json::Value::from(titles(&all_tasks)));
    body.insert("pagination".to_string(), serde_json::Value::Object(pagination));
    let json_string = serde_json::to_string_pretty(&serde_json::Value::Object(body)).unwrap();
    println!("{json_string:?}");
    assert!(json_string.contains("\"next\": \"?limit=10&offset=10\""));
    assert!(json_string.contains("\"previous\": \"?limit=10&offset=-10\""));
    assert!(json_string.contains("\"total_count\": 5"));
    assert_eq!(all_tasks.data.len(), 5);
}

#[test]
fn test_fetch_task_by_id() {
    let mut conn = seeded();
    let t_id = 3;
    match TaskMapper::get_by_id(&mut conn, t_id) {
        Ok(task) => {
            println!("{task:?}");
            assert_eq!(task.task_id(), 3);
            assert_eq!(task.title(), "Bob Marley playlist");
        }
        Err(_) => panic!("err"),
    }
}

#[test]
fn test_update_task_by_id() {
    let mut conn = seeded();
    let t_id = 1;
    let patch_task: PatchTask = PatchTask::new(
        "title for put 1".to_string(),
        "new content for put".to_string().into(),
        Some(4),
    );
    match TaskMapper::update_by_id(&mut conn, t_id, &patch_task) {
        Ok(res) => {
            println!("{res:?}");
            assert_eq!(res.task_id(), 1);
            assert_eq!(res.title(), "title for put 1");
            assert_eq!(res.content(), &Some("new content for put".to_string()));
            assert_eq!(res.user_id(), &Some(4));
            assert_eq!(res.created_at(), at(30));
            assert!(res.updated_at().is_some());
            assert_eq!(TaskMapper::get_by_id(&mut conn, 1).unwrap(), res);
        }
        Err(_) => panic!("Err"),
    }
}

#[test]
fn test_delete_task_by_id() {
    let mut conn = seeded();
    let t_id = 2;
    match TaskMapper::delete_by_id(&mut conn, t_id) {
        Ok(res) => {
            println!("{res:?}");
            assert_eq!(res.task_id(), 2);
            assert_eq!(res.title(), "call bob");
            assert_eq!(conn.len(), 4);
        }
        Err(_) => panic!("Err"),
    }
}

#[test]
fn get_by_id_of_an_id_that_is_not_there_is_not_found() {
    let mut conn = seeded();
    assert_eq!(TaskMapper::get_by_id(&mut conn, 9999), Err(MapperError::NotFound));
    assert_eq!(TaskMapper::get_by_id(&mut conn, 0), Err(MapperError::NotFound));
    assert_eq!(TaskMapper::get_by_id(&mut conn, -1), Err(MapperError::NotFound));
    let mut empty: Table<Task> = Table::new();
    assert_eq!(TaskMapper::get_by_id(&mut empty, 1), Err(MapperError::NotFound));
}

#[test]
fn delete_then_get_is_not_found() {
    let mut conn = seeded();
    let gone = TaskMapper::delete_by_id(&mut conn, 3).unwrap();
    assert_eq!(gone.title(), "Bob Marley playlist");
    assert_eq!(TaskMapper::get_by_id(&mut conn, 3), Err(MapperError::NotFound));
    assert_eq!(TaskMapper::delete_by_id(&mut conn, 3), Err(MapperError::NotFound));
    assert_eq!(TaskMapper::get_by_id(&mut conn, 2).unwrap().title(), "call bob");
    assert_eq!(TaskMapper::get_by_id(&mut conn, 4).unwrap().title(), "untimed");
    assert_eq!(conn.len(), 4);
}

#[test]
fn an_identifier_is_not_handed_out_twice() {
    let mut conn = seeded();
    TaskMapper::delete_by_id(&mut conn, 5).unwrap();
    let next = TaskMapper::add_single(&mut conn, &post("new", None, None, None)).unwrap();
    assert_eq!(next.task_id(), 6);
}

#[test]
fn add_then_get_yields_the_stored_row() {
    let mut conn = seeded();
    let stored =
        TaskMapper::add_single(&mut conn, &post("sixth", Some("text"), at(99), Some(1))).unwrap();
    assert_eq!(stored.task_id(), 6);
    let fetched = TaskMapper::get_by_id(&mut conn, stored.task_id()).unwrap();
    assert_eq!(fetched, stored);
    assert_eq!(fetched, Task::new(6, "sixth".to_string(), Some("text".to_string()), at(99), at(99), Some(1)));
}

#[test]
fn update_overwrites_every_field_of_the_patch() {
    let mut conn = seeded();
    let now = Timestamp::new(1000, 1);
    let patch = PatchTask::new("renamed".to_string(), None, None);
    let updated = TaskMapper::update_by_id_at(&mut conn, 1, &patch, now).unwrap();
    assert_eq!(updated, Task::new(1, "renamed".to_string(), None, at(30), Some(now), None));
    assert_eq!(TaskMapper::get_by_id(&mut conn, 1).unwrap(), updated);
    assert_eq!(conn.len(), 5);
}

#[test]
fn update_stamps_the_row_even_if_nothing_else_changes() {
    let mut conn = seeded();
    let before = TaskMapper::get_by_id(&mut conn, 2).unwrap();
    let same = PatchTask::new(
        before.title().to_string(),
        before.content().clone(),
        *before.user_id(),
    );
    let now = Timestamp::new(11, 0);
    let after = TaskMapper::update_by_id_at(&mut conn, 2, &same, now).unwrap();
    assert_eq!(after.updated_at(), Some(now));
    assert!(after.updated_at().unwrap().is_at_or_after(&before.updated_at().unwrap()));
    assert_eq!(after.title(), before.title());
    assert_eq!(after.content(), before.content());
    assert_eq!(after.user_id(), before.user_id());
    assert_eq!(after.created_at(), before.created_at());
}

#[test]
fn update_with_the_clock_stamps_with_the_time_now() {
    let mut conn = seeded();
    let patch = PatchTask::new("t".to_string(), None, None);
    let low = chrono::Utc::now().timestamp() + 28800;
    let updated = TaskMapper::update_by_id(&mut conn, 4, &patch).unwrap();
    let high = chrono::Utc::now().timestamp() + 28800;
    let stamp = updated.updated_at().unwrap();
    assert!(low <= stamp.secs && stamp.secs <= high);
}

#[test]
fn update_of_an_id_that_is_not_there_is_not_found() {
    let mut conn = seeded();
    let patch = PatchTask::new("t".to_string(), None, None);
    assert_eq!(TaskMapper::update_by_id(&mut conn, 77, &patch), Err(MapperError::NotFound));
    assert_eq!(
        TaskMapper::update_by_id_at(&mut conn, 77, &patch, Timestamp::new(0, 0)),
        Err(MapperError::NotFound)
    );
    assert_eq!(conn.len(), 5);
    assert_eq!(TaskMapper::get_by_id(&mut conn, 1).unwrap().title(), "write report");
}

#[test]
fn get_all_shows_the_most_recently_touched_first() {
    let mut conn = seeded();
    let all = TaskMapper::get_all(&mut conn, &page(10, 0, None)).unwrap();
    assert_eq!(
        titles(&all),
        ["untimed", "Bob Marley playlist", "write report", "report to bob", "call bob"]
    );
    assert_eq!(all.pagination.page, 1);
    assert_eq!(all.pagination.per_page, 10);
    assert_eq!(all.pagination.total_pages, 1);
    assert_eq!(all.pagination.total_count, 5);
}

#[test]
fn get_all_cuts_the_page_that_holds_the_offset() {
    let mut conn = seeded();
    let first = TaskMapper::get_all(&mut conn, &page(2, 0, None)).unwrap();
    assert_eq!(titles(&first), ["untimed", "Bob Marley playlist"]);
    assert_eq!(first.pagination.total_pages, 3);
    let second = TaskMapper::get_all(&mut conn, &page(2, 2, None)).unwrap();
    assert_eq!(titles(&second), ["write report", "report to bob"]);
    assert_eq!(second.pagination.page, 2);
    let same_page = TaskMapper::get_all(&mut conn, &page(2, 3, None)).unwrap();
    assert_eq!(titles(&same_page), ["write report", "report to bob"]);
    assert_eq!(same_page.pagination.page, 2);
    assert_eq!(same_page.pagination.next.as_deref(), Some("?limit=2&offset=4"));
    assert_eq!(same_page.pagination.previous.as_deref(), Some("?limit=2&offset=0"));
    let last = TaskMapper::get_all(&mut conn, &page(2, 4, None)).unwrap();
    assert_eq!(titles(&last), ["call bob"]);
    let past = TaskMapper::get_all(&mut conn, &page(2, 6, None)).unwrap();
    assert_eq!(titles(&past), Vec::<String>::new());
    assert_eq!(past.pagination.page, 4);
    assert_eq!(past.pagination.total_count, 5);
}

#[test]
fn get_all_twice_gives_the_same_envelope() {
    let mut conn = seeded();
    let param = page(3, 3, None);
    let first = TaskMapper::get_all(&mut conn, &param).unwrap();
    let second = TaskMapper::get_all(&mut conn, &param).unwrap();
    assert_eq!(first, second);
    assert_eq!(conn.len(), 5);
}

#[test]
fn get_all_ignores_the_filter() {
    let mut conn = seeded();
    let filter = TaskFilter { title: Some("bob".to_string()), ..no_filter() };
    let all = TaskMapper::get_all(&mut conn, &page(10, 0, Some(filter))).unwrap();
    assert_eq!(all.pagination.total_count, 5);
    assert_eq!(all.data.len(), 5);
}

#[test]
fn listing_refuses_a_request_that_describes_no_page() {
    let mut conn = seeded();
    assert_eq!(
        TaskMapper::get_all(&mut conn, &page(0, 0, None)),
        Err(MapperError::DivisionByZero)
    );
    assert_eq!(
        TaskMapper::filter(&mut conn, &page(0, 0, Some(no_filter()))),
        Err(MapperError::DivisionByZero)
    );
    assert_eq!(
        TaskMapper::get_all(&mut conn, &page(-5, 0, None)),
        Err(MapperError::InvalidPagination)
    );
    assert_eq!(
        TaskMapper::filter(&mut conn, &page(5, -1, None)),
        Err(MapperError::InvalidPagination)
    );
}

#[test]
fn filter_without_a_filter_is_get_all() {
    let mut conn = seeded();
    let param = page(2, 2, None);
    let listed = TaskMapper::get_all(&mut conn, &param).unwrap();
    let searched = TaskMapper::filter(&mut conn, &param).unwrap();
    assert_eq!(listed, searched);
    let empty = TaskMapper::filter(&mut conn, &page(2, 2, Some(no_filter()))).unwrap();
    assert_eq!(listed, empty);
}

#[test]
fn filter_by_a_part_of_the_title_is_case_sensitive() {
    let mut conn = seeded();
    let filter = TaskFilter { title: Some("bob".to_string()), ..no_filter() };
    let found = TaskMapper::filter(&mut conn, &page(10, 0, Some(filter))).unwrap();
    assert_eq!(titles(&found), ["report to bob", "call bob"]);
    assert_eq!(found.pagination.total_count, 2);
    assert_eq!(found.pagination.total_pages, 1);
    let filter = TaskFilter { title: Some("Bob".to_string()), ..no_filter() };
    let found = TaskMapper::filter(&mut conn, &page(10, 0, Some(filter))).unwrap();
    assert_eq!(titles(&found), ["Bob Marley playlist"]);
}

#[test]
fn filter_counts_the_rows_that_match_not_the_table() {
    let mut conn = seeded();
    let filter = TaskFilter { user_id: Some(7), ..no_filter() };
    let found = TaskMapper::filter(&mut conn, &page(1, 1, Some(filter))).unwrap();
    assert_eq!(titles(&found), ["report to bob"]);
    assert_eq!(found.pagination.total_count, 2);
    assert_eq!(found.pagination.total_pages, 2);
    assert_eq!(found.pagination.page, 2);
}

#[test]
fn filter_fields_hold_together() {
    let mut conn = seeded();
    let filter =
        TaskFilter { title: Some("report".to_string()), user_id: Some(7), ..no_filter() };
    let found = TaskMapper::filter(&mut conn, &page(10, 0, Some(filter))).unwrap();
    assert_eq!(titles(&found), ["report to bob"]);
    let filter = TaskFilter { id: Some(1), user_id: Some(7), ..no_filter() };
    let found = TaskMapper::filter(&mut conn, &page(10, 0, Some(filter))).unwrap();
    assert_eq!(found.data.len(), 0);
    assert_eq!(found.pagination.total_count, 0);
    assert_eq!(found.pagination.total_pages, 0);
}

#[test]
fn filter_by_identifier_and_by_content() {
    let mut conn = seeded();
    let filter = TaskFilter { id: Some(4), ..no_filter() };
    let found = TaskMapper::filter(&mut conn, &page(10, 0, Some(filter))).unwrap();
    assert_eq!(titles(&found), ["untimed"]);
    let filter = TaskFilter { content: Some("numbers".to_string()), ..no_filter() };
    let found = TaskMapper::filter(&mut conn, &page(10, 0, Some(filter))).unwrap();
    assert_eq!(titles(&found), ["write report", "report to bob"]);
    let filter = TaskFilter { content: Some("".to_string()), ..no_filter() };
    let found = TaskMapper::filter(&mut conn, &page(10, 0, Some(filter))).unwrap();
    assert_eq!(found.pagination.total_count, 4);
}

#[test]
fn time_ranges_include_their_bounds_and_skip_empty_fields() {
    let mut conn = seeded();
    let filter = TaskFilter { updated_at_min: at(30), ..no_filter() };
    let found = TaskMapper::filter(&mut conn, &page(10, 0, Some(filter))).unwrap();
    assert_eq!(titles(&found), ["Bob Marley playlist", "write report", "report to bob"]);
    let filter = TaskFilter { updated_at_max: at(30), ..no_filter() };
    let found = TaskMapper::filter(&mut conn, &page(10, 0, Some(filter))).unwrap();
    assert_eq!(titles(&found), ["write report", "report to bob", "call bob"]);
    let filter = TaskFilter { created_at_min: at(11), created_at_max: at(49), ..no_filter() };
    let found = TaskMapper::filter(&mut conn, &page(10, 0, Some(filter))).unwrap();
    assert_eq!(titles(&found), ["write report", "report to bob"]);
    let filter = TaskFilter { created_at_min: at(i64::MIN), ..no_filter() };
    let found = TaskMapper::filter(&mut conn, &page(10, 0, Some(filter))).unwrap();
    assert_eq!(found.pagination.total_count, 4);
}

#[test]
fn one_more_filter_field_never_finds_more() {
    let mut conn = seeded();
    let count = |conn: &mut Table<Task>, filter: TaskFilter| {
        TaskMapper::filter(conn, &page(10, 0, Some(filter))).unwrap().pagination.total_count
    };
    let none = count(&mut conn, no_filter());
    let one = count(&mut conn, TaskFilter { title: Some("o".to_string()), ..no_filter() });
    let two = count(
        &mut conn,
        TaskFilter { title: Some("o".to_string()), user_id: Some(4), ..no_filter() },
    );
    let three = count(
        &mut conn,
        TaskFilter {
            title: Some("o".to_string()),
            user_id: Some(4),
            updated_at_min: at(20),
            ..no_filter()
        },
    );
    assert_eq!((none, one, two, three), (5, 4, 2, 1));
    assert!(three <= two && two <= one && one <= none);
}

#[test]
fn filter_conditions_follow_the_order_of_the_fields() {
    let filter = TaskFilter {
        id: Some(3),
        title: Some("a".to_string()),
        content: Some("b".to_string()),
        created_at_min: at(1),
        created_at_max: at(2),
        updated_at_min: at(3),
        updated_at_max: at(4),
        user_id: Some(5),
    };
    let expected = vec![
        Condition { column: TaskColumn::TaskId, test: Test::Equals(3) },
        Condition { column: TaskColumn::Title, test: Test::Contains("a".to_string()) },
        Condition { column: TaskColumn::Content, test: Test::Contains("b".to_string()) },
        Condition { column: TaskColumn::CreatedAt, test: Test::AtLeast(Timestamp::new(1, 0)) },
        Condition { column: TaskColumn::CreatedAt, test: Test::AtMost(Timestamp::new(2, 0)) },
        Condition { column: TaskColumn::UpdatedAt, test: Test::AtLeast(Timestamp::new(3, 0)) },
        Condition { column: TaskColumn::UpdatedAt, test: Test::AtMost(Timestamp::new(4, 0)) },
        Condition { column: TaskColumn::UserId, test: Test::Equals(5) },
    ];
    assert_eq!(filter.conditions(), expected);
    assert_eq!(TaskMapper::conditions(&filter), expected);
    assert_eq!(no_filter().conditions(), vec![]);
    let sparse = TaskFilter { content: Some("x".to_string()), updated_at_max: at(9), ..no_filter() };
    assert_eq!(
        sparse.conditions(),
        vec![
            Condition { column: TaskColumn::Content, test: Test::Contains("x".to_string()) },
            Condition { column: TaskColumn::UpdatedAt, test: Test::AtMost(Timestamp::new(9, 0)) },
        ]
    );
}

#[test]
fn create_and_revise_build_the_rows() {
    let made = TaskMapper::create(&post("a", Some("b"), at(5), Some(2)), 9);
    assert_eq!(made, Task::new(9, "a".to_string(), Some("b".to_string()), at(5), at(5), Some(2)));
    let patch = PatchTask::new("c".to_string(), None, Some(3));
    let revised = TaskMapper::revise(&made, &patch, Timestamp::new(8, 8));
    assert_eq!(
        revised,
        Task::new(9, "c".to_string(), None, at(5), Some(Timestamp::new(8, 8)), Some(3))
    );
    assert_eq!(patch.title(), "c");
    assert_eq!(patch.content(), &None);
    assert_eq!(patch.user_id(), &Some(3));
}

#[test]
fn add_single_refuses_when_no_identifier_is_left() {
    let mut conn: Table<Task> = Table::new();
    conn.insert(Task::new(i32::MAX, "last".to_string(), None, None, None, None)).unwrap();
    assert_eq!(
        TaskMapper::add_single(&mut conn, &post("one more", None, None, None)),
        Err(MapperError::ConstraintViolation)
    );
    assert_eq!(conn.len(), 1);
    assert_eq!(TaskMapper::get_by_id(&mut conn, i32::MAX).unwrap().title(), "last");
}

#[test]
fn listing_without_limit_and_offset_takes_the_defaults() {
    let mut conn = Table::new();
    for n in 0..12 {
        TaskMapper::add_single(&mut conn, &post(&format!("task {n}"), None, at(n), None)).unwrap();
    }
    let param = RequestParam::new(PaginationParam::new(None, None), None);
    let listed = TaskMapper::get_all(&mut conn, &param).unwrap();
    assert_eq!(listed.data.len(), 10);
    assert_eq!(listed.data[0].title(), "task 11");
    assert_eq!(listed.data[9].title(), "task 2");
    assert_eq!(listed.pagination.per_page, 10);
    assert_eq!(listed.pagination.total_pages, 2);
    let param = RequestParam::new(PaginationParam::new(None, Some(10)), None);
    let listed = TaskMapper::filter(&mut conn, &param).unwrap();
    assert_eq!(titles(&listed), ["task 1", "task 0"]);
    assert_eq!(listed.pagination.page, 2);
}

#[test]
fn a_narrower_filter_shows_no_more_rows_on_the_same_page() {
    let mut conn = seeded();
    for (limit, offset) in [(1, 0), (2, 0), (2, 2), (3, 3), (10, 0)] {
        let wide = TaskFilter { title: Some("o".to_string()), ..no_filter() };
        let narrow = TaskFilter { title: Some("o".to_string()), user_id: Some(7), ..no_filter() };
        let wide = TaskMapper::filter(&mut conn, &page(limit, offset, Some(wide))).unwrap();
        let narrow = TaskMapper::filter(&mut conn, &page(limit, offset, Some(narrow))).unwrap();
        assert!(narrow.data.len() <= wide.data.len());
        assert!(narrow.pagination.total_count <= wide.pagination.total_count);
    }
}
