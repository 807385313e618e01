use crab_rocket::error::MapperError;
use crab_rocket::query::{meets, Condition, Select, Test};
use crab_rocket::record::{Cell, Record};
use crab_rocket::table::Table;
use crab_rocket::task::{Task, TaskColumn};
use crab_rocket::time::Timestamp;

fn at(secs: i64, nanos: u32) -> Option<Timestamp> {
    Some(Timestamp::new(secs, nanos))
}

fn task(id: i32, title: &str, touched: Option<Timestamp>) -> Task {
    Task::new(id, title.to_string(), None, None, touched, None)
}

fn ids(rows: &[Task]) -> Vec<i32> {
    rows.iter().map(|row| row.task_id()).collect()
}

fn all(limit: u64, offset: u64) -> Select<TaskColumn> {
    Select { conditions: vec![], limit, offset }
}

fn seeded() -> Table<Task> {
    let mut conn = Table::new();
    for (id, touched) in [(1, at(5, 0)), (2, at(5, 1)), (3, None), (4, at(5, 0)), (6, at(9, 0)), (7, None)] {
        conn.insert(task(id, "t", touched)).unwrap();
    }
    conn
}

#[test]
fn a_new_table_is_empty() {
    let conn: Table<Task> = Table::new();
    assert_eq!(conn.len(), 0);
    assert_eq!(conn.next_id(), Some(1));
    assert_eq!(conn.all(), vec![]);
    assert_eq!(conn.count(&vec![]), 0);
    assert_eq!(conn.select(&all(10, 0)), vec![]);
    assert_eq!(conn.find(1), None);
}

#[test]
fn insert_takes_only_identifiers_past_the_last() {
    let mut conn = seeded();
    assert_eq!(conn.len(), 6);
    assert_eq!(conn.next_id(), Some(8));
    assert_eq!(conn.insert(task(7, "again", None)), Err(MapperError::ConstraintViolation));
    assert_eq!(conn.insert(task(5, "gap", None)), Err(MapperError::ConstraintViolation));
    assert_eq!(conn.insert(task(0, "zero", None)), Err(MapperError::ConstraintViolation));
    assert_eq!(conn.insert(task(-3, "negative", None)), Err(MapperError::ConstraintViolation));
    assert_eq!(conn.len(), 6);
    assert_eq!(conn.insert(task(i32::MAX, "last", None)), Ok(()));
    assert_eq!(conn.next_id(), None);
    assert_eq!(conn.insert(task(i32::MAX, "last", None)), Err(MapperError::ConstraintViolation));
    assert_eq!(ids(&conn.all()), [1, 2, 3, 4, 6, 7, i32::MAX]);
}

#[test]
fn select_orders_by_the_last_change_and_keeps_ties_in_place() {
    let conn = seeded();
    assert_eq!(ids(&conn.select(&all(100, 0))), [3, 7, 6, 2, 1, 4]);
    assert_eq!(ids(&conn.all()), [1, 2, 3, 4, 6, 7]);
}

#[test]
fn select_cuts_a_window() {
    let conn = seeded();
    assert_eq!(ids(&conn.select(&all(2, 0))), [3, 7]);
    assert_eq!(ids(&conn.select(&all(2, 1))), [7, 6]);
    assert_eq!(ids(&conn.select(&all(3, 4))), [1, 4]);
    assert_eq!(ids(&conn.select(&all(3, 6))), Vec::<i32>::new());
    assert_eq!(ids(&conn.select(&all(3, u64::MAX))), Vec::<i32>::new());
    assert_eq!(ids(&conn.select(&all(0, 0))), Vec::<i32>::new());
    assert_eq!(ids(&conn.select(&all(u64::MAX, 5))), [4]);
    assert_eq!(ids(&conn.select(&all(u64::MAX, 0))), [3, 7, 6, 2, 1, 4]);
}

#[test]
fn select_and_count_apply_the_conditions() {
    let conn = seeded();
    let timed = vec![Condition {
        column: TaskColumn::UpdatedAt,
        test: Test::AtLeast(Timestamp::new(i64::MIN, 0)),
    }];
    assert_eq!(conn.count(&timed), 4);
    let select = Select { conditions: timed, limit: 3, offset: 1 };
    assert_eq!(ids(&conn.select(&select)), [2, 1, 4]);
    let narrow = vec![
        Condition { column: TaskColumn::UpdatedAt, test: Test::AtMost(Timestamp::new(5, 0)) },
        Condition { column: TaskColumn::TaskId, test: Test::Equals(4) },
    ];
    assert_eq!(conn.count(&narrow), 1);
    assert_eq!(ids(&conn.select(&Select { conditions: narrow, limit: 9, offset: 0 })), [4]);
}

#[test]
fn find_replace_and_remove_go_by_the_identifier() {
    let mut conn = seeded();
    assert_eq!(conn.find(4), Some(task(4, "t", at(5, 0))));
    assert_eq!(conn.find(5), None);
    assert_eq!(conn.replace(task(4, "new", at(8, 0))), Some(task(4, "t", at(5, 0))));
    assert_eq!(conn.find(4), Some(task(4, "new", at(8, 0))));
    assert_eq!(conn.replace(task(5, "none", None)), None);
    assert_eq!(conn.len(), 6);
    assert_eq!(ids(&conn.select(&all(100, 0))), [3, 7, 6, 4, 2, 1]);
    assert_eq!(conn.remove(4), Some(task(4, "new", at(8, 0))));
    assert_eq!(conn.remove(4), None);
    assert_eq!(conn.find(4), None);
    assert_eq!(ids(&conn.all()), [1, 2, 3, 6, 7]);
    assert_eq!(conn.next_id(), Some(8));
}

#[test]
fn a_test_passes_only_on_a_cell_of_its_kind() {
    let row = Task::new(3, "title".to_string(), None, at(1, 0), None, Some(3));
    let equals = Test::Equals(3);
    let part = Test::Contains("it".to_string());
    let least = Test::AtLeast(Timestamp::new(1, 0));
    let most = Test::AtMost(Timestamp::new(0, 999));
    assert!(equals.admits(&row.cell(TaskColumn::TaskId)));
    assert!(equals.admits(&row.cell(TaskColumn::UserId)));
    assert!(!equals.admits(&row.cell(TaskColumn::Title)));
    assert!(!Test::Equals(4).admits(&row.cell(TaskColumn::TaskId)));
    assert!(part.admits(&row.cell(TaskColumn::Title)));
    assert!(!part.admits(&row.cell(TaskColumn::Content)));
    assert!(!part.admits(&row.cell(TaskColumn::TaskId)));
    assert!(least.admits(&row.cell(TaskColumn::CreatedAt)));
    assert!(!least.admits(&row.cell(TaskColumn::UpdatedAt)));
    assert!(!most.admits(&row.cell(TaskColumn::CreatedAt)));
    assert!(!most.admits(&Cell::Null));
    assert!(!most.admits(&Cell::Int(0)));
    assert!(Test::AtMost(Timestamp::new(1, 0)).admits(&Cell::Time(Timestamp::new(1, 0))));
    assert_eq!(row.record_id(), 3);
    assert_eq!(row.last_touched(), None);
    assert_eq!(row.duplicate(), row);
}

#[test]
fn a_row_meets_a_list_when_it_meets_every_condition() {
    let row = Task::new(3, "title".to_string(), None, None, None, None);
    let yes = Condition { column: TaskColumn::TaskId, test: Test::Equals(3) };
    let also = Condition { column: TaskColumn::Title, test: Test::Contains("tit".to_string()) };
    let no = Condition { column: TaskColumn::Content, test: Test::Contains("".to_string()) };
    assert!(meets(&row, &vec![]));
    assert!(meets(&row, &vec![yes]));
    let yes = Condition { column: TaskColumn::TaskId, test: Test::Equals(3) };
    assert!(meets(&row, &vec![yes, also]));
    let yes = Condition { column: TaskColumn::TaskId, test: Test::Equals(3) };
    assert!(!meets(&row, &vec![yes, no]));
}

#[test]
fn select_agrees_with_a_stable_sort() {
    let mut conn: Table<Task> = Table::new();
    let mut expected: Vec<(i32, Option<Timestamp>)> = Vec::new();
    let mut seed: u64 = 12345;
    for id in 1..=200 {
        seed = seed.wrapping_mul(6364136223846793005).wrapping_add(1442695040888963407);
        let pick = (seed >> 33) % 8;
        let touched = if pick == 0 { None } else { at((pick / 2) as i64, (pick % 2) as u32) };
        conn.insert(task(id, "t", touched)).unwrap();
        expected.push((id, touched));
    }
    expected.sort_by(|a, b| match (a.1, b.1) {
        (None, None) => std::cmp::Ordering::Equal,
        (None, Some(_)) => std::cmp::Ordering::Less,
        (Some(_), None) => std::cmp::Ordering::Greater,
        (Some(x), Some(y)) => (y.secs, y.nanos).cmp(&(x.secs, x.nanos)),
    });
    let expected: Vec<i32> = expected.iter().map(|row| row.0).collect();
    assert_eq!(ids(&conn.select(&all(u64::MAX, 0))), expected);
    assert_eq!(ids(&conn.select(&all(25, 50))), expected[50..75]);
    assert_eq!(ids(&conn.select(&all(25, 190))), expected[190..]);
}
