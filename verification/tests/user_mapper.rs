use crab_rocket::error::MapperError;
use crab_rocket::table::Table;
use crab_rocket::time::{get_e8_time, Timestamp};
use crab_rocket::user::{
    delete_user_by_id, fetch_all_users, fetch_user_by_id, insert_user, update_user_by_id,
    update_user_by_id_at, PatchUser, PostUser, User,
};

fn text(s: &str) -> Option<String> {
    Some(s.to_string())
}

fn seeded() -> Table<User> {
    let mut conn = Table::new();
    for name in ["ann", "ben", "cat"] {
        let mut post = PostUser::demo_at(Timestamp::new(100, 0), Timestamp::new(100, 0));
        post.set_username(name.to_string());
        insert_user(&mut conn, &post).unwrap();
    }
    conn
}

#[test]
fn test_insert_user() {
    let user = PostUser::new(
        "username".to_string(),
        Some(1),
        Some(get_e8_time()),
        Some(String::from("email")),
        "password".to_string(),
        Some(String::from("fullname")),
        Some(String::from("avatar_url")),
        Some(String::from("bio")),
        Some(get_e8_time()),
        "mobile_phone".to_string(),
    );
    println!("{user:?}");
    let mut conn: Table<User> = Table::new();
    match insert_user(&mut conn, &user) {
        Ok(result) => {
            println!("{result:?}");
            assert_eq!(result.user_id(), 1);
            assert_eq!(result.username(), "username");
            assert_eq!(result.role(), &Some(1));
            assert_eq!(result.created_at(), user.created_at());
            assert_eq!(result.email(), &text("email"));
            assert_eq!(result.password(), "password");
            assert_eq!(result.full_name(), &text("fullname"));
            assert_eq!(result.avatar_url(), &text("avatar_url"));
            assert_eq!(result.bio(), &text("bio"));
            assert_eq!(result.updated_at(), user.updated_at());
            assert_eq!(result.mobile_phone(), "mobile_phone");
            assert_eq!(fetch_user_by_id(&mut conn, 1).unwrap(), result);
        }
        Err(_) => panic!("err"),
    }
}

#[test]
fn test_fetch_all_users() {
    let mut conn = seeded();
    match fetch_all_users(&mut conn) {
        Ok(res) => {
            println!("{res:?}");
            let ids: Vec<i32> = res.iter().map(|user| user.user_id()).collect();
            assert_eq!(ids, [1, 2, 3]);
            let names: Vec<&str> = res.iter().map(|user| user.username()).collect();
            assert_eq!(names, ["ann", "ben", "cat"]);
        }
        Err(_) => panic!("Err"),
    }
    let mut empty: Table<User> = Table::new();
    assert_eq!(fetch_all_users(&mut empty), Ok(vec![]));
}

#[test]
fn test_fetch_user_by_id() {
    let id = 1;
    let mut conn = seeded();
    match fetch_user_by_id(&mut conn, id) {
        Ok(res) => {
            println!("{res:?}");
            assert_eq!(res.user_id(), 1);
            assert_eq!(res.username(), "ann");
        }
        Err(_) => panic!("Err"),
    }
    assert_eq!(fetch_user_by_id(&mut conn, 9999), Err(MapperError::NotFound));
}

#[test]
fn test_update_user_by_id() {
    let mut conn = seeded();
    let id = 1;
    let user = PatchUser::default();
    match update_user_by_id(&mut conn, id, &user) {
        Ok(res) => {
            println!("{res:?}");
            assert_eq!(res.user_id(), 1);
            assert_eq!(res.username(), "");
            assert_eq!(res.role(), &None);
            assert_eq!(res.email(), &None);
            assert_eq!(res.password(), "");
            assert_eq!(res.mobile_phone(), "");
            assert_eq!(res.created_at(), Some(Timestamp::new(100, 0)));
            assert!(res.updated_at().is_some());
            assert_eq!(fetch_user_by_id(&mut conn, 1).unwrap(), res);
        }
        Err(_) => panic!("Err"),
    }
    assert_eq!(update_user_by_id(&mut conn, 9, &user), Err(MapperError::NotFound));
}

#[test]
fn test_delete_user_by_id() {
    let mut conn = seeded();
    let id = 1;
    let result = delete_user_by_id(&mut conn, id);
    match result {
        Ok(res) => {
            println!("{res:?}");
            assert_eq!(res.user_id(), 1);
            assert_eq!(res.username(), "ann");
        }
        Err(_) => panic!("Err"),
    }
    assert_eq!(fetch_user_by_id(&mut conn, 1), Err(MapperError::NotFound));
    assert_eq!(delete_user_by_id(&mut conn, 1), Err(MapperError::NotFound));
    let left: Vec<i32> =
        fetch_all_users(&mut conn).unwrap().iter().map(|user| user.user_id()).collect();
    assert_eq!(left, [2, 3]);
}

#[test]
fn user_update_keeps_the_time_of_creation_and_ignores_the_stamps_of_the_patch() {
    let mut conn = seeded();
    let patch = PatchUser::new(
        "dan".to_string(),
        Some(2),
        Some(Timestamp::new(1, 0)),
        text("d@x.test"),
        "secret".to_string(),
        None,
        text("url"),
        None,
        Some(Timestamp::new(2, 0)),
        "555".to_string(),
    );
    let now = Timestamp::new(500, 5);
    let updated = update_user_by_id_at(&mut conn, 2, &patch, now).unwrap();
    assert_eq!(
        updated,
        User::new(
            2,
            "dan".to_string(),
            Some(2),
            Some(Timestamp::new(100, 0)),
            text("d@x.test"),
            "secret".to_string(),
            None,
            text("url"),
            None,
            Some(now),
            "555".to_string(),
        )
    );
    assert_eq!(User::from_post(&PostUser::demo_at(now, now), 8).user_id(), 8);
    assert_eq!(updated.patched(&patch, now), updated);
}
