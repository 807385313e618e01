use crab_rocket::time::{get_e8_time, Timestamp};
use crab_rocket::user::{PatchUser, PostUser, User};

fn text(s: &str) -> Option<String> {
    Some(s.to_string())
}

#[test]
fn test_user_new() {
    let user = User::new(
        1,
        "john_doe".to_string(),
        Some(1),
        Some(get_e8_time()),
        Some("john.doe@example.com".to_string()),
        "password_hash".to_string(),
        Some("John Doe".to_string()),
        Some("https://example.com/avatar.jpg".to_string()),
        Some("Software engineer".to_string()),
        Some(get_e8_time()),
        "1234567890".to_string(),
    );
    println!("{user:?}");
    assert_eq!(user.user_id(), 1);
    assert_eq!(user.username(), "john_doe");
    assert_eq!(user.role(), &Some(1));
    assert!(user.created_at().is_some());
    assert_eq!(user.email(), &text("john.doe@example.com"));
    assert_eq!(user.password(), "password_hash");
    assert_eq!(user.full_name(), &text("John Doe"));
    assert_eq!(user.avatar_url(), &text("https://example.com/avatar.jpg"));
    assert_eq!(user.bio(), &text("Software engineer"));
    assert!(user.updated_at().unwrap().is_at_or_after(&user.created_at().unwrap()));
    assert_eq!(user.mobile_phone(), "1234567890");
}

#[test]
fn user_setters_change_one_field_each() {
    let mut user = User::default();
    assert_eq!(user, User::new(0, String::new(), None, None, None, String::new(), None, None, None, None, String::new()));
    let t1 = Some(Timestamp::new(1, 1));
    let t2 = Some(Timestamp::new(2, 2));
    user.set_user_id(5);
    assert_eq!(user, User::new(5, String::new(), None, None, None, String::new(), None, None, None, None, String::new()));
    user.set_username("u".to_string());
    user.set_role_id(Some(3));
    user.set_created_at(t1);
    user.set_email(text("e"));
    user.set_password("p".to_string());
    user.set_full_name(text("f"));
    user.set_avatar_url(text("a"));
    user.set_bio(text("b"));
    user.set_updated_at(t2);
    user.set_mobile_phone("m".to_string());
    assert_eq!(
        user,
        User::new(5, "u".to_string(), Some(3), t1, text("e"), "p".to_string(), text("f"), text("a"), text("b"), t2, "m".to_string())
    );
    assert_eq!(user.clone(), user);
    user.set_email(None);
    assert_eq!(user.email(), &None);
    assert_eq!(user.full_name(), &text("f"));
}

#[test]
fn post_user_accessors() {
    let t1 = Some(Timestamp::new(1, 1));
    let t2 = Some(Timestamp::new(2, 2));
    let mut post = PostUser::new("u".to_string(), Some(3), t1, text("e"), "p".to_string(), text("f"), text("a"), text("b"), t2, "m".to_string());
    assert_eq!(post.username(), "u");
    assert_eq!(post.role_id(), &Some(3));
    assert_eq!(post.created_at(), t1);
    assert_eq!(post.email(), &text("e"));
    assert_eq!(post.password(), "p");
    assert_eq!(post.full_name(), &text("f"));
    assert_eq!(post.avatar_url(), &text("a"));
    assert_eq!(post.bio(), &text("b"));
    assert_eq!(post.updated_at(), t2);
    assert_eq!(post.mobile_phone(), "m");
    post.set_username("u2".to_string());
    post.set_role_id(None);
    post.set_created_at(None);
    post.set_email(None);
    post.set_password("q".to_string());
    post.set_full_name(None);
    post.set_avatar_url(None);
    post.set_bio(None);
    post.set_updated_at(None);
    post.set_mobile_phone("m2".to_string());
    assert_eq!(
        post,
        PostUser::new("u2".to_string(), None, None, None, "q".to_string(), None, None, None, None, "m2".to_string())
    );
    assert_eq!(
        PostUser::default(),
        PostUser::new(String::new(), None, None, None, String::new(), None, None, None, None, String::new())
    );
    assert_eq!(post.clone(), post);
}

#[test]
fn patch_user_accessors() {
    let t1 = Some(Timestamp::new(1, 1));
    let t2 = Some(Timestamp::new(2, 2));
    let mut patch = PatchUser::default();
    assert_eq!(
        patch,
        PatchUser::new(String::new(), None, None, None, String::new(), None, None, None, None, String::new())
    );
    patch.set_username("u".to_string());
    patch.set_role_id(Some(3));
    patch.set_created_at(t1);
    patch.set_email(text("e"));
    patch.set_password("p".to_string());
    patch.set_full_name(text("f"));
    patch.set_avatar_url(text("a"));
    patch.set_bio(text("b"));
    patch.set_updated_at(t2);
    patch.set_mobile_phone("m".to_string());
    assert_eq!(patch.username(), "u");
    assert_eq!(patch.role_id(), &Some(3));
    assert_eq!(patch.created_at(), t1);
    assert_eq!(patch.email(), &text("e"));
    assert_eq!(patch.password(), "p");
    assert_eq!(patch.full_name(), &text("f"));
    assert_eq!(patch.avatar_url(), &text("a"));
    assert_eq!(patch.bio(), &text("b"));
    assert_eq!(patch.updated_at(), t2);
    assert_eq!(patch.mobile_phone(), "m");
    assert_eq!(patch.clone(), patch);
}

#[test]
fn the_sample_user_holds_the_names_of_its_fields() {
    let created = Timestamp::new(12, 34);
    let updated = Timestamp::new(56, 78);
    let demo = PostUser::demo_at(created, updated);
    assert_eq!(
        demo,
        PostUser::new(
            "username".to_string(),
            Some(1),
            Some(created),
            text("email"),
            "password".to_string(),
            text("fullname"),
            text("avatar_url"),
            text("bio"),
            Some(updated),
            "mobile_phone".to_string(),
        )
    );
}

#[test]
fn the_sample_user_is_stamped_by_the_clock() {
    let low = chrono::Utc::now().timestamp() + 28800;
    let clocked = PostUser::demo();
    let high = chrono::Utc::now().timestamp() + 28800;
    assert_eq!(clocked.username(), "username");
    let created = clocked.created_at().unwrap();
    let updated = clocked.updated_at().unwrap();
    assert!(low <= created.secs && created.secs <= high);
    assert!(low <= updated.secs && updated.secs <= high);
    assert_eq!(PostUser::demo_at(created, updated), clocked);
}
