use users_api::db::DB;
use users_api::users::CreateUser;

fn input(name: &str, email: &str) -> CreateUser {
    CreateUser { name: name.to_string(), email: email.to_string() }
}

#[test]
fn empty_store_lists_nothing() {
    let db = DB::new();
    let users = db.get_all_users();
    assert!(users.is_empty());
}

#[test]
fn single_create_returns_stored_record() {
    let mut db = DB::new();
    let user = db.create_user(input("Ann", "ann@example.com"));
    assert_eq!(user.id, 1);
    assert_eq!(user.name, "Ann");
    assert_eq!(user.email, "ann@example.com");

    let users = db.get_all_users();
    assert_eq!(users.len(), 1);
    assert_eq!(users[0].id, 1);
    assert_eq!(users[0].name, "Ann");
    assert_eq!(users[0].email, "ann@example.com");
}

#[test]
fn ids_strictly_increase_in_issuance_order() {
    let mut db = DB::new();
    let mut previous: u64 = 0;
    for k in 0..10 {
        let user = db.create_user(input(&format!("user{}", k), "u@example.com"));
        assert!(user.id > previous);
        previous = user.id;
    }
}

#[test]
fn ids_are_pairwise_distinct() {
    let mut db = DB::new();
    let mut seen: Vec<u64> = Vec::new();
    for k in 0..8 {
        let user = db.create_user(input(&format!("user{}", k), "u@example.com"));
        assert!(!seen.contains(&user.id));
        seen.push(user.id);
    }
}

#[test]
fn n_creates_list_exactly_one_to_n() {
    let mut db = DB::new();
    let n: u64 = 5;
    for k in 0..n {
        db.create_user(input(&format!("user{}", k), "u@example.com"));
    }
    let users = db.get_all_users();
    assert_eq!(users.len() as u64, n);
    let mut ids: Vec<u64> = users.iter().map(|u| u.id).collect();
    ids.sort();
    assert_eq!(ids, vec![1, 2, 3, 4, 5]);
}

#[test]
fn listing_does_not_change_the_store() {
    let mut db = DB::new();
    db.create_user(input("Ann", "ann@example.com"));
    let first = db.get_all_users();
    let second = db.get_all_users();
    assert_eq!(first.len(), second.len());
    assert_eq!(second.len(), 1);
    assert_eq!(second[0].id, 1);
}
