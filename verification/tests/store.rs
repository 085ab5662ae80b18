use helpdesk::error::Error;
use helpdesk::repository::MemRepository;
use helpdesk::ticket::Ticket;
use helpdesk::user::User;

fn author() -> u128 {
    uuid::Uuid::parse_str("43ff49e9-0caf-42fa-8d0c-d7719dfc7229")
        .unwrap()
        .as_u128()
}

#[test]
fn round_trip_returns_every_field() {
    let mut repo = MemRepository::<Ticket>::new();
    let t = Ticket::new("T1".to_string(), "D1".to_string(), author());
    assert!(repo.add(&t).is_ok());
    let got = repo.get(t.id).unwrap();
    assert_eq!(got.id, t.id);
    assert_eq!(got.title, "T1");
    assert_eq!(got.description, "D1");
    assert_eq!(got.author_id, author());
    assert_eq!(got.created, t.created);
    assert!(got.updated.is_none());
}

#[test]
fn update_changes_field_and_stamps() {
    let mut repo = MemRepository::<Ticket>::new();
    let mut t = Ticket::new("T1".to_string(), "D1".to_string(), author());
    assert!(repo.add(&t).is_ok());
    t.update_title("T2".to_string());
    assert!(repo.update(&t).is_ok());
    let got = repo.get(t.id).unwrap();
    assert_eq!(got.title, "T2");
    assert_eq!(got.description, "D1");
    let stamp = got.updated.expect("an updated record carries a stamp");
    assert!(stamp >= got.created);
    assert!(stamp >= t.created);
}

#[test]
fn delete_makes_get_fail() {
    let mut repo = MemRepository::<Ticket>::new();
    let t = Ticket::new("T1".to_string(), "D1".to_string(), author());
    assert!(repo.add(&t).is_ok());
    assert!(repo.delete(t.id).is_ok());
    let err = repo.get(t.id).unwrap_err();
    assert!(matches!(err, Error::Repo(_)));
}

#[test]
fn first_page_holds_one_newest_record() {
    let mut repo = MemRepository::<Ticket>::new();
    let a = Ticket::new("a".to_string(), "".to_string(), author());
    let b = Ticket::new("b".to_string(), "".to_string(), author());
    let c = Ticket::new("c".to_string(), "".to_string(), author());
    assert!(repo.add(&a).is_ok());
    assert!(repo.add(&b).is_ok());
    assert!(repo.add(&c).is_ok());
    let page = repo.get_many(1, 0);
    assert_eq!(page.len(), 1);
    for t in [&a, &b, &c] {
        assert!(page[0].created >= t.created);
    }
    let rest = repo.get_many(10, 1);
    assert_eq!(rest.len(), 2);
    let empty = repo.get_many(5, 3);
    assert!(empty.is_empty());
}

#[test]
fn pages_follow_creation_order() {
    let mut repo = MemRepository::<Ticket>::new();
    for i in 0..5 {
        let t = Ticket::new(format!("t{}", i), "".to_string(), author());
        assert!(repo.add(&t).is_ok());
    }
    let all = repo.get_many(5, 0);
    assert_eq!(all.len(), 5);
    for w in all.windows(2) {
        assert!(w[0].created >= w[1].created);
    }
}

#[test]
fn fresh_identifiers_do_not_collide() {
    let a = Ticket::new("a".to_string(), "".to_string(), author());
    let b = Ticket::new("b".to_string(), "".to_string(), author());
    assert_ne!(a.id, b.id);
}

#[test]
fn deleting_an_absent_identifier_succeeds() {
    let mut repo = MemRepository::<Ticket>::new();
    let t = Ticket::new("T1".to_string(), "D1".to_string(), author());
    assert!(repo.add(&t).is_ok());
    assert!(repo.delete(12345).is_ok());
    assert_eq!(repo.get_many(10, 0).len(), 1);
}

#[test]
fn adding_a_taken_identifier_is_refused() {
    let mut repo = MemRepository::<Ticket>::new();
    let t = Ticket::new("T1".to_string(), "D1".to_string(), author());
    assert!(repo.add(&t).is_ok());
    let err = repo.add(&t).unwrap_err();
    assert!(matches!(err, Error::Repo(_)));
    assert_eq!(repo.get_many(10, 0).len(), 1);
}

#[test]
fn updating_an_absent_identifier_silently_succeeds() {
    let mut repo = MemRepository::<Ticket>::new();
    let t = Ticket::new("T1".to_string(), "D1".to_string(), author());
    assert!(repo.update(&t).is_ok());
    assert!(repo.get_many(10, 0).is_empty());
}

#[test]
fn ticket_scenario_add_update_delete() {
    let mut repo = MemRepository::<Ticket>::new();
    let mut t = Ticket::new("T1".to_string(), "D1".to_string(), author());
    assert!(repo.add(&t).is_ok());
    let got = repo.get(t.id).unwrap();
    assert_eq!(got.title, "T1");
    assert_eq!(got.description, "D1");
    assert!(got.updated.is_none());
    t.update_title("T2".to_string());
    assert!(repo.update(&t).is_ok());
    let got = repo.get(t.id).unwrap();
    assert_eq!(got.title, "T2");
    assert!(got.updated.is_some());
    assert!(repo.delete(t.id).is_ok());
    assert!(repo.get(t.id).is_err());
}

#[test]
fn user_store_round_trip_and_update() {
    let mut repo = MemRepository::<User>::new();
    let mut u = User::new(7, "Test user".to_string());
    assert!(repo.add(&u).is_ok());
    let got = repo.get(7).unwrap();
    assert_eq!(got.name, "Test user");
    assert!(got.updated.is_none());
    u.name = "Test user updated".to_string();
    assert!(repo.update(&u).is_ok());
    let got = repo.get(7).unwrap();
    assert_eq!(got.name, "Test user updated");
    assert!(got.updated.unwrap() >= got.created);
    assert!(repo.delete(7).is_ok());
    assert!(matches!(repo.get(7), Err(Error::Repo(_))));
}
