use helpdesk::comment::Comment;
use helpdesk::entity::entity_eq;
use helpdesk::error::Error;
use helpdesk::repository_config::RepositoryConfig;
use helpdesk::row::SqlValue;
use helpdesk::statement_wrapper::StatementWrapper;
use helpdesk::ticket::Ticket;
use helpdesk::ticket_repository::TicketRepositoryStatement;
use helpdesk::user::User;
use helpdesk::user_repository::UserRepositoryStatement;

#[test]
fn error_new_is_the_catch_all() {
    let e = Error::new("boom".to_string());
    assert!(matches!(e, Error::Unspecified(_)));
    assert_eq!(e.to_message(), "Unspecified error: boom");
}

#[test]
fn error_messages_carry_the_kind_prefix() {
    assert_eq!(
        Error::Model("m".to_string()).to_message(),
        "Model error: m"
    );
    assert_eq!(Error::Repo("r".to_string()).to_message(), "Repo error: r");
    assert_eq!(
        Error::Server("s".to_string()).to_message(),
        "Server error: s"
    );
    assert_eq!(
        Error::Config("c".to_string()).to_message(),
        "Config error: c"
    );
    assert_eq!(
        Error::Unspecified("u".to_string()).to_message(),
        "Unspecified error: u"
    );
}

#[test]
fn entities_compare_by_identifier_alone() {
    let u1 = User::new(1, "a".to_string());
    let u2 = User::new(2, "a".to_string());
    let u1_again = User::new(1, "b".to_string());
    assert!(entity_eq(&u1, &u1_again));
    assert!(!entity_eq(&u1, &u2));
    let c = Comment::new("text".to_string(), 1, 2);
    let same_as_comment = User::new(c.id, "x".to_string());
    assert!(entity_eq(&c, &same_as_comment));
}

#[test]
fn comment_construction_and_text_update() {
    let mut c = Comment::new("first".to_string(), 10, 20);
    assert_eq!(c.text, "first");
    assert_eq!(c.author_id, 10);
    assert_eq!(c.ticket_id, 20);
    c.update_text("second".to_string());
    assert_eq!(c.text, "second");
}

#[test]
fn ticket_field_updates_keep_the_rest() {
    let mut t = Ticket::new("T1".to_string(), "D1".to_string(), 5);
    let id = t.id;
    let created = t.created;
    t.update_title("T2".to_string());
    t.update_description("D2".to_string());
    assert_eq!(t.title, "T2");
    assert_eq!(t.description, "D2");
    assert_eq!(t.id, id);
    assert_eq!(t.author_id, 5);
    assert_eq!(t.created, created);
    assert!(t.updated.is_none());
}

#[test]
fn ticket_statement_texts() {
    assert_eq!(
        TicketRepositoryStatement::Get.get(),
        "SELECT * FROM tickets WHERE id = $1"
    );
    assert_eq!(
        TicketRepositoryStatement::GetMany.get(),
        "SELECT * FROM tickets ORDER BY created DESC LIMIT $1 OFFSET $2"
    );
    assert_eq!(
        TicketRepositoryStatement::Add.get(),
        "INSERT INTO tickets (id, title, description, created, updated, author_id) VALUES ($1, $2, $3, $4, $5, $6)"
    );
    assert_eq!(
        TicketRepositoryStatement::Update.get(),
        "UPDATE tickets SET title = $2, description = $3, updated = $4 WHERE id = $1"
    );
    assert_eq!(
        TicketRepositoryStatement::Delete.get(),
        "DELETE FROM tickets WHERE id = $1"
    );
    assert_eq!(TicketRepositoryStatement::Get.index(), 0);
    assert_eq!(TicketRepositoryStatement::GetMany.index(), 1);
    assert_eq!(TicketRepositoryStatement::Add.index(), 2);
    assert_eq!(TicketRepositoryStatement::Update.index(), 3);
    assert_eq!(TicketRepositoryStatement::Delete.index(), 4);
}

#[test]
fn user_statement_texts() {
    assert_eq!(
        UserRepositoryStatement::Get.get(),
        "SELECT * FROM users WHERE id = $1"
    );
    assert_eq!(
        UserRepositoryStatement::GetMany.get(),
        "SELECT * FROM users ORDER BY created DESC LIMIT $1 OFFSET $2"
    );
    assert_eq!(
        UserRepositoryStatement::Add.get(),
        "INSERT INTO users (id, name, created, updated) VALUES ($1, $2, $3, $4)"
    );
    assert_eq!(
        UserRepositoryStatement::Update.get(),
        "UPDATE users SET name = $2, updated = $3 WHERE id = $1"
    );
    assert_eq!(
        UserRepositoryStatement::Delete.get(),
        "DELETE FROM users WHERE id = $1"
    );
    assert_eq!(UserRepositoryStatement::Delete.index(), 4);
}

#[test]
fn ticket_parameters_bind_in_statement_order() {
    let t = Ticket::new("T1".to_string(), "D1".to_string(), 9);
    let p = helpdesk::ticket_repository::TicketRepository::add_params(&t);
    assert_eq!(
        p,
        vec![
            SqlValue::Id(t.id),
            SqlValue::Text("T1".to_string()),
            SqlValue::Text("D1".to_string()),
            SqlValue::Stamp(Some(t.created)),
            SqlValue::Stamp(None),
            SqlValue::Id(9),
        ]
    );
    let q = helpdesk::ticket_repository::TicketRepository::update_params(&t);
    assert_eq!(q.len(), 4);
    assert_eq!(q[0], SqlValue::Id(t.id));
    assert_eq!(q[1], SqlValue::Text("T1".to_string()));
    assert_eq!(q[2], SqlValue::Text("D1".to_string()));
    assert!(matches!(q[3], SqlValue::Stamp(Some(_))));
    let k = helpdesk::ticket_repository::TicketRepository::id_params(t.id);
    assert_eq!(k, vec![SqlValue::Id(t.id)]);
    let m = helpdesk::ticket_repository::TicketRepository::get_many_params(1, 0);
    assert_eq!(m, vec![SqlValue::Int(1), SqlValue::Int(0)]);
}

#[test]
fn user_parameters_bind_in_statement_order() {
    let u = User::new(3, "n".to_string());
    let p = helpdesk::user_repository::UserRepository::add_params(&u);
    assert_eq!(
        p,
        vec![
            SqlValue::Id(3),
            SqlValue::Text("n".to_string()),
            SqlValue::Stamp(Some(u.created)),
            SqlValue::Stamp(None),
        ]
    );
    let q = helpdesk::user_repository::UserRepository::update_params(&u);
    assert_eq!(q.len(), 3);
    assert_eq!(q[0], SqlValue::Id(3));
    assert_eq!(q[1], SqlValue::Text("n".to_string()));
    assert!(matches!(q[2], SqlValue::Stamp(Some(_))));
}

#[test]
fn statement_slot_reports_instead_of_aborting() {
    let w = StatementWrapper::new("SELECT 1");
    assert_eq!(w.get(), "SELECT 1");
    let err = w.get_prepared().unwrap_err();
    assert!(matches!(err, Error::Repo(_)));
}

#[test]
fn repository_config_keeps_the_connection_string() {
    let c = RepositoryConfig::new("host=localhost user=u dbname=d".to_string());
    assert_eq!(c.connection_string(), "host=localhost user=u dbname=d");
}
