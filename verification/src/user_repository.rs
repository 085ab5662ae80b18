//! The user repository: the same shape as the ticket repository — one
//! connection, one statement cache with one prepared slot per statement
//! kind, populated up front at construction — instantiated for user records.

use vstd::prelude::*;
use vstd::string::StringExecFns;

use crate::error::Error;
use crate::repository_config::RepositoryConfig;
use crate::row::SqlValue;
use crate::statement_wrapper::StatementWrapper;
use crate::user::User;

verus! {

/// The closed, ordered enumeration of statement kinds of the user
/// repository; the cache holds one slot per kind, in this order.
#[derive(Debug, Clone, Copy)]
pub enum UserRepositoryStatement {
    Get,
    GetMany,
    Add,
    Update,
    Delete,
}

impl UserRepositoryStatement {
    /// The position of this kind's slot in the cache.
    pub open spec fn index_spec(&self) -> int {
        match self {
            UserRepositoryStatement::Get => 0,
            UserRepositoryStatement::GetMany => 1,
            UserRepositoryStatement::Add => 2,
            UserRepositoryStatement::Update => 3,
            UserRepositoryStatement::Delete => 4,
        }
    }

    /// The literal query text of this kind.
    pub open spec fn text_spec(&self) -> Seq<char> {
        match self {
            UserRepositoryStatement::Get => "SELECT * FROM users WHERE id = $1"@,
            UserRepositoryStatement::GetMany => "SELECT * FROM users ORDER BY created DESC LIMIT $1 OFFSET $2"@,
            UserRepositoryStatement::Add => "INSERT INTO users (id, name, created, updated) VALUES ($1, $2, $3, $4)"@,
            UserRepositoryStatement::Update => "UPDATE users SET name = $2, updated = $3 WHERE id = $1"@,
            UserRepositoryStatement::Delete => "DELETE FROM users WHERE id = $1"@,
        }
    }

    /// Returns the literal query text that is submitted for compilation for
    /// this kind.
    pub fn get(&self) -> (t: &str)
        ensures
            t@ == self.text_spec(),
    {
        match self {
            UserRepositoryStatement::Get => "SELECT * FROM users WHERE id = $1",
            UserRepositoryStatement::GetMany => "SELECT * FROM users ORDER BY created DESC LIMIT $1 OFFSET $2",
            UserRepositoryStatement::Add => "INSERT INTO users (id, name, created, updated) VALUES ($1, $2, $3, $4)",
            UserRepositoryStatement::Update => "UPDATE users SET name = $2, updated = $3 WHERE id = $1",
            UserRepositoryStatement::Delete => "DELETE FROM users WHERE id = $1",
        }
    }

    /// Returns the position of this kind's slot in the cache.
    pub fn index(&self) -> (i: usize)
        ensures
            i as int == self.index_spec(),
    {
        match self {
            UserRepositoryStatement::Get => 0,
            UserRepositoryStatement::GetMany => 1,
            UserRepositoryStatement::Add => 2,
            UserRepositoryStatement::Update => 3,
            UserRepositoryStatement::Delete => 4,
        }
    }
}

pub struct UserRepository {
    config: RepositoryConfig,
    statements: Vec<StatementWrapper>,
    client: tokio_postgres::Client,
}

impl UserRepository {
    /// The statement cache, for use in specifications.
    pub closed spec fn statements_spec(&self) -> Seq<StatementWrapper> {
        self.statements@
    }

    /// Well-formedness: the cache holds exactly one slot per statement
    /// kind, in kind order, each holding that kind's literal text, and
    /// every slot is prepared.
    pub open spec fn wf(&self) -> bool {
        &&& self.statements_spec().len() == 5
        &&& forall|i: int|
            0 <= i < 5 ==> (#[trigger] self.statements_spec()[i]).is_prepared()
        &&& self.statements_spec()[0].text_spec() == UserRepositoryStatement::Get.text_spec()
        &&& self.statements_spec()[1].text_spec() == UserRepositoryStatement::GetMany.text_spec()
        &&& self.statements_spec()[2].text_spec() == UserRepositoryStatement::Add.text_spec()
        &&& self.statements_spec()[3].text_spec() == UserRepositoryStatement::Update.text_spec()
        &&& self.statements_spec()[4].text_spec() == UserRepositoryStatement::Delete.text_spec()
    }

    /// Assembles the repository from its connection and the compiled
    /// statements, one per statement kind in kind order: slot `k` receives
    /// the `k`-th handle. Construction fails with a `Repo` error, handing
    /// nothing out, unless every slot can be populated.
    pub fn new(
        config: RepositoryConfig,
        client: tokio_postgres::Client,
        handles: Vec<tokio_postgres::Statement>,
    ) -> (r: Result<UserRepository, Error>)
        ensures
            handles@.len() == 5 ==> (r matches Ok(repo) && repo.wf() && forall|k: int|
                0 <= k < 5 ==> (#[trigger] repo.statements_spec()[k]).handle_spec() == Some(
                    handles@[k],
                )),
            handles@.len() != 5 ==> (r matches Err(e) && e is Repo),
    {
        let mut handles = handles;
        if handles.len() != 5 {
            return Err(
                Error::Repo(
                    String::from_str("construction needs one compiled statement per kind"),
                ),
            );
        }
        let h0 = handles.remove(0);
        let h1 = handles.remove(0);
        let h2 = handles.remove(0);
        let h3 = handles.remove(0);
        let h4 = handles.remove(0);
        let mut w0 = StatementWrapper::new(UserRepositoryStatement::Get.get());
        let mut w1 = StatementWrapper::new(UserRepositoryStatement::GetMany.get());
        let mut w2 = StatementWrapper::new(UserRepositoryStatement::Add.get());
        let mut w3 = StatementWrapper::new(UserRepositoryStatement::Update.get());
        let mut w4 = StatementWrapper::new(UserRepositoryStatement::Delete.get());
        let _ = w0.prepare(h0);
        let _ = w1.prepare(h1);
        let _ = w2.prepare(h2);
        let _ = w3.prepare(h3);
        let _ = w4.prepare(h4);
        let mut statements: Vec<StatementWrapper> = Vec::new();
        statements.push(w0);
        statements.push(w1);
        statements.push(w2);
        statements.push(w3);
        statements.push(w4);
        Ok(UserRepository { config, statements, client })
    }

    /// The compiled statement of the given kind, looked up at the kind's
    /// slot. With a well-formed repository this never fails; the error path
    /// reports a `Repo` error rather than aborting.
    pub fn statement(&self, kind: UserRepositoryStatement) -> (r: Result<
        &tokio_postgres::Statement,
        Error,
    >)
        ensures
            self.wf() ==> (r matches Ok(s) && self.statements_spec()[kind.index_spec()].handle_spec()
                == Some(*s)),
    {
        let i = kind.index();
        if i < self.statements.len() {
            let w = &self.statements[i];
            w.get_prepared()
        } else {
            Err(Error::Repo(String::from_str("no statement slot exists for this kind")))
        }
    }

    /// The configuration the repository was constructed from.
    pub fn config(&self) -> &RepositoryConfig {
        &self.config
    }

    /// The connection the repository owns.
    pub fn client(&self) -> &tokio_postgres::Client {
        &self.client
    }

    /// The parameter of the Get and Delete statements: the identifier.
    pub fn id_params(id: u128) -> (p: Vec<SqlValue>)
        ensures
            p@ == seq![SqlValue::Id(id)],
    {
        let mut p: Vec<SqlValue> = Vec::new();
        p.push(SqlValue::Id(id));
        proof {
            assert(p@ =~= seq![SqlValue::Id(id)]);
        }
        p
    }

    /// The parameters of the GetMany statement, in the literal order the
    /// statement text expects: the limit, then the offset.
    pub fn get_many_params(limit: i64, offset: i64) -> (p: Vec<SqlValue>)
        ensures
            p@ == seq![SqlValue::Int(limit), SqlValue::Int(offset)],
    {
        let mut p: Vec<SqlValue> = Vec::new();
        p.push(SqlValue::Int(limit));
        p.push(SqlValue::Int(offset));
        proof {
            assert(p@ =~= seq![SqlValue::Int(limit), SqlValue::Int(offset)]);
        }
        p
    }

    /// The parameters of the Add statement: every field of the user,
    /// including its pre-assigned identifier and creation timestamp, in the
    /// literal order the statement text expects.
    pub fn add_params(user: &User) -> (p: Vec<SqlValue>)
        ensures
            p@ == seq![
                SqlValue::Id(user.id),
                SqlValue::Text(user.name),
                SqlValue::Stamp(Some(user.created)),
                SqlValue::Stamp(user.updated),
            ],
    {
        let mut p: Vec<SqlValue> = Vec::new();
        p.push(SqlValue::Id(user.id));
        p.push(SqlValue::Text(user.name.clone()));
        p.push(SqlValue::Stamp(Some(user.created)));
        p.push(SqlValue::Stamp(user.updated));
        proof {
            assert(p@ =~= seq![
                SqlValue::Id(user.id),
                SqlValue::Text(user.name),
                SqlValue::Stamp(Some(user.created)),
                SqlValue::Stamp(user.updated),
            ]);
        }
        p
    }

    /// The parameters of the Update statement, in the literal order the
    /// statement text expects: the identifier, the name, and an update
    /// stamp that is present — the stamp is set at the moment of the call,
    /// not taken from the in-memory user.
    pub fn update_params(user: &User) -> (p: Vec<SqlValue>)
        ensures
            p@.len() == 3,
            p@[0] == SqlValue::Id(user.id),
            p@[1] == SqlValue::Text(user.name),
            p@[2] matches SqlValue::Stamp(Some(_)),
    {
        let stamp = crate::clock::now_unix();
        let mut p: Vec<SqlValue> = Vec::new();
        p.push(SqlValue::Id(user.id));
        p.push(SqlValue::Text(user.name.clone()));
        p.push(SqlValue::Stamp(Some(stamp)));
        p
    }
}

} // verus!
