use vstd::prelude::*;
use vstd::string::StringExecFns;

use crate::user::{ApiResponse, User};

verus! {

/// The one SELECT statement the service ever issues.
pub open spec fn select_sql() -> Seq<char> {
    "SELECT id, name, email FROM users"@
}

/// The one INSERT statement the service ever issues. Its two placeholders
/// are filled through the driver's parameter binding, never by writing
/// request text into the statement.
pub open spec fn insert_sql() -> Seq<char> {
    "INSERT INTO users (name, email) VALUES (?, ?)"@
}

/// Body text reported when an insert went through.
pub open spec fn created_message() -> Seq<char> {
    "User created successfully"@
}

/// Prefix of the body text reported when an insert failed; the driver's own
/// error text follows it.
pub open spec fn failed_prefix() -> Seq<char> {
    "Failed to create user: "@
}

/// The list route's statement text, fixed: it takes nothing from any request.
pub fn list_users_query() -> (sql: &'static str)
    ensures
        sql@ == select_sql(),
{
    "SELECT id, name, email FROM users"
}

/// An insert the service has decided on but not yet run: the fixed statement
/// text and the two values to bind to its placeholders, kept apart from it.
pub struct InsertCommand {
    pub sql: &'static str,
    pub name: String,
    pub email: String,
}

impl InsertCommand {
    /// The statement text is exactly the fixed INSERT: whatever the request
    /// held, none of it stands in the text that reaches the database.
    pub open spec fn wf(&self) -> bool {
        self.sql@ == insert_sql()
    }
}

/// Decides the create route at the deserialization boundary. A body carrying
/// both required fields yields the parameterized insert; a body missing
/// either field yields no command at all, so no row is ever inserted for it.
pub fn plan_create(name: Option<String>, email: Option<String>) -> (r: Option<InsertCommand>)
    ensures
        r is Some <==> (name is Some && email is Some),
        r is Some ==> r->0.wf(),
        r is Some ==> r->0.name@ == name->0@ && r->0.email@ == email->0@,
{
    match (name, email) {
        (Some(name), Some(email)) => Some(
            InsertCommand { sql: "INSERT INTO users (name, email) VALUES (?, ?)", name, email },
        ),
        _ => None,
    }
}

/// A finished reply on the list route: the transport status and the rows to
/// serialize as the JSON array body.
pub struct ListReply {
    pub status: u16,
    pub body: Vec<User>,
}

/// A finished reply on the create route.
pub struct CreateReply {
    pub status: u16,
    pub body: ApiResponse,
}

/// Maps the list query's outcome to the reply. A failed query is swallowed
/// on purpose: the reply is the empty array with status 200, and the caller
/// cannot tell it from a truly empty table. Only the error text is dropped
/// here; logging it is the caller's business.
pub fn list_users_reply(outcome: Result<Vec<User>, String>) -> (r: ListReply)
    ensures
        r.status == 200,
        outcome is Ok ==> r.body@ == outcome->Ok_0@,
        outcome is Err ==> r.body@ == Seq::<User>::empty(),
{
    match outcome {
        Ok(users) => ListReply { status: 200, body: users },
        Err(_) => ListReply { status: 200, body: Vec::new() },
    }
}

/// Maps the insert's outcome to the reply. The status is 200 either way;
/// only the body's flag and message carry the outcome, the failure message
/// quoting the driver's error text after the fixed prefix.
pub fn create_user_reply(outcome: Result<(), String>) -> (r: CreateReply)
    ensures
        r.status == 200,
        r.body.success <==> outcome is Ok,
        outcome is Ok ==> r.body.message@ == created_message(),
        outcome is Err ==> r.body.message@ == failed_prefix() + outcome->Err_0@,
{
    match outcome {
        Ok(()) => CreateReply {
            status: 200,
            body: ApiResponse {
                success: true,
                message: String::from_str("User created successfully"),
            },
        },
        Err(err) => CreateReply {
            status: 200,
            body: ApiResponse {
                success: false,
                message: String::from_str("Failed to create user: ").concat(err.as_str()),
            },
        },
    }
}

} // verus!
