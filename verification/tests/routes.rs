use user_service::handlers::{
    create_user_reply, list_users_query, list_users_reply, plan_create,
};
use user_service::table::Table;
use user_service::user::User;

#[test]
fn list_query_text_is_fixed() {
    assert_eq!(list_users_query(), "SELECT id, name, email FROM users");
}

#[test]
fn planned_insert_is_parameterized() {
    let cmd = plan_create(
        Some("Ann".to_string()),
        Some("ann@x.com".to_string()),
    )
    .unwrap();
    assert_eq!(cmd.sql, "INSERT INTO users (name, email) VALUES (?, ?)");
    assert_eq!(cmd.name, "Ann");
    assert_eq!(cmd.email, "ann@x.com");
}

#[test]
fn hostile_input_never_reaches_statement_text() {
    let name = "Robert'); DROP TABLE users; --".to_string();
    let cmd = plan_create(Some(name.clone()), Some("r@x.com".to_string())).unwrap();
    assert_eq!(cmd.sql, "INSERT INTO users (name, email) VALUES (?, ?)");
    assert_eq!(cmd.name, name);
}

#[test]
fn missing_name_plans_no_insert() {
    assert!(plan_create(None, Some("ann@x.com".to_string())).is_none());
}

#[test]
fn missing_email_plans_no_insert() {
    assert!(plan_create(Some("Ann".to_string()), None).is_none());
}

#[test]
fn empty_table_lists_as_empty_array() {
    let reply = list_users_reply(Ok(Vec::new()));
    assert_eq!(reply.status, 200);
    assert!(reply.body.is_empty());
}

#[test]
fn severed_connection_lists_as_empty_array() {
    let reply = list_users_reply(Err("connection reset by peer".to_string()));
    assert_eq!(reply.status, 200);
    assert!(reply.body.is_empty());
}

#[test]
fn successful_insert_reports_success() {
    let reply = create_user_reply(Ok(()));
    assert_eq!(reply.status, 200);
    assert!(reply.body.success);
    assert_eq!(reply.body.message, "User created successfully");
}

#[test]
fn severed_connection_reports_failure_with_status_200() {
    let reply = create_user_reply(Err("connection reset by peer".to_string()));
    assert_eq!(reply.status, 200);
    assert!(!reply.body.success);
    assert_eq!(
        reply.body.message,
        "Failed to create user: connection reset by peer"
    );
}

#[test]
fn created_user_shows_up_in_listing() {
    let mut table = Table::new();
    let id = table.insert("Ann".to_string(), "ann@x.com".to_string());
    let rows = table.select_all();
    assert!(rows
        .iter()
        .any(|u| u.id == id && u.name == "Ann" && u.email == "ann@x.com"));
    assert!(id >= 1);
}

#[test]
fn create_then_list_round_trip() {
    let mut table = Table::new();
    let body = plan_create(
        Some("Ann".to_string()),
        Some("ann@x.com".to_string()),
    )
    .unwrap();
    table.insert(body.name, body.email);
    let listed = list_users_reply(Ok(table.select_all()));
    assert_eq!(listed.status, 200);
    assert_eq!(listed.body.len(), 1);
    assert_eq!(listed.body[0].id, 1);
    assert_eq!(listed.body[0].name, "Ann");
    assert_eq!(listed.body[0].email, "ann@x.com");
}

#[test]
fn batch_of_creates_gets_distinct_ids() {
    let mut table = Table::new();
    let mut ids: Vec<u32> = Vec::new();
    let payloads = [
        ("a", "a@x.com"),
        ("b", "b@x.com"),
        ("c", "c@x.com"),
        ("d", "d@x.com"),
        ("e", "e@x.com"),
    ];
    for (name, email) in payloads.iter() {
        ids.push(table.insert(name.to_string(), email.to_string()));
    }
    for i in 0..ids.len() {
        for j in 0..ids.len() {
            if i != j {
                assert_ne!(ids[i], ids[j]);
            }
        }
    }
    assert_eq!(table.select_all().len(), 5);
}

#[test]
fn listing_returns_rows_unchanged() {
    let rows = vec![
        User {
            id: 1,
            name: "Ann".to_string(),
            email: "ann@x.com".to_string(),
        },
        User {
            id: 2,
            name: "Bob".to_string(),
            email: "bob@x.com".to_string(),
        },
    ];
    let reply = list_users_reply(Ok(rows));
    assert_eq!(reply.status, 200);
    assert_eq!(reply.body.len(), 2);
    assert_eq!(reply.body[0].name, "Ann");
    assert_eq!(reply.body[1].email, "bob@x.com");
}
