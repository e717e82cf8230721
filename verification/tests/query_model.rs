use pgrouter::CustomQuery;
use pgrouter::DatabaseTable;
use pgrouter::Query;
use pgrouter::get_resulting_connection_string;

#[test]
fn get_databases_projections() {
    let q = Query::GetDatabases;
    assert_eq!(q.get_query_string(), "SELECT datname FROM pg_database;");
    assert_eq!(q.get_mentioned_database(), None);
}

#[test]
fn get_tables_projections() {
    let q = Query::GetTables(Some(String::from("app_db")));
    assert_eq!(
        q.get_query_string(),
        "SELECT table_name \n            FROM information_schema.tables\n            WHERE table_schema = 'public';"
    );
    assert_eq!(q.get_mentioned_database(), Some(String::from("app_db")));

    let q_none = Query::GetTables(None);
    assert_eq!(q_none.get_mentioned_database(), None);
    assert_eq!(q_none.get_query_string(), q.get_query_string());
}

#[test]
fn get_table_contents_projections() {
    let q = Query::GetTableContents(DatabaseTable {
        database: None,
        table: String::from("users"),
    });
    assert_eq!(q.get_query_string(), "SELECT * FROM \"users\";");
    assert_eq!(q.get_mentioned_database(), None);

    let q2 = Query::GetTableContents(DatabaseTable {
        database: Some(String::from("app_db")),
        table: String::from("orders"),
    });
    assert_eq!(q2.get_query_string(), "SELECT * FROM \"orders\";");
    assert_eq!(q2.get_mentioned_database(), Some(String::from("app_db")));
}

#[test]
fn custom_query_projections() {
    let q = Query::CustomQuery(CustomQuery {
        database: Some(String::from("app_db")),
        sql_query: String::from("SELECT 1;"),
    });
    assert_eq!(q.get_query_string(), "SELECT 1;");
    assert_eq!(q.get_mentioned_database(), Some(String::from("app_db")));
}

#[test]
fn projections_are_pure() {
    let q = Query::GetTableContents(DatabaseTable {
        database: Some(String::from("db")),
        table: String::from("t"),
    });
    assert_eq!(q.get_query_string(), q.get_query_string());
    assert_eq!(q.get_mentioned_database(), q.get_mentioned_database());
}

#[test]
fn connection_string_merges_database_name() {
    let merged =
        get_resulting_connection_string("host=localhost user=me", &Some(String::from("app_db")));
    assert_eq!(merged, "host=localhost user=me dbname=app_db");
}

#[test]
fn connection_string_without_database_is_untouched() {
    let merged = get_resulting_connection_string("host=localhost user=me", &None);
    assert_eq!(merged, "host=localhost user=me");
}
