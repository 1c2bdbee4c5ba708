use rusqlite::Connection;
use schema_migrations::{catalog, Action, Engine, Event, MigrationError};

/// A store in memory that enforces its references, with the reserved table
/// that holds the marker.
fn open() -> Connection {
    let conn = Connection::open_in_memory().unwrap();
    conn.execute_batch("PRAGMA foreign_keys = ON;").unwrap();
    conn
}

fn read_marker(conn: &Connection) -> Option<i64> {
    let tables: i64 = conn
        .query_row(
            "SELECT COUNT(*) FROM sqlite_master WHERE type = 'table' AND name = 'schema_versions'",
            (),
            |row| row.get(0),
        )
        .unwrap();
    if tables == 0 {
        return None;
    }
    conn.query_row("SELECT MAX(version) FROM schema_versions", (), |row| row.get(0)).unwrap()
}

fn apply(conn: &Connection, version: i64, description: &str, body: &str) -> bool {
    conn.execute_batch(
        "BEGIN;
         CREATE TABLE IF NOT EXISTS schema_versions (
             version INTEGER PRIMARY KEY,
             description TEXT NOT NULL,
             applied_at TEXT NOT NULL DEFAULT CURRENT_TIMESTAMP
         );",
    )
    .unwrap();
    let done = conn.execute_batch(body).and_then(|_| {
        conn.execute(
            "INSERT INTO schema_versions (version, description) VALUES (?1, ?2)",
            (version, description),
        )
    });
    match done {
        Ok(_) => {
            conn.execute_batch("COMMIT;").unwrap();
            true
        }
        Err(_) => {
            conn.execute_batch("ROLLBACK;").unwrap();
            false
        }
    }
}

/// Brings the store up to `limit` at most, by the rules of the engine, and
/// gives the versions that were applied.
fn bring_up_to(conn: &Connection, limit: i64) -> Result<Vec<i64>, MigrationError> {
    let mut applied = Vec::new();
    let mut engine = Engine::new(catalog());
    let mut action = engine.action();
    loop {
        let event = match action {
            Action::ReadMarker => Event::MarkerRead(read_marker(conn)),
            Action::Apply(record) => {
                if record.version > limit {
                    return Ok(applied);
                }
                if apply(conn, record.version, record.description, record.sql) {
                    applied.push(record.version);
                    Event::Applied
                } else {
                    Event::ApplyFailed
                }
            }
            Action::Finish => return Ok(applied),
            Action::Abort(error) => return Err(error),
        };
        action = engine.step(event);
    }
}

fn bring_up(conn: &Connection) -> Result<Vec<i64>, MigrationError> {
    bring_up_to(conn, i64::MAX)
}

fn objects(conn: &Connection, kind: &str) -> Vec<String> {
    let mut statement = conn
        .prepare(
            "SELECT name FROM sqlite_master
             WHERE type = ?1 AND name NOT LIKE 'sqlite_%' AND name <> 'schema_versions'
             ORDER BY name",
        )
        .unwrap();
    let names = statement.query_map((kind,), |row| row.get::<_, String>(0)).unwrap();
    names.map(|name| name.unwrap()).collect()
}

fn columns(conn: &Connection, table: &str) -> Vec<String> {
    let mut statement =
        conn.prepare("SELECT name FROM pragma_table_info(?1) ORDER BY cid").unwrap();
    let names = statement.query_map((table,), |row| row.get::<_, String>(0)).unwrap();
    names.map(|name| name.unwrap()).collect()
}

fn count(conn: &Connection, table: &str) -> i64 {
    conn.query_row(&format!("SELECT COUNT(*) FROM {}", table), (), |row| row.get(0)).unwrap()
}

#[test]
fn an_empty_database_receives_every_schema_object() {
    let conn = open();
    assert_eq!(read_marker(&conn), None);
    assert_eq!(bring_up(&conn), Ok(vec![1, 2, 3, 4, 5, 6]));
    assert_eq!(read_marker(&conn), Some(6));
    assert_eq!(
        objects(&conn, "table"),
        vec![
            "api_usage",
            "conversations",
            "knowledge_profile",
            "meeting_entities",
            "meeting_summaries",
            "messages",
            "system_prompts",
        ]
    );
    assert_eq!(
        objects(&conn, "index"),
        vec![
            "idx_api_usage_conversation",
            "idx_api_usage_created_at",
            "idx_api_usage_provider_model",
            "idx_conversations_updated_at",
            "idx_meeting_entities_kind_name",
            "idx_meeting_entities_meeting",
            "idx_messages_conversation",
            "idx_system_prompts_name",
            "idx_system_prompts_updated_at",
        ]
    );
    assert_eq!(
        objects(&conn, "trigger"),
        vec![
            "trg_knowledge_profile_touch",
            "trg_meeting_summaries_touch",
            "trg_messages_immutable",
            "trg_messages_touch_conversation",
            "trg_system_prompts_touch",
        ]
    );
}

#[test]
fn the_reserved_table_records_each_version_once() {
    let conn = open();
    bring_up(&conn).unwrap();
    let mut statement =
        conn.prepare("SELECT version, description FROM schema_versions ORDER BY version").unwrap();
    let rows: Vec<(i64, String)> = statement
        .query_map((), |row| Ok((row.get(0)?, row.get(1)?)))
        .unwrap()
        .map(|row| row.unwrap())
        .collect();
    let expect: Vec<(i64, String)> = catalog()
        .list()
        .iter()
        .map(|m| (m.version, m.description.to_string()))
        .collect();
    assert_eq!(rows, expect);
}

#[test]
fn a_database_that_is_current_is_not_touched_again() {
    let conn = open();
    assert_eq!(bring_up(&conn), Ok(vec![1, 2, 3, 4, 5, 6]));
    conn.execute("INSERT INTO system_prompts (name, prompt) VALUES ('n', 'p')", ()).unwrap();
    assert_eq!(bring_up(&conn), Ok(Vec::new()));
    assert_eq!(bring_up(&conn), Ok(Vec::new()));
    assert_eq!(read_marker(&conn), Some(6));
    assert_eq!(count(&conn, "schema_versions"), 6);
    assert_eq!(count(&conn, "system_prompts"), 1);
}

#[test]
fn a_database_at_a_middle_version_receives_the_rest() {
    let conn = open();
    assert_eq!(bring_up_to(&conn, 2), Ok(vec![1, 2]));
    assert_eq!(read_marker(&conn), Some(2));
    assert_eq!(objects(&conn, "table"), vec!["conversations", "messages", "system_prompts"]);
    assert_eq!(bring_up(&conn), Ok(vec![3, 4, 5, 6]));
    assert_eq!(read_marker(&conn), Some(6));
    assert_eq!(objects(&conn, "table").len(), 7);
}

#[test]
fn a_body_that_creates_cannot_be_applied_twice() {
    // What keeps a body from running twice is the marker, not the body: the
    // bodies that create or add would fail on what they made the first time.
    let conn = open();
    bring_up(&conn).unwrap();
    for version in [1, 2, 3, 4, 6] {
        let record = catalog().get(version).unwrap();
        assert!(conn.execute_batch(record.sql).is_err(), "version {}", version);
    }
}

#[test]
fn a_database_ahead_of_the_catalog_is_refused_untouched() {
    let conn = open();
    bring_up(&conn).unwrap();
    for version in 7..=10 {
        conn.execute(
            "INSERT INTO schema_versions (version, description) VALUES (?1, 'from a later build')",
            (version,),
        )
        .unwrap();
    }
    assert_eq!(read_marker(&conn), Some(10));
    assert_eq!(bring_up(&conn), Err(MigrationError::VersionSkew { marker: 10, max: 6 }));
    assert_eq!(read_marker(&conn), Some(10));
    assert_eq!(count(&conn, "schema_versions"), 10);
}

#[test]
fn a_body_that_fails_leaves_no_trace() {
    let conn = open();
    assert_eq!(bring_up_to(&conn, 2), Ok(vec![1, 2]));
    // Something is in the way of the third body's second half: its table can
    // be made, its first index cannot.
    conn.execute_batch("CREATE TABLE blocker (x); CREATE INDEX idx_api_usage_conversation ON blocker (x);")
        .unwrap();
    assert_eq!(bring_up(&conn), Err(MigrationError::ApplicationFailed { version: 3 }));
    assert_eq!(read_marker(&conn), Some(2));
    assert!(!objects(&conn, "table").contains(&"api_usage".to_string()));
    // Once the obstacle is gone, the run resumes where it stopped.
    conn.execute_batch("DROP TABLE blocker;").unwrap();
    assert_eq!(bring_up(&conn), Ok(vec![3, 4, 5, 6]));
}

#[test]
fn usage_rows_from_before_the_audio_column_read_as_zero_seconds() {
    let conn = open();
    assert_eq!(bring_up_to(&conn, 3), Ok(vec![1, 2, 3]));
    assert!(!columns(&conn, "api_usage").contains(&"audio_seconds".to_string()));
    conn.execute(
        "INSERT INTO api_usage (provider, model, input_tokens, output_tokens, total_tokens)
         VALUES ('openai', 'gpt-4o', 10, 20, 30)",
        (),
    )
    .unwrap();
    assert_eq!(bring_up_to(&conn, 4), Ok(vec![4]));
    assert!(columns(&conn, "api_usage").contains(&"audio_seconds".to_string()));
    let (seconds, kind): (f64, String) = conn
        .query_row("SELECT audio_seconds, typeof(audio_seconds) FROM api_usage", (), |row| {
            Ok((row.get(0)?, row.get(1)?))
        })
        .unwrap();
    assert_eq!(seconds, 0.0);
    assert_ne!(kind, "null");
    // A row written afterwards without the column gets the default too.
    conn.execute("INSERT INTO api_usage (provider, model) VALUES ('openai', 'whisper-1')", ())
        .unwrap();
    let nulls: i64 = conn
        .query_row("SELECT COUNT(*) FROM api_usage WHERE audio_seconds IS NULL", (), |row| {
            row.get(0)
        })
        .unwrap();
    assert_eq!(nulls, 0);
    // And one that names its seconds keeps them.
    conn.execute(
        "INSERT INTO api_usage (provider, model, audio_seconds) VALUES ('openai', 'whisper-1', 12.5)",
        (),
    )
    .unwrap();
    let total: f64 =
        conn.query_row("SELECT SUM(audio_seconds) FROM api_usage", (), |row| row.get(0)).unwrap();
    assert_eq!(total, 12.5);
}

#[test]
fn usage_may_name_an_unknown_conversation_only_after_the_reference_is_relaxed() {
    let insert = "INSERT INTO api_usage (conversation_id, provider, model)
                  VALUES ('not-stored-yet', 'openai', 'gpt-4o')";
    let conn = open();
    assert_eq!(bring_up_to(&conn, 3), Ok(vec![1, 2, 3]));
    assert!(conn.execute(insert, ()).is_err());
    assert_eq!(bring_up_to(&conn, 4), Ok(vec![4]));
    assert!(conn.execute(insert, ()).is_err());
    assert_eq!(count(&conn, "api_usage"), 0);
    assert_eq!(bring_up_to(&conn, 5), Ok(vec![5]));
    assert_eq!(conn.execute(insert, ()), Ok(1));
    assert_eq!(count(&conn, "api_usage"), 1);
    // The conversation may come later, or never.
    conn.execute("INSERT INTO conversations (id, title) VALUES ('not-stored-yet', 't')", ())
        .unwrap();
    conn.execute("DELETE FROM conversations WHERE id = 'not-stored-yet'", ()).unwrap();
    assert_eq!(count(&conn, "api_usage"), 1);
}

#[test]
fn usage_rows_survive_the_relaxing_of_the_reference() {
    let conn = open();
    assert_eq!(bring_up_to(&conn, 4), Ok(vec![1, 2, 3, 4]));
    conn.execute("INSERT INTO conversations (id, title) VALUES ('c1', 'first')", ()).unwrap();
    conn.execute(
        "INSERT INTO api_usage
            (conversation_id, provider, model, input_tokens, output_tokens, total_tokens,
             created_at, audio_seconds)
         VALUES ('c1', 'openai', 'gpt-4o', 1, 2, 3, '2024-05-06 07:08:09', 4.5)",
        (),
    )
    .unwrap();
    conn.execute("INSERT INTO api_usage (provider, model) VALUES ('groq', 'whisper')", ())
        .unwrap();
    let columns_before = columns(&conn, "api_usage");
    assert_eq!(bring_up(&conn), Ok(vec![5, 6]));
    assert_eq!(columns(&conn, "api_usage"), columns_before);
    assert_eq!(count(&conn, "api_usage"), 2);
    let row: (i64, String, String, String, i64, i64, i64, String, f64) = conn
        .query_row(
            "SELECT id, conversation_id, provider, model, input_tokens, output_tokens,
                    total_tokens, created_at, audio_seconds
             FROM api_usage WHERE id = 1",
            (),
            |row| {
                Ok((
                    row.get(0)?,
                    row.get(1)?,
                    row.get(2)?,
                    row.get(3)?,
                    row.get(4)?,
                    row.get(5)?,
                    row.get(6)?,
                    row.get(7)?,
                    row.get(8)?,
                ))
            },
        )
        .unwrap();
    assert_eq!(
        row,
        (
            1,
            "c1".to_string(),
            "openai".to_string(),
            "gpt-4o".to_string(),
            1,
            2,
            3,
            "2024-05-06 07:08:09".to_string(),
            4.5
        )
    );
    // Ids go on from where they were.
    conn.execute("INSERT INTO api_usage (provider, model) VALUES ('openai', 'gpt-4o')", ())
        .unwrap();
    let newest: i64 =
        conn.query_row("SELECT MAX(id) FROM api_usage", (), |row| row.get(0)).unwrap();
    assert_eq!(newest, 3);
    assert!(!objects(&conn, "table").contains(&"api_usage_relaxed".to_string()));
}

#[test]
fn messages_go_with_their_conversation() {
    let conn = open();
    bring_up(&conn).unwrap();
    conn.execute("INSERT INTO conversations (id, title) VALUES ('c1', 'first')", ()).unwrap();
    conn.execute("INSERT INTO conversations (id, title) VALUES ('c2', 'second')", ()).unwrap();
    for (conversation, role, content) in
        [("c1", "system", "s"), ("c1", "user", "u"), ("c1", "assistant", "a"), ("c2", "user", "x")]
    {
        conn.execute(
            "INSERT INTO messages (conversation_id, role, content) VALUES (?1, ?2, ?3)",
            (conversation, role, content),
        )
        .unwrap();
    }
    let mut statement = conn
        .prepare("SELECT content FROM messages WHERE conversation_id = 'c1' ORDER BY id")
        .unwrap();
    let contents: Vec<String> =
        statement.query_map((), |row| row.get(0)).unwrap().map(|c| c.unwrap()).collect();
    assert_eq!(contents, vec!["s", "u", "a"]);
    conn.execute("DELETE FROM conversations WHERE id = 'c1'", ()).unwrap();
    assert_eq!(count(&conn, "messages"), 1);
}

#[test]
fn a_message_needs_its_conversation_and_a_known_role() {
    let conn = open();
    bring_up(&conn).unwrap();
    conn.execute("INSERT INTO conversations (id, title) VALUES ('c1', 'first')", ()).unwrap();
    assert!(conn
        .execute("INSERT INTO messages (conversation_id, role, content) VALUES ('nowhere', 'user', 'x')", ())
        .is_err());
    assert!(conn
        .execute("INSERT INTO messages (conversation_id, role, content) VALUES ('c1', 'tool', 'x')", ())
        .is_err());
    assert_eq!(count(&conn, "messages"), 0);
}

#[test]
fn a_message_cannot_be_changed() {
    let conn = open();
    bring_up(&conn).unwrap();
    conn.execute("INSERT INTO conversations (id, title) VALUES ('c1', 'first')", ()).unwrap();
    conn.execute(
        "INSERT INTO messages (conversation_id, role, content) VALUES ('c1', 'user', 'as written')",
        (),
    )
    .unwrap();
    assert!(conn.execute("UPDATE messages SET content = 'rewritten'", ()).is_err());
    let content: String =
        conn.query_row("SELECT content FROM messages", (), |row| row.get(0)).unwrap();
    assert_eq!(content, "as written");
}

#[test]
fn a_new_message_renews_its_conversation() {
    let conn = open();
    bring_up(&conn).unwrap();
    conn.execute(
        "INSERT INTO conversations (id, title, created_at, updated_at)
         VALUES ('c1', 'first', '2001-01-01 00:00:00', '2001-01-01 00:00:00')",
        (),
    )
    .unwrap();
    conn.execute(
        "INSERT INTO messages (conversation_id, role, content) VALUES ('c1', 'user', 'hello')",
        (),
    )
    .unwrap();
    let (created, updated): (String, String) = conn
        .query_row("SELECT created_at, updated_at FROM conversations", (), |row| {
            Ok((row.get(0)?, row.get(1)?))
        })
        .unwrap();
    assert_eq!(created, "2001-01-01 00:00:00");
    assert!(updated.as_str() > "2001-01-01 00:00:00");
}

#[test]
fn an_edited_prompt_renews_its_timestamp() {
    let conn = open();
    bring_up(&conn).unwrap();
    conn.execute(
        "INSERT INTO system_prompts (name, prompt, created_at, updated_at)
         VALUES ('n', 'p', '2001-01-01 00:00:00', '2001-01-01 00:00:00')",
        (),
    )
    .unwrap();
    conn.execute("UPDATE system_prompts SET prompt = 'q' WHERE name = 'n'", ()).unwrap();
    let (prompt, created, updated): (String, String, String) = conn
        .query_row("SELECT prompt, created_at, updated_at FROM system_prompts", (), |row| {
            Ok((row.get(0)?, row.get(1)?, row.get(2)?))
        })
        .unwrap();
    assert_eq!(prompt, "q");
    assert_eq!(created, "2001-01-01 00:00:00");
    assert!(updated.as_str() > "2001-01-01 00:00:00");
}

#[test]
fn meeting_memory_names_its_meeting_by_a_plain_reference() {
    let conn = open();
    bring_up(&conn).unwrap();
    conn.execute(
        "INSERT INTO meeting_entities (meeting_id, kind, name) VALUES ('m1', 'person', 'Ada')",
        (),
    )
    .unwrap();
    conn.execute(
        "INSERT INTO meeting_entities (meeting_id, kind, name, detail)
         VALUES ('m1', 'decision', 'ship in May', 'agreed by all')",
        (),
    )
    .unwrap();
    assert!(conn
        .execute("INSERT INTO meeting_entities (meeting_id, kind, name) VALUES ('m1', 'mood', 'x')", ())
        .is_err());
    conn.execute("INSERT INTO meeting_summaries (meeting_id, summary) VALUES ('m1', 's')", ())
        .unwrap();
    assert!(conn
        .execute("INSERT INTO meeting_summaries (meeting_id, summary) VALUES ('m1', 'again')", ())
        .is_err());
    assert_eq!(count(&conn, "meeting_entities"), 2);
    assert_eq!(count(&conn, "meeting_summaries"), 1);
}

#[test]
fn the_knowledge_profile_holds_one_row_for_each_topic() {
    let conn = open();
    bring_up(&conn).unwrap();
    conn.execute(
        "INSERT INTO knowledge_profile (topic, content, created_at, updated_at)
         VALUES ('team', 'five people', '2001-01-01 00:00:00', '2001-01-01 00:00:00')",
        (),
    )
    .unwrap();
    assert!(conn
        .execute("INSERT INTO knowledge_profile (topic, content) VALUES ('team', 'six')", ())
        .is_err());
    conn.execute(
        "UPDATE knowledge_profile SET content = 'six people', meeting_count = meeting_count + 1
         WHERE topic = 'team'",
        (),
    )
    .unwrap();
    let (content, meetings, updated): (String, i64, String) = conn
        .query_row("SELECT content, meeting_count, updated_at FROM knowledge_profile", (), |row| {
            Ok((row.get(0)?, row.get(1)?, row.get(2)?))
        })
        .unwrap();
    assert_eq!(content, "six people");
    assert_eq!(meetings, 1);
    assert!(updated.as_str() > "2001-01-01 00:00:00");
}
