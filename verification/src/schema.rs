//! The schema of the assistant's local store, as the changes that have built
//! it up. Four groups of tables share the one database file: system prompts,
//! chat history, usage accounting and meeting memory.
//!
//! A body that has shipped is never edited, for stores in the field have
//! already received it: what an earlier body got wrong, a later one mends.
//! A body only adds to the schema or loosens it. Where it adds a column to a
//! table that may hold rows, the column has a default, so that those rows
//! stay valid without a pass over them.

use crate::catalog::{complete, in_version_order, lemma_order_is_unique, Catalog};
use crate::record::{Migration, MigrationKind};
use vstd::prelude::*;

verus! {

/// System prompts: named prompt texts that the user writes and edits. Every
/// edit of a name or a text renews `updated_at`.
pub const SYSTEM_PROMPTS_SQL: &'static str = "
CREATE TABLE system_prompts (
    id INTEGER PRIMARY KEY AUTOINCREMENT,
    name TEXT NOT NULL,
    prompt TEXT NOT NULL,
    created_at TEXT NOT NULL DEFAULT CURRENT_TIMESTAMP,
    updated_at TEXT NOT NULL DEFAULT CURRENT_TIMESTAMP
);

CREATE INDEX idx_system_prompts_name ON system_prompts (name);

CREATE INDEX idx_system_prompts_updated_at ON system_prompts (updated_at);

CREATE TRIGGER trg_system_prompts_touch
AFTER UPDATE OF name, prompt ON system_prompts
FOR EACH ROW
BEGIN
    UPDATE system_prompts SET updated_at = CURRENT_TIMESTAMP WHERE id = NEW.id;
END;
";

/// Chat history: conversations and the messages they own. A message belongs
/// to one conversation and goes when the conversation goes; its role is one
/// of three; once written it is never changed. The messages of a conversation
/// read in the order of their ids, which is the order in which they came.
pub const CHAT_HISTORY_SQL: &'static str = "
CREATE TABLE conversations (
    id TEXT PRIMARY KEY NOT NULL,
    title TEXT NOT NULL,
    created_at TEXT NOT NULL DEFAULT CURRENT_TIMESTAMP,
    updated_at TEXT NOT NULL DEFAULT CURRENT_TIMESTAMP
);

CREATE TABLE messages (
    id INTEGER PRIMARY KEY AUTOINCREMENT,
    conversation_id TEXT NOT NULL REFERENCES conversations (id) ON DELETE CASCADE,
    role TEXT NOT NULL CHECK (role IN ('user', 'assistant', 'system')),
    content TEXT NOT NULL,
    timestamp TEXT NOT NULL DEFAULT CURRENT_TIMESTAMP
);

CREATE INDEX idx_conversations_updated_at ON conversations (updated_at);

CREATE INDEX idx_messages_conversation ON messages (conversation_id, id);

CREATE TRIGGER trg_messages_touch_conversation
AFTER INSERT ON messages
FOR EACH ROW
BEGIN
    UPDATE conversations SET updated_at = CURRENT_TIMESTAMP WHERE id = NEW.conversation_id;
END;

CREATE TRIGGER trg_messages_immutable
BEFORE UPDATE ON messages
FOR EACH ROW
BEGIN
    SELECT RAISE(ABORT, 'a message cannot be changed');
END;
";

/// Usage accounting: one row for each call to a provider, with its token
/// counts. In this first form the conversation that a row names must exist.
pub const API_USAGE_SQL: &'static str = "
CREATE TABLE api_usage (
    id INTEGER PRIMARY KEY AUTOINCREMENT,
    conversation_id TEXT REFERENCES conversations (id) ON DELETE SET NULL,
    provider TEXT NOT NULL,
    model TEXT NOT NULL,
    input_tokens INTEGER NOT NULL DEFAULT 0,
    output_tokens INTEGER NOT NULL DEFAULT 0,
    total_tokens INTEGER NOT NULL DEFAULT 0,
    created_at TEXT NOT NULL DEFAULT CURRENT_TIMESTAMP
);

CREATE INDEX idx_api_usage_conversation ON api_usage (conversation_id);

CREATE INDEX idx_api_usage_created_at ON api_usage (created_at);

CREATE INDEX idx_api_usage_provider_model ON api_usage (provider, model);
";

/// Usage accounting, second form: the seconds of audio of a speech-to-text
/// call. Rows written before this change read as zero seconds.
pub const API_USAGE_AUDIO_SQL: &'static str = "
ALTER TABLE api_usage ADD COLUMN audio_seconds REAL NOT NULL DEFAULT 0;
";

/// Usage accounting, third form: the conversation that a row names need not
/// exist. Usage is recorded while an answer streams in, which can be before
/// the conversation is stored; from here on the name is a plain reference
/// that the store does not enforce, and one that leads nowhere is accepted.
///
/// The store cannot take a constraint off a table in place, so the table is
/// built anew without it and every row is carried over before the old table
/// is dropped.
pub const API_USAGE_RELAXED_SQL: &'static str = "
CREATE TABLE api_usage_relaxed (
    id INTEGER PRIMARY KEY AUTOINCREMENT,
    conversation_id TEXT,
    provider TEXT NOT NULL,
    model TEXT NOT NULL,
    input_tokens INTEGER NOT NULL DEFAULT 0,
    output_tokens INTEGER NOT NULL DEFAULT 0,
    total_tokens INTEGER NOT NULL DEFAULT 0,
    created_at TEXT NOT NULL DEFAULT CURRENT_TIMESTAMP,
    audio_seconds REAL NOT NULL DEFAULT 0
);

INSERT INTO api_usage_relaxed (
    id, conversation_id, provider, model,
    input_tokens, output_tokens, total_tokens, created_at, audio_seconds
)
SELECT
    id, conversation_id, provider, model,
    input_tokens, output_tokens, total_tokens, created_at, audio_seconds
FROM api_usage;

DROP TABLE api_usage;

ALTER TABLE api_usage_relaxed RENAME TO api_usage;

CREATE INDEX idx_api_usage_conversation ON api_usage (conversation_id);

CREATE INDEX idx_api_usage_created_at ON api_usage (created_at);

CREATE INDEX idx_api_usage_provider_model ON api_usage (provider, model);
";

/// Meeting memory: what is kept of a meeting once its transcript is gone. A
/// meeting has one summary and any number of entities drawn from it (a
/// person, a thing, a decision); the knowledge profile gathers, topic by
/// topic, what the meetings have taught. A meeting is named by a plain
/// reference that the store does not enforce.
pub const MEETING_CONTEXT_SQL: &'static str = "
CREATE TABLE meeting_summaries (
    id INTEGER PRIMARY KEY AUTOINCREMENT,
    meeting_id TEXT NOT NULL UNIQUE,
    title TEXT NOT NULL DEFAULT '',
    summary TEXT NOT NULL,
    created_at TEXT NOT NULL DEFAULT CURRENT_TIMESTAMP,
    updated_at TEXT NOT NULL DEFAULT CURRENT_TIMESTAMP
);

CREATE TABLE meeting_entities (
    id INTEGER PRIMARY KEY AUTOINCREMENT,
    meeting_id TEXT NOT NULL,
    kind TEXT NOT NULL CHECK (kind IN ('person', 'thing', 'decision')),
    name TEXT NOT NULL,
    detail TEXT NOT NULL DEFAULT '',
    created_at TEXT NOT NULL DEFAULT CURRENT_TIMESTAMP
);

CREATE TABLE knowledge_profile (
    id INTEGER PRIMARY KEY AUTOINCREMENT,
    topic TEXT NOT NULL UNIQUE,
    content TEXT NOT NULL,
    meeting_count INTEGER NOT NULL DEFAULT 0,
    created_at TEXT NOT NULL DEFAULT CURRENT_TIMESTAMP,
    updated_at TEXT NOT NULL DEFAULT CURRENT_TIMESTAMP
);

CREATE INDEX idx_meeting_entities_meeting ON meeting_entities (meeting_id);

CREATE INDEX idx_meeting_entities_kind_name ON meeting_entities (kind, name);

CREATE TRIGGER trg_meeting_summaries_touch
AFTER UPDATE OF title, summary ON meeting_summaries
FOR EACH ROW
BEGIN
    UPDATE meeting_summaries SET updated_at = CURRENT_TIMESTAMP WHERE id = NEW.id;
END;

CREATE TRIGGER trg_knowledge_profile_touch
AFTER UPDATE OF content, meeting_count ON knowledge_profile
FOR EACH ROW
BEGIN
    UPDATE knowledge_profile SET updated_at = CURRENT_TIMESTAMP WHERE id = NEW.id;
END;
";

/// The schema changes that have shipped, oldest first.
pub open spec fn shipped() -> Seq<Migration> {
    seq![
        Migration {
            version: 1,
            description: "create_system_prompts_table",
            sql: SYSTEM_PROMPTS_SQL,
            kind: MigrationKind::Up,
        },
        Migration {
            version: 2,
            description: "create_chat_history_tables",
            sql: CHAT_HISTORY_SQL,
            kind: MigrationKind::Up,
        },
        Migration {
            version: 3,
            description: "create_api_usage_table",
            sql: API_USAGE_SQL,
            kind: MigrationKind::Up,
        },
        Migration {
            version: 4,
            description: "add_audio_seconds_to_api_usage",
            sql: API_USAGE_AUDIO_SQL,
            kind: MigrationKind::Up,
        },
        Migration {
            version: 5,
            description: "remove_fk_from_api_usage",
            sql: API_USAGE_RELAXED_SQL,
            kind: MigrationKind::Up,
        },
        Migration {
            version: 6,
            description: "create_meeting_context_tables",
            sql: MEETING_CONTEXT_SQL,
            kind: MigrationKind::Up,
        },
    ]
}

/// The shipped changes number their versions 1 to 6 in order, so they form a
/// catalog as they stand.
pub proof fn lemma_shipped_is_sound()
    ensures
        shipped().len() == 6,
        in_version_order(shipped()),
        complete(shipped()),
{
    let list = shipped();
    assert(in_version_order(list));
    assert forall|v: int| 1 <= v <= list.len() implies #[trigger] crate::catalog::exactly_once(
        list,
        v,
    ) by {
        assert(list[v - 1].version == v);
    }
}

/// The catalog of this build.
///
/// That the shipped changes do form a catalog is proved, not tested: building
/// it cannot fail.
pub fn catalog() -> (catalog: Catalog)
    ensures
        catalog@ == shipped(),
{
    let records: Vec<Migration> = vec![
        Migration {
            version: 1,
            description: "create_system_prompts_table",
            sql: SYSTEM_PROMPTS_SQL,
            kind: MigrationKind::Up,
        },
        Migration {
            version: 2,
            description: "create_chat_history_tables",
            sql: CHAT_HISTORY_SQL,
            kind: MigrationKind::Up,
        },
        Migration {
            version: 3,
            description: "create_api_usage_table",
            sql: API_USAGE_SQL,
            kind: MigrationKind::Up,
        },
        Migration {
            version: 4,
            description: "add_audio_seconds_to_api_usage",
            sql: API_USAGE_AUDIO_SQL,
            kind: MigrationKind::Up,
        },
        Migration {
            version: 5,
            description: "remove_fk_from_api_usage",
            sql: API_USAGE_RELAXED_SQL,
            kind: MigrationKind::Up,
        },
        Migration {
            version: 6,
            description: "create_meeting_context_tables",
            sql: MEETING_CONTEXT_SQL,
            kind: MigrationKind::Up,
        },
    ];
    proof {
        assert(records@ =~= shipped());
        lemma_shipped_is_sound();
    }
    let catalog = Catalog::new(records).unwrap();
    proof {
        lemma_order_is_unique(shipped(), catalog@, shipped());
    }
    catalog
}

/// All the schema changes of this build, oldest first: version 1 comes first
/// and each version is one above the one before it.
pub fn migrations() -> (list: Vec<Migration>)
    ensures
        list@ == shipped(),
        in_version_order(list@),
{
    catalog().list()
}

} // verus!
