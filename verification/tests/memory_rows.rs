use sentinelops::memory_rows::{memory_to_row, row_to_memory, MemoryRow};
use sentinelops::memory_service::MemoryManager;
use sentinelops::memory_types::{CreateMemoryInput, MemoryType};

fn row() -> MemoryRow {
    MemoryRow {
        id: "id-1".to_string(),
        workspace_id: "ws".to_string(),
        content: "content".to_string(),
        summary: Some("summary".to_string()),
        memory_type: "conversation".to_string(),
        source_conversation_id: Some("conv".to_string()),
        source_message_ids: Some("[\"m1\",\"m2\"]".to_string()),
        embedding: Some(vec![1, 2, 3, 4]),
        embedding_model: Some("model".to_string()),
        tags: Some("[\"a\", \"b\\n\", \"\\u00e9\"]".to_string()),
        importance: 7,
        access_count: 3,
        last_accessed_at: Some("t2".to_string()),
        created_at: "t0".to_string(),
        updated_at: "t1".to_string(),
        expires_at: Some("t9".to_string()),
        is_pinned: 1,
        metadata: Some("{\"k\": [1, 2]}".to_string()),
    }
}

#[test]
fn row_reads_as_memory() {
    let m = row_to_memory(&row());
    assert_eq!(m.id, "id-1");
    assert_eq!(m.workspace_id, "ws");
    assert_eq!(m.content, "content");
    assert_eq!(m.summary, Some("summary".to_string()));
    assert_eq!(m.memory_type, MemoryType::Conversation);
    assert_eq!(m.source_conversation_id, Some("conv".to_string()));
    assert_eq!(m.source_message_ids, Some(vec!["m1".to_string(), "m2".to_string()]));
    assert_eq!(m.embedding_model, Some("model".to_string()));
    assert_eq!(
        m.tags,
        Some(vec!["a".to_string(), "b\n".to_string(), "\u{e9}".to_string()])
    );
    assert_eq!(m.importance, 7);
    assert_eq!(m.access_count, 3);
    assert_eq!(m.last_accessed_at, Some("t2".to_string()));
    assert_eq!(m.created_at, "t0");
    assert_eq!(m.updated_at, "t1");
    assert_eq!(m.expires_at, Some("t9".to_string()));
    assert!(m.is_pinned);
    assert_eq!(m.metadata, Some("{\"k\": [1, 2]}".to_string()));
}

#[test]
fn row_with_unreadable_columns_reads_them_as_absent() {
    let mut r = row();
    r.tags = Some("not json".to_string());
    r.source_message_ids = Some("{\"a\":1}".to_string());
    r.metadata = Some("{broken".to_string());
    r.memory_type = "mystery".to_string();
    r.is_pinned = 0;
    let m = row_to_memory(&r);
    assert_eq!(m.tags, None);
    assert_eq!(m.source_message_ids, None);
    assert_eq!(m.metadata, None);
    assert_eq!(m.memory_type, MemoryType::User);
    assert!(!m.is_pinned);
    r.tags = Some("[1, 2]".to_string());
    assert_eq!(row_to_memory(&r).tags, None);
    r.tags = Some("[]".to_string());
    assert_eq!(row_to_memory(&r).tags, Some(vec![]));
    r.tags = None;
    assert_eq!(row_to_memory(&r).tags, None);
    r.is_pinned = -3;
    assert!(row_to_memory(&r).is_pinned);
}

#[test]
fn memory_writes_as_row() {
    let m = row_to_memory(&row());
    let written = memory_to_row(&m, &Some(vec![9, 8, 7, 6]));
    assert_eq!(written.id, "id-1");
    assert_eq!(written.workspace_id, "ws");
    assert_eq!(written.memory_type, "conversation");
    assert_eq!(written.source_message_ids, Some("[\"m1\",\"m2\"]".to_string()));
    assert_eq!(written.tags, Some("[\"a\",\"b\\n\",\"\u{e9}\"]".to_string()));
    assert_eq!(written.embedding, Some(vec![9, 8, 7, 6]));
    assert_eq!(written.embedding_model, Some("model".to_string()));
    assert_eq!(written.importance, 7);
    assert_eq!(written.access_count, 3);
    assert_eq!(written.is_pinned, 1);
    assert_eq!(written.metadata, Some("{\"k\": [1, 2]}".to_string()));
    let again = row_to_memory(&written);
    assert_eq!(again.tags, m.tags);
    assert_eq!(again.source_message_ids, m.source_message_ids);
    let bare = memory_to_row(&m, &None);
    assert_eq!(bare.embedding, None);
}

#[test]
fn created_memory_survives_the_table() {
    let mut store = MemoryManager::new("/tmp/ws-a");
    let created = store
        .create_memory(CreateMemoryInput {
            content: "quote \" and backslash \\".to_string(),
            summary: None,
            memory_type: Some("auto".to_string()),
            tags: Some(vec!["with \"quotes\"".to_string(), "tab\there".to_string()]),
            importance: Some(4),
            is_pinned: Some(true),
            source_conversation_id: None,
            source_message_ids: None,
            metadata: Some("{\"a\":null}".to_string()),
        })
        .unwrap();
    let stored = memory_to_row(&created, &None);
    let reopened = MemoryManager::open("/tmp/ws-a", &vec![stored], None).unwrap();
    let read = reopened.get_memory(&created.id).unwrap();
    assert_eq!(read.content, created.content);
    assert_eq!(read.tags, created.tags);
    assert_eq!(read.memory_type, MemoryType::Auto);
    assert_eq!(read.importance, 4);
    assert!(read.is_pinned);
    assert_eq!(read.metadata, created.metadata);
    assert_eq!(read.created_at, created.created_at);
}
