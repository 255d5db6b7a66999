//! The persisted form of a memory and its mapping to and from `Memory`.
//!
//! A row holds what the table holds: lists as JSON text, the type by its
//! name, the pinned flag as an integer, and the embedding as bytes.

use crate::memory_types::{Memory, MemoryType, MemoryView};
use crate::text::{copy_bytes, copy_opt_text};
use crate::trusted::{
    json_is_valid, json_string_list, parse_string_list, parses_as_json, string_list_json,
    write_string_list,
};
use vstd::prelude::*;

verus! {

/// One row of the memory table, column by column.
#[derive(Debug, Clone)]
pub struct MemoryRow {
    pub id: String,
    pub workspace_id: String,
    pub content: String,
    pub summary: Option<String>,
    pub memory_type: String,
    pub source_conversation_id: Option<String>,
    pub source_message_ids: Option<String>,
    pub embedding: Option<Vec<u8>>,
    pub embedding_model: Option<String>,
    pub tags: Option<String>,
    pub importance: i32,
    pub access_count: i32,
    pub last_accessed_at: Option<String>,
    pub created_at: String,
    pub updated_at: String,
    pub expires_at: Option<String>,
    pub is_pinned: i32,
    pub metadata: Option<String>,
}

/// The mathematical form of a `MemoryRow`.
pub ghost struct MemoryRowView {
    pub id: Seq<char>,
    pub workspace_id: Seq<char>,
    pub content: Seq<char>,
    pub summary: Option<Seq<char>>,
    pub memory_type: Seq<char>,
    pub source_conversation_id: Option<Seq<char>>,
    pub source_message_ids: Option<Seq<char>>,
    pub embedding: Option<Seq<u8>>,
    pub embedding_model: Option<Seq<char>>,
    pub tags: Option<Seq<char>>,
    pub importance: i32,
    pub access_count: i32,
    pub last_accessed_at: Option<Seq<char>>,
    pub created_at: Seq<char>,
    pub updated_at: Seq<char>,
    pub expires_at: Option<Seq<char>>,
    pub is_pinned: i32,
    pub metadata: Option<Seq<char>>,
}

/// The bytes of an optional byte string.
pub open spec fn opt_bytes(o: Option<Vec<u8>>) -> Option<Seq<u8>> {
    match o {
        Some(b) => Some(b@),
        None => None,
    }
}

impl View for MemoryRow {
    type V = MemoryRowView;

    open spec fn view(&self) -> MemoryRowView {
        MemoryRowView {
            id: self.id@,
            workspace_id: self.workspace_id@,
            content: self.content@,
            summary: self.summary.deep_view(),
            memory_type: self.memory_type@,
            source_conversation_id: self.source_conversation_id.deep_view(),
            source_message_ids: self.source_message_ids.deep_view(),
            embedding: opt_bytes(self.embedding),
            embedding_model: self.embedding_model.deep_view(),
            tags: self.tags.deep_view(),
            importance: self.importance,
            access_count: self.access_count,
            last_accessed_at: self.last_accessed_at.deep_view(),
            created_at: self.created_at@,
            updated_at: self.updated_at@,
            expires_at: self.expires_at.deep_view(),
            is_pinned: self.is_pinned,
            metadata: self.metadata.deep_view(),
        }
    }
}

/// The list that a stored JSON column holds: none where the column is empty
/// or its text is not a JSON array of strings.
pub open spec fn stored_list(column: Option<Seq<char>>) -> Option<Seq<Seq<char>>> {
    match column {
        Some(text) => json_string_list(text),
        None => None,
    }
}

/// Whether a stored metadata column holds JSON.
pub open spec fn holds_json(column: Option<Seq<char>>) -> bool {
    match column {
        Some(text) => json_is_valid(text),
        None => false,
    }
}

/// The memory that a row stands for, given what its two list columns hold
/// and whether its metadata column holds JSON.
pub open spec fn row_memory_from(
    row: MemoryRowView,
    source_message_ids: Option<Seq<Seq<char>>>,
    tags: Option<Seq<Seq<char>>>,
    metadata_is_json: bool,
) -> MemoryView {
    MemoryView {
        id: row.id,
        workspace_id: row.workspace_id,
        content: row.content,
        summary: row.summary,
        memory_type: MemoryType::named_or_user(row.memory_type),
        source_conversation_id: row.source_conversation_id,
        source_message_ids,
        embedding_model: row.embedding_model,
        tags,
        importance: row.importance,
        access_count: row.access_count,
        last_accessed_at: row.last_accessed_at,
        created_at: row.created_at,
        updated_at: row.updated_at,
        expires_at: row.expires_at,
        is_pinned: row.is_pinned != 0,
        metadata: if metadata_is_json {
            row.metadata
        } else {
            None
        },
    }
}

/// The memory that a row stands for.
pub open spec fn row_memory(row: MemoryRowView) -> MemoryView {
    row_memory_from(
        row,
        stored_list(row.source_message_ids),
        stored_list(row.tags),
        holds_json(row.metadata),
    )
}

/// The column that a list is stored in.
pub open spec fn list_column(list: Option<Seq<Seq<char>>>) -> Option<Seq<char>> {
    match list {
        Some(items) => Some(string_list_json(items)),
        None => None,
    }
}

/// The row that a memory and its embedding are stored as, given the two
/// list columns.
pub open spec fn memory_row_from(
    memory: MemoryView,
    embedding: Option<Seq<u8>>,
    source_message_ids: Option<Seq<char>>,
    tags: Option<Seq<char>>,
) -> MemoryRowView {
    MemoryRowView {
        id: memory.id,
        workspace_id: memory.workspace_id,
        content: memory.content,
        summary: memory.summary,
        memory_type: memory.memory_type.name(),
        source_conversation_id: memory.source_conversation_id,
        source_message_ids,
        embedding,
        embedding_model: memory.embedding_model,
        tags,
        importance: memory.importance,
        access_count: memory.access_count,
        last_accessed_at: memory.last_accessed_at,
        created_at: memory.created_at,
        updated_at: memory.updated_at,
        expires_at: memory.expires_at,
        is_pinned: if memory.is_pinned {
            1
        } else {
            0
        },
        metadata: memory.metadata,
    }
}

/// The row that a memory and its embedding are stored as.
pub open spec fn memory_row(memory: MemoryView, embedding: Option<Seq<u8>>) -> MemoryRowView {
    memory_row_from(
        memory,
        embedding,
        list_column(memory.source_message_ids),
        list_column(memory.tags),
    )
}

fn read_list(column: &Option<String>) -> (list: Option<Vec<String>>)
    ensures
        list.deep_view() == stored_list(column.deep_view()),
{
    match column {
        Some(text) => parse_string_list(text.as_str()),
        None => None,
    }
}

fn is_json(column: &Option<String>) -> (r: bool)
    ensures
        r == holds_json(column.deep_view()),
{
    match column {
        Some(text) => parses_as_json(text.as_str()),
        None => false,
    }
}

fn write_list(list: &Option<Vec<String>>) -> (column: Option<String>)
    ensures
        column.deep_view() == list_column(list.deep_view()),
{
    match list {
        Some(items) => Some(write_string_list(items)),
        None => None,
    }
}

/// Reads a row of the table as a memory, given what its two list columns
/// hold and whether its metadata column holds JSON. A type name that is none
/// of the three reads as `User`; the metadata are kept only where they are
/// JSON.
pub fn row_to_memory_with(
    row: &MemoryRow,
    source_message_ids: Option<Vec<String>>,
    tags: Option<Vec<String>>,
    metadata_is_json: bool,
) -> (memory: Memory)
    ensures
        memory@ == row_memory_from(
            row@,
            source_message_ids.deep_view(),
            tags.deep_view(),
            metadata_is_json,
        ),
{
    Memory {
        id: row.id.clone(),
        workspace_id: row.workspace_id.clone(),
        content: row.content.clone(),
        summary: copy_opt_text(&row.summary),
        memory_type: MemoryType::from_str(row.memory_type.as_str()),
        source_conversation_id: copy_opt_text(&row.source_conversation_id),
        source_message_ids,
        embedding_model: copy_opt_text(&row.embedding_model),
        tags,
        importance: row.importance,
        access_count: row.access_count,
        last_accessed_at: copy_opt_text(&row.last_accessed_at),
        created_at: row.created_at.clone(),
        updated_at: row.updated_at.clone(),
        expires_at: copy_opt_text(&row.expires_at),
        is_pinned: row.is_pinned != 0,
        metadata: if metadata_is_json {
            copy_opt_text(&row.metadata)
        } else {
            None
        },
    }
}

/// Reads a row of the table as a memory. A type name that is none of the
/// three reads as `User`; a list or payload column whose text is not JSON of
/// the expected shape reads as absent.
pub fn row_to_memory(row: &MemoryRow) -> (memory: Memory)
    ensures
        memory@ == row_memory(row@),
{
    let source_message_ids = read_list(&row.source_message_ids);
    let tags = read_list(&row.tags);
    let metadata_is_json = is_json(&row.metadata);
    row_to_memory_with(row, source_message_ids, tags, metadata_is_json)
}

/// Writes a memory and its embedding as a row of the table, given the text
/// of its two list columns.
pub fn memory_to_row_with(
    memory: &Memory,
    embedding: &Option<Vec<u8>>,
    source_message_ids: Option<String>,
    tags: Option<String>,
) -> (row: MemoryRow)
    ensures
        row@ == memory_row_from(
            memory@,
            opt_bytes(*embedding),
            source_message_ids.deep_view(),
            tags.deep_view(),
        ),
{
    MemoryRow {
        id: memory.id.clone(),
        workspace_id: memory.workspace_id.clone(),
        content: memory.content.clone(),
        summary: copy_opt_text(&memory.summary),
        memory_type: String::from_str(memory.memory_type.as_str()),
        source_conversation_id: copy_opt_text(&memory.source_conversation_id),
        source_message_ids,
        embedding: match embedding {
            Some(bytes) => Some(copy_bytes(bytes)),
            None => None,
        },
        embedding_model: copy_opt_text(&memory.embedding_model),
        tags,
        importance: memory.importance,
        access_count: memory.access_count,
        last_accessed_at: copy_opt_text(&memory.last_accessed_at),
        created_at: memory.created_at.clone(),
        updated_at: memory.updated_at.clone(),
        expires_at: copy_opt_text(&memory.expires_at),
        is_pinned: if memory.is_pinned {
            1
        } else {
            0
        },
        metadata: copy_opt_text(&memory.metadata),
    }
}

/// Writes a memory and its embedding as a row of the table.
pub fn memory_to_row(memory: &Memory, embedding: &Option<Vec<u8>>) -> (row: MemoryRow)
    ensures
        row@ == memory_row(memory@, opt_bytes(*embedding)),
{
    let source_message_ids = write_list(&memory.source_message_ids);
    let tags = write_list(&memory.tags);
    memory_to_row_with(memory, embedding, source_message_ids, tags)
}

/// A stored row reads back with the scalar fields it was written from; the
/// lists read back as whatever their JSON text parses to.
pub proof fn lemma_row_round_trip(memory: MemoryView, embedding: Option<Seq<u8>>)
    ensures
        row_memory(memory_row(memory, embedding)).id == memory.id,
        row_memory(memory_row(memory, embedding)).workspace_id == memory.workspace_id,
        row_memory(memory_row(memory, embedding)).content == memory.content,
        row_memory(memory_row(memory, embedding)).summary == memory.summary,
        row_memory(memory_row(memory, embedding)).memory_type == memory.memory_type,
        row_memory(memory_row(memory, embedding)).importance == memory.importance,
        row_memory(memory_row(memory, embedding)).access_count == memory.access_count,
        row_memory(memory_row(memory, embedding)).is_pinned == memory.is_pinned,
        row_memory(memory_row(memory, embedding)).created_at == memory.created_at,
        row_memory(memory_row(memory, embedding)).updated_at == memory.updated_at,
        row_memory(memory_row(memory, embedding)).embedding_model == memory.embedding_model,
        row_memory(memory_row(memory, embedding)).tags == stored_list(list_column(memory.tags)),
{
    memory.memory_type.lemma_name_round_trip();
}

} // verus!
