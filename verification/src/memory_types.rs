//! The records of the memory store and their mathematical views.

use crate::score::DEFAULT_THRESHOLD_BITS;
use crate::text::{copy_opt_text, copy_opt_texts, str_eq};
use vstd::prelude::*;

verus! {

/// How a memory came to be: produced by extraction, entered by hand, or tied
/// to a conversation.
#[derive(Debug, Clone, Copy, PartialEq, Eq, Structural)]
pub enum MemoryType {
    Auto,
    User,
    Conversation,
}

impl MemoryType {
    /// The stored name of the type.
    pub open spec fn name(self) -> Seq<char> {
        match self {
            MemoryType::Auto => "auto"@,
            MemoryType::User => "user"@,
            MemoryType::Conversation => "conversation"@,
        }
    }

    /// The type that a name stands for, if it is one of the three.
    pub open spec fn named(text: Seq<char>) -> Option<MemoryType> {
        if text == "auto"@ {
            Some(MemoryType::Auto)
        } else if text == "user"@ {
            Some(MemoryType::User)
        } else if text == "conversation"@ {
            Some(MemoryType::Conversation)
        } else {
            None
        }
    }

    /// The type that a name stands for, `User` for any other text.
    pub open spec fn named_or_user(text: Seq<char>) -> MemoryType {
        match Self::named(text) {
            Some(t) => t,
            None => MemoryType::User,
        }
    }

    /// The stored name of the type.
    pub fn as_str(&self) -> (r: &'static str)
        ensures
            r@ == self.name(),
    {
        match self {
            MemoryType::Auto => "auto",
            MemoryType::User => "user",
            MemoryType::Conversation => "conversation",
        }
    }

    /// Reads a stored name; an unknown name is read as `User`.
    pub fn from_str(s: &str) -> (r: Self)
        ensures
            r == Self::named_or_user(s@),
    {
        match Self::parse(s) {
            Some(t) => t,
            None => MemoryType::User,
        }
    }

    /// Reads a name, refusing any but the three stored names.
    pub fn parse(s: &str) -> (r: Option<Self>)
        ensures
            r == Self::named(s@),
    {
        if str_eq(s, "auto") {
            Some(MemoryType::Auto)
        } else if str_eq(s, "user") {
            Some(MemoryType::User)
        } else if str_eq(s, "conversation") {
            Some(MemoryType::Conversation)
        } else {
            None
        }
    }

    /// Every type is read back from its own name.
    pub proof fn lemma_name_round_trip(self)
        ensures
            Self::named(self.name()) == Some(self),
            Self::named_or_user(self.name()) == self,
    {
        reveal_strlit("auto");
        reveal_strlit("user");
        reveal_strlit("conversation");
        assert("auto"@.len() == 4);
        assert("user"@.len() == 4);
        assert("conversation"@.len() == 12);
        assert("auto"@[0] == 'a');
        assert("user"@[0] == 'u');
    }
}

/// Why an operation of the store failed.
#[derive(Debug, Clone, Copy, PartialEq, Eq, Structural)]
pub enum MemoryError {
    /// No memory with the given id in this workspace.
    NotFound,
    /// A value that the schema refuses, such as an unknown memory type.
    Validation,
    /// The table itself refuses the change or is damaged.
    Storage,
}

impl MemoryError {
    /// The message shown for the error.
    pub open spec fn text(self) -> Seq<char> {
        match self {
            MemoryError::NotFound => "Memory not found"@,
            MemoryError::Validation => "Invalid memory type"@,
            MemoryError::Storage => "Memory storage failure"@,
        }
    }

    /// The message shown for the error.
    pub fn message(&self) -> (r: String)
        ensures
            r@ == self.text(),
    {
        match self {
            MemoryError::NotFound => String::from_str("Memory not found"),
            MemoryError::Validation => String::from_str("Invalid memory type"),
            MemoryError::Storage => String::from_str("Memory storage failure"),
        }
    }
}

/// One remembered fact or summary.
#[derive(Debug, Clone)]
pub struct Memory {
    pub id: String,
    pub workspace_id: String,
    pub content: String,
    pub summary: Option<String>,
    pub memory_type: MemoryType,
    pub source_conversation_id: Option<String>,
    pub source_message_ids: Option<Vec<String>>,
    pub embedding_model: Option<String>,
    pub tags: Option<Vec<String>>,
    pub importance: i32,
    pub access_count: i32,
    pub last_accessed_at: Option<String>,
    pub created_at: String,
    pub updated_at: String,
    pub expires_at: Option<String>,
    pub is_pinned: bool,
    /// Free-form payload as JSON text; the store never looks inside.
    pub metadata: Option<String>,
}

/// The mathematical form of a `Memory`.
pub ghost struct MemoryView {
    pub id: Seq<char>,
    pub workspace_id: Seq<char>,
    pub content: Seq<char>,
    pub summary: Option<Seq<char>>,
    pub memory_type: MemoryType,
    pub source_conversation_id: Option<Seq<char>>,
    pub source_message_ids: Option<Seq<Seq<char>>>,
    pub embedding_model: Option<Seq<char>>,
    pub tags: Option<Seq<Seq<char>>>,
    pub importance: i32,
    pub access_count: i32,
    pub last_accessed_at: Option<Seq<char>>,
    pub created_at: Seq<char>,
    pub updated_at: Seq<char>,
    pub expires_at: Option<Seq<char>>,
    pub is_pinned: bool,
    pub metadata: Option<Seq<char>>,
}

impl View for Memory {
    type V = MemoryView;

    open spec fn view(&self) -> MemoryView {
        MemoryView {
            id: self.id@,
            workspace_id: self.workspace_id@,
            content: self.content@,
            summary: self.summary.deep_view(),
            memory_type: self.memory_type,
            source_conversation_id: self.source_conversation_id.deep_view(),
            source_message_ids: self.source_message_ids.deep_view(),
            embedding_model: self.embedding_model.deep_view(),
            tags: self.tags.deep_view(),
            importance: self.importance,
            access_count: self.access_count,
            last_accessed_at: self.last_accessed_at.deep_view(),
            created_at: self.created_at@,
            updated_at: self.updated_at@,
            expires_at: self.expires_at.deep_view(),
            is_pinned: self.is_pinned,
            metadata: self.metadata.deep_view(),
        }
    }
}

impl Memory {
    /// A copy that is equal field by field.
    pub fn duplicate(&self) -> (r: Memory)
        ensures
            r@ == self@,
    {
        Memory {
            id: self.id.clone(),
            workspace_id: self.workspace_id.clone(),
            content: self.content.clone(),
            summary: copy_opt_text(&self.summary),
            memory_type: self.memory_type,
            source_conversation_id: copy_opt_text(&self.source_conversation_id),
            source_message_ids: copy_opt_texts(&self.source_message_ids),
            embedding_model: copy_opt_text(&self.embedding_model),
            tags: copy_opt_texts(&self.tags),
            importance: self.importance,
            access_count: self.access_count,
            last_accessed_at: copy_opt_text(&self.last_accessed_at),
            created_at: self.created_at.clone(),
            updated_at: self.updated_at.clone(),
            expires_at: copy_opt_text(&self.expires_at),
            is_pinned: self.is_pinned,
            metadata: copy_opt_text(&self.metadata),
        }
    }
}

/// A memory found by a search, with its score (the bit pattern of a double;
/// higher is better) and the kind of match, `"semantic"` or `"keyword"`.
#[derive(Debug, Clone)]
pub struct MemoryWithScore {
    pub memory: Memory,
    pub score: u64,
    pub match_type: String,
}

/// The mathematical form of a `MemoryWithScore`.
pub ghost struct MemoryWithScoreView {
    pub memory: MemoryView,
    pub score: u64,
    pub match_type: Seq<char>,
}

impl View for MemoryWithScore {
    type V = MemoryWithScoreView;

    open spec fn view(&self) -> MemoryWithScoreView {
        MemoryWithScoreView {
            memory: self.memory@,
            score: self.score,
            match_type: self.match_type@,
        }
    }
}

/// The tunables of one workspace.
#[derive(Debug, Clone)]
pub struct MemorySettings {
    pub workspace_id: String,
    pub auto_extract_enabled: bool,
    pub extraction_model: Option<String>,
    pub embedding_model: String,
    pub max_memories: i32,
    pub context_injection_count: i32,
    /// The bit pattern of the threshold, a double.
    pub similarity_threshold: u64,
    pub created_at: String,
    pub updated_at: String,
}

/// The mathematical form of `MemorySettings`.
pub ghost struct MemorySettingsView {
    pub workspace_id: Seq<char>,
    pub auto_extract_enabled: bool,
    pub extraction_model: Option<Seq<char>>,
    pub embedding_model: Seq<char>,
    pub max_memories: i32,
    pub context_injection_count: i32,
    pub similarity_threshold: u64,
    pub created_at: Seq<char>,
    pub updated_at: Seq<char>,
}

impl View for MemorySettings {
    type V = MemorySettingsView;

    open spec fn view(&self) -> MemorySettingsView {
        MemorySettingsView {
            workspace_id: self.workspace_id@,
            auto_extract_enabled: self.auto_extract_enabled,
            extraction_model: self.extraction_model.deep_view(),
            embedding_model: self.embedding_model@,
            max_memories: self.max_memories,
            context_injection_count: self.context_injection_count,
            similarity_threshold: self.similarity_threshold,
            created_at: self.created_at@,
            updated_at: self.updated_at@,
        }
    }
}

/// The settings that a workspace starts with.
pub open spec fn default_settings(workspace_id: Seq<char>, now: Seq<char>) -> MemorySettingsView {
    MemorySettingsView {
        workspace_id,
        auto_extract_enabled: true,
        extraction_model: None,
        embedding_model: "openai/text-embedding-3-small"@,
        max_memories: 1000,
        context_injection_count: 5,
        similarity_threshold: DEFAULT_THRESHOLD_BITS,
        created_at: now,
        updated_at: now,
    }
}

impl MemorySettings {
    /// The settings that a workspace starts with.
    pub fn initial(workspace_id: &str, now: &str) -> (r: MemorySettings)
        ensures
            r@ == default_settings(workspace_id@, now@),
    {
        MemorySettings {
            workspace_id: String::from_str(workspace_id),
            auto_extract_enabled: true,
            extraction_model: None,
            embedding_model: String::from_str("openai/text-embedding-3-small"),
            max_memories: 1000,
            context_injection_count: 5,
            similarity_threshold: DEFAULT_THRESHOLD_BITS,
            created_at: String::from_str(now),
            updated_at: String::from_str(now),
        }
    }

    /// A copy that is equal field by field.
    pub fn duplicate(&self) -> (r: MemorySettings)
        ensures
            r@ == self@,
    {
        MemorySettings {
            workspace_id: self.workspace_id.clone(),
            auto_extract_enabled: self.auto_extract_enabled,
            extraction_model: copy_opt_text(&self.extraction_model),
            embedding_model: self.embedding_model.clone(),
            max_memories: self.max_memories,
            context_injection_count: self.context_injection_count,
            similarity_threshold: self.similarity_threshold,
            created_at: self.created_at.clone(),
            updated_at: self.updated_at.clone(),
        }
    }
}

/// A partial update of the settings: a field that is `None` keeps its value.
#[derive(Debug, Clone)]
pub struct UpdateSettingsRequest {
    pub auto_extract_enabled: Option<bool>,
    pub extraction_model: Option<String>,
    pub embedding_model: Option<String>,
    pub max_memories: Option<i32>,
    pub context_injection_count: Option<i32>,
    pub similarity_threshold: Option<u64>,
}

/// Counts over the memories of one workspace. The average importance is
/// `importance_total` divided by `total_count`, and zero for an empty store.
#[derive(Debug, Clone, Copy, PartialEq, Eq, Structural)]
pub struct MemoryStats {
    pub total_count: usize,
    pub auto_count: usize,
    pub user_count: usize,
    pub conversation_count: usize,
    pub pinned_count: usize,
    pub with_embeddings: usize,
    pub importance_total: i128,
}

/// What a caller gives to create a memory.
#[derive(Debug, Clone)]
pub struct CreateMemoryInput {
    pub content: String,
    pub summary: Option<String>,
    pub memory_type: Option<String>,
    pub tags: Option<Vec<String>>,
    pub importance: Option<i32>,
    pub is_pinned: Option<bool>,
    pub source_conversation_id: Option<String>,
    pub source_message_ids: Option<Vec<String>>,
    pub metadata: Option<String>,
}

/// A partial update of a memory: a field that is `None` keeps its value.
#[derive(Debug, Clone)]
pub struct UpdateMemoryInput {
    pub content: Option<String>,
    pub summary: Option<String>,
    pub tags: Option<Vec<String>>,
    pub importance: Option<i32>,
    pub is_pinned: Option<bool>,
    pub metadata: Option<String>,
}

/// What to list, in what order, and which page of it.
#[derive(Debug, Clone)]
pub struct MemoryFilters {
    pub memory_type: Option<String>,
    pub tags: Option<Vec<String>>,
    pub is_pinned: Option<bool>,
    pub limit: Option<usize>,
    pub offset: Option<usize>,
    pub sort_by: Option<String>,
}

impl Default for MemoryFilters {
    fn default() -> (r: MemoryFilters)
        ensures
            r.memory_type is None,
            r.tags is None,
            r.is_pinned is None,
            r.limit is None,
            r.offset is None,
            r.sort_by is None,
    {
        MemoryFilters {
            memory_type: None,
            tags: None,
            is_pinned: None,
            limit: None,
            offset: None,
            sort_by: None,
        }
    }
}

/// A similarity computed for a stored memory: the memory's id and the bit
/// pattern of the similarity.
#[derive(Debug, Clone)]
pub struct SimilarityHit {
    pub id: String,
    pub score: u64,
}

/// A match reported by the full-text index: the memory's id and the bit
/// pattern of its relevance, where lower is better.
#[derive(Debug, Clone)]
pub struct KeywordHit {
    pub id: String,
    pub relevance: u64,
}

/// A stored memory with its embedding read back as 32-bit patterns.
#[derive(Debug, Clone)]
pub struct EmbeddedMemory {
    pub id: String,
    pub embedding: Vec<u32>,
}

} // verus!
