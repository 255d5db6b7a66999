//! What the memory commands decide around the store: defaults, the kind of
//! search that answered, which memories count as used, and what is worth
//! extracting from a conversation.

use crate::memory_model::{memory_views, result_views, updated_settings, StoreView};
use crate::memory_service::{opt_hits, MemoryManager};
use crate::memory_types::{
    CreateMemoryInput, KeywordHit, Memory, MemoryFilters, MemorySettings, MemoryWithScore,
    MemoryWithScoreView, SimilarityHit, UpdateSettingsRequest,
};
use crate::score::DEFAULT_THRESHOLD_BITS;
use crate::text::str_eq;
use crate::trusted::now_rfc3339;
use vstd::prelude::*;

verus! {

/// A page of memories with its length and the number of all that match.
#[derive(Debug, Clone)]
pub struct MemoryListResult {
    pub memories: Vec<Memory>,
    pub count: usize,
    pub total: usize,
}

/// The memories that a search found, their number, and the kind of search
/// that found them.
#[derive(Debug, Clone)]
pub struct MemorySearchResult {
    pub memories: Vec<MemoryWithScore>,
    pub count: usize,
    pub search_type: String,
}

/// A request to create a memory, and whether to compute an embedding for it.
#[derive(Debug, Clone)]
pub struct CreateMemoryRequest {
    pub content: String,
    pub summary: Option<String>,
    pub memory_type: Option<String>,
    pub tags: Option<Vec<String>>,
    pub importance: Option<i32>,
    pub is_pinned: Option<bool>,
    pub source_conversation_id: Option<String>,
    pub source_message_ids: Option<Vec<String>>,
    pub metadata: Option<String>,
    pub generate_embedding: Option<bool>,
}

impl CreateMemoryRequest {
    /// Whether an embedding is to be computed for the new memory: unless the
    /// request says no.
    pub fn wants_embedding(&self) -> (r: bool)
        ensures
            r == match self.generate_embedding {
                Some(b) => b,
                None => true,
            },
    {
        match self.generate_embedding {
            Some(b) => b,
            None => true,
        }
    }

    /// What the store is given to create the memory.
    pub fn into_input(self) -> (input: CreateMemoryInput)
        ensures
            input.content == self.content,
            input.summary == self.summary,
            input.memory_type == self.memory_type,
            input.tags == self.tags,
            input.importance == self.importance,
            input.is_pinned == self.is_pinned,
            input.source_conversation_id == self.source_conversation_id,
            input.source_message_ids == self.source_message_ids,
            input.metadata == self.metadata,
    {
        CreateMemoryInput {
            content: self.content,
            summary: self.summary,
            memory_type: self.memory_type,
            tags: self.tags,
            importance: self.importance,
            is_pinned: self.is_pinned,
            source_conversation_id: self.source_conversation_id,
            source_message_ids: self.source_message_ids,
            metadata: self.metadata,
        }
    }
}

/// A request to search the memories. The threshold is the bit pattern of a
/// double.
#[derive(Debug, Clone)]
pub struct SearchMemoryRequest {
    pub query: String,
    pub limit: Option<usize>,
    pub threshold: Option<u64>,
    pub include_embedding: Option<bool>,
    pub tags: Option<Vec<String>>,
    pub memory_type: Option<String>,
}

/// One message of a conversation.
#[derive(Debug, Clone)]
pub struct ConversationMessage {
    pub role: String,
    pub content: String,
}

/// A request to extract memories from a conversation.
#[derive(Debug, Clone)]
pub struct ExtractMemoriesRequest {
    pub conversation_id: String,
    pub messages: Vec<ConversationMessage>,
    pub model: Option<String>,
}

/// One item that the extraction proposes.
#[derive(Debug, Clone)]
pub struct ExtractedItem {
    pub content: String,
    pub summary: Option<String>,
    pub tags: Option<Vec<String>>,
    pub importance: Option<i32>,
}

/// How many messages a conversation needs before anything is extracted.
pub const MIN_MESSAGES_TO_EXTRACT: usize = 4;

/// The limit of a search that names none.
pub const DEFAULT_SEARCH_LIMIT: usize = 10;

/// The limit of a retrieval for context that names none.
pub const DEFAULT_CONTEXT_LIMIT: usize = 5;

/// The limit that a search request asks for.
pub open spec fn search_limit(request: SearchMemoryRequest) -> int {
    match request.limit {
        Some(n) => n as int,
        None => DEFAULT_SEARCH_LIMIT as int,
    }
}

/// The threshold that a search request asks for.
pub open spec fn search_threshold(request: SearchMemoryRequest) -> u64 {
    match request.threshold {
        Some(t) => t,
        None => DEFAULT_THRESHOLD_BITS,
    }
}

/// The kind of search that answered: semantic where similarities were given
/// and the first result is a semantic match, keyword otherwise.
pub open spec fn answered_by(given: bool, results: Seq<MemoryWithScoreView>) -> Seq<char> {
    if given && results.len() > 0 && results[0].match_type == "semantic"@ {
        "semantic"@
    } else {
        "keyword"@
    }
}

/// The store after an access is recorded for each of the first `n` results,
/// in order.
pub open spec fn after_accesses(
    store: StoreView,
    results: Seq<MemoryWithScoreView>,
    now: Seq<char>,
    n: nat,
) -> StoreView
    decreases n,
{
    if n == 0 {
        store
    } else {
        after_accesses(store, results, now, (n - 1) as nat).after_access(results[n - 1].memory.id, now)
    }
}

/// One message as a line of the conversation text.
pub open spec fn message_line(message: ConversationMessage) -> Seq<char> {
    message.role@ + ": "@ + message.content@
}

/// The first `n` messages as text: one line each, a blank line between.
pub open spec fn conversation_lines(messages: Seq<ConversationMessage>, n: nat) -> Seq<char>
    decreases n,
{
    if n == 0 {
        Seq::empty()
    } else if n == 1 {
        message_line(messages[0])
    } else {
        conversation_lines(messages, (n - 1) as nat) + "\n\n"@ + message_line(messages[n - 1])
    }
}

/// Whether a search should ask for an embedding of its query: unless the
/// request says no.
pub fn wants_embedding(request: &SearchMemoryRequest) -> (r: bool)
    ensures
        r == match request.include_embedding {
            Some(b) => b,
            None => true,
        },
{
    match request.include_embedding {
        Some(b) => b,
        None => true,
    }
}

/// Lists memories as the command does: no filter on the pinned flag.
pub fn list_memories(
    manager: &MemoryManager,
    memory_type: Option<String>,
    tags: Option<Vec<String>>,
    limit: Option<usize>,
    offset: Option<usize>,
    sort_by: Option<String>,
) -> (r: MemoryListResult)
    requires
        manager.wf(),
    ensures
        ({
            let filters = MemoryFilters { memory_type, tags, is_pinned: None, limit, offset, sort_by };
            &&& memory_views(r.memories@) == manager@.page(filters)
            &&& r.count == r.memories@.len()
            &&& r.total == manager@.matching(filters).len()
        }),
{
    let filters = MemoryFilters { memory_type, tags, is_pinned: None, limit, offset, sort_by };
    let (memories, total) = manager.list_memories(filters);
    let count = memories.len();
    MemoryListResult { memories, count, total }
}

/// Searches as the command does: at most ten results and a threshold of
/// seven tenths unless the request says otherwise, similarity first and
/// keywords as the fallback.
pub fn search_memories(
    manager: &MemoryManager,
    request: &SearchMemoryRequest,
    similarities: Option<&Vec<SimilarityHit>>,
    hits: &Vec<KeywordHit>,
) -> (r: MemorySearchResult)
    requires
        manager.wf(),
    ensures
        result_views(r.memories@) == manager@.hybrid(
            opt_hits(similarities),
            hits@,
            search_limit(*request),
            search_threshold(*request),
        ),
        r.count == r.memories@.len(),
        r.search_type@ == answered_by(similarities is Some, result_views(r.memories@)),
{
    let limit = match request.limit {
        Some(n) => n,
        None => DEFAULT_SEARCH_LIMIT,
    };
    let threshold = match request.threshold {
        Some(t) => t,
        None => DEFAULT_THRESHOLD_BITS,
    };
    let memories = manager.search_hybrid(similarities, hits, limit, threshold);
    let semantic = similarities.is_some() && memories.len() > 0 && str_eq(
        memories[0].match_type.as_str(),
        "semantic",
    );
    let search_type = if semantic {
        String::from_str("semantic")
    } else {
        String::from_str("keyword")
    };
    let count = memories.len();
    MemorySearchResult { memories, count, search_type }
}

/// Retrieves the memories relevant to a context, at the given time: a hybrid
/// search under the threshold of the settings, at most five results unless a
/// limit is given, and one access recorded for each memory returned.
pub fn get_relevant_memories_at(
    manager: &mut MemoryManager,
    similarities: Option<&Vec<SimilarityHit>>,
    hits: &Vec<KeywordHit>,
    limit: Option<usize>,
    now: &str,
) -> (r: Vec<MemoryWithScore>)
    requires
        old(manager).wf(),
    ensures
        final(manager).wf(),
        result_views(r@) == old(manager)@.hybrid(
            opt_hits(similarities),
            hits@,
            match limit {
                Some(n) => n as int,
                None => DEFAULT_CONTEXT_LIMIT as int,
            },
            old(manager)@.settings.similarity_threshold,
        ),
        final(manager)@ == after_accesses(old(manager)@, result_views(r@), now@, r@.len() as nat),
{
    let limit = match limit {
        Some(n) => n,
        None => DEFAULT_CONTEXT_LIMIT,
    };
    let threshold = manager.get_settings().similarity_threshold;
    let memories = manager.search_hybrid(similarities, hits, limit, threshold);
    let ghost start = manager@;
    let mut i: usize = 0;
    while i < memories.len()
        invariant
            i <= memories.len(),
            manager.wf(),
            manager@ == after_accesses(start, result_views(memories@), now@, i as nat),
        decreases memories.len() - i,
    {
        manager.increment_access_at(memories[i].memory.id.as_str(), now);
        i = i + 1;
    }
    memories
}

/// Retrieves the memories relevant to a context now.
pub fn get_relevant_memories(
    manager: &mut MemoryManager,
    similarities: Option<&Vec<SimilarityHit>>,
    hits: &Vec<KeywordHit>,
    limit: Option<usize>,
) -> (r: Vec<MemoryWithScore>)
    requires
        old(manager).wf(),
    ensures
        final(manager).wf(),
        result_views(r@) == old(manager)@.hybrid(
            opt_hits(similarities),
            hits@,
            match limit {
                Some(n) => n as int,
                None => DEFAULT_CONTEXT_LIMIT as int,
            },
            old(manager)@.settings.similarity_threshold,
        ),
        exists|now: Seq<char>|
            final(manager)@ == #[trigger] after_accesses(
                old(manager)@,
                result_views(r@),
                now,
                r@.len() as nat,
            ),
{
    let now = now_rfc3339();
    get_relevant_memories_at(manager, similarities, hits, limit, now.as_str())
}

/// Updates the settings as the command does, now.
pub fn update_memory_settings(manager: &mut MemoryManager, settings: UpdateSettingsRequest) -> (r:
    MemorySettings)
    requires
        old(manager).wf(),
    ensures
        final(manager).wf(),
        r@ == final(manager)@.settings,
        final(manager)@ == (StoreView {
            settings: updated_settings(old(manager)@.settings, settings, r@.updated_at),
            ..old(manager)@
        }),
{
    manager.update_settings(
        settings.auto_extract_enabled,
        settings.extraction_model,
        settings.embedding_model,
        settings.max_memories,
        settings.context_injection_count,
        settings.similarity_threshold,
    )
}

/// Whether a conversation is long enough to extract memories from.
pub fn should_extract(request: &ExtractMemoriesRequest) -> (r: bool)
    ensures
        r == (request.messages@.len() >= MIN_MESSAGES_TO_EXTRACT),
{
    request.messages.len() >= MIN_MESSAGES_TO_EXTRACT
}

/// The conversation as text: for each message its role, a colon and its
/// content, with a blank line between messages.
pub fn conversation_text(messages: &Vec<ConversationMessage>) -> (r: String)
    ensures
        r@ == conversation_lines(messages@, messages@.len()),
{
    let mut text = String::new();
    let mut i: usize = 0;
    while i < messages.len()
        invariant
            i <= messages.len(),
            text@ == conversation_lines(messages@, i as nat),
        decreases messages.len() - i,
    {
        let ghost before = text@;
        if i > 0 {
            text.append("\n\n");
        }
        text.append(messages[i].role.as_str());
        text.append(": ");
        text.append(messages[i].content.as_str());
        assert(text@ =~= conversation_lines(messages@, (i + 1) as nat)) by {
            let line = message_line(messages@[i as int]);
            if i == 0 {
                assert(before =~= Seq::<char>::empty());
                assert(text@ =~= line);
            } else {
                assert(text@ =~= before + "\n\n"@ + line);
            }
        }
        i = i + 1;
    }
    text
}

/// The memory to create for an extracted item: none for an item without
/// content; otherwise an automatic, unpinned memory tied to the
/// conversation.
pub fn extraction_input(item: ExtractedItem, conversation_id: &str) -> (r: Option<CreateMemoryInput>)
    ensures
        item.content@.len() == 0 ==> r is None,
        item.content@.len() > 0 ==> (r matches Some(input) && input.content == item.content
            && input.summary == item.summary && input.tags == item.tags && input.importance
            == item.importance && input.memory_type.deep_view() == Some("auto"@) && input.is_pinned
            == Some(false) && input.source_conversation_id.deep_view() == Some(conversation_id@)
            && input.source_message_ids is None && input.metadata is None),
{
    if item.content.as_str().unicode_len() == 0 {
        return None;
    }
    Some(
        CreateMemoryInput {
            content: item.content,
            summary: item.summary,
            memory_type: Some(String::from_str("auto")),
            tags: item.tags,
            importance: item.importance,
            is_pinned: Some(false),
            source_conversation_id: Some(String::from_str(conversation_id)),
            source_message_ids: None,
            metadata: None,
        },
    )
}

} // verus!
