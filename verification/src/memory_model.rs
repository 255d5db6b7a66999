//! The mathematical model of the store: one table of rows, scoped to a
//! workspace, and what each operation makes of it.

use crate::embedding::embedding_words;
use crate::memory_rows::{row_memory, MemoryRow};
use crate::memory_types::{
    CreateMemoryInput, KeywordHit, Memory, MemoryFilters, MemorySettingsView, MemoryStats,
    MemoryType, MemoryView, MemoryWithScore, MemoryWithScoreView, SimilarityHit, UpdateMemoryInput,
    UpdateSettingsRequest,
};
use crate::ranking::{ranked, RankKeyView};
use crate::score::{negated, score_at_least, score_key};
use vstd::prelude::*;

verus! {

/// One row of the table: a memory and the bytes of its embedding, if it has
/// one.
pub ghost struct RowView {
    pub memory: MemoryView,
    pub embedding: Option<Seq<u8>>,
}

/// The whole state of a store.
pub ghost struct StoreView {
    pub workspace_id: Seq<char>,
    pub rows: Seq<RowView>,
    pub settings: MemorySettingsView,
}

/// The indices below `n` at which `flags` holds, in ascending order.
pub open spec fn select_prefix(flags: Seq<bool>, n: nat) -> Seq<int>
    decreases n,
{
    if n == 0 {
        Seq::empty()
    } else {
        let before = select_prefix(flags, (n - 1) as nat);
        if flags[n - 1] {
            before.push(n - 1)
        } else {
            before
        }
    }
}

/// The indices at which `flags` holds, in ascending order.
pub open spec fn select(flags: Seq<bool>) -> Seq<int> {
    select_prefix(flags, flags.len())
}

/// The sum of the importance of the rows below `n` at which `flags` holds.
pub open spec fn importance_sum(rows: Seq<RowView>, flags: Seq<bool>, n: nat) -> int
    decreases n,
{
    if n == 0 {
        0
    } else {
        importance_sum(rows, flags, (n - 1) as nat) + if flags[n - 1] {
            rows[n - 1].memory.importance as int
        } else {
            0
        }
    }
}

/// The number of indices at which `flags` holds.
pub open spec fn count(flags: Seq<bool>) -> nat {
    select(flags).len()
}

/// The views of a vector of memories.
pub open spec fn memory_views(memories: Seq<Memory>) -> Seq<MemoryView> {
    Seq::new(memories.len(), |i: int| memories[i]@)
}

/// The views of a vector of search results.
pub open spec fn result_views(results: Seq<MemoryWithScore>) -> Seq<MemoryWithScoreView> {
    Seq::new(results.len(), |i: int| results[i]@)
}

/// A candidate of a search: the row it names and its score.
pub ghost struct Candidate {
    pub row: int,
    pub score: u64,
}

/// The first `limit` candidates in rank order, each with its memory.
pub open spec fn ranked_results(
    rows: Seq<RowView>,
    candidates: Seq<Candidate>,
    limit: int,
    match_type: Seq<char>,
) -> Seq<MemoryWithScoreView> {
    let order = ranked(score_keys(candidates));
    let n = if limit < order.len() {
        limit
    } else {
        order.len() as int
    };
    Seq::new(
        n as nat,
        |j: int|
            MemoryWithScoreView {
                memory: rows[candidates[order[j]].row].memory,
                score: candidates[order[j]].score,
                match_type,
            },
    )
}

/// The keys that candidates are ranked by: the score alone.
pub open spec fn score_keys(candidates: Seq<Candidate>) -> Seq<RankKeyView> {
    Seq::new(
        candidates.len(),
        |j: int| RankKeyView { major: score_key(candidates[j].score), minor: Seq::empty() },
    )
}

/// The key that a listed memory is ranked by under a sort order.
pub open spec fn list_key(memory: MemoryView, sort_by: Option<Seq<char>>) -> RankKeyView {
    if sort_by == Some("importance"@) {
        RankKeyView { major: memory.importance as int, minor: memory.created_at }
    } else if sort_by == Some("accessed"@) {
        RankKeyView {
            major: 0,
            minor: match memory.last_accessed_at {
                Some(at) => at,
                None => memory.created_at,
            },
        }
    } else {
        RankKeyView { major: 0, minor: memory.created_at }
    }
}

/// The memory that `create` stores for an input, an id and a time.
pub open spec fn created_memory(
    input: CreateMemoryInput,
    id: Seq<char>,
    workspace_id: Seq<char>,
    now: Seq<char>,
) -> MemoryView {
    MemoryView {
        id,
        workspace_id,
        content: input.content@,
        summary: input.summary.deep_view(),
        memory_type: match input.memory_type {
            Some(name) => MemoryType::named_or_user(name@),
            None => MemoryType::User,
        },
        source_conversation_id: input.source_conversation_id.deep_view(),
        source_message_ids: input.source_message_ids.deep_view(),
        embedding_model: None,
        tags: input.tags.deep_view(),
        importance: match input.importance {
            Some(n) => n,
            None => 5,
        },
        access_count: 0,
        last_accessed_at: None,
        created_at: now,
        updated_at: now,
        expires_at: None,
        is_pinned: match input.is_pinned {
            Some(p) => p,
            None => false,
        },
        metadata: input.metadata.deep_view(),
    }
}

/// Whether the schema accepts the type that an input names.
pub open spec fn type_accepted(input: CreateMemoryInput) -> bool {
    match input.memory_type {
        Some(name) => MemoryType::named(name@) is Some,
        None => true,
    }
}

/// The memory that `update` leaves: each field that the input gives replaces
/// the old one, every other field stays, and the time of update is `now`.
pub open spec fn updated_memory(old: MemoryView, input: UpdateMemoryInput, now: Seq<char>) -> MemoryView {
    MemoryView {
        content: match input.content {
            Some(c) => c@,
            None => old.content,
        },
        summary: match input.summary {
            Some(s) => Some(s@),
            None => old.summary,
        },
        tags: match input.tags {
            Some(t) => Some(t.deep_view()),
            None => old.tags,
        },
        importance: match input.importance {
            Some(n) => n,
            None => old.importance,
        },
        is_pinned: match input.is_pinned {
            Some(p) => p,
            None => old.is_pinned,
        },
        metadata: match input.metadata {
            Some(m) => Some(m@),
            None => old.metadata,
        },
        updated_at: now,
        ..old
    }
}

/// The settings that `update_settings` leaves.
pub open spec fn updated_settings(
    old: MemorySettingsView,
    input: UpdateSettingsRequest,
    now: Seq<char>,
) -> MemorySettingsView {
    MemorySettingsView {
        auto_extract_enabled: match input.auto_extract_enabled {
            Some(b) => b,
            None => old.auto_extract_enabled,
        },
        extraction_model: match input.extraction_model {
            Some(m) => Some(m@),
            None => old.extraction_model,
        },
        embedding_model: match input.embedding_model {
            Some(m) => m@,
            None => old.embedding_model,
        },
        max_memories: match input.max_memories {
            Some(n) => n,
            None => old.max_memories,
        },
        context_injection_count: match input.context_injection_count {
            Some(n) => n,
            None => old.context_injection_count,
        },
        similarity_threshold: match input.similarity_threshold {
            Some(t) => t,
            None => old.similarity_threshold,
        },
        updated_at: now,
        ..old
    }
}

/// The row that recording an access leaves: one more access, capped at the
/// largest count, and `now` as the time of the last one and of the update.
pub open spec fn accessed_row(old: RowView, now: Seq<char>) -> RowView {
    RowView {
        memory: MemoryView {
            access_count: if old.memory.access_count < i32::MAX {
                (old.memory.access_count + 1) as i32
            } else {
                old.memory.access_count
            },
            last_accessed_at: Some(now),
            updated_at: now,
            ..old.memory
        },
        ..old
    }
}

/// The row that storing an embedding leaves.
pub open spec fn embedded_row(old: RowView, bytes: Seq<u8>, model: Seq<char>, now: Seq<char>) -> RowView {
    RowView {
        memory: MemoryView { embedding_model: Some(model), updated_at: now, ..old.memory },
        embedding: Some(bytes),
    }
}

/// The rows that a persisted table stands for.
pub open spec fn loaded_rows(rows: Seq<MemoryRow>) -> Seq<RowView> {
    Seq::new(
        rows.len(),
        |i: int| RowView { memory: row_memory(rows[i]@), embedding: rows[i]@.embedding },
    )
}

/// Whether no two rows share an id.
pub open spec fn ids_distinct(rows: Seq<RowView>) -> bool {
    forall|i: int, j: int|
        0 <= i < j < rows.len() ==> (#[trigger] rows[i]).memory.id != (#[trigger] rows[j]).memory.id
}

/// Whether every row has an embedding exactly when it names the model that
/// made it.
pub open spec fn embeddings_paired(rows: Seq<RowView>) -> bool {
    forall|i: int|
        0 <= i < rows.len() ==> ((#[trigger] rows[i]).embedding is Some
            <==> rows[i].memory.embedding_model is Some)
}

impl StoreView {
    /// The invariant of a store: ids are unique over the whole table, an
    /// embedding and its model come together, and the settings are those of
    /// the store's own workspace.
    pub open spec fn wf(self) -> bool {
        &&& ids_distinct(self.rows)
        &&& embeddings_paired(self.rows)
        &&& self.settings.workspace_id == self.workspace_id
    }

    /// Whether row `i` belongs to the store's workspace.
    pub open spec fn owns(self, i: int) -> bool {
        0 <= i < self.rows.len() && self.rows[i].memory.workspace_id == self.workspace_id
    }

    /// Whether row `i` is the memory `id` of the store's workspace.
    pub open spec fn is_at(self, id: Seq<char>, i: int) -> bool {
        self.owns(i) && self.rows[i].memory.id == id
    }

    /// Whether any row of the table, of whatever workspace, has the id.
    pub open spec fn id_taken(self, id: Seq<char>) -> bool {
        exists|i: int| 0 <= i < self.rows.len() && (#[trigger] self.rows[i]).memory.id == id
    }

    /// Whether the store's workspace has a memory with the id.
    pub open spec fn has(self, id: Seq<char>) -> bool {
        exists|i: int| #[trigger] self.is_at(id, i)
    }

    /// The row of the memory `id`, where the workspace has one.
    pub open spec fn index_of(self, id: Seq<char>) -> int {
        choose|i: int| #[trigger] self.is_at(id, i)
    }

    /// The memory `id` of the store's workspace, if there is one.
    pub open spec fn get(self, id: Seq<char>) -> Option<MemoryView> {
        if self.has(id) {
            Some(self.rows[self.index_of(id)].memory)
        } else {
            None
        }
    }

    /// The store with one more row at the end.
    pub open spec fn with_row(self, row: RowView) -> StoreView {
        StoreView { rows: self.rows.push(row), ..self }
    }

    /// The store with row `i` replaced.
    pub open spec fn with_row_at(self, i: int, row: RowView) -> StoreView {
        StoreView { rows: self.rows.update(i, row), ..self }
    }

    /// The store without row `i`.
    pub open spec fn without_row(self, i: int) -> StoreView {
        StoreView { rows: self.rows.remove(i), ..self }
    }

    /// The store after `update` of the memory `id`, which it must have.
    pub open spec fn after_update(self, id: Seq<char>, input: UpdateMemoryInput, now: Seq<char>) -> StoreView {
        let i = self.index_of(id);
        self.with_row_at(
            i,
            RowView { memory: updated_memory(self.rows[i].memory, input, now), ..self.rows[i] },
        )
    }

    /// The store after `delete` of the id: without that memory, and unchanged
    /// where the workspace has none.
    pub open spec fn after_delete(self, id: Seq<char>) -> StoreView {
        if self.has(id) {
            self.without_row(self.index_of(id))
        } else {
            self
        }
    }

    /// The store after an embedding is stored for the id: unchanged where the
    /// workspace has no such memory.
    pub open spec fn after_embedding(
        self,
        id: Seq<char>,
        bytes: Seq<u8>,
        model: Seq<char>,
        now: Seq<char>,
    ) -> StoreView {
        if self.has(id) {
            let i = self.index_of(id);
            self.with_row_at(i, embedded_row(self.rows[i], bytes, model, now))
        } else {
            self
        }
    }

    /// The store after an access to the id is recorded: unchanged where the
    /// workspace has no such memory.
    pub open spec fn after_access(self, id: Seq<char>, now: Seq<char>) -> StoreView {
        if self.has(id) {
            let i = self.index_of(id);
            self.with_row_at(i, accessed_row(self.rows[i], now))
        } else {
            self
        }
    }

    /// Whether row `i` passes the filters: it belongs to the workspace, its
    /// type is the one asked for (or it is pinned, where the type asked for
    /// is `"pinned"`), and its pinned flag is the one asked for.
    pub open spec fn row_matches(self, filters: MemoryFilters, i: int) -> bool {
        &&& self.owns(i)
        &&& match filters.memory_type {
            Some(name) => if name@ == "pinned"@ {
                self.rows[i].memory.is_pinned
            } else {
                self.rows[i].memory.memory_type.name() == name@
            },
            None => true,
        }
        &&& match filters.is_pinned {
            Some(pinned) => self.rows[i].memory.is_pinned == pinned,
            None => true,
        }
    }

    /// For each row, whether it passes the filters.
    pub open spec fn match_flags(self, filters: MemoryFilters) -> Seq<bool> {
        Seq::new(self.rows.len(), |i: int| self.row_matches(filters, i))
    }

    /// The rows that pass the filters, in table order.
    pub open spec fn matching(self, filters: MemoryFilters) -> Seq<int> {
        select(self.match_flags(filters))
    }

    /// The rows that pass the filters, in the order asked for; rows that tie
    /// keep table order.
    pub open spec fn listing(self, filters: MemoryFilters) -> Seq<int> {
        let hits = self.matching(filters);
        let keys = Seq::new(
            hits.len(),
            |j: int| list_key(self.rows[hits[j]].memory, filters.sort_by.deep_view()),
        );
        let order = ranked(keys);
        Seq::new(order.len(), |j: int| hits[order[j]])
    }

    /// Where the page asked for starts in the listing.
    pub open spec fn page_start(self, filters: MemoryFilters) -> int {
        let total = self.matching(filters).len() as int;
        let offset = match filters.offset {
            Some(n) => n as int,
            None => 0,
        };
        if offset < total {
            offset
        } else {
            total
        }
    }

    /// Where the page asked for ends in the listing.
    pub open spec fn page_end(self, filters: MemoryFilters) -> int {
        let total = self.matching(filters).len() as int;
        let limit = match filters.limit {
            Some(n) => n as int,
            None => 100,
        };
        let start = self.page_start(filters);
        if start + limit < total {
            start + limit
        } else {
            total
        }
    }

    /// The page of memories that `list` returns.
    pub open spec fn page(self, filters: MemoryFilters) -> Seq<MemoryView> {
        let listing = self.listing(filters);
        let start = self.page_start(filters);
        Seq::new(
            (self.page_end(filters) - start) as nat,
            |j: int| self.rows[listing[start + j]].memory,
        )
    }

    /// Whether the workspace has the memory `id` with an embedding.
    pub open spec fn has_embedding(self, id: Seq<char>) -> bool {
        self.has(id) && self.rows[self.index_of(id)].embedding is Some
    }

    /// The candidates of a semantic search among the first `n` similarities:
    /// those that name a memory of the workspace with an embedding and are not
    /// below the threshold.
    pub open spec fn semantic_candidates(self, hits: Seq<SimilarityHit>, threshold: u64, n: nat) -> Seq<
        Candidate,
    >
        decreases n,
    {
        if n == 0 {
            Seq::empty()
        } else {
            let before = self.semantic_candidates(hits, threshold, (n - 1) as nat);
            let hit = hits[n - 1];
            if self.has_embedding(hit.id@) && score_at_least(hit.score, threshold) {
                before.push(Candidate { row: self.index_of(hit.id@), score: hit.score })
            } else {
                before
            }
        }
    }

    /// The candidates of a keyword search among the first `n` matches: those
    /// that name a memory of the workspace, scored by the negated relevance.
    pub open spec fn keyword_candidates(self, hits: Seq<KeywordHit>, n: nat) -> Seq<Candidate>
        decreases n,
    {
        if n == 0 {
            Seq::empty()
        } else {
            let before = self.keyword_candidates(hits, (n - 1) as nat);
            let hit = hits[n - 1];
            if self.has(hit.id@) {
                before.push(Candidate { row: self.index_of(hit.id@), score: negated(hit.relevance) })
            } else {
                before
            }
        }
    }

    /// What a semantic search returns.
    pub open spec fn semantic(self, hits: Seq<SimilarityHit>, limit: int, threshold: u64) -> Seq<
        MemoryWithScoreView,
    > {
        ranked_results(
            self.rows,
            self.semantic_candidates(hits, threshold, hits.len()),
            limit,
            "semantic"@,
        )
    }

    /// What a keyword search returns.
    pub open spec fn keyword(self, hits: Seq<KeywordHit>, limit: int) -> Seq<MemoryWithScoreView> {
        ranked_results(self.rows, self.keyword_candidates(hits, hits.len()), limit, "keyword"@)
    }

    /// What a hybrid search returns: the semantic results where similarities
    /// were given and any of them qualifies, the keyword results otherwise.
    pub open spec fn hybrid(
        self,
        similarities: Option<Seq<SimilarityHit>>,
        hits: Seq<KeywordHit>,
        limit: int,
        threshold: u64,
    ) -> Seq<MemoryWithScoreView> {
        match similarities {
            Some(given) => if self.semantic(given, limit, threshold).len() > 0 {
                self.semantic(given, limit, threshold)
            } else {
                self.keyword(hits, limit)
            },
            None => self.keyword(hits, limit),
        }
    }

    /// For each row, whether it belongs to the workspace.
    pub open spec fn owned_flags(self) -> Seq<bool> {
        Seq::new(self.rows.len(), |i: int| self.owns(i))
    }

    /// For each row, whether it belongs to the workspace and has the type.
    pub open spec fn type_flags(self, t: MemoryType) -> Seq<bool> {
        Seq::new(self.rows.len(), |i: int| self.owns(i) && self.rows[i].memory.memory_type == t)
    }

    /// For each row, whether it belongs to the workspace and is pinned.
    pub open spec fn pinned_flags(self) -> Seq<bool> {
        Seq::new(self.rows.len(), |i: int| self.owns(i) && self.rows[i].memory.is_pinned)
    }

    /// For each row, whether it belongs to the workspace and has an embedding.
    pub open spec fn embedded_flags(self) -> Seq<bool> {
        Seq::new(self.rows.len(), |i: int| self.owns(i) && self.rows[i].embedding is Some)
    }

    /// Whether row `i` is a memory of the workspace with the id and with a
    /// stored embedding that reads back as `words`.
    pub open spec fn is_embedded_at(self, i: int, id: Seq<char>, words: Seq<u32>) -> bool {
        &&& self.owns(i)
        &&& self.rows[i].memory.id == id
        &&& self.rows[i].embedding matches Some(bytes) && embedding_words(bytes) == words
    }

    /// The counts that `get_stats` returns.
    pub open spec fn stats(self) -> MemoryStats {
        MemoryStats {
            total_count: count(self.owned_flags()) as usize,
            auto_count: count(self.type_flags(MemoryType::Auto)) as usize,
            user_count: count(self.type_flags(MemoryType::User)) as usize,
            conversation_count: count(self.type_flags(MemoryType::Conversation)) as usize,
            pinned_count: count(self.pinned_flags()) as usize,
            with_embeddings: count(self.embedded_flags()) as usize,
            importance_total: importance_sum(self.rows, self.owned_flags(), self.rows.len()) as i128,
        }
    }
}

/// At most `n` indices are selected below `n`, each below `n`.
pub proof fn lemma_select_bounds(flags: Seq<bool>, n: nat)
    ensures
        select_prefix(flags, n).len() <= n,
        forall|j: int|
            0 <= j < select_prefix(flags, n).len() ==> 0 <= #[trigger] select_prefix(flags, n)[j] < n,
    decreases n,
{
    if n > 0 {
        lemma_select_bounds(flags, (n - 1) as nat);
    }
}

/// The sum of `n` importances lies within `n` times the range of one.
pub proof fn lemma_importance_sum_bounds(rows: Seq<RowView>, flags: Seq<bool>, n: nat)
    ensures
        -2147483648 * n <= importance_sum(rows, flags, n) <= 2147483647 * n,
    decreases n,
{
    if n > 0 {
        lemma_importance_sum_bounds(rows, flags, (n - 1) as nat);
    }
}

} // verus!
