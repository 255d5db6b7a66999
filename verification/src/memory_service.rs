//! The memory store of one workspace.

use crate::embedding::{bytes_to_embedding, embedding_bytes, embedding_to_bytes};
use crate::memory_laws::{lemma_create_adds_one, lemma_create_then_get};
use crate::memory_model::{
    count, created_memory, embeddings_paired, ids_distinct, importance_sum,
    lemma_importance_sum_bounds, lemma_select_bounds, list_key, loaded_rows, memory_views,
    ranked_results, result_views, score_keys, select, select_prefix, type_accepted, updated_memory,
    updated_settings, Candidate, RowView, StoreView,
};
use crate::memory_rows::{opt_bytes, row_to_memory, MemoryRow};
use crate::memory_types::{
    default_settings, CreateMemoryInput, EmbeddedMemory, KeywordHit, Memory, MemoryError,
    MemoryFilters, MemorySettings, MemorySettingsView, MemoryStats, MemoryType, MemoryView,
    MemoryWithScore, MemoryWithScoreView, SimilarityHit, UpdateMemoryInput, UpdateSettingsRequest,
};
use crate::ranking::{as_ints, key_views, lemma_ranked_is_sorted, rank, RankKey, RankKeyView};
use crate::score::{at_least, key_of, negate};
use crate::text::{copy_bytes, copy_opt_text, copy_opt_texts, str_eq};
use crate::trusted::{
    hex_encode, hex_text, is_hyphenated_id, now_rfc3339, random_uuid, sha256, sha256_digest,
};
use vstd::prelude::*;
use vstd::utf8::encode_utf8;

verus! {

/// A memory as the table holds it, with the bytes of its embedding.
#[derive(Debug, Clone)]
pub struct StoredMemory {
    pub memory: Memory,
    pub embedding: Option<Vec<u8>>,
}

impl View for StoredMemory {
    type V = RowView;

    open spec fn view(&self) -> RowView {
        RowView { memory: self.memory@, embedding: opt_bytes(self.embedding) }
    }
}

/// A candidate of a search: the row it names and its score.
struct ScoredRow {
    row: usize,
    score: u64,
}

impl View for ScoredRow {
    type V = Candidate;

    closed spec fn view(&self) -> Candidate {
        Candidate { row: self.row as int, score: self.score }
    }
}

/// The views of a vector of candidates.
spec fn candidate_views(candidates: Seq<ScoredRow>) -> Seq<Candidate> {
    Seq::new(candidates.len(), |i: int| candidates[i]@)
}

/// The views of optional similarities.
pub open spec fn opt_hits(similarities: Option<&Vec<SimilarityHit>>) -> Option<Seq<SimilarityHit>> {
    match similarities {
        Some(given) => Some(given@),
        None => None,
    }
}

/// The views of the rows of a table.
pub open spec fn row_views(rows: Seq<StoredMemory>) -> Seq<RowView> {
    Seq::new(rows.len(), |i: int| rows[i]@)
}

/// The id that a digest gives: its first eight bytes in hexadecimal, or all
/// of it where it has fewer.
pub open spec fn digest_id(digest: Seq<u8>) -> Seq<char> {
    if digest.len() >= 8 {
        hex_text(digest.subrange(0, 8))
    } else {
        hex_text(digest)
    }
}

/// The id of a workspace: the first eight bytes of the SHA-256 digest of its
/// path, in hexadecimal.
pub open spec fn workspace_id_of(path: Seq<char>) -> Seq<char> {
    hex_text(sha256(encode_utf8(path)).subrange(0, 8))
}

/// The id that a digest gives.
pub fn id_from_digest(digest: &[u8]) -> (id: String)
    ensures
        id@ == digest_id(digest@),
{
    let count: usize = if digest.len() >= 8 {
        8
    } else {
        digest.len()
    };
    let mut head: Vec<u8> = Vec::new();
    let mut i: usize = 0;
    while i < count
        invariant
            i <= count <= digest@.len(),
            head@ == digest@.subrange(0, i as int),
        decreases count - i,
    {
        head.push(digest[i]);
        assert(head@ =~= digest@.subrange(0, i + 1));
        i = i + 1;
    }
    assert(digest@.len() < 8 ==> head@ =~= digest@);
    hex_encode(head.as_slice())
}

/// The view of an optional memory.
pub open spec fn opt_memory(o: Option<Memory>) -> Option<MemoryView> {
    match o {
        Some(m) => Some(m@),
        None => None,
    }
}

/// The settings a store opens with: the persisted ones where they are those
/// of this workspace, fresh defaults otherwise.
pub open spec fn opened_settings(
    persisted: Option<MemorySettings>,
    workspace_id: Seq<char>,
    now: Seq<char>,
) -> MemorySettingsView {
    match persisted {
        Some(s) => if s@.workspace_id == workspace_id {
            s@
        } else {
            default_settings(workspace_id, now)
        },
        None => default_settings(workspace_id, now),
    }
}

/// The memory store of one workspace: a table of memories, of which the store
/// answers only for those of its own workspace, and the workspace's settings.
pub struct MemoryManager {
    workspace_id: String,
    rows: Vec<StoredMemory>,
    settings: MemorySettings,
}

impl View for MemoryManager {
    type V = StoreView;

    closed spec fn view(&self) -> StoreView {
        StoreView {
            workspace_id: self.workspace_id@,
            rows: row_views(self.rows@),
            settings: self.settings@,
        }
    }
}

impl MemoryManager {
    /// The invariant that every store keeps.
    pub open spec fn wf(&self) -> bool {
        self@.wf()
    }

    /// Derives the id of a workspace from its path.
    pub fn generate_workspace_id(path: &str) -> (id: String)
        ensures
            id@ == workspace_id_of(path@),
            id@.len() == 16,
    {
        let digest = sha256_digest(path.as_bytes());
        id_from_digest(digest.as_slice())
    }

    /// An empty store for the workspace at `workspace_root`, with default
    /// settings.
    pub fn new(workspace_root: &str) -> (r: MemoryManager)
        ensures
            r.wf(),
            r@.workspace_id == workspace_id_of(workspace_root@),
            r@.rows.len() == 0,
            exists|now: Seq<char>| r@.settings == default_settings(r@.workspace_id, now),
    {
        let now = now_rfc3339();
        let workspace_id = Self::generate_workspace_id(workspace_root);
        let settings = MemorySettings::initial(workspace_id.as_str(), now.as_str());
        let r = MemoryManager { workspace_id, rows: Vec::new(), settings };
        assert(r@.rows =~= Seq::empty());
        r
    }

    /// Opens the store over a persisted table. Rows of other workspaces stay
    /// in the table, unseen. Settings are created only where none of this
    /// workspace are given. A table in which two rows share an id, or in
    /// which an embedding and its model do not come together, is refused.
    pub fn open_at(
        workspace_root: &str,
        rows: &Vec<MemoryRow>,
        settings: Option<MemorySettings>,
        now: &str,
    ) -> (r: Result<MemoryManager, MemoryError>)
        ensures
            r is Ok <==> ids_distinct(loaded_rows(rows@)) && embeddings_paired(
                loaded_rows(rows@),
            ),
            r matches Ok(store) ==> store.wf() && store@ == (StoreView {
                workspace_id: workspace_id_of(workspace_root@),
                rows: loaded_rows(rows@),
                settings: opened_settings(settings, workspace_id_of(workspace_root@), now@),
            }),
            r matches Err(e) ==> e == MemoryError::Storage,
    {
        let workspace_id = Self::generate_workspace_id(workspace_root);
        let kept = match settings {
            Some(s) => if str_eq(s.workspace_id.as_str(), workspace_id.as_str()) {
                s
            } else {
                MemorySettings::initial(workspace_id.as_str(), now)
            },
            None => MemorySettings::initial(workspace_id.as_str(), now),
        };
        let ghost target = loaded_rows(rows@);
        let mut store = MemoryManager { workspace_id, rows: Vec::new(), settings: kept };
        let mut i: usize = 0;
        assert(store@.rows =~= target.subrange(0, 0));
        while i < rows.len()
            invariant
                i <= rows.len(),
                target == loaded_rows(rows@),
                store@.rows == target.subrange(0, i as int),
                store@.workspace_id == workspace_id_of(workspace_root@),
                store@.settings == opened_settings(settings, workspace_id_of(workspace_root@), now@),
                store.wf(),
            decreases rows.len() - i,
        {
            let memory = row_to_memory(&rows[i]);
            let embedding = match &rows[i].embedding {
                Some(bytes) => Some(copy_bytes(bytes)),
                None => None,
            };
            assert(memory@ == target[i as int].memory);
            assert(opt_bytes(embedding) == target[i as int].embedding);
            if store.id_taken(memory.id.as_str()) {
                proof {
                    let j = choose|j: int|
                        0 <= j < store@.rows.len() && (#[trigger] store@.rows[j]).memory.id
                            == memory@.id;
                    assert(target[j] == store@.rows[j]);
                    assert(target[j].memory.id == target[i as int].memory.id);
                }
                return Err(MemoryError::Storage);
            }
            if embedding.is_some() != memory.embedding_model.is_some() {
                assert(target[i as int].embedding is Some != target[i as int].memory.embedding_model is Some);
                return Err(MemoryError::Storage);
            }
            let ghost before = store@;
            store.rows.push(StoredMemory { memory, embedding });
            assert(store@.rows =~= before.rows.push(target[i as int]));
            assert(store@.rows =~= target.subrange(0, i + 1));
            i = i + 1;
        }
        assert(store@.rows =~= target);
        Ok(store)
    }

    /// Opens the store over a persisted table, at the current time.
    pub fn open(workspace_root: &str, rows: &Vec<MemoryRow>, settings: Option<MemorySettings>) -> (r:
        Result<MemoryManager, MemoryError>)
        ensures
            r is Ok <==> ids_distinct(loaded_rows(rows@)) && embeddings_paired(
                loaded_rows(rows@),
            ),
            r matches Ok(store) ==> store.wf() && store@.workspace_id == workspace_id_of(
                workspace_root@,
            ) && store@.rows == loaded_rows(rows@) && exists|now: Seq<char>|
                store@.settings == opened_settings(settings, store@.workspace_id, now),
            r matches Err(e) ==> e == MemoryError::Storage,
    {
        let now = now_rfc3339();
        Self::open_at(workspace_root, rows, settings, now.as_str())
    }

    /// The id of the workspace that the store answers for.
    pub fn workspace_id(&self) -> (id: &str)
        ensures
            id@ == self@.workspace_id,
    {
        self.workspace_id.as_str()
    }

    /// Whether any row of the table has the id.
    fn id_taken(&self, id: &str) -> (r: bool)
        ensures
            r == self@.id_taken(id@),
    {
        let mut i: usize = 0;
        while i < self.rows.len()
            invariant
                i <= self.rows.len(),
                forall|j: int| 0 <= j < i ==> (#[trigger] self@.rows[j]).memory.id != id@,
            decreases self.rows.len() - i,
        {
            if str_eq(self.rows[i].memory.id.as_str(), id) {
                assert(self@.rows[i as int].memory.id == id@);
                return true;
            }
            i = i + 1;
        }
        false
    }

    /// The row of the memory `id` of this workspace.
    fn find(&self, id: &str) -> (r: Option<usize>)
        requires
            self.wf(),
        ensures
            r is Some == self@.has(id@),
            r matches Some(i) ==> self@.is_at(id@, i as int) && i == self@.index_of(id@) && i
                < self.rows@.len(),
    {
        let mut i: usize = 0;
        while i < self.rows.len()
            invariant
                i <= self.rows.len(),
                self.wf(),
                forall|j: int| 0 <= j < i ==> !self@.is_at(id@, j),
            decreases self.rows.len() - i,
        {
            if str_eq(self.rows[i].memory.id.as_str(), id) && str_eq(
                self.rows[i].memory.workspace_id.as_str(),
                self.workspace_id.as_str(),
            ) {
                assert(self@.is_at(id@, i as int));
                proof {
                    let k = self@.index_of(id@);
                    assert(self@.is_at(id@, k));
                    if k != i {
                        assert(self@.rows[k].memory.id == self@.rows[i as int].memory.id);
                    }
                }
                return Some(i);
            }
            i = i + 1;
        }
        None
    }

    /// The memory `id`, if this workspace has it. A memory of another
    /// workspace is never returned.
    pub fn get_memory(&self, id: &str) -> (r: Option<Memory>)
        requires
            self.wf(),
        ensures
            opt_memory(r) == self@.get(id@),
    {
        match self.find(id) {
            Some(i) => Some(self.rows[i].memory.duplicate()),
            None => None,
        }
    }

    /// Stores a new memory under the given id, created at the given time.
    /// An input that names an unknown type is refused, then an id that the
    /// table already holds.
    pub fn create_memory_with(&mut self, input: CreateMemoryInput, id: &str, now: &str) -> (r: Result<
        Memory,
        MemoryError,
    >)
        requires
            old(self).wf(),
        ensures
            final(self).wf(),
            !type_accepted(input) ==> (r matches Err(e) && e == MemoryError::Validation),
            type_accepted(input) && old(self)@.id_taken(id@) ==> (r matches Err(e) && e
                == MemoryError::Storage),
            type_accepted(input) && !old(self)@.id_taken(id@) ==> (r matches Ok(m) && m@
                == created_memory(input, id@, old(self)@.workspace_id, now@)),
            r matches Ok(m) ==> final(self)@ == old(self)@.with_row(
                RowView { memory: m@, embedding: None },
            ),
            r matches Ok(m) ==> old(self)@.get(id@) is None && final(self)@.get(id@) == Some(m@),
            r is Ok ==> count(final(self)@.owned_flags()) == count(old(self)@.owned_flags()) + 1,
            r is Err ==> final(self)@ == old(self)@,
    {
        proof {
            if type_accepted(input) && !self@.id_taken(id@) {
                lemma_create_then_get(self@, input, id@, now@);
                lemma_create_adds_one(
                    self@,
                    RowView {
                        memory: created_memory(input, id@, self@.workspace_id, now@),
                        embedding: None,
                    },
                    arbitrary(),
                );
                if self@.has(id@) {
                    assert(self@.is_at(id@, self@.index_of(id@)));
                }
            }
        }
        let memory_type = match &input.memory_type {
            Some(name) => match MemoryType::parse(name.as_str()) {
                Some(t) => t,
                None => {
                    return Err(MemoryError::Validation);
                },
            },
            None => MemoryType::User,
        };
        if self.id_taken(id) {
            return Err(MemoryError::Storage);
        }
        let memory = Memory {
            id: String::from_str(id),
            workspace_id: self.workspace_id.clone(),
            content: input.content,
            summary: input.summary,
            memory_type,
            source_conversation_id: input.source_conversation_id,
            source_message_ids: input.source_message_ids,
            embedding_model: None,
            tags: input.tags,
            importance: match input.importance {
                Some(n) => n,
                None => 5,
            },
            access_count: 0,
            last_accessed_at: None,
            created_at: String::from_str(now),
            updated_at: String::from_str(now),
            expires_at: None,
            is_pinned: match input.is_pinned {
                Some(p) => p,
                None => false,
            },
            metadata: input.metadata,
        };
        let stored = memory.duplicate();
        let ghost row = RowView { memory: memory@, embedding: None };
        self.rows.push(StoredMemory { memory, embedding: None });
        assert(self@.rows =~= old(self)@.rows.push(row));
        Ok(stored)
    }

    /// Stores a new memory under a fresh random id, created now. The id has
    /// the hyphenated form of a UUID, 36 characters long, so the memory is
    /// stored whenever the type is accepted and no row of the table has an
    /// id of that form; where rows have such ids the draw decides, and an id
    /// that is taken is refused.
    pub fn create_memory(&mut self, input: CreateMemoryInput) -> (r: Result<Memory, MemoryError>)
        requires
            old(self).wf(),
        ensures
            final(self).wf(),
            !type_accepted(input) ==> (r matches Err(e) && e == MemoryError::Validation),
            type_accepted(input) && (forall|i: int|
                0 <= i < old(self)@.rows.len() ==> (#[trigger] old(self)@.rows[i]).memory.id.len()
                    != 36) ==> r is Ok,
            type_accepted(input) && (forall|i: int|
                0 <= i < old(self)@.rows.len() ==> !is_hyphenated_id(
                    (#[trigger] old(self)@.rows[i]).memory.id,
                )) ==> r is Ok,
            r is Ok ==> count(final(self)@.owned_flags()) == count(old(self)@.owned_flags()) + 1,
            r matches Ok(m) ==> m@.id.len() == 36 && is_hyphenated_id(m@.id),
            r matches Ok(m) ==> old(self)@.get(m@.id) is None && final(self)@.get(m@.id) == Some(m@),
            r matches Err(e) ==> final(self)@ == old(self)@ && (e == MemoryError::Validation
                || e == MemoryError::Storage) && (e == MemoryError::Validation <==> !type_accepted(
                input,
            )),
            r matches Ok(m) ==> type_accepted(input) && !old(self)@.id_taken(m@.id) && m@
                == created_memory(input, m@.id, old(self)@.workspace_id, m@.created_at)
                && final(self)@ == old(self)@.with_row(RowView { memory: m@, embedding: None }),
    {
        let id = random_uuid();
        let now = now_rfc3339();
        self.create_memory_with(input, id.as_str(), now.as_str())
    }

    /// Updates the memory `id` at the given time: every field that the input
    /// gives replaces the stored one.
    pub fn update_memory_at(&mut self, id: &str, input: UpdateMemoryInput, now: &str) -> (r: Result<
        Memory,
        MemoryError,
    >)
        requires
            old(self).wf(),
        ensures
            final(self).wf(),
            !old(self)@.has(id@) ==> (r matches Err(e) && e == MemoryError::NotFound) && final(self)@
                == old(self)@,
            old(self)@.has(id@) ==> (r matches Ok(m) && m@ == updated_memory(
                old(self)@.rows[old(self)@.index_of(id@)].memory,
                input,
                now@,
            )) && final(self)@ == old(self)@.after_update(id@, input, now@),
    {
        let i = match self.find(id) {
            Some(i) => i,
            None => {
                return Err(MemoryError::NotFound);
            },
        };
        let current = &self.rows[i];
        let memory = Memory {
            id: current.memory.id.clone(),
            workspace_id: current.memory.workspace_id.clone(),
            content: match input.content {
                Some(c) => c,
                None => current.memory.content.clone(),
            },
            summary: match input.summary {
                Some(s) => Some(s),
                None => copy_opt_text(&current.memory.summary),
            },
            memory_type: current.memory.memory_type,
            source_conversation_id: copy_opt_text(&current.memory.source_conversation_id),
            source_message_ids: copy_opt_texts(&current.memory.source_message_ids),
            embedding_model: copy_opt_text(&current.memory.embedding_model),
            tags: match input.tags {
                Some(t) => Some(t),
                None => copy_opt_texts(&current.memory.tags),
            },
            importance: match input.importance {
                Some(n) => n,
                None => current.memory.importance,
            },
            access_count: current.memory.access_count,
            last_accessed_at: copy_opt_text(&current.memory.last_accessed_at),
            created_at: current.memory.created_at.clone(),
            updated_at: String::from_str(now),
            expires_at: copy_opt_text(&current.memory.expires_at),
            is_pinned: match input.is_pinned {
                Some(p) => p,
                None => current.memory.is_pinned,
            },
            metadata: match input.metadata {
                Some(m) => Some(m),
                None => copy_opt_text(&current.memory.metadata),
            },
        };
        let embedding = match &current.embedding {
            Some(bytes) => Some(copy_bytes(bytes)),
            None => None,
        };
        let stored = memory.duplicate();
        self.replace_row(i, StoredMemory { memory, embedding });
        Ok(stored)
    }

    /// Updates the memory `id` now.
    pub fn update_memory(&mut self, id: &str, input: UpdateMemoryInput) -> (r: Result<Memory, MemoryError>)
        requires
            old(self).wf(),
        ensures
            final(self).wf(),
            !old(self)@.has(id@) ==> (r matches Err(e) && e == MemoryError::NotFound) && final(self)@
                == old(self)@,
            old(self)@.has(id@) ==> (r matches Ok(m) && m@ == updated_memory(
                old(self)@.rows[old(self)@.index_of(id@)].memory,
                input,
                m@.updated_at,
            ) && final(self)@ == old(self)@.after_update(id@, input, m@.updated_at)),
    {
        let now = now_rfc3339();
        self.update_memory_at(id, input, now.as_str())
    }

    /// Puts `row` in place of row `i`, which has the same id and the same
    /// pairing of embedding and model.
    fn replace_row(&mut self, i: usize, row: StoredMemory)
        requires
            old(self).wf(),
            i < old(self)@.rows.len(),
            row@.memory.id == old(self)@.rows[i as int].memory.id,
            row@.embedding is Some <==> row@.memory.embedding_model is Some,
        ensures
            final(self).wf(),
            final(self)@ == old(self)@.with_row_at(i as int, row@),
    {
        let ghost before = self@;
        self.rows.set(i, row);
        assert(self@.rows =~= before.rows.update(i as int, row@));
    }

    /// Removes the memory `id` and says whether there was one to remove.
    pub fn delete_memory(&mut self, id: &str) -> (r: bool)
        requires
            old(self).wf(),
        ensures
            final(self).wf(),
            r == old(self)@.has(id@),
            final(self)@ == old(self)@.after_delete(id@),
    {
        match self.find(id) {
            Some(i) => {
                let ghost before = self@;
                self.rows.remove(i);
                assert(self@.rows =~= before.rows.remove(i as int));
                true
            },
            None => false,
        }
    }

    /// Stores an embedding and the name of its model for the memory
    /// `memory_id`, at the given time. Nothing changes where the workspace has
    /// no such memory.
    pub fn store_embedding_at(&mut self, memory_id: &str, embedding: &[u32], model: &str, now: &str)
        requires
            old(self).wf(),
        ensures
            final(self).wf(),
            final(self)@ == old(self)@.after_embedding(
                memory_id@,
                embedding_bytes(embedding@),
                model@,
                now@,
            ),
    {
        match self.find(memory_id) {
            Some(i) => {
                let mut memory = self.rows[i].memory.duplicate();
                memory.embedding_model = Some(String::from_str(model));
                memory.updated_at = String::from_str(now);
                let bytes = embedding_to_bytes(embedding);
                self.replace_row(i, StoredMemory { memory, embedding: Some(bytes) });
            },
            None => {},
        }
    }

    /// Stores an embedding for the memory `memory_id` now.
    pub fn store_embedding(&mut self, memory_id: &str, embedding: &[u32], model: &str)
        requires
            old(self).wf(),
        ensures
            final(self).wf(),
            exists|now: Seq<char>|
                final(self)@ == old(self)@.after_embedding(
                    memory_id@,
                    embedding_bytes(embedding@),
                    model@,
                    now,
                ),
    {
        let now = now_rfc3339();
        self.store_embedding_at(memory_id, embedding, model, now.as_str());
    }

    /// Records one access to the memory `memory_id` at the given time.
    /// Nothing changes where the workspace has no such memory.
    pub fn increment_access_at(&mut self, memory_id: &str, now: &str)
        requires
            old(self).wf(),
        ensures
            final(self).wf(),
            final(self)@ == old(self)@.after_access(memory_id@, now@),
    {
        match self.find(memory_id) {
            Some(i) => {
                let mut memory = self.rows[i].memory.duplicate();
                if memory.access_count < i32::MAX {
                    memory.access_count = memory.access_count + 1;
                }
                memory.last_accessed_at = Some(String::from_str(now));
                memory.updated_at = String::from_str(now);
                let embedding = match &self.rows[i].embedding {
                    Some(bytes) => Some(copy_bytes(bytes)),
                    None => None,
                };
                self.replace_row(i, StoredMemory { memory, embedding });
            },
            None => {},
        }
    }

    /// Records one access to the memory `memory_id` now.
    pub fn increment_access(&mut self, memory_id: &str)
        requires
            old(self).wf(),
        ensures
            final(self).wf(),
            exists|now: Seq<char>| final(self)@ == old(self)@.after_access(memory_id@, now),
    {
        let now = now_rfc3339();
        self.increment_access_at(memory_id, now.as_str());
    }

    /// Updates the settings at the given time: every value that is given
    /// replaces the stored one.
    pub fn update_settings_at(
        &mut self,
        auto_extract_enabled: Option<bool>,
        extraction_model: Option<String>,
        embedding_model: Option<String>,
        max_memories: Option<i32>,
        context_injection_count: Option<i32>,
        similarity_threshold: Option<u64>,
        now: &str,
    ) -> (r: MemorySettings)
        requires
            old(self).wf(),
        ensures
            final(self).wf(),
            r@ == final(self)@.settings,
            final(self)@ == (StoreView {
                settings: updated_settings(
                    old(self)@.settings,
                    UpdateSettingsRequest {
                        auto_extract_enabled,
                        extraction_model,
                        embedding_model,
                        max_memories,
                        context_injection_count,
                        similarity_threshold,
                    },
                    now@,
                ),
                ..old(self)@
            }),
    {
        let settings = MemorySettings {
            workspace_id: self.settings.workspace_id.clone(),
            auto_extract_enabled: match auto_extract_enabled {
                Some(b) => b,
                None => self.settings.auto_extract_enabled,
            },
            extraction_model: match extraction_model {
                Some(m) => Some(m),
                None => copy_opt_text(&self.settings.extraction_model),
            },
            embedding_model: match embedding_model {
                Some(m) => m,
                None => self.settings.embedding_model.clone(),
            },
            max_memories: match max_memories {
                Some(n) => n,
                None => self.settings.max_memories,
            },
            context_injection_count: match context_injection_count {
                Some(n) => n,
                None => self.settings.context_injection_count,
            },
            similarity_threshold: match similarity_threshold {
                Some(t) => t,
                None => self.settings.similarity_threshold,
            },
            created_at: self.settings.created_at.clone(),
            updated_at: String::from_str(now),
        };
        let r = settings.duplicate();
        self.settings = settings;
        r
    }

    /// Updates the settings now.
    pub fn update_settings(
        &mut self,
        auto_extract_enabled: Option<bool>,
        extraction_model: Option<String>,
        embedding_model: Option<String>,
        max_memories: Option<i32>,
        context_injection_count: Option<i32>,
        similarity_threshold: Option<u64>,
    ) -> (r: MemorySettings)
        requires
            old(self).wf(),
        ensures
            final(self).wf(),
            r@ == final(self)@.settings,
            final(self)@ == (StoreView {
                settings: updated_settings(
                    old(self)@.settings,
                    UpdateSettingsRequest {
                        auto_extract_enabled,
                        extraction_model,
                        embedding_model,
                        max_memories,
                        context_injection_count,
                        similarity_threshold,
                    },
                    r@.updated_at,
                ),
                ..old(self)@
            }),
    {
        let now = now_rfc3339();
        self.update_settings_at(
            auto_extract_enabled,
            extraction_model,
            embedding_model,
            max_memories,
            context_injection_count,
            similarity_threshold,
            now.as_str(),
        )
    }

    /// Whether row `i` passes the filters.
    fn row_passes(&self, filters: &MemoryFilters, i: usize) -> (r: bool)
        requires
            i < self.rows@.len(),
        ensures
            r == self@.row_matches(*filters, i as int),
    {
        let memory = &self.rows[i].memory;
        if !str_eq(memory.workspace_id.as_str(), self.workspace_id.as_str()) {
            return false;
        }
        let type_ok = match &filters.memory_type {
            Some(name) => if str_eq(name.as_str(), "pinned") {
                memory.is_pinned
            } else {
                str_eq(memory.memory_type.as_str(), name.as_str())
            },
            None => true,
        };
        let pinned_ok = match filters.is_pinned {
            Some(pinned) => memory.is_pinned == pinned,
            None => true,
        };
        type_ok && pinned_ok
    }

    /// The key that row `i` is listed by.
    fn row_key<'a>(&'a self, by_importance: bool, by_accessed: bool, i: usize) -> (key: RankKey<'a>)
        requires
            i < self.rows@.len(),
        ensures
            by_importance ==> key@ == (RankKeyView {
                major: self@.rows[i as int].memory.importance as int,
                minor: self@.rows[i as int].memory.created_at,
            }),
            !by_importance && by_accessed ==> key@ == (RankKeyView {
                major: 0,
                minor: match self@.rows[i as int].memory.last_accessed_at {
                    Some(at) => at,
                    None => self@.rows[i as int].memory.created_at,
                },
            }),
            !by_importance && !by_accessed ==> key@ == (RankKeyView {
                major: 0,
                minor: self@.rows[i as int].memory.created_at,
            }),
    {
        let memory = &self.rows[i].memory;
        if by_importance {
            RankKey { major: memory.importance as i64, minor: memory.created_at.as_str() }
        } else if by_accessed {
            match &memory.last_accessed_at {
                Some(at) => RankKey { major: 0, minor: at.as_str() },
                None => RankKey { major: 0, minor: memory.created_at.as_str() },
            }
        } else {
            RankKey { major: 0, minor: memory.created_at.as_str() }
        }
    }

    /// Lists the memories of the workspace that pass the filters, in the order
    /// asked for, and returns the page asked for together with the number of
    /// all that pass. The order is by `importance` (most important first, then
    /// newest first), by `accessed` (latest access first, creation standing in
    /// for a memory never accessed), or newest first; memories that tie keep
    /// table order. The page starts at `offset` (0 unless given) and holds at
    /// most `limit` memories (100 unless given).
    pub fn list_memories(&self, filters: MemoryFilters) -> (r: (Vec<Memory>, usize))
        requires
            self.wf(),
        ensures
            r.1 == self@.matching(filters).len(),
            memory_views(r.0@) == self@.page(filters),
    {
        let ghost flags = self@.match_flags(filters);
        let mut hits: Vec<usize> = Vec::new();
        let mut i: usize = 0;
        while i < self.rows.len()
            invariant
                i <= self.rows.len(),
                flags == self@.match_flags(filters),
                as_ints(hits@) == select_prefix(flags, i as nat),
                hits@.len() <= i,
                forall|j: int| 0 <= j < hits@.len() ==> hits@[j] < i,
            decreases self.rows.len() - i,
        {
            let ghost before = as_ints(hits@);
            if self.row_passes(&filters, i) {
                hits.push(i);
                assert(as_ints(hits@) =~= before.push(i as int));
            }
            i = i + 1;
        }
        let (by_importance, by_accessed) = match &filters.sort_by {
            Some(name) => (str_eq(name.as_str(), "importance"), str_eq(name.as_str(), "accessed")),
            None => (false, false),
        };
        let ghost targets = Seq::new(
            hits@.len(),
            |j: int| list_key(self@.rows[as_ints(hits@)[j]].memory, filters.sort_by.deep_view()),
        );
        let mut keys: Vec<RankKey<'_>> = Vec::new();
        let mut j: usize = 0;
        while j < hits.len()
            invariant
                j <= hits.len(),
                keys@.len() == j,
                forall|k: int| 0 <= k < hits@.len() ==> hits@[k] < self.rows@.len(),
                targets == Seq::new(
                    hits@.len(),
                    |j: int|
                        list_key(self@.rows[as_ints(hits@)[j]].memory, filters.sort_by.deep_view()),
                ),
                by_importance == (filters.sort_by.deep_view() == Some("importance"@)),
                by_accessed == (filters.sort_by.deep_view() == Some("accessed"@)),
                forall|k: int| 0 <= k < j ==> (#[trigger] keys@[k])@ == targets[k],
            decreases hits.len() - j,
        {
            proof {
                reveal_strlit("importance");
                reveal_strlit("accessed");
            }
            keys.push(self.row_key(by_importance, by_accessed, hits[j]));
            j = j + 1;
        }
        assert(key_views(keys@) =~= targets);
        let order = rank(&keys);
        proof {
            lemma_ranked_is_sorted(targets);
        }
        let total = hits.len();
        let offset = match filters.offset {
            Some(n) => n,
            None => 0,
        };
        let limit = match filters.limit {
            Some(n) => n,
            None => 100,
        };
        let start = if offset < total {
            offset
        } else {
            total
        };
        let end = if limit < total - start {
            start + limit
        } else {
            total
        };
        let ghost listing = self@.listing(filters);
        assert(listing.len() == total);
        assert forall|q: int| 0 <= q < total implies (#[trigger] order@[q]) < total by {
            assert(as_ints(order@)[q] == order@[q]);
        }
        assert forall|q: int| 0 <= q < total implies (#[trigger] listing[q]) == hits@[order@[q] as int] by {
            assert(as_ints(order@)[q] == order@[q]);
            assert(as_ints(hits@)[order@[q] as int] == hits@[order@[q] as int]);
        }
        let mut page: Vec<Memory> = Vec::new();
        let mut k: usize = start;
        while k < end
            invariant
                start <= k <= end,
                end <= total,
                total == hits@.len(),
                order@.len() == total,
                listing.len() == total,
                page@.len() == k - start,
                forall|q: int| 0 <= q < total ==> (#[trigger] order@[q]) < total,
                forall|q: int| 0 <= q < hits@.len() ==> (#[trigger] hits@[q]) < self.rows@.len(),
                forall|q: int| 0 <= q < total ==> (#[trigger] listing[q]) == hits@[order@[q] as int],
                forall|q: int| 0 <= q < k - start ==> (#[trigger] page@[q])@ == self@.rows[listing[start + q]].memory,
            decreases end - k,
        {
            let at = hits[order[k]];
            page.push(self.rows[at].memory.duplicate());
            k = k + 1;
        }
        assert(memory_views(page@) =~= self@.page(filters));
        (page, total)
    }

    /// The first `limit` candidates in rank order, each with its memory.
    fn ranked_results(&self, candidates: &Vec<ScoredRow>, limit: usize, match_type: &str) -> (r: Vec<
        MemoryWithScore,
    >)
        requires
            forall|j: int| 0 <= j < candidates@.len() ==> (#[trigger] candidates@[j]).row < self.rows@.len(),
        ensures
            result_views(r@) == ranked_results(
                self@.rows,
                candidate_views(candidates@),
                limit as int,
                match_type@,
            ),
    {
        let ghost views = candidate_views(candidates@);
        let mut keys: Vec<RankKey<'_>> = Vec::new();
        let mut j: usize = 0;
        while j < candidates.len()
            invariant
                j <= candidates.len(),
                keys@.len() == j,
                views == candidate_views(candidates@),
                forall|k: int| 0 <= k < j ==> (#[trigger] keys@[k])@ == score_keys(views)[k],
            decreases candidates.len() - j,
        {
            proof {
                reveal_strlit("");
                assert(""@ =~= Seq::<char>::empty());
            }
            keys.push(RankKey { major: key_of(candidates[j].score), minor: "" });
            j = j + 1;
        }
        assert(key_views(keys@) =~= score_keys(views));
        let order = rank(&keys);
        proof {
            lemma_ranked_is_sorted(score_keys(views));
        }
        let total = order.len();
        let n = if limit < total {
            limit
        } else {
            total
        };
        assert forall|q: int| 0 <= q < total implies (#[trigger] order@[q]) < total by {
            assert(as_ints(order@)[q] == order@[q]);
        }
        let ghost target = ranked_results(self@.rows, views, limit as int, match_type@);
        assert forall|q: int| 0 <= q < n implies (#[trigger] target[q]) == (MemoryWithScoreView {
            memory: self@.rows[views[order@[q] as int].row].memory,
            score: views[order@[q] as int].score,
            match_type: match_type@,
        }) by {
            assert(as_ints(order@)[q] == order@[q]);
        }
        let mut results: Vec<MemoryWithScore> = Vec::new();
        let mut k: usize = 0;
        while k < n
            invariant
                k <= n,
                n <= total,
                total == order@.len(),
                total == candidates@.len(),
                views == candidate_views(candidates@),
                target.len() == n,
                results@.len() == k,
                forall|q: int| 0 <= q < total ==> (#[trigger] order@[q]) < total,
                forall|j: int|
                    0 <= j < candidates@.len() ==> (#[trigger] candidates@[j]).row < self.rows@.len(),
                forall|q: int|
                    0 <= q < n ==> (#[trigger] target[q]) == (MemoryWithScoreView {
                        memory: self@.rows[views[order@[q] as int].row].memory,
                        score: views[order@[q] as int].score,
                        match_type: match_type@,
                    }),
                forall|q: int| 0 <= q < k ==> (#[trigger] results@[q])@ == target[q],
            decreases n - k,
        {
            let candidate = &candidates[order[k]];
            results.push(
                MemoryWithScore {
                    memory: self.rows[candidate.row].memory.duplicate(),
                    score: candidate.score,
                    match_type: String::from_str(match_type),
                },
            );
            k = k + 1;
        }
        assert(result_views(results@) =~= target);
        results
    }

    /// Ranks the memories of the workspace by similarity. Each similarity
    /// names a memory and gives its score; one that names no memory of this
    /// workspace with a stored embedding is passed over, and so is one whose
    /// score is below the threshold or is not a number. The rest come back
    /// best first, ties in the order given, and no more than `limit` of them.
    pub fn search_semantic(&self, similarities: &Vec<SimilarityHit>, limit: usize, threshold: u64) -> (r:
        Vec<MemoryWithScore>)
        requires
            self.wf(),
        ensures
            result_views(r@) == self@.semantic(similarities@, limit as int, threshold),
    {
        let mut candidates: Vec<ScoredRow> = Vec::new();
        let mut i: usize = 0;
        while i < similarities.len()
            invariant
                i <= similarities.len(),
                self.wf(),
                candidate_views(candidates@) == self@.semantic_candidates(
                    similarities@,
                    threshold,
                    i as nat,
                ),
                forall|j: int|
                    0 <= j < candidates@.len() ==> (#[trigger] candidates@[j]).row < self.rows@.len(),
            decreases similarities.len() - i,
        {
            let ghost before = candidate_views(candidates@);
            let hit = &similarities[i];
            match self.find(hit.id.as_str()) {
                Some(row) => {
                    if self.rows[row].embedding.is_some() && at_least(hit.score, threshold) {
                        candidates.push(ScoredRow { row, score: hit.score });
                        assert(candidate_views(candidates@) =~= before.push(
                            Candidate { row: row as int, score: hit.score },
                        ));
                    }
                },
                None => {},
            }
            i = i + 1;
        }
        self.ranked_results(&candidates, limit, "semantic")
    }

    /// Ranks the matches that the full-text index reports. A match that names
    /// no memory of this workspace is passed over. Each score is the negated
    /// relevance, so that higher is better; the matches come back best first,
    /// ties in the order given, and no more than `limit` of them.
    pub fn search_keyword(&self, hits: &Vec<KeywordHit>, limit: usize) -> (r: Vec<MemoryWithScore>)
        requires
            self.wf(),
        ensures
            result_views(r@) == self@.keyword(hits@, limit as int),
    {
        let mut candidates: Vec<ScoredRow> = Vec::new();
        let mut i: usize = 0;
        while i < hits.len()
            invariant
                i <= hits.len(),
                self.wf(),
                candidate_views(candidates@) == self@.keyword_candidates(hits@, i as nat),
                forall|j: int|
                    0 <= j < candidates@.len() ==> (#[trigger] candidates@[j]).row < self.rows@.len(),
            decreases hits.len() - i,
        {
            let ghost before = candidate_views(candidates@);
            let hit = &hits[i];
            match self.find(hit.id.as_str()) {
                Some(row) => {
                    let score = negate(hit.relevance);
                    candidates.push(ScoredRow { row, score });
                    assert(candidate_views(candidates@) =~= before.push(
                        Candidate { row: row as int, score },
                    ));
                },
                None => {},
            }
            i = i + 1;
        }
        self.ranked_results(&candidates, limit, "keyword")
    }

    /// Whether a hybrid search has to ask the full-text index: not where
    /// similarities are given and the semantic search finds anything, since
    /// the keyword matches then play no part in the result.
    pub fn needs_keyword_search(
        &self,
        similarities: Option<&Vec<SimilarityHit>>,
        limit: usize,
        threshold: u64,
    ) -> (r: bool)
        requires
            self.wf(),
        ensures
            r == match similarities {
                Some(given) => self@.semantic(given@, limit as int, threshold).len() == 0,
                None => true,
            },
            !r ==> forall|hits: Seq<KeywordHit>|
                #[trigger] self@.hybrid(opt_hits(similarities), hits, limit as int, threshold)
                    == self@.semantic(similarities->0@, limit as int, threshold),
    {
        match similarities {
            Some(given) => self.search_semantic(given, limit, threshold).len() == 0,
            None => true,
        }
    }

    /// Searches by similarity first and by keyword as a fallback: where
    /// similarities are given and the semantic search finds anything, that is
    /// the result; otherwise the result is that of the keyword search. The two
    /// are never merged.
    pub fn search_hybrid(
        &self,
        similarities: Option<&Vec<SimilarityHit>>,
        hits: &Vec<KeywordHit>,
        limit: usize,
        threshold: u64,
    ) -> (r: Vec<MemoryWithScore>)
        requires
            self.wf(),
        ensures
            result_views(r@) == self@.hybrid(opt_hits(similarities), hits@, limit as int, threshold),
    {
        if let Some(given) = similarities {
            let found = self.search_semantic(given, limit, threshold);
            if found.len() > 0 {
                return found;
            }
        }
        self.search_keyword(hits, limit)
    }

    /// The memories of the workspace that have an embedding, in table order,
    /// each with its embedding read back from the stored bytes.
    pub fn embedded_memories(&self) -> (r: Vec<EmbeddedMemory>)
        ensures
            r@.len() == count(self@.embedded_flags()),
            forall|j: int|
                0 <= j < r@.len() ==> self@.is_embedded_at(
                    select(self@.embedded_flags())[j],
                    (#[trigger] r@[j]).id@,
                    r@[j].embedding@,
                ),
    {
        let ghost flags = self@.embedded_flags();
        let ghost mut picked: Seq<int> = Seq::empty();
        let mut found: Vec<EmbeddedMemory> = Vec::new();
        let mut i: usize = 0;
        while i < self.rows.len()
            invariant
                i <= self.rows.len(),
                flags == self@.embedded_flags(),
                picked == select_prefix(flags, i as nat),
                found@.len() == picked.len(),
                forall|j: int| 0 <= j < picked.len() ==> 0 <= #[trigger] picked[j] < i,
                forall|j: int|
                    0 <= j < found@.len() ==> self@.is_embedded_at(
                        picked[j],
                        (#[trigger] found@[j]).id@,
                        found@[j].embedding@,
                    ),
            decreases self.rows.len() - i,
        {
            let row = &self.rows[i];
            let ghost before = picked;
            if str_eq(row.memory.workspace_id.as_str(), self.workspace_id.as_str()) {
                match &row.embedding {
                    Some(bytes) => {
                        found.push(
                            EmbeddedMemory {
                                id: row.memory.id.clone(),
                                embedding: bytes_to_embedding(bytes.as_slice()),
                            },
                        );
                        proof {
                            picked = picked.push(i as int);
                        }
                    },
                    None => {},
                }
            }
            assert(forall|j: int| 0 <= j < before.len() ==> picked[j] == before[j]);
            i = i + 1;
        }
        assert(flags.len() == self.rows@.len());
        assert(picked == select(self@.embedded_flags()));
        found
    }

    /// Counts over the memories of the workspace, computed afresh.
    pub fn get_stats(&self) -> (r: MemoryStats)
        ensures
            r == self@.stats(),
            r.total_count == count(self@.owned_flags()),
            r.auto_count == count(self@.type_flags(MemoryType::Auto)),
            r.user_count == count(self@.type_flags(MemoryType::User)),
            r.conversation_count == count(self@.type_flags(MemoryType::Conversation)),
            r.pinned_count == count(self@.pinned_flags()),
            r.with_embeddings == count(self@.embedded_flags()),
            r.importance_total == importance_sum(self@.rows, self@.owned_flags(), self@.rows.len()),
    {
        let mut stats = MemoryStats {
            total_count: 0,
            auto_count: 0,
            user_count: 0,
            conversation_count: 0,
            pinned_count: 0,
            with_embeddings: 0,
            importance_total: 0,
        };
        let mut i: usize = 0;
        while i < self.rows.len()
            invariant
                i <= self.rows.len(),
                stats.total_count == select_prefix(self@.owned_flags(), i as nat).len(),
                stats.auto_count == select_prefix(self@.type_flags(MemoryType::Auto), i as nat).len(),
                stats.user_count == select_prefix(self@.type_flags(MemoryType::User), i as nat).len(),
                stats.conversation_count == select_prefix(
                    self@.type_flags(MemoryType::Conversation),
                    i as nat,
                ).len(),
                stats.pinned_count == select_prefix(self@.pinned_flags(), i as nat).len(),
                stats.with_embeddings == select_prefix(self@.embedded_flags(), i as nat).len(),
                stats.importance_total == importance_sum(self@.rows, self@.owned_flags(), i as nat),
            decreases self.rows.len() - i,
        {
            proof {
                lemma_select_bounds(self@.owned_flags(), i as nat);
                lemma_select_bounds(self@.type_flags(MemoryType::Auto), i as nat);
                lemma_select_bounds(self@.type_flags(MemoryType::User), i as nat);
                lemma_select_bounds(self@.type_flags(MemoryType::Conversation), i as nat);
                lemma_select_bounds(self@.pinned_flags(), i as nat);
                lemma_select_bounds(self@.embedded_flags(), i as nat);
                lemma_importance_sum_bounds(self@.rows, self@.owned_flags(), i as nat);
            }
            let row = &self.rows[i];
            if str_eq(row.memory.workspace_id.as_str(), self.workspace_id.as_str()) {
                stats.total_count = stats.total_count + 1;
                match row.memory.memory_type {
                    MemoryType::Auto => {
                        stats.auto_count = stats.auto_count + 1;
                    },
                    MemoryType::User => {
                        stats.user_count = stats.user_count + 1;
                    },
                    MemoryType::Conversation => {
                        stats.conversation_count = stats.conversation_count + 1;
                    },
                }
                if row.memory.is_pinned {
                    stats.pinned_count = stats.pinned_count + 1;
                }
                if row.embedding.is_some() {
                    stats.with_embeddings = stats.with_embeddings + 1;
                }
                stats.importance_total = stats.importance_total + row.memory.importance as i128;
            }
            i = i + 1;
        }
        proof {
            lemma_select_bounds(self@.owned_flags(), i as nat);
            lemma_select_bounds(self@.type_flags(MemoryType::Auto), i as nat);
            lemma_select_bounds(self@.type_flags(MemoryType::User), i as nat);
            lemma_select_bounds(self@.type_flags(MemoryType::Conversation), i as nat);
            lemma_select_bounds(self@.pinned_flags(), i as nat);
            lemma_select_bounds(self@.embedded_flags(), i as nat);
            lemma_importance_sum_bounds(self@.rows, self@.owned_flags(), i as nat);
        }
        stats
    }

    /// The settings of the workspace.
    pub fn get_settings(&self) -> (r: MemorySettings)
        ensures
            r@ == self@.settings,
    {
        self.settings.duplicate()
    }
}

} // verus!
