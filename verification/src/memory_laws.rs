//! What holds of the store across operations.

use crate::memory_model::{
    count, created_memory, list_key, ranked_results, score_keys, select, select_prefix,
    type_accepted, updated_memory, Candidate, RowView, StoreView,
};
use crate::memory_types::{
    CreateMemoryInput, KeywordHit, MemoryFilters, MemoryType, MemoryView, SimilarityHit,
    UpdateMemoryInput,
};
use crate::ranking::{
    lemma_outranks_irreflexive, lemma_outranks_transitive, lemma_ranked_is_sorted, outranks,
    precedes, ranked,
};
use crate::score::{
    is_number, lemma_at_most_one_is_below, score_at_least, score_key, ABOVE_ONE_BITS, ONE_BITS,
};
use crate::text::{lemma_text_before_irreflexive, text_before};
use vstd::prelude::*;

verus! {

/// In a well-formed store the memory `id` of the workspace stands at one row
/// only.
pub proof fn lemma_row_of(store: StoreView, id: Seq<char>, i: int)
    requires
        store.wf(),
        store.is_at(id, i),
    ensures
        store.has(id),
        store.index_of(id) == i,
        store.get(id) == Some(store.rows[i].memory),
{
    let k = store.index_of(id);
    assert(store.is_at(id, k));
    if k < i {
        assert(store.rows[k].memory.id != store.rows[i].memory.id);
    } else if i < k {
        assert(store.rows[i].memory.id != store.rows[k].memory.id);
    }
}

/// A memory that `get` returns has the id asked for and belongs to the
/// store's own workspace.
pub proof fn lemma_get_is_scoped(store: StoreView, id: Seq<char>)
    requires
        store.wf(),
    ensures
        store.get(id) matches Some(m) ==> m.id == id && m.workspace_id == store.workspace_id,
{
    if store.has(id) {
        assert(store.is_at(id, store.index_of(id)));
    }
}

/// After a memory is created, `get` of its id returns it with the content,
/// tags and importance that were given (importance 5 where none was), and
/// its id is that of no row the table held before.
pub proof fn lemma_create_then_get(
    store: StoreView,
    input: CreateMemoryInput,
    id: Seq<char>,
    now: Seq<char>,
)
    requires
        store.wf(),
        type_accepted(input),
        !store.id_taken(id),
    ensures
        ({
            let memory = created_memory(input, id, store.workspace_id, now);
            let after = store.with_row(RowView { memory, embedding: None });
            &&& after.wf()
            &&& after.get(id) == Some(memory)
            &&& memory.content == input.content@
            &&& memory.tags == input.tags.deep_view()
            &&& memory.importance == match input.importance {
                Some(n) => n,
                None => 5,
            }
            &&& forall|i: int| 0 <= i < store.rows.len() ==> (#[trigger] store.rows[i]).memory.id != id
        }),
{
    let memory = created_memory(input, id, store.workspace_id, now);
    let after = store.with_row(RowView { memory, embedding: None });
    assert(after.is_at(id, store.rows.len() as int));
    lemma_row_of(after, id, store.rows.len() as int);
}

/// One more flag does not change what is selected before it, and is itself
/// selected exactly where it holds.
pub proof fn lemma_select_push(flags: Seq<bool>, flag: bool)
    ensures
        select_prefix(flags.push(flag), flags.len()) == select_prefix(flags, flags.len()),
        select(flags.push(flag)).len() == select(flags).len() + if flag {
            1int
        } else {
            0int
        },
{
    lemma_select_prefix_push(flags, flag, flags.len());
    assert(flags.push(flag)[flags.len() as int] == flag);
    assert(select(flags.push(flag)) == select_prefix(flags.push(flag), (flags.len() + 1) as nat));
}

proof fn lemma_select_prefix_push(flags: Seq<bool>, flag: bool, n: nat)
    requires
        n <= flags.len(),
    ensures
        select_prefix(flags.push(flag), n) == select_prefix(flags, n),
    decreases n,
{
    if n > 0 {
        lemma_select_prefix_push(flags, flag, (n - 1) as nat);
        assert(flags.push(flag)[n - 1] == flags[n - 1]);
    }
}

/// Creating a memory adds exactly one to the memories of the workspace, and
/// to every listing whose filters the new memory passes; no other listing
/// changes its total.
pub proof fn lemma_create_adds_one(store: StoreView, row: RowView, filters: MemoryFilters)
    requires
        row.memory.workspace_id == store.workspace_id,
    ensures
        count(store.with_row(row).owned_flags()) == count(store.owned_flags()) + 1,
        store.with_row(row).matching(filters).len() == store.matching(filters).len() + if store.with_row(
            row,
        ).row_matches(filters, store.rows.len() as int) {
            1int
        } else {
            0int
        },
{
    let after = store.with_row(row);
    let n = store.rows.len() as int;
    assert(after.owned_flags() =~= store.owned_flags().push(true)) by {
        assert forall|i: int| 0 <= i < after.rows.len() implies after.owned_flags()[i]
            == store.owned_flags().push(true)[i] by {
            if i < n {
                assert(after.rows[i] == store.rows[i]);
            }
        }
    }
    lemma_select_push(store.owned_flags(), true);
    let passes = after.row_matches(filters, n);
    assert(after.match_flags(filters) =~= store.match_flags(filters).push(passes)) by {
        assert forall|i: int| 0 <= i < after.rows.len() implies after.match_flags(filters)[i]
            == store.match_flags(filters).push(passes)[i] by {
            if i < n {
                assert(after.rows[i] == store.rows[i]);
            }
        }
    }
    lemma_select_push(store.match_flags(filters), passes);
}

/// Creating a memory leaves every other memory as it was.
pub proof fn lemma_create_keeps_others(store: StoreView, row: RowView, other: Seq<char>)
    requires
        store.wf(),
        !store.id_taken(row.memory.id),
        row.embedding is Some <==> row.memory.embedding_model is Some,
        other != row.memory.id,
    ensures
        store.with_row(row).get(other) == store.get(other),
{
    let after = store.with_row(row);
    if store.has(other) {
        let i = store.index_of(other);
        assert(store.is_at(other, i));
        assert(after.is_at(other, i));
        lemma_row_of(after, other, i);
    } else if after.has(other) {
        let i = after.index_of(other);
        assert(after.is_at(other, i));
        assert(store.is_at(other, i));
    }
}

/// After `delete(id)`, `get(id)` finds nothing, and a second `delete(id)`
/// finds nothing to remove and changes nothing.
pub proof fn lemma_delete_then_get(store: StoreView, id: Seq<char>)
    requires
        store.wf(),
    ensures
        store.after_delete(id).wf(),
        store.after_delete(id).get(id) is None,
        !store.after_delete(id).has(id),
        store.after_delete(id).after_delete(id) == store.after_delete(id),
{
    let after = store.after_delete(id);
    if store.has(id) {
        let i = store.index_of(id);
        assert(store.is_at(id, i));
        assert forall|k: int| 0 <= k < after.rows.len() implies (#[trigger] after.rows[k]).memory.id
            != id by {
            if k < i {
                assert(after.rows[k] == store.rows[k]);
                assert(store.rows[k].memory.id != store.rows[i].memory.id);
            } else {
                assert(after.rows[k] == store.rows[k + 1]);
                assert(store.rows[i].memory.id != store.rows[k + 1].memory.id);
            }
        }
        assert forall|a: int, b: int| 0 <= a < b < after.rows.len() implies (#[trigger] after.rows[a]).memory.id
            != (#[trigger] after.rows[b]).memory.id by {
            let a0 = if a < i { a } else { a + 1 };
            let b0 = if b < i { b } else { b + 1 };
            assert(after.rows[a] == store.rows[a0]);
            assert(after.rows[b] == store.rows[b0]);
        }
        assert forall|k: int| 0 <= k < after.rows.len() implies ((#[trigger] after.rows[k]).embedding is Some
            <==> after.rows[k].memory.embedding_model is Some) by {
            let k0 = if k < i { k } else { k + 1 };
            assert(after.rows[k] == store.rows[k0]);
        }
        if after.has(id) {
            assert(after.is_at(id, after.index_of(id)));
        }
    }
}

/// Deleting a memory leaves every other memory as it was.
pub proof fn lemma_delete_keeps_others(store: StoreView, id: Seq<char>, other: Seq<char>)
    requires
        store.wf(),
        other != id,
    ensures
        store.after_delete(id).get(other) == store.get(other),
{
    lemma_delete_then_get(store, id);
    let after = store.after_delete(id);
    if store.has(id) {
        let i = store.index_of(id);
        assert(store.is_at(id, i));
        if store.has(other) {
            let k = store.index_of(other);
            assert(store.is_at(other, k));
            let k1 = if k < i { k } else { k - 1 };
            assert(after.rows[k1] == store.rows[k]);
            assert(after.is_at(other, k1));
            lemma_row_of(after, other, k1);
        } else if after.has(other) {
            let k = after.index_of(other);
            assert(after.is_at(other, k));
            let k0 = if k < i { k } else { k + 1 };
            assert(after.rows[k] == store.rows[k0]);
            assert(store.is_at(other, k0));
        }
    }
}

/// After an update, `get` returns the memory with each given field replaced,
/// every other field as before and the new time of update.
pub proof fn lemma_update_then_get(
    store: StoreView,
    id: Seq<char>,
    input: UpdateMemoryInput,
    now: Seq<char>,
)
    requires
        store.wf(),
        store.has(id),
    ensures
        store.after_update(id, input, now).wf(),
        store.get(id) matches Some(old) && store.after_update(id, input, now).get(id) == Some(
            updated_memory(old, input, now),
        ),
{
    let i = store.index_of(id);
    assert(store.is_at(id, i));
    let after = store.after_update(id, input, now);
    assert(after.is_at(id, i));
    assert forall|a: int, b: int| 0 <= a < b < after.rows.len() implies (#[trigger] after.rows[a]).memory.id
        != (#[trigger] after.rows[b]).memory.id by {
        assert(after.rows[a].memory.id == store.rows[a].memory.id);
        assert(after.rows[b].memory.id == store.rows[b].memory.id);
    }
    assert forall|k: int| 0 <= k < after.rows.len() implies ((#[trigger] after.rows[k]).embedding is Some
        <==> after.rows[k].memory.embedding_model is Some) by {
        assert(after.rows[k].embedding == store.rows[k].embedding);
        assert(after.rows[k].memory.embedding_model == store.rows[k].memory.embedding_model);
    }
    lemma_row_of(after, id, i);
}

/// An update that gives only an importance changes the importance and the
/// time of update of that memory, and nothing else.
pub proof fn lemma_update_importance_only(
    store: StoreView,
    id: Seq<char>,
    importance: i32,
    now: Seq<char>,
)
    requires
        store.wf(),
        store.has(id),
    ensures
        ({
            let input = UpdateMemoryInput {
                content: None,
                summary: None,
                tags: None,
                importance: Some(importance),
                is_pinned: None,
                metadata: None,
            };
            let old = store.rows[store.index_of(id)].memory;
            &&& store.after_update(id, input, now).get(id) == Some(
                MemoryView { importance, updated_at: now, ..old },
            )
            &&& forall|k: int|
                0 <= k < store.rows.len() && k != store.index_of(id) ==> store.after_update(
                    id,
                    input,
                    now,
                ).rows[k] == #[trigger] store.rows[k]
            &&& store.after_update(id, input, now).rows.len() == store.rows.len()
            &&& store.after_update(id, input, now).rows[store.index_of(id)].embedding
                == store.rows[store.index_of(id)].embedding
        }),
{
    let input = UpdateMemoryInput {
        content: None,
        summary: None,
        tags: None,
        importance: Some(importance),
        is_pinned: None,
        metadata: None,
    };
    assert(store.is_at(id, store.index_of(id)));
    lemma_update_then_get(store, id, input, now);
}

/// Every change of a memory stamps it: after an update, a recorded access or
/// a stored embedding the time of update is the time of the change, and the
/// time of creation is what it was.
pub proof fn lemma_changes_are_stamped(
    store: StoreView,
    id: Seq<char>,
    input: UpdateMemoryInput,
    bytes: Seq<u8>,
    model: Seq<char>,
    now: Seq<char>,
)
    requires
        store.wf(),
        store.has(id),
    ensures
        ({
            let old = store.rows[store.index_of(id)].memory;
            let updated = store.after_update(id, input, now).rows[store.index_of(id)].memory;
            let accessed = store.after_access(id, now).rows[store.index_of(id)].memory;
            let embedded = store.after_embedding(id, bytes, model, now).rows[store.index_of(id)].memory;
            &&& updated.updated_at == now && updated.created_at == old.created_at
            &&& accessed.updated_at == now && accessed.created_at == old.created_at
            &&& embedded.updated_at == now && embedded.created_at == old.created_at
            &&& updated.access_count == old.access_count
            &&& embedded.access_count == old.access_count
            &&& updated.id == id && accessed.id == id && embedded.id == id
        }),
{
    assert(store.is_at(id, store.index_of(id)));
}

/// Two stores over the same table that answer for different workspaces never
/// both have a memory under one id: what one returns the other does not find.
pub proof fn lemma_workspace_isolation(a: StoreView, b: StoreView, id: Seq<char>)
    requires
        a.wf(),
        b.wf(),
        a.rows == b.rows,
        a.workspace_id != b.workspace_id,
    ensures
        !(a.has(id) && b.has(id)),
        a.get(id) is Some ==> b.get(id) is None,
{
    if a.has(id) && b.has(id) {
        let i = a.index_of(id);
        let j = b.index_of(id);
        assert(a.is_at(id, i));
        assert(b.is_at(id, j));
        if i < j {
            assert(a.rows[i].memory.id != a.rows[j].memory.id);
        } else if j < i {
            assert(a.rows[j].memory.id != a.rows[i].memory.id);
        }
    }
}

/// The selected indices are exactly those below `n` at which `flags` holds,
/// in ascending order.
pub proof fn lemma_select(flags: Seq<bool>, n: nat)
    requires
        n <= flags.len(),
    ensures
        forall|j: int|
            0 <= j < select_prefix(flags, n).len() ==> 0 <= #[trigger] select_prefix(flags, n)[j] < n
                && flags[select_prefix(flags, n)[j]],
        forall|j: int, k: int|
            0 <= j < k < select_prefix(flags, n).len() ==> #[trigger] select_prefix(flags, n)[j]
                < #[trigger] select_prefix(flags, n)[k],
        forall|i: int| 0 <= i < n && flags[i] ==> select_prefix(flags, n).contains(i),
    decreases n,
{
    if n > 0 {
        let before = select_prefix(flags, (n - 1) as nat);
        let now = select_prefix(flags, n);
        lemma_select(flags, (n - 1) as nat);
        assert forall|i: int| 0 <= i < n && flags[i] implies now.contains(i) by {
            if i < n - 1 {
                assert(before.contains(i));
                let j = choose|j: int| 0 <= j < before.len() && before[j] == i;
                assert(now[j] == i);
            } else {
                assert(now[now.len() - 1] == i);
            }
        }
    }
}

/// The number of memories that pass the filters does not depend on the page
/// asked for, nor on the sort order: two filters that ask for the same type
/// and the same pinned flag count the same rows.
pub proof fn lemma_total_ignores_paging(store: StoreView, a: MemoryFilters, b: MemoryFilters)
    requires
        a.memory_type.deep_view() == b.memory_type.deep_view(),
        a.is_pinned == b.is_pinned,
    ensures
        store.matching(a) == store.matching(b),
        store.matching(a).len() == store.matching(b).len(),
{
    assert(store.match_flags(a) =~= store.match_flags(b));
}

/// The page holds `limit` memories, or as many as the listing has left after
/// `offset`.
pub proof fn lemma_page_length(store: StoreView, filters: MemoryFilters)
    ensures
        ({
            let total = store.matching(filters).len() as int;
            let offset = match filters.offset {
                Some(n) => n as int,
                None => 0,
            };
            let limit = match filters.limit {
                Some(n) => n as int,
                None => 100,
            };
            let left = if offset < total {
                total - offset
            } else {
                0
            };
            store.page(filters).len() == if limit < left {
                limit
            } else {
                left
            }
        }),
{
}

/// Filtering by the type `"pinned"` selects exactly the pinned memories of
/// the workspace, whatever their type.
pub proof fn lemma_pinned_filter(store: StoreView, filters: MemoryFilters)
    requires
        filters.memory_type.deep_view() == Some("pinned"@),
        filters.is_pinned is None,
    ensures
        store.matching(filters) == select(store.pinned_flags()),
        store.matching(filters).len() == count(store.pinned_flags()),
        forall|i: int|
            0 <= i < store.rows.len() ==> (store.matching(filters).contains(i) <==> store.owns(i)
                && (#[trigger] store.rows[i]).memory.is_pinned),
{
    assert(store.match_flags(filters) =~= store.pinned_flags());
    let flags = store.pinned_flags();
    lemma_select(flags, flags.len());
    assert forall|i: int| 0 <= i < store.rows.len() implies (store.matching(filters).contains(i)
        <==> store.owns(i) && (#[trigger] store.rows[i]).memory.is_pinned) by {
        assert(store.matching(filters) == select(flags));
        assert(flags[i] == (store.owns(i) && store.rows[i].memory.is_pinned));
        if select(flags).contains(i) {
            let j = choose|j: int| 0 <= j < select(flags).len() && select(flags)[j] == i;
            assert(flags[select(flags)[j]]);
        }
        if flags[i] {
            assert(select_prefix(flags, flags.len()).contains(i));
        }
    }
}

/// Every row of the listing passes the filters, every row that passes is
/// listed once, and the listing follows the order asked for.
pub proof fn lemma_listing(store: StoreView, filters: MemoryFilters)
    ensures
        store.listing(filters).len() == store.matching(filters).len(),
        forall|j: int|
            0 <= j < store.listing(filters).len() ==> store.row_matches(
                filters,
                #[trigger] store.listing(filters)[j],
            ),
        forall|i: int|
            0 <= i < store.rows.len() && store.row_matches(filters, i) ==> store.listing(
                filters,
            ).contains(i),
{
    let flags = store.match_flags(filters);
    let hits = store.matching(filters);
    let keys = Seq::new(
        hits.len(),
        |j: int| list_key(store.rows[hits[j]].memory, filters.sort_by.deep_view()),
    );
    let order = ranked(keys);
    let listing = store.listing(filters);
    lemma_select(flags, flags.len());
    lemma_ranked_is_sorted(keys);
    assert forall|j: int| 0 <= j < listing.len() implies store.row_matches(filters, #[trigger] listing[j]) by {
        assert(listing[j] == hits[order[j]]);
        assert(flags[hits[order[j]]]);
    }
    assert forall|i: int| 0 <= i < store.rows.len() && store.row_matches(filters, i) implies listing.contains(
        i,
    ) by {
        assert(flags[i]);
        assert(hits.contains(i));
        let h = choose|h: int| 0 <= h < hits.len() && hits[h] == i;
        assert(order.contains(h));
        let j = choose|j: int| 0 <= j < order.len() && order[j] == h;
        assert(listing[j] == i);
    }
}

/// The listing never puts a memory before one that the order asked for
/// ranks higher: by importance no listed memory is less important than one
/// after it, and otherwise none was created (or, by access, last used) before
/// one after it.
pub proof fn lemma_listing_order(store: StoreView, filters: MemoryFilters)
    ensures
        forall|j: int, k: int|
            0 <= j < k < store.listing(filters).len() ==> !outranks(
                list_key(
                    store.rows[#[trigger] store.listing(filters)[k]].memory,
                    filters.sort_by.deep_view(),
                ),
                list_key(
                    store.rows[#[trigger] store.listing(filters)[j]].memory,
                    filters.sort_by.deep_view(),
                ),
            ),
        filters.sort_by.deep_view() == Some("importance"@) ==> forall|j: int, k: int|
            0 <= j < k < store.listing(filters).len() ==> store.rows[#[trigger] store.listing(
                filters,
            )[j]].memory.importance >= store.rows[#[trigger] store.listing(filters)[k]].memory.importance,
        filters.sort_by is None ==> forall|j: int, k: int|
            0 <= j < k < store.listing(filters).len() ==> !text_before(
                store.rows[#[trigger] store.listing(filters)[j]].memory.created_at,
                store.rows[#[trigger] store.listing(filters)[k]].memory.created_at,
            ),
{
    let hits = store.matching(filters);
    let keys = Seq::new(
        hits.len(),
        |j: int| list_key(store.rows[hits[j]].memory, filters.sort_by.deep_view()),
    );
    let order = ranked(keys);
    let listing = store.listing(filters);
    lemma_ranked_is_sorted(keys);
    assert forall|j: int, k: int| 0 <= j < k < listing.len() implies !outranks(
        list_key(store.rows[#[trigger] listing[k]].memory, filters.sort_by.deep_view()),
        list_key(store.rows[#[trigger] listing[j]].memory, filters.sort_by.deep_view()),
    ) by {
        assert(precedes(keys, order[j], order[k]));
        assert(keys[order[j]] == list_key(store.rows[listing[j]].memory, filters.sort_by.deep_view()));
        assert(keys[order[k]] == list_key(store.rows[listing[k]].memory, filters.sort_by.deep_view()));
        if outranks(keys[order[j]], keys[order[k]]) && outranks(keys[order[k]], keys[order[j]]) {
            lemma_outranks_transitive(keys[order[j]], keys[order[k]], keys[order[j]]);
            lemma_outranks_irreflexive(keys[order[j]]);
        }
    }
}

/// An update, a recorded access, a stored embedding or a delete leaves every
/// row of another workspace in the table as it was.
pub proof fn lemma_other_workspaces_untouched(
    store: StoreView,
    id: Seq<char>,
    input: UpdateMemoryInput,
    bytes: Seq<u8>,
    model: Seq<char>,
    now: Seq<char>,
    k: int,
)
    requires
        store.wf(),
        0 <= k < store.rows.len(),
        !store.owns(k),
    ensures
        store.has(id) ==> store.after_update(id, input, now).rows[k] == store.rows[k],
        store.after_access(id, now).rows[k] == store.rows[k],
        store.after_embedding(id, bytes, model, now).rows[k] == store.rows[k],
        store.after_delete(id).rows.contains(store.rows[k]),
{
    if store.has(id) {
        let i = store.index_of(id);
        assert(store.is_at(id, i));
        let after = store.after_delete(id);
        if k < i {
            assert(after.rows[k] == store.rows[k]);
        } else {
            assert(after.rows[k - 1] == store.rows[k]);
        }
    } else {
        assert(store.after_delete(id).rows[k] == store.rows[k]);
    }
}

/// Every memory of the workspace has exactly one of the three types, so the
/// three counts by type add up to the total; pinned memories and memories
/// with an embedding are among them.
pub proof fn lemma_stats_add_up(store: StoreView)
    ensures
        count(store.type_flags(MemoryType::Auto)) + count(store.type_flags(MemoryType::User)) + count(
            store.type_flags(MemoryType::Conversation),
        ) == count(store.owned_flags()),
        count(store.pinned_flags()) <= count(store.owned_flags()),
        count(store.embedded_flags()) <= count(store.owned_flags()),
        count(store.owned_flags()) <= store.rows.len(),
{
    lemma_counts(store, store.rows.len());
}

proof fn lemma_counts(store: StoreView, n: nat)
    requires
        n <= store.rows.len(),
    ensures
        select_prefix(store.type_flags(MemoryType::Auto), n).len() + select_prefix(
            store.type_flags(MemoryType::User),
            n,
        ).len() + select_prefix(store.type_flags(MemoryType::Conversation), n).len()
            == select_prefix(store.owned_flags(), n).len(),
        select_prefix(store.pinned_flags(), n).len() <= select_prefix(store.owned_flags(), n).len(),
        select_prefix(store.embedded_flags(), n).len() <= select_prefix(store.owned_flags(), n).len(),
        select_prefix(store.owned_flags(), n).len() <= n,
    decreases n,
{
    if n > 0 {
        lemma_counts(store, (n - 1) as nat);
    }
}

/// The candidates of a semantic search name rows of the workspace that have
/// an embedding, and none scores below the threshold.
pub proof fn lemma_semantic_candidates(
    store: StoreView,
    hits: Seq<SimilarityHit>,
    threshold: u64,
    n: nat,
)
    requires
        store.wf(),
        n <= hits.len(),
    ensures
        store.semantic_candidates(hits, threshold, n).len() <= n,
        forall|j: int|
            0 <= j < store.semantic_candidates(hits, threshold, n).len() ==> {
                let c = #[trigger] store.semantic_candidates(hits, threshold, n)[j];
                &&& store.owns(c.row)
                &&& store.rows[c.row].embedding is Some
                &&& score_at_least(c.score, threshold)
            },
    decreases n,
{
    if n > 0 {
        lemma_semantic_candidates(store, hits, threshold, (n - 1) as nat);
        let hit = hits[n - 1];
        if store.has(hit.id@) {
            assert(store.is_at(hit.id@, store.index_of(hit.id@)));
        }
    }
}

/// The candidates of a keyword search name rows of the workspace.
pub proof fn lemma_keyword_candidates(store: StoreView, hits: Seq<KeywordHit>, n: nat)
    requires
        store.wf(),
        n <= hits.len(),
    ensures
        store.keyword_candidates(hits, n).len() <= n,
        forall|j: int|
            0 <= j < store.keyword_candidates(hits, n).len() ==> store.owns(
                (#[trigger] store.keyword_candidates(hits, n)[j]).row,
            ),
    decreases n,
{
    if n > 0 {
        lemma_keyword_candidates(store, hits, (n - 1) as nat);
        let hit = hits[n - 1];
        if store.has(hit.id@) {
            assert(store.is_at(hit.id@, store.index_of(hit.id@)));
        }
    }
}

/// Ranked results are no more than `limit`, each is one of the candidates
/// with its own score, and scores never ascend.
pub proof fn lemma_ranked_results(
    rows: Seq<RowView>,
    candidates: Seq<Candidate>,
    limit: int,
    match_type: Seq<char>,
)
    requires
        0 <= limit,
    ensures
        ranked_results(rows, candidates, limit, match_type).len() == if limit < candidates.len() {
            limit
        } else {
            candidates.len() as int
        },
        forall|j: int|
            0 <= j < ranked_results(rows, candidates, limit, match_type).len() ==> exists|c: int|
                0 <= c < candidates.len() && (#[trigger] ranked_results(
                    rows,
                    candidates,
                    limit,
                    match_type,
                )[j]).score == candidates[c].score && ranked_results(
                    rows,
                    candidates,
                    limit,
                    match_type,
                )[j].memory == rows[candidates[c].row].memory,
        forall|j: int|
            0 <= j < ranked_results(rows, candidates, limit, match_type).len() ==> (#[trigger] ranked_results(
                rows,
                candidates,
                limit,
                match_type,
            )[j]).match_type == match_type,
        forall|j: int, k: int|
            0 <= j < k < ranked_results(rows, candidates, limit, match_type).len() ==> score_key(
                (#[trigger] ranked_results(rows, candidates, limit, match_type)[j]).score,
            ) >= score_key((#[trigger] ranked_results(rows, candidates, limit, match_type)[k]).score),
{
    let keys = score_keys(candidates);
    let order = ranked(keys);
    let results = ranked_results(rows, candidates, limit, match_type);
    lemma_ranked_is_sorted(keys);
    assert forall|j: int| 0 <= j < results.len() implies exists|c: int|
        0 <= c < candidates.len() && (#[trigger] results[j]).score == candidates[c].score
            && results[j].memory == rows[candidates[c].row].memory by {
        let c = order[j];
        assert(0 <= c < candidates.len());
        assert(results[j].score == candidates[c].score);
    }
    assert forall|j: int, k: int| 0 <= j < k < results.len() implies score_key((#[trigger] results[j]).score)
        >= score_key((#[trigger] results[k]).score) by {
        assert(precedes(keys, order[j], order[k]));
        lemma_text_before_irreflexive(Seq::<char>::empty());
    }
}

/// Every result of a semantic search is a memory of the workspace with a
/// score that is not below the threshold; the results are no more than
/// `limit`, and their scores never ascend.
pub proof fn lemma_semantic_results(
    store: StoreView,
    hits: Seq<SimilarityHit>,
    limit: int,
    threshold: u64,
)
    requires
        store.wf(),
        0 <= limit,
    ensures
        store.semantic(hits, limit, threshold).len() <= limit,
        forall|j: int|
            0 <= j < store.semantic(hits, limit, threshold).len() ==> {
                let r = #[trigger] store.semantic(hits, limit, threshold)[j];
                &&& score_at_least(r.score, threshold)
                &&& r.memory.workspace_id == store.workspace_id
                &&& r.match_type == "semantic"@
            },
        forall|j: int, k: int|
            0 <= j < k < store.semantic(hits, limit, threshold).len() ==> score_key(
                (#[trigger] store.semantic(hits, limit, threshold)[j]).score,
            ) >= score_key((#[trigger] store.semantic(hits, limit, threshold)[k]).score),
{
    let candidates = store.semantic_candidates(hits, threshold, hits.len());
    let results = store.semantic(hits, limit, threshold);
    lemma_semantic_candidates(store, hits, threshold, hits.len());
    lemma_ranked_results(store.rows, candidates, limit, "semantic"@);
    lemma_ranked_is_sorted(score_keys(candidates));
    assert forall|j: int| 0 <= j < results.len() implies {
        let r = #[trigger] results[j];
        &&& score_at_least(r.score, threshold)
        &&& r.memory.workspace_id == store.workspace_id
        &&& r.match_type == "semantic"@
    } by {
        let c = candidates[ranked(score_keys(candidates))[j]];
        assert(store.owns(c.row));
    }
}

/// A semantic search under a threshold that no given score reaches returns
/// nothing.
pub proof fn lemma_threshold_above_all(
    store: StoreView,
    hits: Seq<SimilarityHit>,
    limit: int,
    threshold: u64,
)
    requires
        store.wf(),
        0 <= limit,
        forall|i: int| 0 <= i < hits.len() ==> !score_at_least((#[trigger] hits[i]).score, threshold),
    ensures
        store.semantic(hits, limit, threshold).len() == 0,
{
    lemma_no_candidates(store, hits, threshold, hits.len());
    lemma_ranked_results(
        store.rows,
        store.semantic_candidates(hits, threshold, hits.len()),
        limit,
        "semantic"@,
    );
}

/// A semantic search under a threshold of one and a tenth returns nothing,
/// whatever the store holds and whatever the limit, as long as no similarity
/// given exceeds one: every similarity is at most one or is no number.
pub proof fn lemma_threshold_above_one(store: StoreView, hits: Seq<SimilarityHit>, limit: int)
    requires
        store.wf(),
        0 <= limit,
        forall|i: int|
            0 <= i < hits.len() ==> !is_number((#[trigger] hits[i]).score) || score_key(hits[i].score)
                <= score_key(ONE_BITS),
    ensures
        store.semantic(hits, limit, ABOVE_ONE_BITS).len() == 0,
{
    assert forall|i: int| 0 <= i < hits.len() implies !score_at_least(
        (#[trigger] hits[i]).score,
        ABOVE_ONE_BITS,
    ) by {
        lemma_at_most_one_is_below(hits[i].score);
    }
    lemma_threshold_above_all(store, hits, limit, ABOVE_ONE_BITS);
}

proof fn lemma_no_candidates(store: StoreView, hits: Seq<SimilarityHit>, threshold: u64, n: nat)
    requires
        n <= hits.len(),
        forall|i: int| 0 <= i < hits.len() ==> !score_at_least((#[trigger] hits[i]).score, threshold),
    ensures
        store.semantic_candidates(hits, threshold, n).len() == 0,
    decreases n,
{
    if n > 0 {
        lemma_no_candidates(store, hits, threshold, (n - 1) as nat);
        assert(!score_at_least(hits[n - 1].score, threshold));
    }
}

/// A hybrid search without similarities and without keyword matches returns
/// nothing.
pub proof fn lemma_hybrid_finds_nothing(store: StoreView, limit: int, threshold: u64)
    requires
        0 <= limit,
    ensures
        store.hybrid(None, Seq::empty(), limit, threshold).len() == 0,
{
    lemma_ranked_results(store.rows, Seq::empty(), limit, "keyword"@);
}

/// A hybrid search whose similarities yield no semantic result returns what
/// the keyword search returns, whatever that is; one that yields any returns
/// the semantic results alone.
pub proof fn lemma_hybrid_falls_back(
    store: StoreView,
    similarities: Seq<SimilarityHit>,
    hits: Seq<KeywordHit>,
    limit: int,
    threshold: u64,
)
    ensures
        store.semantic(similarities, limit, threshold).len() == 0 ==> store.hybrid(
            Some(similarities),
            hits,
            limit,
            threshold,
        ) == store.keyword(hits, limit),
        store.semantic(similarities, limit, threshold).len() > 0 ==> store.hybrid(
            Some(similarities),
            hits,
            limit,
            threshold,
        ) == store.semantic(similarities, limit, threshold),
        store.hybrid(None, hits, limit, threshold) == store.keyword(hits, limit),
{
}

/// A keyword match that names a memory of the workspace is found by the
/// keyword search whenever the limit leaves room for all matches.
pub proof fn lemma_keyword_finds_match(store: StoreView, hits: Seq<KeywordHit>, limit: int, i: int)
    requires
        store.wf(),
        0 <= i < hits.len(),
        store.has(hits[i].id@),
        hits.len() <= limit,
    ensures
        exists|j: int|
            0 <= j < store.keyword(hits, limit).len() && (#[trigger] store.keyword(hits, limit)[j]).memory
                == store.rows[store.index_of(hits[i].id@)].memory,
{
    let candidates = store.keyword_candidates(hits, hits.len());
    lemma_keyword_candidates(store, hits, hits.len());
    lemma_keyword_candidate_of(store, hits, hits.len(), i);
    let c = choose|c: int| 0 <= c < candidates.len() && candidates[c].row == store.index_of(hits[i].id@);
    let keys = score_keys(candidates);
    lemma_ranked_is_sorted(keys);
    assert(ranked(keys).contains(c));
    let j = choose|j: int| 0 <= j < ranked(keys).len() && ranked(keys)[j] == c;
    let results = store.keyword(hits, limit);
    assert(results.len() == candidates.len());
    assert(results[j].memory == store.rows[candidates[c].row].memory);
}

proof fn lemma_keyword_candidate_of(store: StoreView, hits: Seq<KeywordHit>, n: nat, i: int)
    requires
        0 <= i < n <= hits.len(),
        store.has(hits[i].id@),
    ensures
        exists|c: int|
            0 <= c < store.keyword_candidates(hits, n).len() && (#[trigger] store.keyword_candidates(
                hits,
                n,
            )[c]).row == store.index_of(hits[i].id@),
    decreases n,
{
    let now = store.keyword_candidates(hits, n);
    if i == n - 1 {
        assert(now[now.len() - 1].row == store.index_of(hits[i].id@));
    } else {
        lemma_keyword_candidate_of(store, hits, (n - 1) as nat, i);
        let before = store.keyword_candidates(hits, (n - 1) as nat);
        let c = choose|c: int| 0 <= c < before.len() && (#[trigger] before[c]).row == store.index_of(hits[i].id@);
        assert(now[c] == before[c]);
    }
}

} // verus!
