use sentinelops::embedding::{bytes_to_embedding, embedding_to_bytes};
use sentinelops::memory_commands::{
    conversation_text, extraction_input, get_relevant_memories, get_relevant_memories_at,
    list_memories, search_memories, should_extract, update_memory_settings, wants_embedding,
    ConversationMessage, CreateMemoryRequest, ExtractedItem, ExtractMemoriesRequest,
    SearchMemoryRequest,
};
use sentinelops::memory_service::MemoryManager;
use sentinelops::memory_types::{
    CreateMemoryInput, KeywordHit, MemoryWithScore, SimilarityHit, UpdateSettingsRequest,
};
use sentinelops::score::{
    at_least, is_number_bits, key_of, negate, ABOVE_ONE_BITS, DEFAULT_THRESHOLD_BITS, ONE_BITS,
};

fn input(content: &str) -> CreateMemoryInput {
    CreateMemoryInput {
        content: content.to_string(),
        summary: None,
        memory_type: None,
        tags: None,
        importance: None,
        is_pinned: None,
        source_conversation_id: None,
        source_message_ids: None,
        metadata: None,
    }
}

fn words(v: &[f32]) -> Vec<u32> {
    v.iter().map(|x| x.to_bits()).collect()
}

fn cosine(a: &[f32], b: &[f32]) -> f64 {
    if a.len() != b.len() || a.is_empty() {
        return 0.0;
    }
    let dot: f64 = a.iter().zip(b.iter()).map(|(x, y)| (*x as f64) * (*y as f64)).sum();
    let na: f64 = a.iter().map(|x| (*x as f64).powi(2)).sum::<f64>().sqrt();
    let nb: f64 = b.iter().map(|x| (*x as f64).powi(2)).sum::<f64>().sqrt();
    if na == 0.0 || nb == 0.0 {
        0.0
    } else {
        dot / (na * nb)
    }
}

fn similarities(store: &MemoryManager, query: &[f32]) -> Vec<SimilarityHit> {
    store
        .embedded_memories()
        .into_iter()
        .map(|e| {
            let stored: Vec<f32> = e.embedding.iter().map(|w| f32::from_bits(*w)).collect();
            SimilarityHit { id: e.id, score: cosine(query, &stored).to_bits() }
        })
        .collect()
}

fn sim(id: &str, score: f64) -> SimilarityHit {
    SimilarityHit { id: id.to_string(), score: score.to_bits() }
}

fn hit(id: &str, relevance: f64) -> KeywordHit {
    KeywordHit { id: id.to_string(), relevance: relevance.to_bits() }
}

fn ids(results: &Vec<MemoryWithScore>) -> Vec<String> {
    results.iter().map(|r| r.memory.id.clone()).collect()
}

fn store_with(n: usize) -> MemoryManager {
    let mut store = MemoryManager::new("/tmp/ws-a");
    for i in 0..n {
        let id = format!("m{}", i);
        store.create_memory_with(input(&format!("memory {}", i)), &id, "t0").unwrap();
        store.store_embedding_at(&id, &words(&[1.0, i as f32]), "model", "t1");
    }
    store
}

#[test]
fn cosine_of_a_vector_with_itself_is_one_and_symmetric() {
    let a = [0.3f32, -1.5, 2.0];
    let b = [4.0f32, 0.25, -1.0];
    assert!((cosine(&a, &a) - 1.0).abs() < 1e-9);
    assert_eq!(cosine(&a, &b), cosine(&b, &a));
    assert_eq!(cosine(&[], &[]), 0.0);
    assert_eq!(cosine(&a, &[0.0, 0.0, 0.0]), 0.0);
    assert_eq!(cosine(&a, &[1.0]), 0.0);
}

#[test]
fn embedding_bytes_are_little_endian_words() {
    assert_eq!(embedding_to_bytes(&words(&[1.0])), vec![0, 0, 128, 63]);
    assert_eq!(
        embedding_to_bytes(&words(&[-2.5, 0.1])),
        vec![0, 0, 32, 192, 205, 204, 204, 61]
    );
    assert_eq!(embedding_to_bytes(&vec![0x04030201]), vec![1, 2, 3, 4]);
    assert_eq!(embedding_to_bytes(&vec![]), Vec::<u8>::new());
    assert_eq!(embedding_to_bytes(&vec![u32::MAX]), vec![255, 255, 255, 255]);
}

#[test]
fn embedding_reads_back_and_drops_a_partial_group() {
    let v = words(&[1.0, -2.5, 0.1, f32::MAX, f32::MIN_POSITIVE]);
    assert_eq!(bytes_to_embedding(&embedding_to_bytes(&v)), v);
    assert_eq!(bytes_to_embedding(&vec![1, 2, 3, 4, 9, 9, 9]), vec![0x04030201]);
    assert_eq!(bytes_to_embedding(&vec![1, 2, 3]), Vec::<u32>::new());
    assert_eq!(bytes_to_embedding(&vec![]), Vec::<u32>::new());
    for (w, x) in v.iter().zip([1.0f32, -2.5, 0.1, f32::MAX, f32::MIN_POSITIVE]) {
        let bytes = embedding_to_bytes(&vec![*w]);
        assert_eq!(bytes, x.to_le_bytes().to_vec());
    }
}

#[test]
fn score_keys_order_as_the_numbers_do() {
    let samples = [
        f64::NEG_INFINITY,
        -1.0e300,
        -1.0,
        -0.5,
        -1.0e-300,
        -0.0,
        0.0,
        1.0e-300,
        0.5,
        0.7,
        0.99,
        1.0,
        1.1,
        1.0e300,
        f64::INFINITY,
    ];
    for a in samples {
        for b in samples {
            assert_eq!(at_least(a.to_bits(), b.to_bits()), a >= b, "{} >= {}", a, b);
            assert_eq!(key_of(a.to_bits()) < key_of(b.to_bits()), a < b, "{} < {}", a, b);
        }
        assert_eq!(f64::from_bits(negate(a.to_bits())), -a);
        assert_eq!(key_of(negate(a.to_bits())), -key_of(a.to_bits()));
        assert!(is_number_bits(a.to_bits()));
        assert!(!at_least(a.to_bits(), f64::NAN.to_bits()));
        assert!(!at_least(f64::NAN.to_bits(), a.to_bits()));
    }
    assert!(!is_number_bits(f64::NAN.to_bits()));
    assert!(!is_number_bits((-f64::NAN).to_bits()));
    assert_eq!(key_of(0x3ff0_0000_0000_0000), 0x3ff0_0000_0000_0000);
    assert_eq!(key_of(0xbff0_0000_0000_0000), -0x3ff0_0000_0000_0000);
    assert_eq!(key_of(1), 1);
    assert_eq!(key_of(0x8000_0000_0000_0001), -1);
    assert_eq!(key_of(u64::MAX), -i64::MAX);
    assert_eq!(negate(0), 0x8000_0000_0000_0000);
    assert_eq!(negate(0x8000_0000_0000_0000), 0);
    assert_eq!(key_of(0.0f64.to_bits()), 0);
    assert_eq!(key_of((-0.0f64).to_bits()), 0);
    assert_eq!(DEFAULT_THRESHOLD_BITS, 0.7f64.to_bits());
}

#[test]
fn store_embedding_sets_bytes_model_and_time() {
    let mut store = MemoryManager::new("/tmp/ws-a");
    store.create_memory_with(input("x"), "id-1", "t0").unwrap();
    assert!(store.embedded_memories().is_empty());
    assert_eq!(store.get_stats().with_embeddings, 0);
    store.store_embedding_at("id-1", &words(&[0.5, -0.25]), "embedder-v1", "t1");
    let m = store.get_memory("id-1").unwrap();
    assert_eq!(m.embedding_model, Some("embedder-v1".to_string()));
    assert_eq!(m.updated_at, "t1");
    assert_eq!(m.created_at, "t0");
    let embedded = store.embedded_memories();
    assert_eq!(embedded.len(), 1);
    assert_eq!(embedded[0].id, "id-1");
    assert_eq!(embedded[0].embedding, words(&[0.5, -0.25]));
    assert_eq!(store.get_stats().with_embeddings, 1);
    store.store_embedding("id-1", &words(&[1.0]), "embedder-v2");
    let m = store.get_memory("id-1").unwrap();
    assert_eq!(m.embedding_model, Some("embedder-v2".to_string()));
    assert_eq!(store.embedded_memories()[0].embedding, words(&[1.0]));
    store.store_embedding_at("missing", &words(&[1.0]), "m", "t2");
    assert_eq!(store.embedded_memories().len(), 1);
}

#[test]
fn semantic_search_ranks_filters_and_truncates() {
    let store = store_with(5);
    let given = vec![
        sim("m0", 0.2),
        sim("m1", 0.9),
        sim("m2", 0.7),
        sim("m3", 0.95),
        sim("m4", 0.69999),
    ];
    let found = store.search_semantic(&given, 10, 0.7f64.to_bits());
    assert_eq!(ids(&found), vec!["m3", "m1", "m2"]);
    assert_eq!(f64::from_bits(found[0].score), 0.95);
    assert_eq!(f64::from_bits(found[2].score), 0.7);
    assert!(found.iter().all(|r| r.match_type == "semantic"));
    assert_eq!(found[1].memory.content, "memory 1");
    let top = store.search_semantic(&given, 2, 0.7f64.to_bits());
    assert_eq!(ids(&top), vec!["m3", "m1"]);
    let none = store.search_semantic(&given, 0, 0.7f64.to_bits());
    assert!(none.is_empty());
    let all = store.search_semantic(&given, usize::MAX, (-1.0f64).to_bits());
    assert_eq!(ids(&all), vec!["m3", "m1", "m2", "m4", "m0"]);
}

#[test]
fn semantic_search_above_any_similarity_finds_nothing() {
    let store = store_with(6);
    let query = [1.0f32, 2.0];
    let given = similarities(&store, &query);
    assert_eq!(given.len(), 6);
    assert!(store.search_semantic(&given, 10, 1.1f64.to_bits()).is_empty());
    let exact = store.search_semantic(&given, 10, 0.999999f64.to_bits());
    assert_eq!(ids(&exact), vec!["m2"]);
}

#[test]
fn semantic_search_keeps_given_order_among_ties() {
    let store = store_with(4);
    let given = vec![sim("m2", 0.8), sim("m0", 0.8), sim("m3", 0.9), sim("m1", 0.8)];
    let found = store.search_semantic(&given, 10, 0.0f64.to_bits());
    assert_eq!(ids(&found), vec!["m3", "m2", "m0", "m1"]);
}

#[test]
fn semantic_search_passes_over_what_it_cannot_use() {
    let mut store = store_with(2);
    store.create_memory_with(input("no embedding"), "plain", "t0").unwrap();
    let given = vec![
        sim("plain", 0.99),
        sim("unknown", 0.99),
        SimilarityHit { id: "m0".to_string(), score: f64::NAN.to_bits() },
        sim("m1", 0.8),
    ];
    let found = store.search_semantic(&given, 10, 0.5f64.to_bits());
    assert_eq!(ids(&found), vec!["m1"]);
    assert!(store.search_semantic(&given, 10, f64::NAN.to_bits()).is_empty());
    assert!(store.search_semantic(&vec![], 10, 0.0f64.to_bits()).is_empty());
}

#[test]
fn keyword_search_negates_relevance_and_ranks() {
    let store = store_with(4);
    let reported = vec![hit("m1", -0.5), hit("m0", -2.5), hit("gone", -9.0), hit("m3", -1.0)];
    let found = store.search_keyword(&reported, 10);
    assert_eq!(ids(&found), vec!["m0", "m3", "m1"]);
    assert_eq!(f64::from_bits(found[0].score), 2.5);
    assert_eq!(f64::from_bits(found[1].score), 1.0);
    assert_eq!(f64::from_bits(found[2].score), 0.5);
    assert!(found.iter().all(|r| r.match_type == "keyword"));
    assert_eq!(ids(&store.search_keyword(&reported, 1)), vec!["m0"]);
    assert!(store.search_keyword(&vec![], 10).is_empty());
}

#[test]
fn hybrid_without_embedding_and_without_matches_finds_nothing() {
    let store = store_with(3);
    assert!(store.search_hybrid(None, &vec![], 10, 0.7f64.to_bits()).is_empty());
    assert!(store.search_hybrid(Some(&vec![]), &vec![], 10, 0.7f64.to_bits()).is_empty());
}

#[test]
fn hybrid_falls_back_to_keywords_when_nothing_is_similar_enough() {
    let mut store = MemoryManager::new("/tmp/ws-a");
    let created = store.create_memory(input("loves dark mode UI")).unwrap();
    store.store_embedding(&created.id, &words(&[1.0, 0.0, 0.0]), "model");
    let far = [0.0f32, 1.0, 0.0];
    let given = similarities(&store, &far);
    assert_eq!(given.len(), 1);
    assert_eq!(f64::from_bits(given[0].score), 0.0);
    // What the full-text index reports for the query "dark mode".
    let reported = vec![hit(&created.id, -0.000001)];
    let found = store.search_hybrid(Some(&given), &reported, 10, 0.99f64.to_bits());
    assert_eq!(found.len(), 1);
    assert_eq!(found[0].memory.content, "loves dark mode UI");
    assert_eq!(found[0].match_type, "keyword");
    assert_eq!(f64::from_bits(found[0].score), 0.000001);
}

#[test]
fn hybrid_prefers_semantic_results_and_never_merges() {
    let store = store_with(3);
    let given = vec![sim("m0", 0.9), sim("m1", 0.1)];
    let reported = vec![hit("m1", -3.0), hit("m2", -1.0)];
    let found = store.search_hybrid(Some(&given), &reported, 10, 0.7f64.to_bits());
    assert_eq!(ids(&found), vec!["m0"]);
    assert_eq!(found[0].match_type, "semantic");
    let without = store.search_hybrid(None, &reported, 10, 0.7f64.to_bits());
    assert_eq!(ids(&without), vec!["m1", "m2"]);
    assert!(without.iter().all(|r| r.match_type == "keyword"));
}

#[test]
fn searching_does_not_record_access() {
    let store = store_with(2);
    let _ = store.search_hybrid(Some(&vec![sim("m0", 0.9)]), &vec![hit("m1", -1.0)], 10, 0);
    assert_eq!(store.get_memory("m0").unwrap().access_count, 0);
    assert_eq!(store.get_memory("m1").unwrap().access_count, 0);
}

#[test]
fn search_command_names_the_kind_of_search() {
    let store = store_with(3);
    let request = SearchMemoryRequest {
        query: "q".to_string(),
        limit: None,
        threshold: None,
        include_embedding: None,
        tags: None,
        memory_type: None,
    };
    assert!(wants_embedding(&request));
    let given = vec![sim("m0", 0.7), sim("m1", 0.69)];
    let reported = vec![hit("m2", -1.0)];
    let semantic = search_memories(&store, &request, Some(&given), &reported);
    assert_eq!(semantic.search_type, "semantic");
    assert_eq!(semantic.count, 1);
    assert_eq!(ids(&semantic.memories), vec!["m0"]);
    let fallback = search_memories(&store, &request, Some(&vec![sim("m0", 0.1)]), &reported);
    assert_eq!(fallback.search_type, "keyword");
    assert_eq!(ids(&fallback.memories), vec!["m2"]);
    let keyword = search_memories(&store, &request, None, &reported);
    assert_eq!(keyword.search_type, "keyword");
    let nothing = search_memories(&store, &request, Some(&vec![]), &vec![]);
    assert_eq!(nothing.search_type, "keyword");
    assert_eq!(nothing.count, 0);

    let narrow = SearchMemoryRequest {
        query: "q".to_string(),
        limit: Some(1),
        threshold: Some(0.0f64.to_bits()),
        include_embedding: Some(false),
        tags: None,
        memory_type: None,
    };
    assert!(!wants_embedding(&narrow));
    let one = search_memories(&store, &narrow, Some(&given), &reported);
    assert_eq!(ids(&one.memories), vec!["m0"]);
}

#[test]
fn search_command_defaults_to_ten_results() {
    let store = store_with(12);
    let request = SearchMemoryRequest {
        query: "q".to_string(),
        limit: None,
        threshold: None,
        include_embedding: None,
        tags: None,
        memory_type: None,
    };
    let reported: Vec<KeywordHit> = (0..12).map(|i| hit(&format!("m{}", i), -(i as f64))).collect();
    let found = search_memories(&store, &request, None, &reported);
    assert_eq!(found.count, 10);
    assert_eq!(found.memories[0].memory.id, "m11");
}

#[test]
fn relevant_memories_are_marked_as_used() {
    let mut store = store_with(8);
    store.update_settings(None, None, None, None, None, Some(0.5f64.to_bits()));
    let given: Vec<SimilarityHit> =
        (0..8).map(|i| sim(&format!("m{}", i), 0.3 + 0.1 * i as f64)).collect();
    let found = get_relevant_memories_at(&mut store, Some(&given), &vec![], None, "used-at");
    assert_eq!(ids(&found), vec!["m7", "m6", "m5", "m4", "m3"]);
    for i in 0..8 {
        let m = store.get_memory(&format!("m{}", i)).unwrap();
        if i >= 3 {
            assert_eq!(m.access_count, 1);
            assert_eq!(m.last_accessed_at, Some("used-at".to_string()));
        } else {
            assert_eq!(m.access_count, 0);
            assert_eq!(m.last_accessed_at, None);
        }
    }
    // The results show the memories as they were found.
    assert_eq!(found[0].memory.access_count, 0);
    let again = get_relevant_memories(&mut store, Some(&given), &vec![], Some(1));
    assert_eq!(ids(&again), vec!["m7"]);
    assert_eq!(store.get_memory("m7").unwrap().access_count, 2);
    assert_eq!(store.get_memory("m6").unwrap().access_count, 1);
}

#[test]
fn settings_command_updates_what_is_given() {
    let mut store = store_with(0);
    let before = store.get_settings();
    let after = update_memory_settings(
        &mut store,
        UpdateSettingsRequest {
            auto_extract_enabled: Some(false),
            extraction_model: None,
            embedding_model: None,
            max_memories: Some(42),
            context_injection_count: None,
            similarity_threshold: Some(0.25f64.to_bits()),
        },
    );
    assert!(!after.auto_extract_enabled);
    assert_eq!(after.max_memories, 42);
    assert_eq!(f64::from_bits(after.similarity_threshold), 0.25);
    assert_eq!(after.embedding_model, before.embedding_model);
    assert_eq!(after.context_injection_count, before.context_injection_count);
    assert_eq!(after.created_at, before.created_at);
    assert_eq!(store.get_settings().max_memories, 42);
}

#[test]
fn list_command_reports_page_length_and_total() {
    let store = store_with(7);
    let r = list_memories(&store, None, None, Some(3), Some(5), None);
    assert_eq!(r.count, 2);
    assert_eq!(r.total, 7);
    assert_eq!(r.memories.len(), 2);
}

#[test]
fn extraction_needs_four_messages() {
    let message = |role: &str, content: &str| ConversationMessage {
        role: role.to_string(),
        content: content.to_string(),
    };
    let mut request = ExtractMemoriesRequest {
        conversation_id: "c".to_string(),
        messages: vec![message("user", "a"), message("assistant", "b"), message("user", "c")],
        model: None,
    };
    assert!(!should_extract(&request));
    request.messages.push(message("assistant", "d"));
    assert!(should_extract(&request));
    assert_eq!(
        conversation_text(&request.messages),
        "user: a\n\nassistant: b\n\nuser: c\n\nassistant: d"
    );
    assert_eq!(conversation_text(&vec![]), "");
    assert_eq!(conversation_text(&vec![message("user", "only")]), "user: only");
}

#[test]
fn extracted_items_become_automatic_memories() {
    let item = ExtractedItem {
        content: "uses React".to_string(),
        summary: Some("stack".to_string()),
        tags: Some(vec!["react".to_string()]),
        importance: Some(7),
    };
    let given = extraction_input(item, "conv-9").unwrap();
    assert_eq!(given.content, "uses React");
    assert_eq!(given.summary, Some("stack".to_string()));
    assert_eq!(given.tags, Some(vec!["react".to_string()]));
    assert_eq!(given.importance, Some(7));
    assert_eq!(given.memory_type, Some("auto".to_string()));
    assert_eq!(given.is_pinned, Some(false));
    assert_eq!(given.source_conversation_id, Some("conv-9".to_string()));
    assert_eq!(given.source_message_ids, None);
    assert_eq!(given.metadata, None);
    let empty = ExtractedItem { content: String::new(), summary: None, tags: None, importance: None };
    assert!(extraction_input(empty, "conv-9").is_none());
}

#[test]
fn create_request_becomes_an_input() {
    let request = CreateMemoryRequest {
        content: "c".to_string(),
        summary: Some("s".to_string()),
        memory_type: Some("auto".to_string()),
        tags: Some(vec!["t".to_string()]),
        importance: Some(2),
        is_pinned: Some(true),
        source_conversation_id: Some("conv".to_string()),
        source_message_ids: Some(vec!["m".to_string()]),
        metadata: Some("{}".to_string()),
        generate_embedding: None,
    };
    assert!(request.wants_embedding());
    let mut quiet = request.clone();
    quiet.generate_embedding = Some(false);
    assert!(!quiet.wants_embedding());
    let given = request.into_input();
    assert_eq!(given.content, "c");
    assert_eq!(given.summary, Some("s".to_string()));
    assert_eq!(given.memory_type, Some("auto".to_string()));
    assert_eq!(given.tags, Some(vec!["t".to_string()]));
    assert_eq!(given.importance, Some(2));
    assert_eq!(given.is_pinned, Some(true));
    assert_eq!(given.source_conversation_id, Some("conv".to_string()));
    assert_eq!(given.source_message_ids, Some(vec!["m".to_string()]));
    assert_eq!(given.metadata, Some("{}".to_string()));
}

#[test]
fn threshold_constants_are_the_numbers_they_name() {
    assert_eq!(ONE_BITS, 1.0f64.to_bits());
    assert_eq!(ABOVE_ONE_BITS, 1.1f64.to_bits());
    let store = store_with(3);
    let given = vec![sim("m0", 1.0), sim("m1", 0.25), sim("m2", -1.0), sim("m1", f64::NAN)];
    assert!(store.search_semantic(&given, 10, ABOVE_ONE_BITS).is_empty());
    assert_eq!(ids(&store.search_semantic(&given, 10, ONE_BITS)), vec!["m0".to_string()]);
}
