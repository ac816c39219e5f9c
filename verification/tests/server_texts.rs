use mcp_qdrant::embedding::{known_embedding_model, select_embedding_model, EmbeddingModelChoice};
use mcp_qdrant::server::{
    failure_message, join_text_contents, reported_count, resolve_resource, status_string,
    CollectionStats, ContentPiece, ResourceKind, ServerSettings, ToolFailure,
};
use mcp_qdrant::types::{
    CountPointsArgs, FilterSearchArgs, KeywordSearchArgs, ScrollPointsArgs, SearchTextArgs,
};

fn settings() -> ServerSettings {
    ServerSettings {
        collection_name: "qc1".to_string(),
        qdrant_url: "http://localhost:6334".to_string(),
        embedding_model_name: "BAAI/bge-small-en-v1.5".to_string(),
    }
}

#[test]
fn instructions_text() {
    let s = settings();
    let expected = format!(
        "Qdrant MCP Server - Semantic vector search with FastEmbed.\n\n\
        Connected to: {}\n\
        Collection: {}\n\
        Embedding Model: {}\n\n\
        PRIMARY TOOLS:\n\
        • search_text - Natural language semantic search (USE THIS FIRST)\n\
        • filter_search - Semantic search with metadata filters (username, filename, etc.)\n\n\
        ADDITIONAL TOOLS:\n\
        • scroll_points - Paginate through all points\n\
        • count_points - Get total number of points\n\
        • search_vectors - Advanced: search with pre-computed vectors\n\
        • get_collection_info - View collection statistics\n\n\
        USAGE:\n\
        Most users should use 'search_text' with natural language queries.\n\
        The server automatically handles text embedding using FastEmbed.\n\n\
        METADATA FIELDS:\n\
        • username - Filter by document owner\n\
        • filename - Filter by source document\n\
        • topics - Document topics\n\
        • entities - Named entities extracted from text\n\n\
        Prompts:\n\
        • vector_search_assistant - Get search guidance\n\n\
        Resources:\n\
        • qdrant://collection - Collection information",
        s.qdrant_url, s.collection_name, s.embedding_model_name
    );
    assert_eq!(s.instructions(), expected);
}

#[test]
fn resources() {
    let s = settings();
    let r = s.list_resources();
    assert_eq!(r.len(), 1);
    assert_eq!(r[0].uri, "qdrant://collection");
    assert_eq!(r[0].name, "Qdrant Collection: qc1");
    assert_eq!(resolve_resource("qdrant://collection").ok(), Some(ResourceKind::CollectionInfo));
    let e = resolve_resource("qdrant://other").err().unwrap();
    assert_eq!(e.message, "Resource not found");
    assert_eq!(e.uri, "qdrant://other");
}

#[test]
fn joined_contents() {
    let pieces = vec![
        ContentPiece::Text("{\n".to_string()),
        ContentPiece::Other,
        ContentPiece::Text("}".to_string()),
    ];
    assert_eq!(join_text_contents(&pieces), "{\n}");
    assert_eq!(join_text_contents(&Vec::new()), "");
}

#[test]
fn prompt_texts() {
    let p = settings().search_assistant_prompt();
    assert_eq!(p.description, "Semantic search assistance for your 'qc1' Qdrant collection");
    assert_eq!(
        p.assistant_message,
        "I'm your Qdrant vector search assistant for the 'qc1' collection. I can help you search through your vector database using natural language queries. Just tell me what you're looking for!"
    );
    assert_eq!(p.user_message, "Help me find relevant information in my document collection.");
}

#[test]
fn failure_messages() {
    assert_eq!(failure_message(ToolFailure::Search, "timeout"), "Search failed: timeout");
    assert_eq!(failure_message(ToolFailure::FilteredSearch, "x"), "Filtered search failed: x");
    assert_eq!(failure_message(ToolFailure::Scroll, "x"), "Scroll failed: x");
    assert_eq!(failure_message(ToolFailure::Count, "x"), "Count failed: x");
    assert_eq!(failure_message(ToolFailure::CollectionInfo, "x"), "Failed to get collection info: x");
    assert_eq!(failure_message(ToolFailure::Embedding, "x"), "Failed to generate embedding: x");
    assert_eq!(reported_count(Some(42)), 42);
    assert_eq!(reported_count(None), 0);
}

#[test]
fn request_plans() {
    let s = settings();
    let p = s.search_text_plan(&SearchTextArgs { query: "q".to_string(), limit: 7, with_payload: false });
    assert_eq!((p.collection_name.as_str(), p.limit, p.with_payload, p.filter.is_none()), ("qc1", 7, false, true));
    let p = s.search_vectors_plan(3, true);
    assert_eq!((p.limit, p.with_payload), (3, true));
    let p = s.filter_search_plan(&FilterSearchArgs {
        query: "q".to_string(),
        filter_field: "username".to_string(),
        filter_value: "alice".to_string(),
        limit: 5,
    });
    let f = p.filter.unwrap();
    assert_eq!((p.limit, p.with_payload, f.field.as_str(), f.value.as_str()), (5, true, "username", "alice"));
    let k = KeywordSearchArgs {
        query: "q".to_string(),
        must_contain_keywords: "a b".to_string(),
        limit: 4,
        with_payload: true,
    };
    assert_eq!(s.keyword_search_plan(&k, 2).limit, 20);
    assert_eq!(s.keyword_search_plan(&k, 0).limit, 4);
    let p = s.scroll_plan(&ScrollPointsArgs { limit: 10, offset: Some("17".to_string()), with_payload: true });
    assert_eq!((p.limit, p.offset.as_deref(), p.with_payload), (10, Some("17"), true));
    let p = s.count_plan(&CountPointsArgs { exact: false });
    assert_eq!((p.collection_name.as_str(), p.exact), ("qc1", false));
}

#[test]
fn model_names() {
    let table = [
        ("BAAI/bge-small-en-v1.5", EmbeddingModelChoice::BGESmallENV15),
        ("BAAI/bge-base-en-v1.5", EmbeddingModelChoice::BGEBaseENV15),
        ("BAAI/bge-large-en-v1.5", EmbeddingModelChoice::BGELargeENV15),
        ("sentence-transformers/all-MiniLM-L6-v2", EmbeddingModelChoice::AllMiniLML6V2),
        ("nomic-ai/nomic-embed-text-v1.5", EmbeddingModelChoice::NomicEmbedTextV15),
        ("google/embeddinggemma-300m", EmbeddingModelChoice::EmbeddingGemma300M),
        ("snowflake/snowflake-arctic-embed-m-long", EmbeddingModelChoice::SnowflakeArcticEmbedMLong),
        ("BAAI/bge-small-en-v1.5-q", EmbeddingModelChoice::BGESmallENV15Q),
        ("BAAI/bge-small-en-v1.5Q", EmbeddingModelChoice::BGESmallENV15Q),
        ("sentence-transformers/all-MiniLM-L6-v2Q", EmbeddingModelChoice::AllMiniLML6V2Q),
    ];
    for (name, model) in table {
        assert_eq!(known_embedding_model(name), Some(model), "{}", name);
        assert_eq!(select_embedding_model(name), model);
    }
    assert_eq!(known_embedding_model("unknown/model"), None);
    assert_eq!(select_embedding_model("unknown/model"), EmbeddingModelChoice::AllMiniLML12V2);
    assert_eq!(select_embedding_model("baai/bge-small-en-v1.5"), EmbeddingModelChoice::AllMiniLML12V2);
}

#[test]
fn collection_report_fields() {
    let s = settings();
    let r = s.collection_report(&Some(CollectionStats {
        status: 1,
        segments_count: 4,
        points_count: Some(10),
        indexed_vectors_count: None,
    }));
    assert_eq!(r.collection_name, "qc1");
    assert_eq!(r.qdrant_url, "http://localhost:6334");
    assert_eq!(r.embedding_model, "BAAI/bge-small-en-v1.5");
    assert_eq!(r.status, format!("{:?}", Some(1i32)));
    assert_eq!(r.segments_count, Some(4));
    assert_eq!(r.points_count, Some(10));
    assert_eq!(r.indexed_vectors, None);
    let r = s.collection_report(&None);
    assert_eq!(r.status, "None");
    assert_eq!((r.segments_count, r.points_count, r.indexed_vectors), (None, None, None));
    for v in [None, Some(0i32), Some(3), Some(-7), Some(i32::MAX), Some(i32::MIN)] {
        assert_eq!(status_string(v), format!("{:?}", v));
    }
}
