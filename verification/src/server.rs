use vstd::prelude::*;
use crate::types::{
    CountPointsArgs, FilterSearchArgs, KeywordSearchArgs, ScrollPointsArgs, SearchTextArgs,
};
use crate::keyword::initial_search_limit;
use crate::config::{decimal_text, push_decimal};
use crate::text::push_char;

verus! {

/// URI of the one resource the server offers: information on its collection.
pub const COLLECTION_RESOURCE_URI: &'static str = "qdrant://collection";

/// Message of the error that answers a request for an unknown resource.
pub const RESOURCE_NOT_FOUND: &'static str = "Resource not found";

/// Message of the error when the embedding model returns no vector.
pub const NO_EMBEDDING: &'static str = "No embedding generated";

/// Opening of the server instructions, up to the Qdrant URL.
pub const INSTRUCTIONS_HEAD: &'static str =
    "Qdrant MCP Server - Semantic vector search with FastEmbed.\n\nConnected to: ";

/// Text between the Qdrant URL and the collection name in the instructions.
pub const INSTRUCTIONS_COLLECTION: &'static str = "\nCollection: ";

/// Text between the collection name and the model name in the instructions.
pub const INSTRUCTIONS_MODEL: &'static str = "\nEmbedding Model: ";

/// The instructions after the model name: the tools, usage notes, metadata
/// fields, prompt and resource.
pub const INSTRUCTIONS_TAIL: &'static str = "\n\nPRIMARY TOOLS:\n\
    • search_text - Natural language semantic search (USE THIS FIRST)\n\
    • filter_search - Semantic search with metadata filters (username, filename, etc.)\n\n\
    ADDITIONAL TOOLS:\n\
    • scroll_points - Paginate through all points\n\
    • count_points - Get total number of points\n\
    • search_vectors - Advanced: search with pre-computed vectors\n\
    • get_collection_info - View collection statistics\n\n\
    USAGE:\n\
    Most users should use 'search_text' with natural language queries.\n\
    The server automatically handles text embedding using FastEmbed.\n\n\
    METADATA FIELDS:\n\
    • username - Filter by document owner\n\
    • filename - Filter by source document\n\
    • topics - Document topics\n\
    • entities - Named entities extracted from text\n\n\
    Prompts:\n\
    • vector_search_assistant - Get search guidance\n\n\
    Resources:\n\
    • qdrant://collection - Collection information";

/// Start of the listed name of the collection resource.
pub const RESOURCE_NAME_PREFIX: &'static str = "Qdrant Collection: ";

/// Assistant message of the prompt, up to the collection name.
pub const PROMPT_ASSISTANT_HEAD: &'static str =
    "I'm your Qdrant vector search assistant for the '";

/// Assistant message of the prompt, after the collection name.
pub const PROMPT_ASSISTANT_TAIL: &'static str =
    "' collection. I can help you search through your vector database using natural language queries. Just tell me what you're looking for!";

/// User message of the prompt.
pub const PROMPT_USER: &'static str = "Help me find relevant information in my document collection.";

/// Prompt description, up to the collection name.
pub const PROMPT_DESCRIPTION_HEAD: &'static str = "Semantic search assistance for your '";

/// Prompt description, after the collection name.
pub const PROMPT_DESCRIPTION_TAIL: &'static str = "' Qdrant collection";

/// What a running server serves: its collection, the Qdrant endpoint it talks
/// to, and the name of its embedding model.
pub struct ServerSettings {
    pub collection_name: String,
    pub qdrant_url: String,
    pub embedding_model_name: String,
}

/// A resource offered by `resources/list`.
pub struct ResourceEntry {
    pub uri: String,
    pub name: String,
}

/// The resources that `resources/read` can serve.
#[derive(PartialEq, Eq, Structural, Debug, Clone, Copy)]
pub enum ResourceKind {
    /// The collection's information, as `get_collection_info` reports it.
    CollectionInfo,
}

/// The error that answers a request for an unknown resource.
pub struct ResourceError {
    pub message: String,
    pub uri: String,
}

/// The texts of the `vector_search_assistant` prompt.
pub struct PromptText {
    pub description: String,
    /// First message, spoken by the assistant.
    pub assistant_message: String,
    /// Second message, spoken by the user.
    pub user_message: String,
}

/// One piece of a tool result's content.
pub enum ContentPiece {
    Text(String),
    /// Content that is not text (images, resources, ...).
    Other,
}

/// A payload field that must hold a given keyword value.
pub struct MatchCondition {
    pub field: String,
    pub value: String,
}

/// A nearest-neighbour search to send to Qdrant.
pub struct SearchPlan {
    pub collection_name: String,
    pub limit: u64,
    pub with_payload: bool,
    pub filter: Option<MatchCondition>,
}

/// A scroll request to send to Qdrant.
pub struct ScrollPlan {
    pub collection_name: String,
    pub limit: u32,
    pub offset: Option<String>,
    pub with_payload: bool,
}

/// A count request to send to Qdrant.
pub struct CountPlan {
    pub collection_name: String,
    pub exact: bool,
}

/// A collection's statistics as Qdrant reports them.
pub struct CollectionStats {
    /// Status code (green, yellow, grey, red).
    pub status: i32,
    pub segments_count: u64,
    pub points_count: Option<u64>,
    pub indexed_vectors_count: Option<u64>,
}

/// What `get_collection_info` reports: the server's settings and, when
/// Qdrant returned them, the collection's statistics.
pub struct CollectionReport {
    pub collection_name: String,
    pub qdrant_url: String,
    pub embedding_model: String,
    /// The status code as Rust prints an optional number (`Some(1)`, `None`).
    pub status: String,
    pub segments_count: Option<u64>,
    pub points_count: Option<u64>,
    pub indexed_vectors: Option<u64>,
}

/// The operations whose failures a tool reports.
#[derive(PartialEq, Eq, Structural, Debug, Clone, Copy)]
pub enum ToolFailure {
    Search,
    FilteredSearch,
    Scroll,
    Count,
    CollectionInfo,
    Embedding,
}

// ----------------------------------------------------------------------------
// Specifications
// ----------------------------------------------------------------------------

/// The server instructions returned by `initialize`.
pub open spec fn instructions_text(s: ServerSettings) -> Seq<char> {
    INSTRUCTIONS_HEAD@ + s.qdrant_url@ + INSTRUCTIONS_COLLECTION@ + s.collection_name@
        + INSTRUCTIONS_MODEL@ + s.embedding_model_name@ + INSTRUCTIONS_TAIL@
}

/// The name under which the collection resource is listed.
pub open spec fn resource_name(s: ServerSettings) -> Seq<char> {
    RESOURCE_NAME_PREFIX@ + s.collection_name@
}

/// Which resource a URI names, if any.
pub open spec fn resource_for(uri: Seq<char>) -> Option<ResourceKind> {
    if uri == COLLECTION_RESOURCE_URI@ {
        Some(ResourceKind::CollectionInfo)
    } else {
        None
    }
}

/// The text of a list of content pieces: the text pieces joined in order.
pub open spec fn joined_text(pieces: Seq<ContentPiece>) -> Seq<char>
    decreases pieces.len(),
{
    if pieces.len() == 0 {
        seq![]
    } else {
        joined_text(pieces.drop_last()) + match pieces.last() {
            ContentPiece::Text(t) => t@,
            ContentPiece::Other => seq![],
        }
    }
}

/// The decimal rendering of an integer, with a leading `-` when negative.
pub open spec fn integer_text(n: int) -> Seq<char> {
    if n < 0 {
        seq!['-'] + decimal_text((-n) as nat)
    } else {
        decimal_text(n as nat)
    }
}

/// An optional status code as Rust's `Debug` prints it.
pub open spec fn status_text(status: Option<i32>) -> Seq<char> {
    match status {
        Some(n) => seq!['S', 'o', 'm', 'e', '('] + integer_text(n as int) + seq![')'],
        None => seq!['N', 'o', 'n', 'e'],
    }
}

/// The text that precedes the error detail in a tool's failure message.
pub open spec fn failure_prefix(kind: ToolFailure) -> Seq<char> {
    match kind {
        ToolFailure::Search => "Search failed: "@,
        ToolFailure::FilteredSearch => "Filtered search failed: "@,
        ToolFailure::Scroll => "Scroll failed: "@,
        ToolFailure::Count => "Count failed: "@,
        ToolFailure::CollectionInfo => "Failed to get collection info: "@,
        ToolFailure::Embedding => "Failed to generate embedding: "@,
    }
}

// ----------------------------------------------------------------------------
// Operations
// ----------------------------------------------------------------------------

/// Which resource `uri` names; any URI other than the collection resource is
/// answered with "Resource not found", carrying the URI.
pub fn resolve_resource(uri: &str) -> (r: Result<ResourceKind, ResourceError>)
    ensures
        match r {
            Ok(k) => resource_for(uri@) == Some(k),
            Err(e) => resource_for(uri@) is None && e.message@ == RESOURCE_NOT_FOUND@ && e.uri@
                == uri@,
        },
{
    if crate::text::same_text(uri, COLLECTION_RESOURCE_URI) {
        Ok(ResourceKind::CollectionInfo)
    } else {
        Err(ResourceError { message: RESOURCE_NOT_FOUND.to_owned(), uri: uri.to_owned() })
    }
}

/// The text of a tool result: its text pieces joined in order, the rest left
/// out.
pub fn join_text_contents(pieces: &Vec<ContentPiece>) -> (s: String)
    ensures
        s@ == joined_text(pieces@),
{
    let mut s = String::new();
    assert(pieces@.take(0) =~= Seq::<ContentPiece>::empty());
    for i in 0..pieces.len()
        invariant
            s@ == joined_text(pieces@.take(i as int)),
    {
        assert(pieces@.take(i + 1).drop_last() =~= pieces@.take(i as int));
        assert(pieces@.take(i + 1).last() == pieces@[i as int]);
        match &pieces[i] {
            ContentPiece::Text(t) => s.append(t.as_str()),
            ContentPiece::Other => {
                assert(s@ + Seq::<char>::empty() =~= s@);
            },
        }
    }
    assert(pieces@.take(pieces.len() as int) =~= pieces@);
    s
}

/// The message of a tool failure: what failed, then the detail of the error.
pub fn failure_message(kind: ToolFailure, detail: &str) -> (m: String)
    ensures
        m@ == failure_prefix(kind) + detail@,
{
    let mut m = match kind {
        ToolFailure::Search => "Search failed: ".to_owned(),
        ToolFailure::FilteredSearch => "Filtered search failed: ".to_owned(),
        ToolFailure::Scroll => "Scroll failed: ".to_owned(),
        ToolFailure::Count => "Count failed: ".to_owned(),
        ToolFailure::CollectionInfo => "Failed to get collection info: ".to_owned(),
        ToolFailure::Embedding => "Failed to generate embedding: ".to_owned(),
    };
    m.append(detail);
    m
}

/// An optional status code as Rust's `Debug` prints it: `Some(n)` or `None`.
pub fn status_string(status: Option<i32>) -> (s: String)
    ensures
        s@ == status_text(status),
{
    let mut s = String::new();
    match status {
        Some(n) => {
            push_char(&mut s, 'S');
            push_char(&mut s, 'o');
            push_char(&mut s, 'm');
            push_char(&mut s, 'e');
            push_char(&mut s, '(');
            let ghost before = s@;
            if n < 0 {
                push_char(&mut s, '-');
                let magnitude: u64 = (0 - (n as i64)) as u64;
                push_decimal(&mut s, magnitude);
            } else {
                push_decimal(&mut s, n as u64);
            }
            assert(s@ == before + integer_text(n as int));
            push_char(&mut s, ')');
        },
        None => {
            push_char(&mut s, 'N');
            push_char(&mut s, 'o');
            push_char(&mut s, 'n');
            push_char(&mut s, 'e');
        },
    }
    s
}

/// The count that `count_points` reports: the one Qdrant returned, 0 when its
/// answer carries none.
pub fn reported_count(result: Option<u64>) -> (n: u64)
    ensures
        n == match result {
            Some(c) => c,
            None => 0,
        },
{
    match result {
        Some(c) => c,
        None => 0,
    }
}

impl ServerSettings {
    /// The server instructions returned by `initialize`.
    pub fn instructions(&self) -> (t: String)
        ensures
            t@ == instructions_text(*self),
    {
        let mut t = INSTRUCTIONS_HEAD.to_owned();
        t.append(self.qdrant_url.as_str());
        t.append(INSTRUCTIONS_COLLECTION);
        t.append(self.collection_name.as_str());
        t.append(INSTRUCTIONS_MODEL);
        t.append(self.embedding_model_name.as_str());
        t.append(INSTRUCTIONS_TAIL);
        t
    }

    /// The resources offered by `resources/list`: the collection resource.
    pub fn list_resources(&self) -> (r: Vec<ResourceEntry>)
        ensures
            r@.len() == 1,
            r@[0].uri@ == COLLECTION_RESOURCE_URI@,
            r@[0].name@ == resource_name(*self),
    {
        let mut name = RESOURCE_NAME_PREFIX.to_owned();
        name.append(self.collection_name.as_str());
        let mut r: Vec<ResourceEntry> = Vec::new();
        r.push(ResourceEntry { uri: COLLECTION_RESOURCE_URI.to_owned(), name });
        r
    }

    /// The texts of the `vector_search_assistant` prompt.
    pub fn search_assistant_prompt(&self) -> (p: PromptText)
        ensures
            p.description@ == PROMPT_DESCRIPTION_HEAD@ + self.collection_name@
                + PROMPT_DESCRIPTION_TAIL@,
            p.assistant_message@ == PROMPT_ASSISTANT_HEAD@ + self.collection_name@
                + PROMPT_ASSISTANT_TAIL@,
            p.user_message@ == PROMPT_USER@,
    {
        let mut description = PROMPT_DESCRIPTION_HEAD.to_owned();
        description.append(self.collection_name.as_str());
        description.append(PROMPT_DESCRIPTION_TAIL);
        let mut assistant_message = PROMPT_ASSISTANT_HEAD.to_owned();
        assistant_message.append(self.collection_name.as_str());
        assistant_message.append(PROMPT_ASSISTANT_TAIL);
        PromptText { description, assistant_message, user_message: PROMPT_USER.to_owned() }
    }

    /// The search behind `search_text`.
    pub fn search_text_plan(&self, args: &SearchTextArgs) -> (p: SearchPlan)
        ensures
            p.collection_name == self.collection_name,
            p.limit == args.limit,
            p.with_payload == args.with_payload,
            p.filter is None,
    {
        SearchPlan {
            collection_name: self.collection_name.clone(),
            limit: args.limit,
            with_payload: args.with_payload,
            filter: None,
        }
    }

    /// The search behind `search_vectors`, for its `limit` and `with_payload`.
    pub fn search_vectors_plan(&self, limit: u64, with_payload: bool) -> (p: SearchPlan)
        ensures
            p.collection_name == self.collection_name,
            p.limit == limit,
            p.with_payload == with_payload,
            p.filter is None,
    {
        SearchPlan {
            collection_name: self.collection_name.clone(),
            limit,
            with_payload,
            filter: None,
        }
    }

    /// The search behind `filter_search`: payloads always included, and only
    /// points whose `filter_field` holds `filter_value`.
    pub fn filter_search_plan(&self, args: &FilterSearchArgs) -> (p: SearchPlan)
        ensures
            p.collection_name == self.collection_name,
            p.limit == args.limit,
            p.with_payload,
            p.filter matches Some(f) && f.field == args.filter_field && f.value
                == args.filter_value,
    {
        SearchPlan {
            collection_name: self.collection_name.clone(),
            limit: args.limit,
            with_payload: true,
            filter: Some(
                MatchCondition {
                    field: args.filter_field.clone(),
                    value: args.filter_value.clone(),
                },
            ),
        }
    }

    /// The search behind `keyword_search` when `keyword_count` keywords were
    /// given: five times the requested hits when there are keywords to filter
    /// by.
    pub fn keyword_search_plan(&self, args: &KeywordSearchArgs, keyword_count: usize) -> (p:
        SearchPlan)
        requires
            keyword_count > 0 ==> args.limit * 5 <= u64::MAX,
        ensures
            p.collection_name == self.collection_name,
            p.limit == if keyword_count == 0 {
                args.limit as int
            } else {
                args.limit * 5
            },
            p.with_payload == args.with_payload,
            p.filter is None,
    {
        SearchPlan {
            collection_name: self.collection_name.clone(),
            limit: initial_search_limit(args.limit, keyword_count),
            with_payload: args.with_payload,
            filter: None,
        }
    }

    /// The request behind `scroll_points`.
    pub fn scroll_plan(&self, args: &ScrollPointsArgs) -> (p: ScrollPlan)
        ensures
            p.collection_name == self.collection_name,
            p.limit == args.limit,
            p.offset == args.offset,
            p.with_payload == args.with_payload,
    {
        let offset = match &args.offset {
            Some(o) => Some(o.clone()),
            None => None,
        };
        ScrollPlan {
            collection_name: self.collection_name.clone(),
            limit: args.limit,
            offset,
            with_payload: args.with_payload,
        }
    }

    /// What `get_collection_info` reports, given the statistics Qdrant
    /// returned (`None` when its answer carries none).
    pub fn collection_report(&self, stats: &Option<CollectionStats>) -> (r: CollectionReport)
        ensures
            r.collection_name == self.collection_name,
            r.qdrant_url == self.qdrant_url,
            r.embedding_model == self.embedding_model_name,
            r.status@ == status_text(
                match stats {
                    Some(st) => Some(st.status),
                    None => None,
                },
            ),
            r.segments_count == match stats {
                Some(st) => Some(st.segments_count),
                None => None,
            },
            r.points_count == match stats {
                Some(st) => st.points_count,
                None => None,
            },
            r.indexed_vectors == match stats {
                Some(st) => st.indexed_vectors_count,
                None => None,
            },
    {
        let (status, segments_count, points_count, indexed_vectors) = match stats {
            Some(st) => (
                Some(st.status),
                Some(st.segments_count),
                st.points_count,
                st.indexed_vectors_count,
            ),
            None => (None, None, None, None),
        };
        CollectionReport {
            collection_name: self.collection_name.clone(),
            qdrant_url: self.qdrant_url.clone(),
            embedding_model: self.embedding_model_name.clone(),
            status: status_string(status),
            segments_count,
            points_count,
            indexed_vectors,
        }
    }

    /// The request behind `count_points`.
    pub fn count_plan(&self, args: &CountPointsArgs) -> (p: CountPlan)
        ensures
            p.collection_name == self.collection_name,
            p.exact == args.exact,
    {
        CountPlan { collection_name: self.collection_name.clone(), exact: args.exact }
    }
}

// ----------------------------------------------------------------------------
// Laws
// ----------------------------------------------------------------------------

/// Every resource that `resources/list` offers can be read, and it is the
/// only one: `resources/read` answers "Resource not found" for every other
/// URI.
pub proof fn law_listed_resources_are_readable(uri: Seq<char>)
    ensures
        resource_for(COLLECTION_RESOURCE_URI@) == Some(ResourceKind::CollectionInfo),
        resource_for(uri) is Some <==> uri == COLLECTION_RESOURCE_URI@,
{
}

} // verus!
