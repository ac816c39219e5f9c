use vstd::prelude::*;
use crate::text::string_views;

verus! {

/// A sample document inserted into a collection that start-up had to create.
pub struct SyntheticDocument {
    pub text: String,
    pub filename: String,
    pub username: String,
    pub topics: Vec<String>,
}

/// The view of a sample document: text, file name, user name and topics.
pub type DocumentView = (Seq<char>, Seq<char>, Seq<char>, Seq<Seq<char>>);

/// A payload value of an inserted point.
pub enum PayloadValue {
    Text(String),
    TextList(Vec<String>),
}

/// A payload field of an inserted point.
pub struct PayloadEntry {
    pub key: String,
    pub value: PayloadValue,
}

/// A point to insert, without its vector: the vector is the embedding of the
/// document with the same position.
pub struct PointPlan {
    pub id: u64,
    pub payload: Vec<PayloadEntry>,
}

pub open spec fn doc_row(
    text: Seq<char>,
    filename: Seq<char>,
    username: Seq<char>,
    topics: Seq<Seq<char>>,
) -> DocumentView {
    (text, filename, username, topics)
}

/// The view of a sample document.
pub open spec fn document_view(d: SyntheticDocument) -> DocumentView {
    (d.text@, d.filename@, d.username@, string_views(d.topics@))
}

/// The sample documents, in the order of their point ids.
pub open spec fn synthetic_table() -> Seq<DocumentView> {
    seq![
        doc_row("Rust is a systems programming language that focuses on safety, speed, and concurrency."@, "rust_intro"@, "alice"@, seq!["programming"@, "rust"@, "systems"@]),
        doc_row("Vector databases enable semantic search by storing embeddings of documents."@, "vector_db_intro"@, "bob"@, seq!["databases"@, "vectors"@, "search"@]),
        doc_row("Machine learning models can be used to generate embeddings from text data."@, "ml_embeddings"@, "alice"@, seq!["machine-learning"@, "embeddings"@, "nlp"@]),
        doc_row("Qdrant is a vector similarity search engine with a convenient API."@, "qdrant_intro"@, "charlie"@, seq!["qdrant"@, "search"@, "api"@]),
        doc_row("Semantic search understands the meaning behind queries, not just keywords."@, "semantic_search"@, "bob"@, seq!["search"@, "semantics"@, "nlp"@]),
        doc_row("MCP servers enable AI assistants to access external tools and data sources."@, "mcp_intro"@, "alice"@, seq!["mcp"@, "ai"@, "integration"@]),
        doc_row("FastEmbed provides efficient text embedding models for various languages."@, "fastembed_intro"@, "charlie"@, seq!["embeddings"@, "models"@, "nlp"@]),
        doc_row("Tokio is an asynchronous runtime for Rust, powering high-performance applications."@, "tokio_intro"@, "bob"@, seq!["rust"@, "async"@, "performance"@]),
        doc_row("Cosine similarity measures the angle between vectors in high-dimensional space."@, "cosine_similarity"@, "alice"@, seq!["mathematics"@, "vectors"@, "similarity"@]),
        doc_row("JSON is a lightweight data interchange format that is easy to read and write."@, "json_intro"@, "charlie"@, seq!["data"@, "json"@, "format"@]),
    ]
}

/// The views of a list of sample documents.
pub open spec fn document_views(docs: Seq<SyntheticDocument>) -> Seq<DocumentView> {
    docs.map_values(|d: SyntheticDocument| document_view(d))
}

fn document(text: &str, filename: &str, username: &str, topics: [&str; 3]) -> (d:
    SyntheticDocument)
    ensures
        document_view(d) == doc_row(
            text@,
            filename@,
            username@,
            seq![topics[0]@, topics[1]@, topics[2]@],
        ),
{
    let mut t: Vec<String> = Vec::new();
    t.push(topics[0].to_owned());
    t.push(topics[1].to_owned());
    t.push(topics[2].to_owned());
    let d = SyntheticDocument {
        text: text.to_owned(),
        filename: filename.to_owned(),
        username: username.to_owned(),
        topics: t,
    };
    assert(string_views(d.topics@) =~= seq![topics[0]@, topics[1]@, topics[2]@]);
    d
}

/// The sample documents that fill a collection created at start-up.
pub fn synthetic_documents() -> (docs: Vec<SyntheticDocument>)
    ensures
        document_views(docs@) == synthetic_table(),
{
    let mut docs: Vec<SyntheticDocument> = Vec::new();
    docs.push(document("Rust is a systems programming language that focuses on safety, speed, and concurrency.", "rust_intro", "alice", ["programming", "rust", "systems"]));
    docs.push(document("Vector databases enable semantic search by storing embeddings of documents.", "vector_db_intro", "bob", ["databases", "vectors", "search"]));
    docs.push(document("Machine learning models can be used to generate embeddings from text data.", "ml_embeddings", "alice", ["machine-learning", "embeddings", "nlp"]));
    docs.push(document("Qdrant is a vector similarity search engine with a convenient API.", "qdrant_intro", "charlie", ["qdrant", "search", "api"]));
    docs.push(document("Semantic search understands the meaning behind queries, not just keywords.", "semantic_search", "bob", ["search", "semantics", "nlp"]));
    docs.push(document("MCP servers enable AI assistants to access external tools and data sources.", "mcp_intro", "alice", ["mcp", "ai", "integration"]));
    docs.push(document("FastEmbed provides efficient text embedding models for various languages.", "fastembed_intro", "charlie", ["embeddings", "models", "nlp"]));
    docs.push(document("Tokio is an asynchronous runtime for Rust, powering high-performance applications.", "tokio_intro", "bob", ["rust", "async", "performance"]));
    docs.push(document("Cosine similarity measures the angle between vectors in high-dimensional space.", "cosine_similarity", "alice", ["mathematics", "vectors", "similarity"]));
    docs.push(document("JSON is a lightweight data interchange format that is easy to read and write.", "json_intro", "charlie", ["data", "json", "format"]));
    assert(document_views(docs@) =~= synthetic_table());
    docs
}

/// The payload of a sample document's point: `text`, `filename` and
/// `username` as strings, then `topics` as a list of strings.
pub open spec fn payload_of(p: Seq<PayloadEntry>, d: DocumentView) -> bool {
    &&& p.len() == 4
    &&& p[0].key@ == "text"@
    &&& (p[0].value matches PayloadValue::Text(t) && t@ == d.0)
    &&& p[1].key@ == "filename"@
    &&& (p[1].value matches PayloadValue::Text(t) && t@ == d.1)
    &&& p[2].key@ == "username"@
    &&& (p[2].value matches PayloadValue::Text(t) && t@ == d.2)
    &&& p[3].key@ == "topics"@
    &&& (p[3].value matches PayloadValue::TextList(l) && string_views(l@) == d.3)
}

fn copy_strings(v: &Vec<String>) -> (r: Vec<String>)
    ensures
        string_views(r@) == string_views(v@),
{
    let mut r: Vec<String> = Vec::new();
    for i in 0..v.len()
        invariant
            r@.len() == i,
            forall|k: int| 0 <= k < i ==> (#[trigger] r@[k])@ == v@[k]@,
    {
        r.push(v[i].clone());
    }
    assert(string_views(r@) =~= string_views(v@));
    r
}

/// The payload of the point that stores `d`.
fn payload_for(d: &SyntheticDocument) -> (p: Vec<PayloadEntry>)
    ensures
        payload_of(p@, document_view(*d)),
{
    let mut p: Vec<PayloadEntry> = Vec::new();
    p.push(PayloadEntry { key: "text".to_owned(), value: PayloadValue::Text(d.text.clone()) });
    p.push(
        PayloadEntry { key: "filename".to_owned(), value: PayloadValue::Text(d.filename.clone()) },
    );
    p.push(
        PayloadEntry { key: "username".to_owned(), value: PayloadValue::Text(d.username.clone()) },
    );
    p.push(
        PayloadEntry {
            key: "topics".to_owned(),
            value: PayloadValue::TextList(copy_strings(&d.topics)),
        },
    );
    p
}

/// The points that store the sample documents, given how many embeddings the
/// model returned: document `i` becomes point `i`, paired with embedding
/// `i`, as far as both lists reach.
pub fn synthetic_points(docs: &Vec<SyntheticDocument>, embedding_count: usize) -> (points: Vec<
    PointPlan,
>)
    ensures
        points@.len() == if docs@.len() <= embedding_count {
            docs@.len() as int
        } else {
            embedding_count as int
        },
        forall|i: int|
            0 <= i < points@.len() ==> (#[trigger] points@[i]).id == i && payload_of(
                points@[i].payload@,
                document_view(docs@[i]),
            ),
{
    let n = if docs.len() <= embedding_count {
        docs.len()
    } else {
        embedding_count
    };
    let mut points: Vec<PointPlan> = Vec::new();
    for i in 0..n
        invariant
            n <= docs@.len(),
            points@.len() == i,
            forall|k: int|
                0 <= k < i ==> (#[trigger] points@[k]).id == k && payload_of(
                    points@[k].payload@,
                    document_view(docs@[k]),
                ),
    {
        points.push(PointPlan { id: i as u64, payload: payload_for(&docs[i]) });
    }
    points
}

// ----------------------------------------------------------------------------
// Laws
// ----------------------------------------------------------------------------

/// Who owns which sample document: every sample document belongs to
/// `alice`, `bob` or `charlie`, and a document's owner is determined by its
/// file name (alice owns rust_intro, ml_embeddings, mcp_intro and
/// cosine_similarity; bob owns vector_db_intro, semantic_search and
/// tokio_intro; charlie owns qdrant_intro, fastembed_intro and json_intro).
/// No two sample documents share a file name, so filtering the collection by
/// `username` or by `filename` finds exactly these documents.
pub proof fn law_sample_documents_owners(docs: Seq<SyntheticDocument>)
    requires
        document_views(docs) == synthetic_table(),
    ensures
        docs.len() == 10,
        forall|i: int|
            0 <= i < docs.len() ==> {
                let u = (#[trigger] docs[i]).username@;
                let f = docs[i].filename@;
                &&& (u == "alice"@ <==> (f == "rust_intro"@
                || f == "ml_embeddings"@
                || f == "mcp_intro"@
                || f == "cosine_similarity"@))
                &&& (u == "bob"@ <==> (f == "vector_db_intro"@
                || f == "semantic_search"@
                || f == "tokio_intro"@))
                &&& (u == "charlie"@ <==> (f == "qdrant_intro"@
                || f == "fastembed_intro"@
                || f == "json_intro"@))
            },
        forall|i: int, j: int|
            0 <= i < j < docs.len() ==> (#[trigger] docs[i]).filename@ != (#[trigger] docs[j]).filename@,
{
    reveal_strlit("alice");
    reveal_strlit("bob");
    reveal_strlit("charlie");
    reveal_strlit("cosine_similarity");
    reveal_strlit("fastembed_intro");
    reveal_strlit("json_intro");
    reveal_strlit("mcp_intro");
    reveal_strlit("ml_embeddings");
    reveal_strlit("qdrant_intro");
    reveal_strlit("rust_intro");
    reveal_strlit("semantic_search");
    reveal_strlit("tokio_intro");
    reveal_strlit("vector_db_intro");
    // Names are told apart by their lengths and, where two have the same
    // length, by a character where they differ.
    let t = synthetic_table();
    assert(t[0].1.len() == 10);
    assert(t[0].1[0] == 'r');
    assert(t[0].2.len() == 5);
    assert(t[1].1.len() == 15);
    assert(t[1].1[0] == 'v');
    assert(t[1].2.len() == 3);
    assert(t[2].1.len() == 13);
    assert(t[2].2.len() == 5);
    assert(t[3].1.len() == 12);
    assert(t[3].2.len() == 7);
    assert(t[4].1.len() == 15);
    assert(t[4].1[0] == 's');
    assert(t[4].2.len() == 3);
    assert(t[5].1.len() == 9);
    assert(t[5].2.len() == 5);
    assert(t[6].1.len() == 15);
    assert(t[6].1[0] == 'f');
    assert(t[6].2.len() == 7);
    assert(t[7].1.len() == 11);
    assert(t[7].2.len() == 3);
    assert(t[8].1.len() == 17);
    assert(t[8].2.len() == 5);
    assert(t[9].1.len() == 10);
    assert(t[9].1[0] == 'j');
    assert(t[9].2.len() == 7);
    assert(document_views(docs).len() == docs.len());
    assert forall|i: int| 0 <= i < docs.len() implies (#[trigger] docs[i]).filename@ == t[i].1
        && docs[i].username@ == t[i].2 by {
        assert(document_views(docs)[i] == document_view(docs[i]));
    }
}

/// The topics of the sample documents: each document has three different
/// topics, and the topics that several documents share are `search`
/// (vector_db_intro, qdrant_intro, semantic_search), `nlp` (ml_embeddings,
/// semantic_search, fastembed_intro), `embeddings` (ml_embeddings,
/// fastembed_intro), `rust` (rust_intro, tokio_intro) and `vectors`
/// (vector_db_intro, cosine_similarity): a document has one of these topics
/// exactly when it is one of the documents listed with it.
pub proof fn law_sample_documents_topics(docs: Seq<SyntheticDocument>)
    requires
        document_views(docs) == synthetic_table(),
    ensures
        forall|i: int, a: int, b: int|
            0 <= i < docs.len() && 0 <= a < b < string_views((#[trigger] docs[i]).topics@).len()
                ==> #[trigger] string_views(docs[i].topics@)[a] != #[trigger] string_views(
                docs[i].topics@,
            )[b],
        forall|i: int|
            0 <= i < docs.len() ==> {
                let ts = string_views((#[trigger] docs[i]).topics@);
                let f = docs[i].filename@;
                &&& ts.len() == 3
                &&& (ts.contains("search"@) <==> (f == "vector_db_intro"@
                    || f == "qdrant_intro"@
                    || f == "semantic_search"@))
                &&& (ts.contains("nlp"@) <==> (f == "ml_embeddings"@
                    || f == "semantic_search"@
                    || f == "fastembed_intro"@))
                &&& (ts.contains("embeddings"@) <==> (f == "ml_embeddings"@
                    || f == "fastembed_intro"@))
                &&& (ts.contains("rust"@) <==> (f == "rust_intro"@
                    || f == "tokio_intro"@))
                &&& (ts.contains("vectors"@) <==> (f == "vector_db_intro"@
                    || f == "cosine_similarity"@))
            },
{
    reveal_strlit("ai");
    reveal_strlit("api");
    reveal_strlit("async");
    reveal_strlit("cosine_similarity");
    reveal_strlit("data");
    reveal_strlit("databases");
    reveal_strlit("embeddings");
    reveal_strlit("fastembed_intro");
    reveal_strlit("format");
    reveal_strlit("integration");
    reveal_strlit("json");
    reveal_strlit("json_intro");
    reveal_strlit("machine-learning");
    reveal_strlit("mathematics");
    reveal_strlit("mcp");
    reveal_strlit("mcp_intro");
    reveal_strlit("ml_embeddings");
    reveal_strlit("models");
    reveal_strlit("nlp");
    reveal_strlit("performance");
    reveal_strlit("programming");
    reveal_strlit("qdrant");
    reveal_strlit("qdrant_intro");
    reveal_strlit("rust");
    reveal_strlit("rust_intro");
    reveal_strlit("search");
    reveal_strlit("semantic_search");
    reveal_strlit("semantics");
    reveal_strlit("similarity");
    reveal_strlit("systems");
    reveal_strlit("tokio_intro");
    reveal_strlit("vector_db_intro");
    reveal_strlit("vectors");
    // Names are told apart by their lengths and, where two have the same
    // length, by a character where they differ.
    let t = synthetic_table();
    assert(t[0].1.len() == 10);
    assert(t[0].1[0] == 'r');
    assert(t[0].3.len() == 3);
    assert(t[0].3[0].len() == 11);
    assert(t[0].3[0][0] == 'p');
    assert(t[0].3[0][1] == 'r');
    assert(t[0].3[1].len() == 4);
    assert(t[0].3[1][0] == 'r');
    assert(t[0].3[2].len() == 7);
    assert(t[0].3[2][0] == 's');
    assert(t[1].1.len() == 15);
    assert(t[1].1[0] == 'v');
    assert(t[1].3.len() == 3);
    assert(t[1].3[0].len() == 9);
    assert(t[1].3[0][0] == 'd');
    assert(t[1].3[1].len() == 7);
    assert(t[1].3[1][0] == 'v');
    assert(t[1].3[2].len() == 6);
    assert(t[1].3[2][0] == 's');
    assert(t[2].1.len() == 13);
    assert(t[2].3.len() == 3);
    assert(t[2].3[0].len() == 16);
    assert(t[2].3[1].len() == 10);
    assert(t[2].3[1][0] == 'e');
    assert(t[2].3[2].len() == 3);
    assert(t[2].3[2][0] == 'n');
    assert(t[3].1.len() == 12);
    assert(t[3].3.len() == 3);
    assert(t[3].3[0].len() == 6);
    assert(t[3].3[0][0] == 'q');
    assert(t[3].3[1].len() == 6);
    assert(t[3].3[1][0] == 's');
    assert(t[3].3[2].len() == 3);
    assert(t[3].3[2][0] == 'a');
    assert(t[4].1.len() == 15);
    assert(t[4].1[0] == 's');
    assert(t[4].3.len() == 3);
    assert(t[4].3[0].len() == 6);
    assert(t[4].3[0][0] == 's');
    assert(t[4].3[1].len() == 9);
    assert(t[4].3[1][0] == 's');
    assert(t[4].3[2].len() == 3);
    assert(t[4].3[2][0] == 'n');
    assert(t[5].1.len() == 9);
    assert(t[5].3.len() == 3);
    assert(t[5].3[0].len() == 3);
    assert(t[5].3[0][0] == 'm');
    assert(t[5].3[1].len() == 2);
    assert(t[5].3[2].len() == 11);
    assert(t[5].3[2][0] == 'i');
    assert(t[6].1.len() == 15);
    assert(t[6].1[0] == 'f');
    assert(t[6].3.len() == 3);
    assert(t[6].3[0].len() == 10);
    assert(t[6].3[0][0] == 'e');
    assert(t[6].3[1].len() == 6);
    assert(t[6].3[1][0] == 'm');
    assert(t[6].3[2].len() == 3);
    assert(t[6].3[2][0] == 'n');
    assert(t[7].1.len() == 11);
    assert(t[7].3.len() == 3);
    assert(t[7].3[0].len() == 4);
    assert(t[7].3[0][0] == 'r');
    assert(t[7].3[1].len() == 5);
    assert(t[7].3[2].len() == 11);
    assert(t[7].3[2][0] == 'p');
    assert(t[7].3[2][1] == 'e');
    assert(t[8].1.len() == 17);
    assert(t[8].3.len() == 3);
    assert(t[8].3[0].len() == 11);
    assert(t[8].3[0][0] == 'm');
    assert(t[8].3[1].len() == 7);
    assert(t[8].3[1][0] == 'v');
    assert(t[8].3[2].len() == 10);
    assert(t[8].3[2][0] == 's');
    assert(t[9].1.len() == 10);
    assert(t[9].1[0] == 'j');
    assert(t[9].3.len() == 3);
    assert(t[9].3[0].len() == 4);
    assert(t[9].3[0][0] == 'd');
    assert(t[9].3[1].len() == 4);
    assert(t[9].3[1][0] == 'j');
    assert(t[9].3[2].len() == 6);
    assert(t[9].3[2][0] == 'f');
    assert(document_views(docs).len() == docs.len());
    assert forall|i: int| 0 <= i < docs.len() implies (#[trigger] docs[i]).filename@ == t[i].1
        && string_views(docs[i].topics@) == t[i].3 by {
        assert(document_views(docs)[i] == document_view(docs[i]));
    }
}

/// Start-up inserts ten sample documents: the points of the sample
/// documents, when the model embedded them all, have the ids 0 to 9.
pub proof fn law_ten_sample_points(points: Seq<PointPlan>, docs: Seq<SyntheticDocument>)
    requires
        document_views(docs) == synthetic_table(),
        points.len() == docs.len(),
        forall|i: int| 0 <= i < points.len() ==> (#[trigger] points[i]).id == i,
    ensures
        points.len() == 10,
        forall|i: int, j: int| 0 <= i < j < points.len() ==> points[i].id != points[j].id,
{
    assert(document_views(docs).len() == docs.len());
}

} // verus!
