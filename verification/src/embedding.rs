use vstd::prelude::*;
use crate::text::same_text;
use crate::config::DEFAULT_EMBEDDING_MODEL;

verus! {

/// The FastEmbed text-embedding models that the server can load, named as in
/// `fastembed::EmbeddingModel`.
#[derive(PartialEq, Eq, Structural, Debug, Clone, Copy)]
pub enum EmbeddingModelChoice {
    BGESmallENV15,
    BGEBaseENV15,
    BGELargeENV15,
    BGESmallZHV15,
    BGELargeZHV15,
    BGEM3,
    AllMiniLML6V2,
    AllMiniLML12V2,
    AllMpnetBaseV2,
    ParaphraseMLMiniLML12V2,
    ParaphraseMLMpnetBaseV2,
    NomicEmbedTextV1,
    NomicEmbedTextV15,
    MultilingualE5Small,
    MultilingualE5Base,
    MultilingualE5Large,
    MxbaiEmbedLargeV1,
    GTEBaseENV15,
    GTELargeENV15,
    JinaEmbeddingsV2BaseCode,
    JinaEmbeddingsV2BaseEN,
    EmbeddingGemma300M,
    SnowflakeArcticEmbedXS,
    SnowflakeArcticEmbedS,
    SnowflakeArcticEmbedM,
    SnowflakeArcticEmbedMLong,
    SnowflakeArcticEmbedL,
    BGESmallENV15Q,
    BGEBaseENV15Q,
    AllMiniLML6V2Q,
}

/// The model that a configured model name denotes, `None` for a name that the
/// server does not know.
pub open spec fn model_named(name: Seq<char>) -> Option<EmbeddingModelChoice> {
    if name == "BAAI/bge-small-en-v1.5"@ {
        Some(EmbeddingModelChoice::BGESmallENV15)
    } else if name == "BAAI/bge-base-en-v1.5"@ {
        Some(EmbeddingModelChoice::BGEBaseENV15)
    } else if name == "BAAI/bge-large-en-v1.5"@ {
        Some(EmbeddingModelChoice::BGELargeENV15)
    } else if name == "BAAI/bge-small-zh-v1.5"@ {
        Some(EmbeddingModelChoice::BGESmallZHV15)
    } else if name == "BAAI/bge-large-zh-v1.5"@ {
        Some(EmbeddingModelChoice::BGELargeZHV15)
    } else if name == "BAAI/bge-m3"@ {
        Some(EmbeddingModelChoice::BGEM3)
    } else if name == "sentence-transformers/all-MiniLM-L6-v2"@ {
        Some(EmbeddingModelChoice::AllMiniLML6V2)
    } else if name == "sentence-transformers/all-MiniLM-L12-v2"@ {
        Some(EmbeddingModelChoice::AllMiniLML12V2)
    } else if name == "sentence-transformers/all-mpnet-base-v2"@ {
        Some(EmbeddingModelChoice::AllMpnetBaseV2)
    } else if name == "sentence-transformers/paraphrase-MiniLM-L12-v2"@ {
        Some(EmbeddingModelChoice::ParaphraseMLMiniLML12V2)
    } else if name == "sentence-transformers/paraphrase-multilingual-mpnet-base-v2"@ {
        Some(EmbeddingModelChoice::ParaphraseMLMpnetBaseV2)
    } else if name == "nomic-ai/nomic-embed-text-v1"@ {
        Some(EmbeddingModelChoice::NomicEmbedTextV1)
    } else if name == "nomic-ai/nomic-embed-text-v1.5"@ {
        Some(EmbeddingModelChoice::NomicEmbedTextV15)
    } else if name == "intfloat/multilingual-e5-small"@ {
        Some(EmbeddingModelChoice::MultilingualE5Small)
    } else if name == "intfloat/multilingual-e5-base"@ {
        Some(EmbeddingModelChoice::MultilingualE5Base)
    } else if name == "intfloat/multilingual-e5-large"@ {
        Some(EmbeddingModelChoice::MultilingualE5Large)
    } else if name == "mixedbread-ai/mxbai-embed-large-v1"@ {
        Some(EmbeddingModelChoice::MxbaiEmbedLargeV1)
    } else if name == "Alibaba-NLP/gte-base-en-v1.5"@ {
        Some(EmbeddingModelChoice::GTEBaseENV15)
    } else if name == "Alibaba-NLP/gte-large-en-v1.5"@ {
        Some(EmbeddingModelChoice::GTELargeENV15)
    } else if name == "jinaai/jina-embeddings-v2-base-code"@ {
        Some(EmbeddingModelChoice::JinaEmbeddingsV2BaseCode)
    } else if name == "jinaai/jina-embeddings-v2-base-en"@ {
        Some(EmbeddingModelChoice::JinaEmbeddingsV2BaseEN)
    } else if name == "google/embeddinggemma-300m"@ {
        Some(EmbeddingModelChoice::EmbeddingGemma300M)
    } else if name == "snowflake/snowflake-arctic-embed-xs"@ {
        Some(EmbeddingModelChoice::SnowflakeArcticEmbedXS)
    } else if name == "snowflake/snowflake-arctic-embed-s"@ {
        Some(EmbeddingModelChoice::SnowflakeArcticEmbedS)
    } else if name == "snowflake/snowflake-arctic-embed-m"@ {
        Some(EmbeddingModelChoice::SnowflakeArcticEmbedM)
    } else if name == "snowflake/snowflake-arctic-embed-m-long"@ {
        Some(EmbeddingModelChoice::SnowflakeArcticEmbedMLong)
    } else if name == "snowflake/snowflake-arctic-embed-l"@ {
        Some(EmbeddingModelChoice::SnowflakeArcticEmbedL)
    } else if name == "BAAI/bge-small-en-v1.5-q"@ || name == "BAAI/bge-small-en-v1.5Q"@ {
        Some(EmbeddingModelChoice::BGESmallENV15Q)
    } else if name == "BAAI/bge-base-en-v1.5-q"@ || name == "BAAI/bge-base-en-v1.5Q"@ {
        Some(EmbeddingModelChoice::BGEBaseENV15Q)
    } else if name == "sentence-transformers/all-MiniLM-L6-v2-q"@ || name == "sentence-transformers/all-MiniLM-L6-v2Q"@ {
        Some(EmbeddingModelChoice::AllMiniLML6V2Q)
    } else {
        None
    }
}

/// The model loaded for a configured name: the model it denotes, or
/// `AllMiniLML12V2` for an unknown name.
pub open spec fn model_loaded_for(name: Seq<char>) -> EmbeddingModelChoice {
    match model_named(name) {
        Some(m) => m,
        None => EmbeddingModelChoice::AllMiniLML12V2,
    }
}

/// The model that a configured model name denotes, `None` for an unknown name.
pub fn known_embedding_model(name: &str) -> (m: Option<EmbeddingModelChoice>)
    ensures
        m == model_named(name@),
{
    if same_text(name, "BAAI/bge-small-en-v1.5") {
        Some(EmbeddingModelChoice::BGESmallENV15)
    } else if same_text(name, "BAAI/bge-base-en-v1.5") {
        Some(EmbeddingModelChoice::BGEBaseENV15)
    } else if same_text(name, "BAAI/bge-large-en-v1.5") {
        Some(EmbeddingModelChoice::BGELargeENV15)
    } else if same_text(name, "BAAI/bge-small-zh-v1.5") {
        Some(EmbeddingModelChoice::BGESmallZHV15)
    } else if same_text(name, "BAAI/bge-large-zh-v1.5") {
        Some(EmbeddingModelChoice::BGELargeZHV15)
    } else if same_text(name, "BAAI/bge-m3") {
        Some(EmbeddingModelChoice::BGEM3)
    } else if same_text(name, "sentence-transformers/all-MiniLM-L6-v2") {
        Some(EmbeddingModelChoice::AllMiniLML6V2)
    } else if same_text(name, "sentence-transformers/all-MiniLM-L12-v2") {
        Some(EmbeddingModelChoice::AllMiniLML12V2)
    } else if same_text(name, "sentence-transformers/all-mpnet-base-v2") {
        Some(EmbeddingModelChoice::AllMpnetBaseV2)
    } else if same_text(name, "sentence-transformers/paraphrase-MiniLM-L12-v2") {
        Some(EmbeddingModelChoice::ParaphraseMLMiniLML12V2)
    } else if same_text(name, "sentence-transformers/paraphrase-multilingual-mpnet-base-v2") {
        Some(EmbeddingModelChoice::ParaphraseMLMpnetBaseV2)
    } else if same_text(name, "nomic-ai/nomic-embed-text-v1") {
        Some(EmbeddingModelChoice::NomicEmbedTextV1)
    } else if same_text(name, "nomic-ai/nomic-embed-text-v1.5") {
        Some(EmbeddingModelChoice::NomicEmbedTextV15)
    } else if same_text(name, "intfloat/multilingual-e5-small") {
        Some(EmbeddingModelChoice::MultilingualE5Small)
    } else if same_text(name, "intfloat/multilingual-e5-base") {
        Some(EmbeddingModelChoice::MultilingualE5Base)
    } else if same_text(name, "intfloat/multilingual-e5-large") {
        Some(EmbeddingModelChoice::MultilingualE5Large)
    } else if same_text(name, "mixedbread-ai/mxbai-embed-large-v1") {
        Some(EmbeddingModelChoice::MxbaiEmbedLargeV1)
    } else if same_text(name, "Alibaba-NLP/gte-base-en-v1.5") {
        Some(EmbeddingModelChoice::GTEBaseENV15)
    } else if same_text(name, "Alibaba-NLP/gte-large-en-v1.5") {
        Some(EmbeddingModelChoice::GTELargeENV15)
    } else if same_text(name, "jinaai/jina-embeddings-v2-base-code") {
        Some(EmbeddingModelChoice::JinaEmbeddingsV2BaseCode)
    } else if same_text(name, "jinaai/jina-embeddings-v2-base-en") {
        Some(EmbeddingModelChoice::JinaEmbeddingsV2BaseEN)
    } else if same_text(name, "google/embeddinggemma-300m") {
        Some(EmbeddingModelChoice::EmbeddingGemma300M)
    } else if same_text(name, "snowflake/snowflake-arctic-embed-xs") {
        Some(EmbeddingModelChoice::SnowflakeArcticEmbedXS)
    } else if same_text(name, "snowflake/snowflake-arctic-embed-s") {
        Some(EmbeddingModelChoice::SnowflakeArcticEmbedS)
    } else if same_text(name, "snowflake/snowflake-arctic-embed-m") {
        Some(EmbeddingModelChoice::SnowflakeArcticEmbedM)
    } else if same_text(name, "snowflake/snowflake-arctic-embed-m-long") {
        Some(EmbeddingModelChoice::SnowflakeArcticEmbedMLong)
    } else if same_text(name, "snowflake/snowflake-arctic-embed-l") {
        Some(EmbeddingModelChoice::SnowflakeArcticEmbedL)
    } else if same_text(name, "BAAI/bge-small-en-v1.5-q") || same_text(name, "BAAI/bge-small-en-v1.5Q") {
        Some(EmbeddingModelChoice::BGESmallENV15Q)
    } else if same_text(name, "BAAI/bge-base-en-v1.5-q") || same_text(name, "BAAI/bge-base-en-v1.5Q") {
        Some(EmbeddingModelChoice::BGEBaseENV15Q)
    } else if same_text(name, "sentence-transformers/all-MiniLM-L6-v2-q") || same_text(name, "sentence-transformers/all-MiniLM-L6-v2Q") {
        Some(EmbeddingModelChoice::AllMiniLML6V2Q)
    } else {
        None
    }
}

/// The model that start-up loads for a configured name; unknown names fall
/// back to `AllMiniLML12V2`.
pub fn select_embedding_model(name: &str) -> (m: EmbeddingModelChoice)
    ensures
        m == model_loaded_for(name@),
{
    match known_embedding_model(name) {
        Some(m) => m,
        None => EmbeddingModelChoice::AllMiniLML12V2,
    }
}


// ----------------------------------------------------------------------------
// Laws
// ----------------------------------------------------------------------------

/// The name under which the server's configuration lists a model (the first
/// of its names where it has two).
pub open spec fn configured_name(m: EmbeddingModelChoice) -> Seq<char> {
    match m {
        EmbeddingModelChoice::BGESmallENV15 => "BAAI/bge-small-en-v1.5"@,
        EmbeddingModelChoice::BGEBaseENV15 => "BAAI/bge-base-en-v1.5"@,
        EmbeddingModelChoice::BGELargeENV15 => "BAAI/bge-large-en-v1.5"@,
        EmbeddingModelChoice::BGESmallZHV15 => "BAAI/bge-small-zh-v1.5"@,
        EmbeddingModelChoice::BGELargeZHV15 => "BAAI/bge-large-zh-v1.5"@,
        EmbeddingModelChoice::BGEM3 => "BAAI/bge-m3"@,
        EmbeddingModelChoice::AllMiniLML6V2 => "sentence-transformers/all-MiniLM-L6-v2"@,
        EmbeddingModelChoice::AllMiniLML12V2 => "sentence-transformers/all-MiniLM-L12-v2"@,
        EmbeddingModelChoice::AllMpnetBaseV2 => "sentence-transformers/all-mpnet-base-v2"@,
        EmbeddingModelChoice::ParaphraseMLMiniLML12V2 => "sentence-transformers/paraphrase-MiniLM-L12-v2"@,
        EmbeddingModelChoice::ParaphraseMLMpnetBaseV2 => "sentence-transformers/paraphrase-multilingual-mpnet-base-v2"@,
        EmbeddingModelChoice::NomicEmbedTextV1 => "nomic-ai/nomic-embed-text-v1"@,
        EmbeddingModelChoice::NomicEmbedTextV15 => "nomic-ai/nomic-embed-text-v1.5"@,
        EmbeddingModelChoice::MultilingualE5Small => "intfloat/multilingual-e5-small"@,
        EmbeddingModelChoice::MultilingualE5Base => "intfloat/multilingual-e5-base"@,
        EmbeddingModelChoice::MultilingualE5Large => "intfloat/multilingual-e5-large"@,
        EmbeddingModelChoice::MxbaiEmbedLargeV1 => "mixedbread-ai/mxbai-embed-large-v1"@,
        EmbeddingModelChoice::GTEBaseENV15 => "Alibaba-NLP/gte-base-en-v1.5"@,
        EmbeddingModelChoice::GTELargeENV15 => "Alibaba-NLP/gte-large-en-v1.5"@,
        EmbeddingModelChoice::JinaEmbeddingsV2BaseCode => "jinaai/jina-embeddings-v2-base-code"@,
        EmbeddingModelChoice::JinaEmbeddingsV2BaseEN => "jinaai/jina-embeddings-v2-base-en"@,
        EmbeddingModelChoice::EmbeddingGemma300M => "google/embeddinggemma-300m"@,
        EmbeddingModelChoice::SnowflakeArcticEmbedXS => "snowflake/snowflake-arctic-embed-xs"@,
        EmbeddingModelChoice::SnowflakeArcticEmbedS => "snowflake/snowflake-arctic-embed-s"@,
        EmbeddingModelChoice::SnowflakeArcticEmbedM => "snowflake/snowflake-arctic-embed-m"@,
        EmbeddingModelChoice::SnowflakeArcticEmbedMLong => "snowflake/snowflake-arctic-embed-m-long"@,
        EmbeddingModelChoice::SnowflakeArcticEmbedL => "snowflake/snowflake-arctic-embed-l"@,
        EmbeddingModelChoice::BGESmallENV15Q => "BAAI/bge-small-en-v1.5-q"@,
        EmbeddingModelChoice::BGEBaseENV15Q => "BAAI/bge-base-en-v1.5-q"@,
        EmbeddingModelChoice::AllMiniLML6V2Q => "sentence-transformers/all-MiniLM-L6-v2-q"@,
    }
}

/// The second name of a model that the configuration lists under two names.
pub open spec fn alternate_name(m: EmbeddingModelChoice) -> Option<Seq<char>> {
    match m {
        EmbeddingModelChoice::BGESmallENV15Q => Some("BAAI/bge-small-en-v1.5Q"@),
        EmbeddingModelChoice::BGEBaseENV15Q => Some("BAAI/bge-base-en-v1.5Q"@),
        EmbeddingModelChoice::AllMiniLML6V2Q => Some("sentence-transformers/all-MiniLM-L6-v2Q"@),
        _ => None,
    }
}

/// Each name in the configuration table selects the model listed with it:
/// a model's configured name, and its second name where it has one, denote
/// that model and no other.
pub proof fn law_listed_names_select_their_models(m: EmbeddingModelChoice)
    ensures
        model_named(configured_name(m)) == Some(m),
        alternate_name(m) matches Some(n) ==> model_named(n) == Some(m),
{
    reveal_strlit("BAAI/bge-small-en-v1.5");
    reveal_strlit("BAAI/bge-base-en-v1.5");
    reveal_strlit("BAAI/bge-large-en-v1.5");
    reveal_strlit("BAAI/bge-small-zh-v1.5");
    reveal_strlit("BAAI/bge-large-zh-v1.5");
    reveal_strlit("BAAI/bge-m3");
    reveal_strlit("sentence-transformers/all-MiniLM-L6-v2");
    reveal_strlit("sentence-transformers/all-MiniLM-L12-v2");
    reveal_strlit("sentence-transformers/all-mpnet-base-v2");
    reveal_strlit("sentence-transformers/paraphrase-MiniLM-L12-v2");
    reveal_strlit("sentence-transformers/paraphrase-multilingual-mpnet-base-v2");
    reveal_strlit("nomic-ai/nomic-embed-text-v1");
    reveal_strlit("nomic-ai/nomic-embed-text-v1.5");
    reveal_strlit("intfloat/multilingual-e5-small");
    reveal_strlit("intfloat/multilingual-e5-base");
    reveal_strlit("intfloat/multilingual-e5-large");
    reveal_strlit("mixedbread-ai/mxbai-embed-large-v1");
    reveal_strlit("Alibaba-NLP/gte-base-en-v1.5");
    reveal_strlit("Alibaba-NLP/gte-large-en-v1.5");
    reveal_strlit("jinaai/jina-embeddings-v2-base-code");
    reveal_strlit("jinaai/jina-embeddings-v2-base-en");
    reveal_strlit("google/embeddinggemma-300m");
    reveal_strlit("snowflake/snowflake-arctic-embed-xs");
    reveal_strlit("snowflake/snowflake-arctic-embed-s");
    reveal_strlit("snowflake/snowflake-arctic-embed-m");
    reveal_strlit("snowflake/snowflake-arctic-embed-m-long");
    reveal_strlit("snowflake/snowflake-arctic-embed-l");
    reveal_strlit("BAAI/bge-small-en-v1.5-q");
    reveal_strlit("BAAI/bge-small-en-v1.5Q");
    reveal_strlit("BAAI/bge-base-en-v1.5-q");
    reveal_strlit("BAAI/bge-base-en-v1.5Q");
    reveal_strlit("sentence-transformers/all-MiniLM-L6-v2-q");
    reveal_strlit("sentence-transformers/all-MiniLM-L6-v2Q");
    // Each name is told apart from the names tested before it by its length
    // and, against names of the same length, by a character where they differ.
    match m {
        EmbeddingModelChoice::BGESmallENV15 => {
            let n = configured_name(m);
            assert(n.len() == 22);
            assert(model_named(n) == Some(m));
        },
        EmbeddingModelChoice::BGEBaseENV15 => {
            let n = configured_name(m);
            assert(n.len() == 21);
            assert(model_named(n) == Some(m));
        },
        EmbeddingModelChoice::BGELargeENV15 => {
            let n = configured_name(m);
            assert(n.len() == 22);
            assert(n[9] == 'l');
            assert(model_named(n) == Some(m));
        },
        EmbeddingModelChoice::BGESmallZHV15 => {
            let n = configured_name(m);
            assert(n.len() == 22);
            assert(n[9] == 's');
            assert(n[15] == 'z');
            assert(model_named(n) == Some(m));
        },
        EmbeddingModelChoice::BGELargeZHV15 => {
            let n = configured_name(m);
            assert(n.len() == 22);
            assert(n[9] == 'l');
            assert(n[15] == 'z');
            assert(model_named(n) == Some(m));
        },
        EmbeddingModelChoice::BGEM3 => {
            let n = configured_name(m);
            assert(n.len() == 11);
            assert(model_named(n) == Some(m));
        },
        EmbeddingModelChoice::AllMiniLML6V2 => {
            let n = configured_name(m);
            assert(n.len() == 38);
            assert(model_named(n) == Some(m));
        },
        EmbeddingModelChoice::AllMiniLML12V2 => {
            let n = configured_name(m);
            assert(n.len() == 39);
            assert(model_named(n) == Some(m));
        },
        EmbeddingModelChoice::AllMpnetBaseV2 => {
            let n = configured_name(m);
            assert(n.len() == 39);
            assert(n[26] == 'm');
            assert(model_named(n) == Some(m));
        },
        EmbeddingModelChoice::ParaphraseMLMiniLML12V2 => {
            let n = configured_name(m);
            assert(n.len() == 46);
            assert(model_named(n) == Some(m));
        },
        EmbeddingModelChoice::ParaphraseMLMpnetBaseV2 => {
            let n = configured_name(m);
            assert(n.len() == 59);
            assert(model_named(n) == Some(m));
        },
        EmbeddingModelChoice::NomicEmbedTextV1 => {
            let n = configured_name(m);
            assert(n.len() == 28);
            assert(model_named(n) == Some(m));
        },
        EmbeddingModelChoice::NomicEmbedTextV15 => {
            let n = configured_name(m);
            assert(n.len() == 30);
            assert(model_named(n) == Some(m));
        },
        EmbeddingModelChoice::MultilingualE5Small => {
            let n = configured_name(m);
            assert(n.len() == 30);
            assert(n[0] == 'i');
            assert(model_named(n) == Some(m));
        },
        EmbeddingModelChoice::MultilingualE5Base => {
            let n = configured_name(m);
            assert(n.len() == 29);
            assert(model_named(n) == Some(m));
        },
        EmbeddingModelChoice::MultilingualE5Large => {
            let n = configured_name(m);
            assert(n.len() == 30);
            assert(n[0] == 'i');
            assert(n[25] == 'l');
            assert(model_named(n) == Some(m));
        },
        EmbeddingModelChoice::MxbaiEmbedLargeV1 => {
            let n = configured_name(m);
            assert(n.len() == 34);
            assert(model_named(n) == Some(m));
        },
        EmbeddingModelChoice::GTEBaseENV15 => {
            let n = configured_name(m);
            assert(n.len() == 28);
            assert(n[0] == 'A');
            assert(model_named(n) == Some(m));
        },
        EmbeddingModelChoice::GTELargeENV15 => {
            let n = configured_name(m);
            assert(n.len() == 29);
            assert(n[0] == 'A');
            assert(model_named(n) == Some(m));
        },
        EmbeddingModelChoice::JinaEmbeddingsV2BaseCode => {
            let n = configured_name(m);
            assert(n.len() == 35);
            assert(model_named(n) == Some(m));
        },
        EmbeddingModelChoice::JinaEmbeddingsV2BaseEN => {
            let n = configured_name(m);
            assert(n.len() == 33);
            assert(model_named(n) == Some(m));
        },
        EmbeddingModelChoice::EmbeddingGemma300M => {
            let n = configured_name(m);
            assert(n.len() == 26);
            assert(model_named(n) == Some(m));
        },
        EmbeddingModelChoice::SnowflakeArcticEmbedXS => {
            let n = configured_name(m);
            assert(n.len() == 35);
            assert(n[0] == 's');
            assert(model_named(n) == Some(m));
        },
        EmbeddingModelChoice::SnowflakeArcticEmbedS => {
            let n = configured_name(m);
            assert(n.len() == 34);
            assert(n[0] == 's');
            assert(model_named(n) == Some(m));
        },
        EmbeddingModelChoice::SnowflakeArcticEmbedM => {
            let n = configured_name(m);
            assert(n.len() == 34);
            assert(n[0] == 's');
            assert(n[33] == 'm');
            assert(model_named(n) == Some(m));
        },
        EmbeddingModelChoice::SnowflakeArcticEmbedMLong => {
            let n = configured_name(m);
            assert(n.len() == 39);
            assert(n[1] == 'n');
            assert(model_named(n) == Some(m));
        },
        EmbeddingModelChoice::SnowflakeArcticEmbedL => {
            let n = configured_name(m);
            assert(n.len() == 34);
            assert(n[0] == 's');
            assert(n[33] == 'l');
            assert(model_named(n) == Some(m));
        },
        EmbeddingModelChoice::BGESmallENV15Q => {
            let n = configured_name(m);
            assert(n.len() == 24);
            assert(model_named(n) == Some(m));
            let n = alternate_name(m)->0;
            assert(n.len() == 23);
            assert(model_named(n) == Some(m));
        },
        EmbeddingModelChoice::BGEBaseENV15Q => {
            let n = configured_name(m);
            assert(n.len() == 23);
            assert(n[9] == 'b');
            assert(model_named(n) == Some(m));
            let n = alternate_name(m)->0;
            assert(n.len() == 22);
            assert(n[9] == 'b');
            assert(model_named(n) == Some(m));
        },
        EmbeddingModelChoice::AllMiniLML6V2Q => {
            let n = configured_name(m);
            assert(n.len() == 40);
            assert(model_named(n) == Some(m));
            let n = alternate_name(m)->0;
            assert(n.len() == 39);
            assert(n[1] == 'e');
            assert(n[26] == 'M');
            assert(n[34] == '6');
            assert(model_named(n) == Some(m));
        },
    }
}

/// A name selects a model only if it is one of that model's names: so two
/// names of different models never select the same model, and every model
/// is selected by its own names alone.
pub proof fn law_a_name_selects_only_its_model(name: Seq<char>, m: EmbeddingModelChoice)
    requires
        model_named(name) == Some(m),
    ensures
        name == configured_name(m) || alternate_name(m) == Some(name),
{
}

/// The embedding model configured by default is one the server knows: it
/// loads `BGESmallENV15`, not the fallback.
pub proof fn law_default_model_is_known()
    ensures
        model_named(DEFAULT_EMBEDDING_MODEL@) == Some(EmbeddingModelChoice::BGESmallENV15),
{
}

} // verus!
