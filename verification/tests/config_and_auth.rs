use mcp_qdrant::auth::{authorize, AuthRejection};
use mcp_qdrant::config::{
    default_env_file_content, parse_port, port_text, ServerConfig, DEFAULT_COLLECTION,
    DEFAULT_EMBEDDING_MODEL, DEFAULT_HOST, DEFAULT_PORT, DEFAULT_QDRANT_URL,
};
use mcp_qdrant::types::{default_exact, default_limit, default_limit_u32, default_with_payload};

#[test]
fn defaults_of_tool_arguments() {
    assert_eq!(default_limit(), 10);
    assert_eq!(default_limit_u32(), 10);
    assert!(default_with_payload());
    assert!(default_exact());
}

#[test]
fn parse_port_agrees_with_std() {
    let samples = [
        "", "+", "-", "0", "8766", "+8766", "-1", "-0", "65535", "65536", "99999999999999999999",
        "007", " 80", "80 ", "8o", "++1", "+-1", "1_000", "٣", "0000000000000000000065535",
    ];
    for s in samples {
        assert_eq!(parse_port(s), s.parse::<u16>().ok(), "{:?}", s);
    }
    for n in (0u32..=65535).step_by(7) {
        let s = n.to_string();
        assert_eq!(parse_port(&s), Some(n as u16));
    }
}

#[test]
fn port_text_is_decimal() {
    assert_eq!(port_text(0), "0");
    assert_eq!(port_text(8766), "8766");
    assert_eq!(port_text(65535), "65535");
    for n in [1u16, 9, 10, 99, 100, 1000, 4321] {
        assert_eq!(port_text(n), n.to_string());
        assert_eq!(parse_port(&port_text(n)), Some(n));
    }
}

#[test]
fn unset_variables_give_defaults() {
    let c = ServerConfig::from_values(None, None, None, None, None, None);
    assert_eq!(c.host, DEFAULT_HOST);
    assert_eq!(c.port, DEFAULT_PORT);
    assert_eq!(c.port, 8766);
    assert_eq!(c.qdrant_url, "http://localhost:6334");
    assert_eq!(c.collection_name, "qc1");
    assert_eq!(c.embedding_model, "BAAI/bge-small-en-v1.5");
    assert_eq!(c.auth_token, None);
    assert_eq!(c.bind_address(), "127.0.0.1:8766");
}

#[test]
fn set_variables_are_taken() {
    let c = ServerConfig::from_values(
        Some("0.0.0.0".to_string()),
        Some("9000".to_string()),
        Some("http://qdrant:6334".to_string()),
        Some("docs".to_string()),
        Some("BAAI/bge-base-en-v1.5".to_string()),
        Some("s3cret".to_string()),
    );
    assert_eq!(c.host, "0.0.0.0");
    assert_eq!(c.port, 9000);
    assert_eq!(c.qdrant_url, "http://qdrant:6334");
    assert_eq!(c.collection_name, "docs");
    assert_eq!(c.embedding_model, "BAAI/bge-base-en-v1.5");
    assert_eq!(c.auth_token, Some("s3cret".to_string()));
    assert_eq!(c.bind_address(), "0.0.0.0:9000");
}

#[test]
fn bad_port_falls_back_to_default() {
    let c = ServerConfig::from_values(None, Some("http".to_string()), None, None, None, None);
    assert_eq!(c.port, 8766);
    let c = ServerConfig::from_values(None, Some("70000".to_string()), None, None, None, None);
    assert_eq!(c.port, 8766);
}

#[test]
fn default_env_file() {
    let expected = format!(
        "# MCP Qdrant Server Configuration\n\
         HOST={}\n\
         PORT={}\n\
         QDRANT_URL={}\n\
         QDRANT_COLLECTION={}\n\
         EMBEDDING_MODEL={}\n\
         RUST_LOG=info,mcp_qdrant=debug\n",
        DEFAULT_HOST, DEFAULT_PORT, DEFAULT_QDRANT_URL, DEFAULT_COLLECTION, DEFAULT_EMBEDDING_MODEL
    );
    assert_eq!(default_env_file_content(), expected);
    let content = default_env_file_content();
    let lines: Vec<&str> = content.lines().collect();
    assert_eq!(
        lines,
        vec![
            "# MCP Qdrant Server Configuration",
            "HOST=127.0.0.1",
            "PORT=8766",
            "QDRANT_URL=http://localhost:6334",
            "QDRANT_COLLECTION=qc1",
            "EMBEDDING_MODEL=BAAI/bge-small-en-v1.5",
            "RUST_LOG=info,mcp_qdrant=debug",
        ]
    );
}

#[test]
fn no_token_admits_everything() {
    assert_eq!(authorize(&None, None), Ok(()));
    assert_eq!(authorize(&None, Some("Basic abc")), Ok(()));
    assert_eq!(authorize(&None, Some("Bearer anything")), Ok(()));
}

#[test]
fn token_checks() {
    let token = Some("s3cret".to_string());
    assert_eq!(authorize(&token, Some("Bearer s3cret")), Ok(()));
    assert_eq!(authorize(&token, None), Err(AuthRejection::Unauthorized));
    assert_eq!(authorize(&token, Some("Basic s3cret")), Err(AuthRejection::Unauthorized));
    assert_eq!(authorize(&token, Some("bearer s3cret")), Err(AuthRejection::Unauthorized));
    assert_eq!(authorize(&token, Some("Bearer")), Err(AuthRejection::Unauthorized));
    assert_eq!(authorize(&token, Some("Bearer wrong")), Err(AuthRejection::Forbidden));
    assert_eq!(authorize(&token, Some("Bearer s3cret ")), Err(AuthRejection::Forbidden));
    assert_eq!(authorize(&token, Some("Bearer ")), Err(AuthRejection::Forbidden));
    assert_eq!(authorize(&token, Some("Bearer  s3cret")), Err(AuthRejection::Forbidden));
    assert_eq!(AuthRejection::Unauthorized.status_code(), 401);
    assert_eq!(AuthRejection::Forbidden.status_code(), 403);
}

#[test]
fn empty_token_needs_bare_bearer() {
    let token = Some(String::new());
    assert_eq!(authorize(&token, Some("Bearer ")), Ok(()));
    assert_eq!(authorize(&token, Some("Bearer x")), Err(AuthRejection::Forbidden));
}
