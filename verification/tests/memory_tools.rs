use hex_mem_mcp::helix::prop_string;
use hex_mem_mcp::json::Json;
use hex_mem_mcp::memory::{prop_as_str, require_agent_id};

#[test]
fn agent_id_must_be_nonempty() {
    assert!(require_agent_id("").is_err());
    assert!(require_agent_id("   ").is_err());
    assert_eq!(require_agent_id("  agent-a ").unwrap(), "agent-a");
}

#[test]
fn prop_as_str_reads_both_encodings() {
    assert_eq!(prop_as_str(&Json::string("agent-a")), Some("agent-a"));
    assert_eq!(
        prop_as_str(&Json::obj1("value", Json::obj1("string", Json::string("agent-a")))),
        Some("agent-a")
    );
    assert_eq!(prop_as_str(&Json::Null), None);
    assert_eq!(prop_as_str(&prop_string("agent-a")), Some("agent-a"));
}
