use rmcp_server_builder::Implementation;
use rmcp_server_builder::Server;
use rmcp_server_builder::ServerBuilder;
use rmcp_server_builder::ServerCapabilities;
use rmcp_server_builder::SimpleInfo;
use rmcp_server_builder::Unset;

struct TestToolsProvider;

struct TestPromptsProvider {
    prompt_name: String,
}

#[test]
fn test_builder_compiles() {
    let _server = ServerBuilder::new()
        .info(Implementation::new("test".to_string(), "1.0.0".to_string()))
        .tools(TestToolsProvider)
        .prompts(TestPromptsProvider {
            prompt_name: "test_prompt".to_string(),
        })
        .build();
}

#[test]
fn test_server_builder_static_method() {
    let _server = Server::<Unset, Unset, Unset, Unset, Unset, Unset>::builder()
        .info(Implementation::new("test".to_string(), "1.0.0".to_string()))
        .build();
}

#[test]
fn test_setting_a_slot_twice_keeps_the_second_value() {
    let info = Implementation::new("test".to_string(), "1.0.0".to_string());
    let server = ServerBuilder::new()
        .info(info)
        .tools(1u32)
        .tools(2u32)
        .build();
    assert_eq!(server.tools, Some(2u32));

    let info = Implementation::new("test".to_string(), "1.0.0".to_string());
    let server = ServerBuilder::new()
        .instructions("first".to_string())
        .instructions("second".to_string())
        .info(info)
        .build();
    assert_eq!(server.instructions, Some("second".to_string()));
}

#[test]
fn test_slot_order_does_not_matter() {
    let one = ServerBuilder::new()
        .info(SimpleInfo::new(Implementation::new(
            "test".to_string(),
            "1.0.0".to_string(),
        )))
        .tools(3u32)
        .prompts(4u64)
        .logging(5u8)
        .instructions("hello".to_string())
        .build();
    let two = ServerBuilder::new()
        .instructions("hello".to_string())
        .logging(5u8)
        .prompts(4u64)
        .tools(3u32)
        .info(SimpleInfo::new(Implementation::new(
            "test".to_string(),
            "1.0.0".to_string(),
        )))
        .build();
    assert_eq!(one.tools, two.tools);
    assert_eq!(one.prompts, two.prompts);
    assert_eq!(one.resources, two.resources);
    assert_eq!(one.completion, two.completion);
    assert_eq!(one.logging, two.logging);
    assert_eq!(one.instructions, two.instructions);
    assert_eq!(one.get_info(), two.get_info());
}

#[test]
fn test_build_moves_every_slot_unchanged() {
    let server = ServerBuilder::new()
        .tools("tools provider".to_string())
        .prompts(11u32)
        .resources(12u32)
        .completion(13u32)
        .logging(14u32)
        .info(Implementation::new("srv".to_string(), "2.3.4".to_string()))
        .instructions("use wisely".to_string())
        .build();
    assert_eq!(server.tools, Some("tools provider".to_string()));
    assert_eq!(server.prompts, Some(11u32));
    assert_eq!(server.resources, Some(12u32));
    assert_eq!(server.completion, Some(13u32));
    assert_eq!(server.logging, Some(14u32));
    assert_eq!(
        server.info,
        Implementation::new("srv".to_string(), "2.3.4".to_string())
    );
    assert_eq!(server.instructions, Some("use wisely".to_string()));
}

#[test]
fn test_simple_info_keeps_identity_and_capabilities() {
    let base = SimpleInfo::new(Implementation::new(
        "test".to_string(),
        "1.0.0".to_string(),
    ));
    assert_eq!(base.capabilities, ServerCapabilities::default());

    let caps = ServerCapabilities {
        logging: true,
        ..ServerCapabilities::default()
    };
    let with = base.with_capabilities(caps);
    assert_eq!(with.server_info.name, "test".to_string());
    assert_eq!(with.server_info.version, "1.0.0".to_string());
    assert!(with.capabilities.logging);
}
