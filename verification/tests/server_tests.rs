use rmcp_server_builder::Capability;
use rmcp_server_builder::ErrorData;
use rmcp_server_builder::Implementation;
use rmcp_server_builder::PromptsCapability;
use rmcp_server_builder::ServerBuilder;
use rmcp_server_builder::ServerCapabilities;
use rmcp_server_builder::ServerInfo;
use rmcp_server_builder::SimpleInfo;
use rmcp_server_builder::ToolsCapability;
use rmcp_server_builder::model::METHOD_NOT_FOUND;
use rmcp_server_builder::model::not_supported_text;

const INVALID_PARAMS: i32 = -32602;

fn test_identity() -> Implementation {
    Implementation::new("test".to_string(), "1.0.0".to_string())
}

fn expect_not_supported<A: std::fmt::Debug>(r: Result<A, ErrorData>, message: &str) {
    match r {
        Ok(v) => panic!("expected a method-not-found error, got {:?}", v),
        Err(e) => {
            assert_eq!(e.code, METHOD_NOT_FOUND);
            assert_eq!(e.message, message.to_string());
        }
    }
}

#[test]
fn test_tools_only_scenario() {
    // Only metadata and a tools provider: the tools flag is on, the other
    // optional flags stay off, prompt requests are rejected with the fixed
    // message, and tool requests return the provider's answers unchanged.
    let server = ServerBuilder::new()
        .info(SimpleInfo::new(test_identity()))
        .tools("a tools provider".to_string())
        .build();

    let caps = server.combined_capabilities();
    assert!(caps.tools.is_some());
    assert!(caps.prompts.is_none());
    assert!(caps.resources.is_none());
    assert!(!caps.logging);

    let listing: Result<Vec<String>, ErrorData> = Ok(vec![]);
    match server.list_tools(Some(listing)) {
        Ok(Ok(tools)) => assert!(tools.is_empty()),
        other => panic!("expected the provider's empty listing, got {:?}", other),
    }

    let call: Result<String, ErrorData> = Ok("Tool executed".to_string());
    match server.call_tool(Some(call)) {
        Ok(Ok(content)) => assert_eq!(content, "Tool executed".to_string()),
        other => panic!("expected the provider's call result, got {:?}", other),
    }

    let prompts: Result<Vec<String>, ErrorData> =
        match server.list_prompts(None::<Result<Vec<String>, ErrorData>>) {
            Ok(answer) => answer,
            Err(e) => Err(e),
        };
    expect_not_supported(prompts, "prompts not supported");
}

#[test]
fn test_prompts_scenario() {
    // Only metadata and a prompts provider that knows one prompt name:
    // the known name succeeds, any other fails with the provider's own
    // invalid-params error, and tools requests get "method not found".
    let known = "test_prompt";
    let provider_answer = |name: &str| -> Result<String, ErrorData> {
        if name == known {
            Ok("Test prompt".to_string())
        } else {
            Err(ErrorData {
                code: INVALID_PARAMS,
                message: "Unknown prompt".to_string(),
            })
        }
    };
    let server = ServerBuilder::new()
        .info(SimpleInfo::new(test_identity()))
        .prompts("a prompts provider".to_string())
        .build();

    match server.get_prompt(Some(provider_answer("test_prompt"))) {
        Ok(Ok(description)) => assert_eq!(description, "Test prompt".to_string()),
        other => panic!("expected the rendered prompt, got {:?}", other),
    }

    match server.get_prompt(Some(provider_answer("other"))) {
        Ok(Err(e)) => {
            // The provider's own rejection comes back unmodified.
            assert_eq!(e.code, INVALID_PARAMS);
            assert_eq!(e.message, "Unknown prompt".to_string());
        }
        other => panic!("expected the provider's rejection, got {:?}", other),
    }

    let tools = server.list_tools(None::<Result<Vec<String>, ErrorData>>);
    expect_not_supported(tools, "tools not supported");
}

#[test]
fn test_metadata_only_rejects_every_optional_category() {
    // With no optional slot populated, every operation of the five optional
    // categories answers "method not found" with its category's message,
    // while metadata and initialize still succeed.
    let server = ServerBuilder::new()
        .info(SimpleInfo::new(test_identity()))
        .build();

    expect_not_supported(server.list_tools(None::<u32>), "tools not supported");
    expect_not_supported(server.call_tool(None::<u32>), "tools not supported");
    expect_not_supported(server.list_prompts(None::<u32>), "prompts not supported");
    expect_not_supported(server.get_prompt(None::<u32>), "prompts not supported");
    expect_not_supported(server.list_resources(None::<u32>), "resources not supported");
    expect_not_supported(
        server.list_resource_templates(None::<u32>),
        "resources not supported",
    );
    expect_not_supported(server.read_resource(None::<u32>), "resources not supported");
    expect_not_supported(server.subscribe(None::<u32>), "resources not supported");
    expect_not_supported(server.unsubscribe(None::<u32>), "resources not supported");
    expect_not_supported(server.complete(None::<u32>), "completion not supported");
    expect_not_supported(server.set_level(None::<u32>), "logging not supported");

    let info = server.get_info();
    assert_eq!(info.server_info, test_identity());
    let initialized = server.initialize().expect("initialize is infallible");
    assert_eq!(initialized.server_info, test_identity());
    assert_eq!(initialized.instructions, None);
    assert!(server.ping().is_ok());
}

#[test]
fn test_every_slot_forwards_values_and_errors_unmodified() {
    let server = ServerBuilder::new()
        .tools(())
        .prompts(())
        .resources(())
        .completion(())
        .logging(())
        .info(SimpleInfo::new(test_identity()))
        .build();

    let ok: Result<u64, ErrorData> = Ok(7);
    let fail: Result<u64, ErrorData> = Err(ErrorData {
        code: -1,
        message: "provider failure".to_string(),
    });

    assert_eq!(server.list_tools(Some(ok.clone())), Ok(ok.clone()));
    assert_eq!(server.call_tool(Some(fail.clone())), Ok(fail.clone()));
    assert_eq!(server.list_prompts(Some(ok.clone())), Ok(ok.clone()));
    assert_eq!(server.get_prompt(Some(fail.clone())), Ok(fail.clone()));
    assert_eq!(server.list_resources(Some(ok.clone())), Ok(ok.clone()));
    assert_eq!(
        server.list_resource_templates(Some(ok.clone())),
        Ok(ok.clone())
    );
    assert_eq!(server.read_resource(Some(fail.clone())), Ok(fail.clone()));
    assert_eq!(server.subscribe(Some(ok.clone())), Ok(ok.clone()));
    assert_eq!(server.unsubscribe(Some(ok.clone())), Ok(ok.clone()));
    assert_eq!(server.complete(Some(ok.clone())), Ok(ok.clone()));
    assert_eq!(server.set_level(Some(fail.clone())), Ok(fail.clone()));

    // The metadata slot: the provider's identity comes back verbatim.
    assert_eq!(server.get_info().server_info, test_identity());
}

#[test]
fn test_combined_capabilities_enable_populated_slots_and_keep_the_base() {
    let base_caps = ServerCapabilities {
        experimental: true,
        extensions: false,
        logging: true,
        completions: true,
        prompts: None,
        resources: None,
        tools: Some(ToolsCapability {
            list_changed: Some(true),
        }),
    };
    let info = SimpleInfo::new(test_identity()).with_capabilities(base_caps);

    // Prompts slot populated, tools slot empty: the prompts flag is forced
    // to its default marker, the base tools flag (with its settings) and the
    // base logging/completions/experimental flags survive untouched.
    let server = ServerBuilder::new().info(info).prompts(()).build();
    let caps = server.combined_capabilities();
    assert_eq!(caps.prompts, Some(PromptsCapability { list_changed: None }));
    assert_eq!(
        caps.tools,
        Some(ToolsCapability {
            list_changed: Some(true),
        })
    );
    assert!(caps.logging);
    assert!(caps.completions);
    assert!(caps.experimental);
    assert!(!caps.extensions);
    assert_eq!(caps.resources, None);

    // Tools slot populated on the same base: the base's tools settings are
    // replaced by the default "enabled" marker.
    let info = SimpleInfo::new(test_identity()).with_capabilities(base_caps);
    let server = ServerBuilder::new().info(info).tools(()).build();
    let caps = server.combined_capabilities();
    assert_eq!(caps.tools, Some(ToolsCapability { list_changed: None }));

    // Completion has no capability flag: populating its slot changes nothing.
    let info = SimpleInfo::new(test_identity()).with_capabilities(base_caps);
    let server = ServerBuilder::new().info(info).completion(()).build();
    assert_eq!(server.combined_capabilities(), base_caps);
}

#[test]
fn test_instructions_resolution_has_three_branches() {
    let record_with_instructions = ServerInfo {
        protocol_version: "2025-11-25".to_string(),
        capabilities: ServerCapabilities::default(),
        server_info: test_identity(),
        instructions: Some("from provider".to_string()),
    };

    // Builder-set instructions win.
    let server = ServerBuilder::new()
        .info(record_with_instructions.duplicate())
        .instructions("from builder".to_string())
        .build();
    let initialized = server.initialize().expect("initialize is infallible");
    assert_eq!(initialized.instructions, Some("from builder".to_string()));
    assert_eq!(
        server.get_info().instructions,
        Some("from builder".to_string())
    );

    // Otherwise the metadata provider's own instructions.
    let server = ServerBuilder::new()
        .info(record_with_instructions.duplicate())
        .build();
    let initialized = server.initialize().expect("initialize is infallible");
    assert_eq!(initialized.instructions, Some("from provider".to_string()));
    assert_eq!(
        server.get_info().instructions,
        Some("from provider".to_string())
    );

    // Otherwise absent.
    let server = ServerBuilder::new()
        .info(SimpleInfo::new(test_identity()))
        .build();
    let initialized = server.initialize().expect("initialize is infallible");
    assert_eq!(initialized.instructions, None);
    assert_eq!(server.get_info().instructions, None);
}

#[test]
fn test_initialize_reports_protocol_version_and_derived_capabilities() {
    let server = ServerBuilder::new()
        .info(SimpleInfo::new(test_identity()))
        .logging(())
        .build();
    let initialized = server.initialize().expect("initialize is infallible");
    assert_eq!(initialized.protocol_version, "2025-11-25".to_string());
    assert!(initialized.capabilities.logging);
    assert_eq!(initialized.capabilities, server.combined_capabilities());
}

#[test]
fn test_implementation_as_metadata_provider() {
    // A bare identity record can fill the metadata slot: it reports the
    // default protocol version, an empty base capability set and no
    // instructions of its own.
    let server = ServerBuilder::new().info(test_identity()).build();
    let info = server.get_info();
    assert_eq!(info.server_info.name, "test".to_string());
    assert_eq!(info.server_info.version, "1.0.0".to_string());
    assert_eq!(info.protocol_version, "2025-11-25".to_string());
    assert_eq!(info.capabilities, ServerCapabilities::default());
    assert_eq!(info.instructions, None);
}

#[test]
fn test_fixed_rejection_messages_name_each_category() {
    assert_eq!(not_supported_text(Capability::Tools), "tools not supported");
    assert_eq!(
        not_supported_text(Capability::Prompts),
        "prompts not supported"
    );
    assert_eq!(
        not_supported_text(Capability::Resources),
        "resources not supported"
    );
    assert_eq!(
        not_supported_text(Capability::Completion),
        "completion not supported"
    );
    assert_eq!(
        not_supported_text(Capability::Logging),
        "logging not supported"
    );
}
