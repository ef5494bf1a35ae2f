use teleflow::definitions::DefinitionLoader;

#[test]
fn test_default_definitions() {
    let loader = DefinitionLoader::new();

    // Should have chat_list selector
    let chat_list = loader.get_selector(&"chat_list".to_string());
    assert!(chat_list.is_some());

    // Should have message_content fiber path
    let msg_content = loader.get_fiber_path(&"message_content".to_string());
    assert!(msg_content.is_some());
}

#[test]
fn default_selectors_carry_their_primaries() {
    let loader = DefinitionLoader::new();
    let chat_list = loader.get_selector(&"chat_list".to_string()).unwrap();
    assert_eq!(chat_list.primary, "#chat-folders + div");
    assert_eq!(chat_list.fallbacks, vec![".chat-list".to_string()]);

    let input = loader.get_selector(&"message_input".to_string()).unwrap();
    assert_eq!(input.primary, ".composer-wrapper .input-message");

    assert!(loader.get_selector(&"unknown".to_string()).is_none());
    assert!(loader.get_fiber_path(&"unknown".to_string()).is_none());
    assert_eq!(loader.definitions().version, "1.0.0");
}
