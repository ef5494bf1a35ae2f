use teleflow::stealth::{StealthCommands, StealthConfig, generate_stealth_script};

#[test]
fn test_stealth_script_generation() {
    let config = StealthConfig::default();
    let script = generate_stealth_script(&config);

    // Should contain key overrides
    assert!(script.contains("webdriver"));
    assert!(script.contains("navigator"));
    assert!(script.contains("plugins"));
    assert!(script.contains(config.platform.as_str()));

    println!("✅ Stealth script generation test passed");
}

#[test]
fn test_browser_args() {
    let args = StealthCommands::stealth_browser_args();

    assert!(args.contains(&"--disable-blink-features=AutomationControlled".to_string()));
    assert!(args.len() >= 5);

    println!("✅ Browser args test passed ({} args)", args.len());
}

#[test]
fn stealth_script_splices_language_and_platform() {
    let config = StealthConfig {
        user_agent: "UA".to_string(),
        viewport_width: 800,
        viewport_height: 600,
        language: "de-DE".to_string(),
        platform: "Linux x86_64".to_string(),
    };
    let script = generate_stealth_script(&config);
    assert!(script.contains("'de-DE', 'en'"));
    assert!(script.contains("Linux x86_64"));
}
