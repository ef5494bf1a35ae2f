//! Anti-detection measures for the controlled browser.
//!
//! The injection script overrides automation tells before any page script
//! runs; the launch arguments disable the features that betray remote
//! control.

use vstd::prelude::*;
use vstd::string::StringExecFns;

verus! {

/// Fingerprint configuration of a controlled browser.
#[derive(Clone, Debug)]
pub struct StealthConfig {
    pub user_agent: String,
    pub viewport_width: u32,
    pub viewport_height: u32,
    pub language: String,
    pub platform: String,
}

impl Default for StealthConfig {
    /// A desktop Chrome fingerprint.
    fn default() -> (r: StealthConfig)
        ensures
            r.user_agent@
                == "Mozilla/5.0 (Windows NT 10.0; Win64; x64) AppleWebKit/537.36 (KHTML, like Gecko) Chrome/120.0.0.0 Safari/537.36"@,
            r.viewport_width == 1920,
            r.viewport_height == 1080,
            r.language@ == "en-US"@,
            r.platform@ == "Win32"@,
    {
        StealthConfig {
            user_agent:
                "Mozilla/5.0 (Windows NT 10.0; Win64; x64) AppleWebKit/537.36 (KHTML, like Gecko) Chrome/120.0.0.0 Safari/537.36".to_owned(),
            viewport_width: 1920,
            viewport_height: 1080,
            language: "en-US".to_owned(),
            platform: "Win32".to_owned(),
        }
    }
}

/// The part of the injection script before the language list.
pub open spec fn stealth_head() -> Seq<char> {
    "Object.defineProperty(navigator, 'webdriver', { get: () => undefined, configurable: true });\nObject.defineProperty(navigator, 'languages', { get: () => ['"@
}

/// The part of the injection script between the language and the platform.
pub open spec fn stealth_mid() -> Seq<char> {
    "', 'en'], configurable: true });\nObject.defineProperty(navigator, 'plugins', { get: () => { const plugins = [ { name: 'Chrome PDF Plugin', filename: 'internal-pdf-viewer' }, { name: 'Chrome PDF Viewer', filename: 'mhjfbmdgcfjbbpaeojofohoefgiehjai' }, { name: 'Native Client', filename: 'internal-nacl-plugin' } ]; plugins.length = 3; return plugins; }, configurable: true });\nObject.defineProperty(navigator, 'platform', { get: () => '"@
}

/// The part of the injection script after the platform.
pub open spec fn stealth_tail() -> Seq<char> {
    "', configurable: true });\nconst originalQuery = window.navigator.permissions.query;\nwindow.navigator.permissions.query = (parameters) => ( parameters.name === 'notifications' ? Promise.resolve({ state: Notification.permission }) : originalQuery(parameters) );\nwindow.chrome = { runtime: {}, loadTimes: function() {}, csi: function() {} };\nObject.defineProperty(HTMLIFrameElement.prototype, 'contentWindow', { get: function() { return window; } });\nconsole.log('[TF Stealth] applied');\n"@
}

/// The injection script as a function of the configuration: the fixed
/// overrides with the configured language and platform spliced in.
pub open spec fn stealth_script(config: StealthConfig) -> Seq<char> {
    stealth_head() + config.language@ + stealth_mid() + config.platform@ + stealth_tail()
}

/// Generate the stealth injection script, run before any page script to
/// override the navigator properties that betray automation.
pub fn generate_stealth_script(config: &StealthConfig) -> (r: String)
    ensures
        r@ == stealth_script(*config),
{
    let mut script: String =
        "Object.defineProperty(navigator, 'webdriver', { get: () => undefined, configurable: true });\nObject.defineProperty(navigator, 'languages', { get: () => ['".to_owned();
    script.append(config.language.as_str());
    script.append(
        "', 'en'], configurable: true });\nObject.defineProperty(navigator, 'plugins', { get: () => { const plugins = [ { name: 'Chrome PDF Plugin', filename: 'internal-pdf-viewer' }, { name: 'Chrome PDF Viewer', filename: 'mhjfbmdgcfjbbpaeojofohoefgiehjai' }, { name: 'Native Client', filename: 'internal-nacl-plugin' } ]; plugins.length = 3; return plugins; }, configurable: true });\nObject.defineProperty(navigator, 'platform', { get: () => '",
    );
    script.append(config.platform.as_str());
    script.append(
        "', configurable: true });\nconst originalQuery = window.navigator.permissions.query;\nwindow.navigator.permissions.query = (parameters) => ( parameters.name === 'notifications' ? Promise.resolve({ state: Notification.permission }) : originalQuery(parameters) );\nwindow.chrome = { runtime: {}, loadTimes: function() {}, csi: function() {} };\nObject.defineProperty(HTMLIFrameElement.prototype, 'contentWindow', { get: function() { return window; } });\nconsole.log('[TF Stealth] applied');\n",
    );
    script
}

/// Launch-time stealth commands.
pub struct StealthCommands;

impl StealthCommands {
    /// Browser flags that disable the features betraying remote control.
    pub fn stealth_browser_args() -> (r: Vec<String>)
        ensures
            r@.len() == 9,
            r@[0]@ == "--disable-blink-features=AutomationControlled"@,
            r@[1]@ == "--disable-infobars"@,
            r@[2]@ == "--no-first-run"@,
            r@[3]@ == "--no-default-browser-check"@,
            r@[4]@ == "--disable-background-timer-throttling"@,
            r@[5]@ == "--disable-backgrounding-occluded-windows"@,
            r@[6]@ == "--disable-renderer-backgrounding"@,
            r@[7]@ == "--disable-features=TranslateUI"@,
            r@[8]@ == "--disable-ipc-flooding-protection"@,
    {
        let mut args: Vec<String> = Vec::new();
        args.push("--disable-blink-features=AutomationControlled".to_owned());
        args.push("--disable-infobars".to_owned());
        args.push("--no-first-run".to_owned());
        args.push("--no-default-browser-check".to_owned());
        args.push("--disable-background-timer-throttling".to_owned());
        args.push("--disable-backgrounding-occluded-windows".to_owned());
        args.push("--disable-renderer-backgrounding".to_owned());
        args.push("--disable-features=TranslateUI".to_owned());
        args.push("--disable-ipc-flooding-protection".to_owned());
        args
    }
}

} // verus!
