//! Plain data records of the application domain.

use vstd::prelude::*;

use crate::text::{str_contains, str_eq, text_contains};

verus! {

/// Lifecycle status of an automated account.
#[derive(Clone, Copy, PartialEq, Eq, Structural, Debug)]
pub enum AccountStatus {
    Active,
    Inactive,
    Banned,
}

impl AccountStatus {
    /// The label under which the status is stored.
    pub fn to_string(&self) -> (r: String)
        ensures
            self is Active ==> r@ == "Active"@,
            self is Inactive ==> r@ == "Inactive"@,
            self is Banned ==> r@ == "Banned"@,
    {
        match self {
            AccountStatus::Active => "Active".to_owned(),
            AccountStatus::Inactive => "Inactive".to_owned(),
            AccountStatus::Banned => "Banned".to_owned(),
        }
    }

    /// Read a status back from its stored label; an unknown label reads as
    /// Inactive.
    pub fn from_label(s: &String) -> (r: AccountStatus)
        ensures
            s@ == "Active"@ ==> r is Active,
            s@ == "Banned"@ ==> r is Banned,
            s@ != "Active"@ && s@ != "Banned"@ ==> r is Inactive,
    {
        proof {
            reveal_strlit("Active");
            reveal_strlit("Banned");
            assert("Active"@[0] == 'A' && "Banned"@[0] == 'B');
            assert("Active"@ != "Banned"@);
        }
        if str_eq(s.as_str(), "Active") {
            AccountStatus::Active
        } else if str_eq(s.as_str(), "Banned") {
            AccountStatus::Banned
        } else {
            AccountStatus::Inactive
        }
    }
}

/// What kind of trigger a reply rule has.
#[derive(Clone, Copy, PartialEq, Eq, Structural, Debug)]
pub enum TriggerType {
    Keyword,
    Regex,
    AutoJoin,
    WelcomeMessage,
}

impl TriggerType {
    /// The label under which the trigger type is stored.
    pub fn to_string(&self) -> (r: String)
        ensures
            self is Keyword ==> r@ == "Keyword"@,
            self is Regex ==> r@ == "Regex"@,
            self is AutoJoin ==> r@ == "AutoJoin"@,
            self is WelcomeMessage ==> r@ == "WelcomeMessage"@,
    {
        match self {
            TriggerType::Keyword => "Keyword".to_owned(),
            TriggerType::Regex => "Regex".to_owned(),
            TriggerType::AutoJoin => "AutoJoin".to_owned(),
            TriggerType::WelcomeMessage => "WelcomeMessage".to_owned(),
        }
    }

    /// Read a trigger type back from its stored label; an unknown label
    /// reads as Keyword.
    pub fn from_label(s: &String) -> (r: TriggerType)
        ensures
            s@ == "Regex"@ ==> r is Regex,
            s@ == "AutoJoin"@ ==> r is AutoJoin,
            s@ == "WelcomeMessage"@ ==> r is WelcomeMessage,
            s@ != "Regex"@ && s@ != "AutoJoin"@ && s@ != "WelcomeMessage"@ ==> r is Keyword,
    {
        proof {
            reveal_strlit("Regex");
            reveal_strlit("AutoJoin");
            reveal_strlit("WelcomeMessage");
            assert("Regex"@.len() == 5 && "AutoJoin"@.len() == 8 && "WelcomeMessage"@.len() == 14);
            assert("Regex"@ != "AutoJoin"@ && "Regex"@ != "WelcomeMessage"@ && "AutoJoin"@
                != "WelcomeMessage"@);
        }
        if str_eq(s.as_str(), "Regex") {
            TriggerType::Regex
        } else if str_eq(s.as_str(), "AutoJoin") {
            TriggerType::AutoJoin
        } else if str_eq(s.as_str(), "WelcomeMessage") {
            TriggerType::WelcomeMessage
        } else {
            TriggerType::Keyword
        }
    }
}

/// An automated account.
#[derive(Clone, Debug)]
pub struct Account {
    pub id: String,
    pub name: String,
    pub status: String,
}

/// An automatic-reply rule.
#[derive(Clone, Debug)]
pub struct Rule {
    pub id: String,
    pub account_id: Option<String>,
    pub trigger_type: String,
    pub trigger_pattern: String,
    pub reply_text: Option<String>,
    pub delay_min_ms: i64,
    pub delay_max_ms: i64,
    pub is_enabled: bool,
}

/// An inbound or outbound chat message.
#[derive(Clone, Debug)]
pub struct Message {
    pub id: String,
    pub conversation_id: String,
    pub sender_id: String,
    pub content: String,
    pub message_type: String,
    pub status: String,
    pub created_at: String,
}

/// A known contact of an account.
#[derive(Clone, Debug)]
pub struct Contact {
    pub id: String,
    pub account_id: String,
    pub remote_id: String,
    pub name: Option<String>,
    pub tags: Option<String>,
    pub notes: Option<String>,
    pub updated_at: String,
}

/// Version and readiness of the process.
#[derive(Clone, Debug)]
pub struct SystemInfo {
    pub core_version: String,
    pub initialized: bool,
}

/// One day of per-account message counters.
#[derive(Clone, Debug)]
pub struct DailyStat {
    pub date: String,
    pub account_id: String,
    pub messages_sent: i64,
    pub messages_received: i64,
    pub auto_replies_triggered: i64,
}

/// Whether the rule fires on the message content: it must be enabled, carry
/// the keyword trigger label, and its pattern must occur in the content.
pub open spec fn rule_fires(rule: Rule, content: Seq<char>) -> bool {
    &&& rule.is_enabled
    &&& rule.trigger_type@ == "Keyword"@
    &&& text_contains(content, rule.trigger_pattern@)
}

/// The first enabled keyword rule whose pattern occurs in the content.
pub open spec fn first_firing_rule(rules: Seq<Rule>, content: Seq<char>) -> Option<Rule>
    decreases rules.len(),
{
    if rules.len() == 0 {
        None
    } else if rule_fires(rules[0], content) {
        Some(rules[0])
    } else {
        first_firing_rule(rules.drop_first(), content)
    }
}

/// Copy a rule. Written out so that the copy is known to carry the same
/// value.
pub fn clone_rule(rule: &Rule) -> (r: Rule)
    ensures
        r == *rule,
{
    Rule {
        id: rule.id.clone(),
        account_id: crate::instance::clone_opt_string(&rule.account_id),
        trigger_type: rule.trigger_type.clone(),
        trigger_pattern: rule.trigger_pattern.clone(),
        reply_text: crate::instance::clone_opt_string(&rule.reply_text),
        delay_min_ms: rule.delay_min_ms,
        delay_max_ms: rule.delay_max_ms,
        is_enabled: rule.is_enabled,
    }
}

/// Evaluate a message against the rules, in order, and return the first
/// enabled keyword rule whose pattern the content contains.
pub fn evaluate_rules(rules: &Vec<Rule>, content: &String) -> (r: Option<Rule>)
    ensures
        r == first_firing_rule(rules@, content@),
{
    let n = rules.len();
    proof {
        assert(rules@.skip(0) =~= rules@);
    }
    let mut i: usize = 0;
    while i < n
        invariant
            n == rules@.len(),
            i <= n,
            first_firing_rule(rules@, content@) == first_firing_rule(
                rules@.skip(i as int),
                content@,
            ),
        decreases n - i,
    {
        proof {
            assert(rules@.skip(i as int)[0] == rules@[i as int]);
            assert(rules@.skip(i as int).drop_first() =~= rules@.skip(i + 1));
        }
        let rule = &rules[i];
        if rule.is_enabled && str_eq(rule.trigger_type.as_str(), "Keyword") && str_contains(
            content.as_str(),
            rule.trigger_pattern.as_str(),
        ) {
            return Some(clone_rule(rule));
        }
        proof {
            assert(!rule_fires(rules@[i as int], content@));
        }
        i = i + 1;
    }
    proof {
        assert(rules@.skip(n as int).len() == 0);
    }
    None
}

} // verus!
