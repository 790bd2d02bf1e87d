use vstd::prelude::*;

use crate::receiver::CollectResult;
use crate::text::{chars_are, chars_of};

verus! {

/// A page to render as HTML.
pub struct HtmlTemplate<T>(pub T);

/// The login page.
#[derive(Clone, Debug)]
pub struct LoginTemplate {
    pub error_message: Option<String>,
}

/// The result of a test mail.
#[derive(Clone, Debug)]
pub struct SmtpTestResultPartialTemplate {
    pub success: bool,
    pub message: String,
}

/// The outcome of a collection run on a mail receiver.
#[derive(Clone, Debug)]
pub struct CollectResultPartialTemplate {
    pub result: CollectResult,
}

/// The contracts page.
#[derive(Clone, Debug)]
pub struct ContractsTemplate {
    pub current_username: String,
    pub current_display_name: String,
    pub current_profile_name: String,
    pub user_initials: String,
    pub active_entity_name: String,
    pub active_nav: String,
    pub active_contracts_count: i64,
    pub active_warranties_count: i64,
    pub active_licenses_count: i64,
    pub expiring_soon_count: i64,
}

/// The page of an unsubscription.
#[derive(Clone, Debug)]
pub struct UnsubscribeTemplate {
    pub contact_email: Option<String>,
    pub is_success: bool,
    pub message: String,
}

/// The tabs of the mail configuration page.
pub struct MailConfigTabs;

impl MailConfigTabs {
    /// Whether the SMTP tab shows: it is chosen, or no tab is.
    pub fn is_smtp_tab(active_tab: &str) -> (r: bool)
        ensures
            r == (active_tab@ == "smtp"@ || active_tab@.len() == 0),
    {
        let t = chars_of(active_tab);
        chars_are(t.as_slice(), "smtp") || t.len() == 0
    }

    /// Whether the receivers tab shows.
    pub fn is_receivers_tab(active_tab: &str) -> (r: bool)
        ensures
            r == (active_tab@ == "receivers"@),
    {
        chars_are(chars_of(active_tab).as_slice(), "receivers")
    }

    /// Whether the templates tab shows.
    pub fn is_templates_tab(active_tab: &str) -> (r: bool)
        ensures
            r == (active_tab@ == "templates"@),
    {
        chars_are(chars_of(active_tab).as_slice(), "templates")
    }

    /// Whether the queue tab shows.
    pub fn is_queue_tab(active_tab: &str) -> (r: bool)
        ensures
            r == (active_tab@ == "queue"@),
    {
        chars_are(chars_of(active_tab).as_slice(), "queue")
    }
}

} // verus!
