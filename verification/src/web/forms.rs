use vstd::prelude::*;

use crate::chat::ChatSettings;
use crate::text::{chars_are, chars_of};
use crate::web::helpers::{clamp_int, is_checked};

verus! {

broadcast use vstd::string::group_string_axioms;

/// The login form.
#[derive(Clone, Debug)]
pub struct LoginForm {
    pub username: String,
    pub password: String,
}

/// The query of the campaigns page.
#[derive(Clone, Debug, Default)]
pub struct CampaignsQuery {
    pub tab: Option<String>,
    pub message: Option<String>,
    pub error: Option<String>,
}

/// The form that creates a marketing segment with one condition.
#[derive(Clone, Debug)]
pub struct CreateSegmentWebForm {
    pub name: String,
    pub description: Option<String>,
    pub rule_field: Option<String>,
    pub rule_operator: Option<String>,
    pub rule_value: Option<String>,
}

/// The form that registers a marketing contact; tags are comma-separated.
#[derive(Clone, Debug)]
pub struct CreateContactWebForm {
    pub email: String,
    pub first_name: String,
    pub last_name: Option<String>,
    pub company: Option<String>,
    pub phone: Option<String>,
    pub stage: Option<String>,
    pub points: Option<i32>,
    pub tags: Option<String>,
}

/// The form that creates a marketing e-mail template.
#[derive(Clone, Debug)]
pub struct CreateEmailTemplateWebForm {
    pub name: String,
    pub subject: String,
    pub body_html: String,
    pub from_name: Option<String>,
    pub from_email: Option<String>,
}

/// The query of a tracked link.
#[derive(Clone, Debug)]
pub struct TrackingClickQuery {
    pub url: Option<String>,
}

/// The filters of the ticket list.
#[derive(Clone, Debug, Default)]
pub struct FilterTicketsWebQuery {
    pub search: Option<String>,
    pub status: Option<String>,
    pub ticket_type: Option<String>,
    pub priority: Option<i32>,
    pub sla_status: Option<String>,
    pub page: Option<i64>,
    pub limit: Option<i64>,
}

/// The form that adds a followup to a ticket.
#[derive(Clone, Debug)]
pub struct CreateFollowupWebForm {
    pub content: String,
    pub item_type: Option<String>,
    pub is_private: Option<String>,
}

/// The form that changes a ticket's status.
#[derive(Clone, Debug)]
pub struct UpdateStatusWebForm {
    pub status: String,
}

/// The form that changes a ticket's category, urgency and impact.
#[derive(Clone, Debug)]
pub struct UpdateClassificationWebForm {
    pub category: Option<String>,
    pub urgency: i32,
    pub impact: i32,
}

/// The form that creates a survey from a preset.
#[derive(Clone, Debug)]
pub struct InstantiatePresetForm {
    pub preset_key: String,
}

/// The form of the chat settings; checkboxes send `true` or `on` when ticked.
#[derive(Clone, Debug)]
pub struct UpdateChatSettingsWebForm {
    pub launcher_color: Option<String>,
    pub bubble_color: Option<String>,
    pub panel_width_px: Option<i32>,
    pub max_attachment_size_mb: Option<i32>,
    pub ticket_conversion_enabled: Option<String>,
    pub allow_attachments: Option<String>,
    pub auto_notify_ticket_events: Option<String>,
}

/// The filters of the asset list.
#[derive(Clone, Debug, Default)]
pub struct FilterAssetsWebQuery {
    pub search: Option<String>,
    pub asset_type: Option<String>,
    pub status: Option<String>,
    pub page: Option<i64>,
    pub limit: Option<i64>,
}

/// The filters of the user list.
#[derive(Clone, Debug, Default)]
pub struct FilterUsersWebQuery {
    pub search: Option<String>,
    pub profile: Option<String>,
    pub status: Option<String>,
}

/// The tab of the rules page.
#[derive(Clone, Debug, Default)]
pub struct RuleTabQuery {
    pub tab: Option<String>,
}

/// The form that creates a rule with one criterion and one action.
#[derive(Clone, Debug)]
pub struct CreateRuleWebForm {
    pub name: String,
    pub rule_type: String,
    pub description: Option<String>,
    pub ranking: Option<i32>,
    pub match_logic: Option<String>,
    pub stop_on_first_match: Option<String>,
    pub criterion_field: String,
    pub criterion_operator: String,
    pub criterion_pattern: String,
    pub action_type: String,
    pub action_field: String,
    pub action_value: String,
}

/// The tab of the mail configuration page.
#[derive(Clone, Debug)]
pub struct MailConfigQuery {
    pub tab: Option<String>,
}

/// The form of the outgoing mail settings.
#[derive(Clone, Debug)]
pub struct SmtpSettingsForm {
    pub notifications_enabled: Option<String>,
    pub email_followups_enabled: Option<String>,
    pub from_name: Option<String>,
    pub from_email: Option<String>,
    pub reply_to_email: Option<String>,
    pub admin_name: Option<String>,
    pub admin_email: Option<String>,
    pub smtp_host: Option<String>,
    pub smtp_port: Option<i32>,
    pub smtp_encryption: Option<String>,
    pub smtp_username: Option<String>,
    pub smtp_password: Option<String>,
    pub subject_prefix: Option<String>,
    pub email_signature: Option<String>,
    pub max_retries: Option<i32>,
    pub retry_interval_minutes: Option<i32>,
}

/// The form that sends a test mail.
#[derive(Clone, Debug)]
pub struct TestSmtpForm {
    pub to_email: String,
}

/// The form that simulates an incoming mail.
#[derive(Clone, Debug)]
pub struct SimulateIncomingForm {
    pub from_email: String,
    pub from_name: Option<String>,
    pub subject: String,
    pub body: String,
}

/// The rule settings that the rule form gives: ranking (10 by default), match logic (`AND`
/// by default) and whether the rule stops the pipeline (by default yes; when given, only
/// for `true` or `1`).
#[derive(Clone, Debug)]
pub struct RuleFormSettings {
    pub ranking: i32,
    pub match_logic: String,
    pub stop_on_first_match: bool,
}

/// The outgoing mail settings that the settings form gives, defaults filled in.
#[derive(Clone, Debug)]
pub struct SmtpSettings {
    pub notifications_enabled: bool,
    pub email_followups_enabled: bool,
    pub from_name: String,
    pub from_email: String,
    pub reply_to_email: String,
    pub admin_name: String,
    pub admin_email: String,
    pub smtp_host: String,
    pub smtp_port: i32,
    pub smtp_encryption: String,
    pub smtp_username: String,
    pub subject_prefix: String,
    pub email_signature: String,
    pub max_retries: i32,
    pub retry_interval_minutes: i32,
}

/// A text or a default.
pub open spec fn or_text(o: Option<String>, d: Seq<char>) -> Seq<char> {
    match o {
        Some(s) => s@,
        None => d,
    }
}

/// Whether an optional form value is the text `true`.
pub open spec fn is_true(o: Option<String>) -> bool {
    match o {
        Some(s) => s@ == "true"@,
        None => false,
    }
}

/// Whether an optional checkbox value is ticked (`true` or `on`).
pub open spec fn ticked(o: Option<String>) -> bool {
    match o {
        Some(s) => s@ == "true"@ || s@ == "on"@,
        None => false,
    }
}

fn or_default(o: Option<String>, d: &str) -> (r: String)
    ensures
        r@ == or_text(o, d@),
{
    match o {
        Some(s) => s,
        None => d.to_string(),
    }
}

fn checked(o: &Option<String>) -> (r: bool)
    ensures
        r == ticked(*o),
{
    match o {
        Some(s) => is_checked(Some(s.as_str())),
        None => false,
    }
}

impl CreateRuleWebForm {
    /// The rule settings the form gives (see `RuleFormSettings`).
    pub fn settings(&self) -> (r: RuleFormSettings)
        ensures
            r.ranking == match self.ranking {
                Some(v) => v,
                None => 10,
            },
            r.match_logic@ == or_text(self.match_logic, "AND"@),
            r.stop_on_first_match == match self.stop_on_first_match {
                Some(s) => s@ == "true"@ || s@ == "1"@,
                None => true,
            },
    {
        let ranking = match self.ranking {
            Some(v) => v,
            None => 10,
        };
        let match_logic = match &self.match_logic {
            Some(m) => m.clone(),
            None => "AND".to_string(),
        };
        let stop = match &self.stop_on_first_match {
            Some(s) => {
                let cs = chars_of(s.as_str());
                chars_are(cs.as_slice(), "true") || chars_are(cs.as_slice(), "1")
            },
            None => true,
        };
        RuleFormSettings { ranking, match_logic, stop_on_first_match: stop }
    }
}

impl UpdateChatSettingsWebForm {
    /// The chat settings the form gives: colours `#eb4d3d` by default, panel width 380 by
    /// default held within 300 to 600, messages of at most 2000 characters, attachments of
    /// 10 MB by default held within 1 to 50, and each switch on when its box is ticked.
    pub fn into_settings(self) -> (r: ChatSettings)
        ensures
            r.launcher_color@ == or_text(self.launcher_color, "#eb4d3d"@),
            r.bubble_color@ == or_text(self.bubble_color, "#eb4d3d"@),
            r.panel_width_px == clamp_int(
                match self.panel_width_px {
                    Some(w) => w as int,
                    None => 380,
                },
                300,
                600,
            ),
            r.max_message_length == 2000,
            r.ticket_conversion_enabled == ticked(self.ticket_conversion_enabled),
            r.allow_attachments == ticked(self.allow_attachments),
            r.max_attachment_size_mb == clamp_int(
                match self.max_attachment_size_mb {
                    Some(m) => m as int,
                    None => 10,
                },
                1,
                50,
            ),
            r.auto_notify_ticket_events == ticked(self.auto_notify_ticket_events),
    {
        let w = match self.panel_width_px {
            Some(w) => w,
            None => 380,
        };
        let width = if w < 300 {
            300
        } else if w > 600 {
            600
        } else {
            w
        };
        let m = match self.max_attachment_size_mb {
            Some(m) => m,
            None => 10,
        };
        let size = if m < 1 {
            1
        } else if m > 50 {
            50
        } else {
            m
        };
        let ticket_conversion_enabled = checked(&self.ticket_conversion_enabled);
        let allow_attachments = checked(&self.allow_attachments);
        let auto_notify_ticket_events = checked(&self.auto_notify_ticket_events);
        ChatSettings {
            launcher_color: or_default(self.launcher_color, "#eb4d3d"),
            bubble_color: or_default(self.bubble_color, "#eb4d3d"),
            panel_width_px: width,
            max_message_length: 2000,
            ticket_conversion_enabled,
            allow_attachments,
            max_attachment_size_mb: size,
            auto_notify_ticket_events,
        }
    }
}

impl SmtpSettingsForm {
    /// The outgoing mail settings the form gives: switches on only for `true`, and the
    /// defaults of the service for what the form leaves out.
    pub fn into_settings(self) -> (r: SmtpSettings)
        ensures
            r.notifications_enabled == is_true(self.notifications_enabled),
            r.email_followups_enabled == is_true(self.email_followups_enabled),
            r.from_name@ == or_text(self.from_name, "ITILSuite Helpdesk"@),
            r.from_email@ == or_text(self.from_email, "helpdesk@itilsuite.local"@),
            r.reply_to_email@ == or_text(self.reply_to_email, Seq::empty()),
            r.admin_name@ == or_text(self.admin_name, "Administrador ITILSuite"@),
            r.admin_email@ == or_text(self.admin_email, "admin@itilsuite.local"@),
            r.smtp_host@ == or_text(self.smtp_host, "localhost"@),
            r.smtp_port == match self.smtp_port {
                Some(p) => p,
                None => 1025,
            },
            r.smtp_encryption@ == or_text(self.smtp_encryption, "none"@),
            r.smtp_username@ == or_text(self.smtp_username, Seq::empty()),
            r.subject_prefix@ == or_text(self.subject_prefix, "[ITILSuite]"@),
            r.email_signature@ == or_text(self.email_signature, Seq::empty()),
            r.max_retries == match self.max_retries {
                Some(v) => v,
                None => 3,
            },
            r.retry_interval_minutes == match self.retry_interval_minutes {
                Some(v) => v,
                None => 5,
            },
    {
        proof {
            reveal_strlit("");
            assert(""@ =~= Seq::<char>::empty());
        }
        let notifications_enabled = match &self.notifications_enabled {
            Some(s) => chars_are(chars_of(s.as_str()).as_slice(), "true"),
            None => false,
        };
        let email_followups_enabled = match &self.email_followups_enabled {
            Some(s) => chars_are(chars_of(s.as_str()).as_slice(), "true"),
            None => false,
        };
        SmtpSettings {
            notifications_enabled,
            email_followups_enabled,
            from_name: or_default(self.from_name, "ITILSuite Helpdesk"),
            from_email: or_default(self.from_email, "helpdesk@itilsuite.local"),
            reply_to_email: or_default(self.reply_to_email, ""),
            admin_name: or_default(self.admin_name, "Administrador ITILSuite"),
            admin_email: or_default(self.admin_email, "admin@itilsuite.local"),
            smtp_host: or_default(self.smtp_host, "localhost"),
            smtp_port: match self.smtp_port {
                Some(p) => p,
                None => 1025,
            },
            smtp_encryption: or_default(self.smtp_encryption, "none"),
            smtp_username: or_default(self.smtp_username, ""),
            subject_prefix: or_default(self.subject_prefix, "[ITILSuite]"),
            email_signature: or_default(self.email_signature, ""),
            max_retries: match self.max_retries {
                Some(v) => v,
                None => 3,
            },
            retry_interval_minutes: match self.retry_interval_minutes {
                Some(v) => v,
                None => 5,
            },
        }
    }
}

} // verus!
