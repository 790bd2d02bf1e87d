use vstd::prelude::*;

use crate::ids::{uuid_hyphenated, uuid_string};
use crate::receiver::{clamp, ReceiverService};
use crate::text::{decimal, join2, push_char, push_decimal, string_of, trim, trim_chars, trimmed};

verus! {

broadcast use vstd::string::group_string_axioms;

/// The settings of the chat widget.
#[derive(Clone, Debug)]
pub struct ChatSettings {
    pub launcher_color: String,
    pub bubble_color: String,
    pub panel_width_px: i32,
    pub max_message_length: i32,
    pub ticket_conversion_enabled: bool,
    pub allow_attachments: bool,
    pub max_attachment_size_mb: i32,
    pub auto_notify_ticket_events: bool,
}

/// The number of a ticket converted from a chat message: `INC`, the year and a number
/// from 10000 to 99999 drawn from a random value.
pub open spec fn chat_ticket_number_text(year: Seq<char>, random: u128) -> Seq<char> {
    "INC-"@ + year + seq!['-'] + decimal((random % 90000 + 10000) as nat)
}

/// The content of a ticket converted from a chat message: the override when given,
/// otherwise the message, with a note of its attachment when it has one.
pub open spec fn converted_content(
    content_override: Option<Seq<char>>,
    message: Seq<char>,
    attachment_name: Option<Seq<char>>,
) -> Seq<char> {
    match content_override {
        Some(c) => c,
        None => match attachment_name {
            Some(a) => message + "\n\n[Adjunto vinculado]: "@ + a,
            None => message,
        },
    }
}

/// The chat service: conversations, messages and their conversion into tickets.
pub struct ChatService;

impl ChatService {
    /// Urgency and impact of a converted ticket: as requested (3 by default), held within
    /// 1 to 5.
    pub fn conversion_levels(urgency: Option<i32>, impact: Option<i32>) -> (r: (i32, i32))
        ensures
            r.0 == clamp(
                match urgency {
                    Some(u) => u as int,
                    None => 3,
                },
                1,
                5,
            ),
            r.1 == clamp(
                match impact {
                    Some(i) => i as int,
                    None => 3,
                },
                1,
                5,
            ),
    {
        let u = match urgency {
            Some(u) => u,
            None => 3,
        };
        let i = match impact {
            Some(i) => i,
            None => 3,
        };
        (ReceiverService::clamp_level(u), ReceiverService::clamp_level(i))
    }

    /// The number of a ticket converted from a chat message (see
    /// `chat_ticket_number_text`).
    pub fn conversion_ticket_number(year: &str, random: u128) -> (r: String)
        ensures
            r@ == chat_ticket_number_text(year@, random),
    {
        let mut s = join2("INC-", year);
        push_char(&mut s, '-');
        let n = (random % 90000 + 10000) as u64;
        push_decimal(&mut s, n);
        assert(s@ =~= chat_ticket_number_text(year@, random));
        s
    }

    /// The content of a converted ticket (see `converted_content`).
    pub fn conversion_content(
        content_override: Option<String>,
        message: &str,
        attachment_name: Option<&str>,
    ) -> (r: String)
        ensures
            r@ == converted_content(
                crate::rules::patterns::opt_text(content_override),
                message@,
                crate::rules::engine::opt_str(attachment_name),
            ),
    {
        match content_override {
            Some(c) => c,
            None => match attachment_name {
                Some(a) => {
                    let s = join2(message, "\n\n[Adjunto vinculado]: ");
                    join2(s.as_str(), a)
                },
                None => message.to_string(),
            },
        }
    }

    /// The requester of a converted ticket: the message's author, or the converting user
    /// for a message without one.
    pub fn conversion_requester(message_author: Option<u128>, user_id: u128) -> (r: u128)
        ensures
            r == match message_author {
                Some(a) => a,
                None => user_id,
            },
    {
        match message_author {
            Some(a) => a,
            None => user_id,
        }
    }

    /// The category of a converted ticket: as requested, "Mesa de Ayuda" by default.
    pub fn conversion_category(category: Option<&str>) -> (r: String)
        ensures
            r@ == match category {
                Some(c) => c@,
                None => "Mesa de Ayuda"@,
            },
    {
        match category {
            Some(c) => c.to_string(),
            None => "Mesa de Ayuda".to_string(),
        }
    }

    /// The chat notice that a message became ticket `ticket_number`, quoting its trimmed
    /// name.
    pub fn conversion_notice(ticket_number: &str, name: &str) -> (r: String)
        ensures
            r@ == "📋 Mensaje convertido en Ticket #"@ + ticket_number@ + ": \""@ + trim(name@)
                + "\""@,
    {
        let a = join2("📋 Mensaje convertido en Ticket #", ticket_number);
        let b = join2(a.as_str(), ": \"");
        let c = join2(b.as_str(), trimmed(name).as_str());
        join2(c.as_str(), "\"")
    }

    /// The link of a ticket in the web interface.
    pub fn ticket_link(ticket_id: u128) -> (r: String)
        ensures
            r@ == "/tickets/"@ + uuid_hyphenated(ticket_id),
    {
        join2("/tickets/", uuid_string(ticket_id).as_str())
    }

    /// Whether a message can be sent: it needs text (not only whitespace) or an attachment.
    pub fn message_acceptable(content: &str, has_attachment: bool) -> (r: bool)
        ensures
            r == (trim(content@).len() > 0 || has_attachment),
    {
        trim_chars(content).len() > 0 || has_attachment
    }

    /// The name shown for a sender: first and last name, trimmed, or the user name when
    /// that is blank.
    pub fn sender_display_name(firstname: &str, realname: &str, username: &str) -> (r: String)
        ensures
            r@ == if trim(firstname@ + seq![' '] + realname@).len() == 0 {
                username@
            } else {
                trim(firstname@ + seq![' '] + realname@)
            },
    {
        let mut full = firstname.to_string();
        push_char(&mut full, ' ');
        full.append(realname);
        assert(full@ =~= firstname@ + seq![' '] + realname@);
        let t = trim_chars(full.as_str());
        if t.len() == 0 {
            username.to_string()
        } else {
            string_of(t.as_slice())
        }
    }

    /// The presence status a heartbeat records: as sent, `online` by default.
    pub fn presence_status(status: Option<String>) -> (r: String)
        ensures
            r@ == match status {
                Some(s) => s@,
                None => "online"@,
            },
    {
        match status {
            Some(s) => s,
            None => "online".to_string(),
        }
    }

    /// The settings in force when none are stored.
    pub fn default_settings() -> (r: ChatSettings)
        ensures
            r.launcher_color@ == "#EB4D3D"@,
            r.bubble_color@ == "#EB4D3D"@,
            r.panel_width_px == 380,
            r.max_message_length == 2000,
            r.ticket_conversion_enabled,
            r.allow_attachments,
            r.max_attachment_size_mb == 10,
            r.auto_notify_ticket_events,
    {
        ChatSettings {
            launcher_color: "#EB4D3D".to_string(),
            bubble_color: "#EB4D3D".to_string(),
            panel_width_px: 380,
            max_message_length: 2000,
            ticket_conversion_enabled: true,
            allow_attachments: true,
            max_attachment_size_mb: 10,
            auto_notify_ticket_events: true,
        }
    }
}

impl ChatService {
    /// The name a conversation shows: the system notifications for a user's own stream, the
    /// channel's name (or "Canal Grupal") for a group, and for a direct conversation the other
    /// person's name when it is not blank, else the conversation's name, else
    /// "Conversación Directa".
    pub fn conversation_display_name(
        is_self: bool,
        is_group: bool,
        name: Option<String>,
        direct_other_name: Option<String>,
    ) -> (r: String)
        ensures
            r@ == if is_self {
                "Notificaciones del Sistema"@
            } else if is_group {
                match name {
                    Some(n) => n@,
                    None => "Canal Grupal"@,
                }
            } else {
                match direct_other_name {
                    Some(o) if trim(o@).len() > 0 => o@,
                    _ => match name {
                        Some(n) => n@,
                        None => "Conversación Directa"@,
                    },
                }
            },
    {
        if is_self {
            "Notificaciones del Sistema".to_string()
        } else if is_group {
            match name {
                Some(n) => n,
                None => "Canal Grupal".to_string(),
            }
        } else {
            let other: Option<String> = match direct_other_name {
                Some(o) => if trim_chars(o.as_str()).len() > 0 {
                    Some(o)
                } else {
                    None
                },
                None => None,
            };
            match other {
                Some(o) => o,
                None => match name {
                    Some(n) => n,
                    None => "Conversación Directa".to_string(),
                },
            }
        }
    }
}

} // verus!
