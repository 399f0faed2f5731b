//! The alert that tells the community that the game server came up or
//! went down.

use crate::id::Id;
use crate::log::Level;
use crate::paradise::config::ConfigView;
use crate::paradise::Service;
use crate::text::{contains_text, decimal, occurs_at, push_decimal};
use twilight_mention::Mention;
use vstd::prelude::*;
use vstd::string::*;

verus! {

/// The alert was not delivered.
#[derive(Debug, Clone, Copy, PartialEq, Eq)]
pub struct AlertEveryoneError;

impl AlertEveryoneError {
    /// The message of the error.
    pub fn to_string(&self) -> (message: String)
        ensures
            message@ == "Failed to alert everyone on Discord"@,
    {
        "Failed to alert everyone on Discord".to_owned()
    }
}

/// A message for one channel.
#[derive(Debug)]
pub struct Alert {
    /// The channel that the message is sent to.
    pub channel_id: Id,
    /// The text of the message.
    pub content: String,
}

/// How a role is mentioned in a message: `<@&` and `>` around its number.
pub open spec fn role_mention(id: u64) -> Seq<char> {
    "<@&"@ + decimal(id as nat) + ">"@
}

/// `Display` of what `twilight_mention::Mention::mention` gives for the
/// identifier of a role: `<@&`, the identifier in decimal, `>`.
#[verifier::external_body]
fn mention_role(id: u64) -> (mention: String)
    requires
        id != 0,
    ensures
        mention@ == role_mention(id),
{
    twilight_model::id::Id::<twilight_model::id::marker::RoleMarker>::new(id).mention().to_string()
}

/// Where the game server is found: its address, a colon, its port.
pub open spec fn server_place(config: ConfigView) -> Seq<char> {
    config.sanctuary_addr + ":"@ + decimal(config.sanctuary_port as nat)
}

/// The text of the alert. Either alert ends with a mention of the role to
/// alert. That the server is back is said with its address and port; that it
/// went down is said without them.
pub open spec fn alert_content(config: ConfigView, is_online: bool) -> Seq<char> {
    if is_online {
        "🎉  **Sanctuary is back online!** 🎉\nJoin us at: `"@ + server_place(config) + "`\n\n"@
            + role_mention(config.alert_role_id@)
    } else {
        "❌  **Sanctuary is offline** ❌\nJoin with us next time.\n\n"@ + role_mention(
            config.alert_role_id@,
        )
    }
}

/// The alert for the community's channel that the game server is online,
/// or that it is not. Sending it is left to the caller.
pub fn alert_everyone(service: &Service, is_online: bool) -> (alert: Alert)
    ensures
        alert.channel_id == service@.alert_channel_id,
        alert.content@ == alert_content(service@, is_online),
{
    let config = service.config();
    let mut content = if is_online {
        let mut content = "🎉  **Sanctuary is back online!** 🎉\nJoin us at: `".to_owned();
        let ghost head = content@;
        content.append(config.sanctuary_addr());
        content.append(":");
        push_decimal(&mut content, config.sanctuary_port() as u64);
        assert(content@ =~= head + server_place(service@));
        content.append("`\n\n");
        content
    } else {
        "❌  **Sanctuary is offline** ❌\nJoin with us next time.\n\n".to_owned()
    };
    let mention = mention_role(config.alert_role_id().get());
    content.append(mention.as_str());
    Alert { channel_id: config.alert_channel_id(), content }
}

/// What is done about the delivery of an alert: a failure is logged as an
/// error, and that is all. Nothing is sent again and nothing shuts down.
pub fn delivery_log(delivery: Result<(), AlertEveryoneError>) -> (log: Option<Level>)
    ensures
        log == match delivery {
            Ok(_) => None,
            Err(_) => Some(Level::Error),
        },
{
    match delivery {
        Ok(_) => None,
        Err(_) => Some(Level::Error),
    }
}

/// Whether a text holds no colon.
pub open spec fn without_colon(text: Seq<char>) -> bool {
    forall|i: int| 0 <= i < text.len() ==> #[trigger] text[i] != ':'
}

/// A number in decimal holds no colon.
proof fn lemma_decimal_without_colon(n: nat)
    ensures
        without_colon(decimal(n)),
    decreases n,
{
    if n >= 10 {
        lemma_decimal_without_colon(n / 10);
    }
}

/// The alert that the server went down holds no colon.
proof fn lemma_offline_alert_without_colon(config: ConfigView)
    ensures
        without_colon(alert_content(config, false)),
{
    reveal_strlit("❌  **Sanctuary is offline** ❌\nJoin with us next time.\n\n");
    reveal_strlit("<@&");
    reveal_strlit(">");
    lemma_decimal_without_colon(config.alert_role_id@ as nat);
    let words = "❌  **Sanctuary is offline** ❌\nJoin with us next time.\n\n"@;
    assert(without_colon(words));
    assert(without_colon("<@&"@));
    assert(without_colon(">"@));
}

/// Either alert mentions the role to alert, and only the alert that the
/// server is back says where the server is found: the alert that it went down
/// holds neither address nor port. So the two alerts never read the same.
pub proof fn lemma_alerts_mention_role_and_only_online_places(config: ConfigView)
    ensures
        contains_text(alert_content(config, true), role_mention(config.alert_role_id@)),
        contains_text(alert_content(config, false), role_mention(config.alert_role_id@)),
        contains_text(alert_content(config, true), server_place(config)),
        !contains_text(alert_content(config, false), server_place(config)),
        alert_content(config, true) != alert_content(config, false),
{
    let mention = role_mention(config.alert_role_id@);
    let place = server_place(config);
    let online = alert_content(config, true);
    let offline = alert_content(config, false);
    let back = "🎉  **Sanctuary is back online!** 🎉\nJoin us at: `"@;
    let gone = "❌  **Sanctuary is offline** ❌\nJoin with us next time.\n\n"@;

    let online_at = online.len() - mention.len();
    assert(online.subrange(online_at, online_at + mention.len()) =~= mention);
    assert(occurs_at(online, mention, online_at));
    assert(offline.subrange(gone.len() as int, (gone.len() + mention.len()) as int) =~= mention);
    assert(occurs_at(offline, mention, gone.len() as int));
    assert(online.subrange(back.len() as int, (back.len() + place.len()) as int) =~= place);
    assert(occurs_at(online, place, back.len() as int));

    reveal_strlit(":");
    let colon = config.sanctuary_addr.len() as int;
    assert(place[colon] == ':');
    lemma_offline_alert_without_colon(config);
    assert forall|at: int| !occurs_at(offline, place, at) by {
        if occurs_at(offline, place, at) {
            assert(offline.subrange(at, at + place.len())[colon] == place[colon]);
            assert(offline[at + colon] == ':');
        }
    }
    assert(online[back.len() + colon] == ':');
}

} // verus!
