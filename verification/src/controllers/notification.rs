//! The notification controller: the connection it sends to Sonarr.

use vstd::prelude::*;
use crate::api::models::NotificationResource;
use crate::controllers::utils::clone_ids;
use crate::crds::notification::{NotificationType, SonarrNotificationSpec};
use crate::text::string_of;

verus! {

/// Sonarr's implementation name for a notification type.
pub open spec fn implementation_text(t: NotificationType) -> Seq<char> {
    match t {
        NotificationType::Apprise => "Apprise"@,
        NotificationType::CustomScript => "CustomScript"@,
        NotificationType::Discord => "Discord"@,
        NotificationType::Email => "Email"@,
        NotificationType::Emby => "MediaBrowser"@,
        NotificationType::Gotify => "Gotify"@,
        NotificationType::Join => "Join"@,
        NotificationType::Kodi => "Xbmc"@,
        NotificationType::Mailgun => "Mailgun"@,
        NotificationType::Ntfy => "Ntfy"@,
        NotificationType::Plex => "PlexServer"@,
        NotificationType::Prowl => "Prowl"@,
        NotificationType::Pushbullet => "Pushbullet"@,
        NotificationType::Pushover => "Pushover"@,
        NotificationType::SendGrid => "SendGrid"@,
        NotificationType::Signal => "Signal"@,
        NotificationType::Simplepush => "Simplepush"@,
        NotificationType::Slack => "Slack"@,
        NotificationType::SynologyIndexer => "SynologyIndexer"@,
        NotificationType::Telegram => "Telegram"@,
        NotificationType::Trakt => "Trakt"@,
        NotificationType::Twitter => "Twitter"@,
        NotificationType::Webhook => "Webhook"@,
    }
}

/// A number that tells the names of `implementation_text` apart: the length and the
/// characters at a few positions.
spec fn implementation_text_key(n: Seq<char>) -> int {
    (n.len()) * 65536 + if n.len() > 3 { n[3] as int } else { 0 }
}

proof fn lemma_implementation_text_key(t: NotificationType)
    ensures
        implementation_text_key(implementation_text(t)) == match t {
            NotificationType::Apprise => 458866int,
            NotificationType::CustomScript => 786548int,
            NotificationType::Discord => 458851int,
            NotificationType::Email => 327785int,
            NotificationType::Emby => 786537int,
            NotificationType::Gotify => 393321int,
            NotificationType::Join => 262254int,
            NotificationType::Kodi => 262243int,
            NotificationType::Mailgun => 458860int,
            NotificationType::Ntfy => 262265int,
            NotificationType::Plex => 655480int,
            NotificationType::Prowl => 327799int,
            NotificationType::Pushbullet => 655464int,
            NotificationType::Pushover => 524392int,
            NotificationType::SendGrid => 524388int,
            NotificationType::Signal => 393326int,
            NotificationType::Simplepush => 655472int,
            NotificationType::Slack => 327779int,
            NotificationType::SynologyIndexer => 983151int,
            NotificationType::Telegram => 524389int,
            NotificationType::Trakt => 327787int,
            NotificationType::Twitter => 458868int,
            NotificationType::Webhook => 458856int,
        },
{
    match t {
            NotificationType::Apprise => { reveal_strlit("Apprise"); },
            NotificationType::CustomScript => { reveal_strlit("CustomScript"); },
            NotificationType::Discord => { reveal_strlit("Discord"); },
            NotificationType::Email => { reveal_strlit("Email"); },
            NotificationType::Emby => { reveal_strlit("MediaBrowser"); },
            NotificationType::Gotify => { reveal_strlit("Gotify"); },
            NotificationType::Join => { reveal_strlit("Join"); },
            NotificationType::Kodi => { reveal_strlit("Xbmc"); },
            NotificationType::Mailgun => { reveal_strlit("Mailgun"); },
            NotificationType::Ntfy => { reveal_strlit("Ntfy"); },
            NotificationType::Plex => { reveal_strlit("PlexServer"); },
            NotificationType::Prowl => { reveal_strlit("Prowl"); },
            NotificationType::Pushbullet => { reveal_strlit("Pushbullet"); },
            NotificationType::Pushover => { reveal_strlit("Pushover"); },
            NotificationType::SendGrid => { reveal_strlit("SendGrid"); },
            NotificationType::Signal => { reveal_strlit("Signal"); },
            NotificationType::Simplepush => { reveal_strlit("Simplepush"); },
            NotificationType::Slack => { reveal_strlit("Slack"); },
            NotificationType::SynologyIndexer => { reveal_strlit("SynologyIndexer"); },
            NotificationType::Telegram => { reveal_strlit("Telegram"); },
            NotificationType::Trakt => { reveal_strlit("Trakt"); },
            NotificationType::Twitter => { reveal_strlit("Twitter"); },
            NotificationType::Webhook => { reveal_strlit("Webhook"); },
    }
}

/// Sonarr's implementation names: each kind maps to this name.
pub proof fn lemma_implementation_names(t: NotificationType)
    ensures
        match t {
            NotificationType::Apprise => implementation_text(t) == "Apprise"@,
            NotificationType::CustomScript => implementation_text(t) == "CustomScript"@,
            NotificationType::Discord => implementation_text(t) == "Discord"@,
            NotificationType::Email => implementation_text(t) == "Email"@,
            NotificationType::Emby => implementation_text(t) == "MediaBrowser"@,
            NotificationType::Gotify => implementation_text(t) == "Gotify"@,
            NotificationType::Join => implementation_text(t) == "Join"@,
            NotificationType::Kodi => implementation_text(t) == "Xbmc"@,
            NotificationType::Mailgun => implementation_text(t) == "Mailgun"@,
            NotificationType::Ntfy => implementation_text(t) == "Ntfy"@,
            NotificationType::Plex => implementation_text(t) == "PlexServer"@,
            NotificationType::Prowl => implementation_text(t) == "Prowl"@,
            NotificationType::Pushbullet => implementation_text(t) == "Pushbullet"@,
            NotificationType::Pushover => implementation_text(t) == "Pushover"@,
            NotificationType::SendGrid => implementation_text(t) == "SendGrid"@,
            NotificationType::Signal => implementation_text(t) == "Signal"@,
            NotificationType::Simplepush => implementation_text(t) == "Simplepush"@,
            NotificationType::Slack => implementation_text(t) == "Slack"@,
            NotificationType::SynologyIndexer => implementation_text(t) == "SynologyIndexer"@,
            NotificationType::Telegram => implementation_text(t) == "Telegram"@,
            NotificationType::Trakt => implementation_text(t) == "Trakt"@,
            NotificationType::Twitter => implementation_text(t) == "Twitter"@,
            NotificationType::Webhook => implementation_text(t) == "Webhook"@,
        },
{
}

/// Distinct kinds get distinct names, so the name Sonarr receives tells
/// which kind the spec asked for.
pub proof fn lemma_implementation_names_distinct(a: NotificationType, b: NotificationType)
    requires
        implementation_text(a) == implementation_text(b),
    ensures
        a == b,
{
    lemma_implementation_text_key(a);
    lemma_implementation_text_key(b);
}

/// Sonarr's implementation name for a notification type.
pub fn get_implementation_name(t: &NotificationType) -> (s: String)
    ensures
        s@ == implementation_text(*t),
{
    match t {
        NotificationType::Apprise => string_of("Apprise"),
        NotificationType::CustomScript => string_of("CustomScript"),
        NotificationType::Discord => string_of("Discord"),
        NotificationType::Email => string_of("Email"),
        NotificationType::Emby => string_of("MediaBrowser"),
        NotificationType::Gotify => string_of("Gotify"),
        NotificationType::Join => string_of("Join"),
        NotificationType::Kodi => string_of("Xbmc"),
        NotificationType::Mailgun => string_of("Mailgun"),
        NotificationType::Ntfy => string_of("Ntfy"),
        NotificationType::Plex => string_of("PlexServer"),
        NotificationType::Prowl => string_of("Prowl"),
        NotificationType::Pushbullet => string_of("Pushbullet"),
        NotificationType::Pushover => string_of("Pushover"),
        NotificationType::SendGrid => string_of("SendGrid"),
        NotificationType::Signal => string_of("Signal"),
        NotificationType::Simplepush => string_of("Simplepush"),
        NotificationType::Slack => string_of("Slack"),
        NotificationType::SynologyIndexer => string_of("SynologyIndexer"),
        NotificationType::Telegram => string_of("Telegram"),
        NotificationType::Trakt => string_of("Trakt"),
        NotificationType::Twitter => string_of("Twitter"),
        NotificationType::Webhook => string_of("Webhook"),
    }
}

/// The connection to send: the spec's name, implementation, event
/// triggers and tags, and the recorded id for an update. The
/// import-complete trigger is not sent.
pub fn notification_payload(spec: &SonarrNotificationSpec, id: Option<i32>) -> (p: NotificationResource)
    ensures
        p.id == id,
        p.name == spec.name,
        p.implementation@ == implementation_text(spec.notification_type),
        p.on_grab == spec.triggers.on_grab,
        p.on_download == spec.triggers.on_download,
        p.on_upgrade == spec.triggers.on_upgrade,
        p.on_rename == spec.triggers.on_rename,
        p.on_series_add == spec.triggers.on_series_add,
        p.on_series_delete == spec.triggers.on_series_delete,
        p.on_episode_file_delete == spec.triggers.on_episode_file_delete,
        p.on_episode_file_delete_for_upgrade == spec.triggers.on_episode_file_delete_for_upgrade,
        p.on_health_issue == spec.triggers.on_health_issue,
        p.on_health_restored == spec.triggers.on_health_restored,
        p.on_application_update == spec.triggers.on_application_update,
        p.on_manual_interaction_required == spec.triggers.on_manual_interaction_required,
        p.include_health_warnings == spec.triggers.include_health_warnings,
        p.tags@ == spec.tags@,
{
    let t = spec.triggers;
    NotificationResource {
        id,
        name: spec.name.clone(),
        implementation: get_implementation_name(&spec.notification_type),
        on_grab: t.on_grab,
        on_download: t.on_download,
        on_upgrade: t.on_upgrade,
        on_rename: t.on_rename,
        on_series_add: t.on_series_add,
        on_series_delete: t.on_series_delete,
        on_episode_file_delete: t.on_episode_file_delete,
        on_episode_file_delete_for_upgrade: t.on_episode_file_delete_for_upgrade,
        on_health_issue: t.on_health_issue,
        on_health_restored: t.on_health_restored,
        on_application_update: t.on_application_update,
        on_manual_interaction_required: t.on_manual_interaction_required,
        include_health_warnings: t.include_health_warnings,
        tags: clone_ids(&spec.tags),
    }
}

} // verus!
