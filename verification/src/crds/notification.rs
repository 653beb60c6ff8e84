//! The `SonarrNotification` resource: a notification connection in Sonarr.

use vstd::prelude::*;
use crate::crds::{SecretKeySelector, SonarrInstanceRef};
use crate::meta::Condition;

verus! {

/// Desired state of a notification connection.
pub struct SonarrNotificationSpec {
    pub sonarr_instance_ref: SonarrInstanceRef,
    /// Notification name
    pub name: String,
    /// Notification implementation
    pub notification_type: NotificationType,
    pub tags: Vec<i32>,
    /// Events that trigger the notification
    pub triggers: NotificationTriggers,
    pub config: NotificationConfig,
}

/// Notification implementations.
#[derive(Clone, Copy, Debug, PartialEq, Eq, Structural)]
pub enum NotificationType {
    Apprise,
    CustomScript,
    Discord,
    Email,
    Emby,
    Gotify,
    Join,
    Kodi,
    Mailgun,
    Ntfy,
    Plex,
    Prowl,
    Pushbullet,
    Pushover,
    SendGrid,
    Signal,
    Simplepush,
    Slack,
    SynologyIndexer,
    Telegram,
    Trakt,
    Twitter,
    Webhook,
}

/// Events that trigger a notification.
#[derive(Clone, Copy)]
pub struct NotificationTriggers {
    pub on_grab: bool,
    pub on_download: bool,
    pub on_upgrade: bool,
    pub on_rename: bool,
    pub on_series_add: bool,
    pub on_series_delete: bool,
    pub on_episode_file_delete: bool,
    pub on_episode_file_delete_for_upgrade: bool,
    pub on_health_issue: bool,
    pub on_health_restored: bool,
    pub on_application_update: bool,
    pub on_manual_interaction_required: bool,
    pub on_import_complete: bool,
    pub include_health_warnings: bool,
}

/// Settings of the notification's target.
pub struct NotificationConfig {
    pub url: Option<String>,
    pub method: Option<i32>,
    pub username: Option<String>,
    pub password_secret_ref: Option<SecretKeySelector>,
    pub webhook_url: Option<String>,
    pub avatar: Option<String>,
    pub discord_username: Option<String>,
    pub bot_token_secret_ref: Option<SecretKeySelector>,
    pub chat_id: Option<String>,
    pub send_silently: bool,
    pub server: Option<String>,
    pub port: Option<i32>,
    pub use_ssl: bool,
    pub require_encryption: bool,
    pub from: Option<String>,
    pub to: Vec<String>,
    pub cc: Vec<String>,
    pub bcc: Vec<String>,
    pub slack_webhook_url: Option<String>,
    pub channel: Option<String>,
    pub icon: Option<String>,
    pub host: Option<String>,
    pub auth_token_secret_ref: Option<SecretKeySelector>,
    pub update_library: bool,
    pub map_to: Option<String>,
    pub app_token_secret_ref: Option<SecretKeySelector>,
    pub priority: Option<i32>,
    pub user_key_secret_ref: Option<SecretKeySelector>,
    pub api_key_secret_ref: Option<SecretKeySelector>,
    pub devices: Vec<String>,
    pub sound: Option<String>,
    pub retry: Option<i32>,
    pub expire: Option<i32>,
    pub path: Option<String>,
    pub arguments: Option<String>,
    pub server_url: Option<String>,
    pub topic: Option<String>,
    pub click_url: Option<String>,
    pub ntfy_tags: Vec<String>,
}

/// Observed state of a notification connection.
pub struct SonarrNotificationStatus {
    pub conditions: Vec<Condition>,
    pub id: Option<i32>,
    pub observed_generation: i64,
}

impl Default for NotificationTriggers {
    /// Every setting unset: empty, absent, false or zero.
    fn default() -> (r: NotificationTriggers)
        ensures
            !r.on_grab,
            !r.on_download,
            !r.on_upgrade,
            !r.on_rename,
            !r.on_series_add,
            !r.on_series_delete,
            !r.on_episode_file_delete,
            !r.on_episode_file_delete_for_upgrade,
            !r.on_health_issue,
            !r.on_health_restored,
            !r.on_application_update,
            !r.on_manual_interaction_required,
            !r.on_import_complete,
            !r.include_health_warnings,
    {
        NotificationTriggers {
            on_grab: false,
            on_download: false,
            on_upgrade: false,
            on_rename: false,
            on_series_add: false,
            on_series_delete: false,
            on_episode_file_delete: false,
            on_episode_file_delete_for_upgrade: false,
            on_health_issue: false,
            on_health_restored: false,
            on_application_update: false,
            on_manual_interaction_required: false,
            on_import_complete: false,
            include_health_warnings: false,
        }
    }
}

impl Default for NotificationConfig {
    /// Every setting unset: empty, absent, false or zero.
    fn default() -> (r: NotificationConfig)
        ensures
            r.url is None,
            r.method is None,
            r.username is None,
            r.password_secret_ref is None,
            r.webhook_url is None,
            r.avatar is None,
            r.discord_username is None,
            r.bot_token_secret_ref is None,
            r.chat_id is None,
            !r.send_silently,
            r.server is None,
            r.port is None,
            !r.use_ssl,
            !r.require_encryption,
            r.from is None,
            r.to@.len() == 0,
            r.cc@.len() == 0,
            r.bcc@.len() == 0,
            r.slack_webhook_url is None,
            r.channel is None,
            r.icon is None,
            r.host is None,
            r.auth_token_secret_ref is None,
            !r.update_library,
            r.map_to is None,
            r.app_token_secret_ref is None,
            r.priority is None,
            r.user_key_secret_ref is None,
            r.api_key_secret_ref is None,
            r.devices@.len() == 0,
            r.sound is None,
            r.retry is None,
            r.expire is None,
            r.path is None,
            r.arguments is None,
            r.server_url is None,
            r.topic is None,
            r.click_url is None,
            r.ntfy_tags@.len() == 0,
    {
        NotificationConfig {
            url: None,
            method: None,
            username: None,
            password_secret_ref: None,
            webhook_url: None,
            avatar: None,
            discord_username: None,
            bot_token_secret_ref: None,
            chat_id: None,
            send_silently: false,
            server: None,
            port: None,
            use_ssl: false,
            require_encryption: false,
            from: None,
            to: Vec::new(),
            cc: Vec::new(),
            bcc: Vec::new(),
            slack_webhook_url: None,
            channel: None,
            icon: None,
            host: None,
            auth_token_secret_ref: None,
            update_library: false,
            map_to: None,
            app_token_secret_ref: None,
            priority: None,
            user_key_secret_ref: None,
            api_key_secret_ref: None,
            devices: Vec::new(),
            sound: None,
            retry: None,
            expire: None,
            path: None,
            arguments: None,
            server_url: None,
            topic: None,
            click_url: None,
            ntfy_tags: Vec::new(),
        }
    }
}

impl Default for SonarrNotificationStatus {
    /// Every setting unset: empty, absent, false or zero.
    fn default() -> (r: SonarrNotificationStatus)
        ensures
            r.conditions@.len() == 0,
            r.id is None,
            r.observed_generation == 0,
    {
        SonarrNotificationStatus {
            conditions: Vec::new(),
            id: None,
            observed_generation: 0,
        }
    }
}

} // verus!
