//! Configuration file locations and the initial settings template. Reading
//! the configuration directory from the environment, and the file I/O
//! itself, are the caller's affair; the path and default computations live
//! here.

use vstd::prelude::*;

use crate::models::EmailConfig;
use crate::models::Settings;
use crate::models::WacraftConfig;

verus! {

/// Name of the application's configuration directory.
pub fn config_dir_name() -> (r: &'static str)
    ensures
        r@ == "wacraft-reminders"@,
{
    "wacraft-reminders"
}

/// The full path of the settings file under the configuration directory.
pub fn get_settings_path(config_dir: &str) -> (r: String)
    ensures
        r@ == config_dir@ + "/settings.json"@,
{
    config_dir.to_owned().concat("/settings.json")
}

/// The full path of the reminder-rules file under the configuration
/// directory.
pub fn get_reminders_path(config_dir: &str) -> (r: String)
    ensures
        r@ == config_dir@ + "/reminders.json"@,
{
    config_dir.to_owned().concat("/reminders.json")
}

/// The path of the daemon's PID file.
pub fn get_pid_path() -> (r: String)
    ensures
        r@ == ".wacraft-reminders.pid"@,
{
    ".wacraft-reminders.pid".to_owned()
}

/// The path of the daemon's log file.
pub fn get_log_path() -> (r: String)
    ensures
        r@ == ".wacraft-reminders.log"@,
{
    ".wacraft-reminders.log".to_owned()
}

/// The settings template written at initialization: placeholder
/// credentials and no stored token.
pub fn default_settings() -> (s: Settings)
    ensures
        s.wacraft.base_url@ == "https://api.wacraft.com.br"@,
        s.wacraft.email@ == "user@example.com"@,
        s.wacraft.password@ == "your_password"@,
        s.wacraft.access_token is None,
        s.wacraft.refresh_token is None,
        s.wacraft.token_expires_at is None,
        s.wacraft.wf(),
        s.email.smtp_server@ == "smtp.example.com"@,
        s.email.smtp_port == 587,
        s.email.smtp_user@ == "user@example.com"@,
        s.email.smtp_password@ == "your_smtp_password"@,
        s.email.from_address@ == "reminders@wacraft.com"@,
{
    Settings {
        wacraft: WacraftConfig {
            base_url: "https://api.wacraft.com.br".to_owned(),
            email: "user@example.com".to_owned(),
            password: "your_password".to_owned(),
            access_token: None,
            refresh_token: None,
            token_expires_at: None,
        },
        email: EmailConfig {
            smtp_server: "smtp.example.com".to_owned(),
            smtp_port: 587,
            smtp_user: "user@example.com".to_owned(),
            smtp_password: "your_smtp_password".to_owned(),
            from_address: "reminders@wacraft.com".to_owned(),
        },
    }
}

} // verus!
