use wacraft_reminders::config::config_dir_name;
use wacraft_reminders::config::default_settings;
use wacraft_reminders::config::get_log_path;
use wacraft_reminders::config::get_pid_path;
use wacraft_reminders::config::get_reminders_path;
use wacraft_reminders::config::get_settings_path;

#[test]
fn file_paths_live_under_the_config_dir() {
    assert_eq!(config_dir_name(), "wacraft-reminders");
    assert_eq!(
        get_settings_path("/home/u/.config/wacraft-reminders"),
        "/home/u/.config/wacraft-reminders/settings.json"
    );
    assert_eq!(
        get_reminders_path("/home/u/.config/wacraft-reminders"),
        "/home/u/.config/wacraft-reminders/reminders.json"
    );
}

#[test]
fn daemon_files_have_fixed_names() {
    assert_eq!(get_pid_path(), ".wacraft-reminders.pid");
    assert_eq!(get_log_path(), ".wacraft-reminders.log");
}

#[test]
fn initial_settings_hold_placeholders_and_no_token() {
    let s = default_settings();
    assert_eq!(s.wacraft.base_url, "https://api.wacraft.com.br");
    assert_eq!(s.wacraft.email, "user@example.com");
    assert_eq!(s.wacraft.password, "your_password");
    assert!(s.wacraft.access_token.is_none());
    assert!(s.wacraft.refresh_token.is_none());
    assert!(s.wacraft.token_expires_at.is_none());
    assert_eq!(s.email.smtp_server, "smtp.example.com");
    assert_eq!(s.email.smtp_port, 587);
    assert_eq!(s.email.smtp_user, "user@example.com");
    assert_eq!(s.email.smtp_password, "your_smtp_password");
    assert_eq!(s.email.from_address, "reminders@wacraft.com");
}
