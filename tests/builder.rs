use xero_auth::command::{Command, CommandResult, CommandType, TaskStatus};
use xero_auth::config::{get, init, EnvCell, EnvError};

#[test]
fn privileged_command() {
    let cmd = Command::builder()
        .privileged()
        .program("bash")
        .args(&["-c", "echo hello"])
        .description("Running command")
        .build();
    assert_eq!(cmd.command_type, CommandType::Privileged);
    assert_eq!(cmd.program, "bash");
    assert_eq!(cmd.args, vec!["-c".to_string(), "echo hello".to_string()]);
    assert_eq!(cmd.description, "Running command");
}

#[test]
fn aur_command_ignores_program() {
    let cmd = Command::builder()
        .aur()
        .program("yay")
        .args(&["-S", "package-name"])
        .description("Installing package")
        .build();
    assert_eq!(cmd.command_type, CommandType::Aur);
    assert_eq!(cmd.program, "aur");
    let cmd = Command::builder().aur().description("Update").build();
    assert_eq!(cmd.program, "aur");
    assert!(cmd.args.is_empty());
}

#[test]
fn normal_command_with_replaced_args() {
    let cmd = Command::builder()
        .normal()
        .program("flatpak")
        .args(&["x"])
        .args(&["install", "-y", "app.id"])
        .description("Installing Flatpak app")
        .build();
    assert_eq!(cmd.command_type, CommandType::Normal);
    assert_eq!(cmd.args, vec!["install".to_string(), "-y".to_string(), "app.id".to_string()]);
}

#[test]
fn status_values() {
    assert_ne!(TaskStatus::Pending, TaskStatus::Running);
    assert_eq!(CommandResult::Failure { exit_code: Some(2) }, CommandResult::Failure { exit_code: Some(2) });
    assert_ne!(CommandResult::Success, CommandResult::Failure { exit_code: None });
}

#[test]
fn environment_cache() {
    let mut cell = EnvCell::new();
    assert!(!cell.initialized());
    assert_eq!(init(&mut cell, None, Some("/home/u".to_string())), Err(EnvError::UserNotSet));
    assert_eq!(init(&mut cell, Some("u".to_string()), None), Err(EnvError::HomeNotSet));
    assert!(!cell.initialized());
    assert_eq!(init(&mut cell, Some("u".to_string()), Some("/home/u".to_string())), Ok(()));
    assert_eq!(get(&cell).user, "u");
    assert_eq!(get(&cell).home, "/home/u");
    assert_eq!(
        init(&mut cell, Some("v".to_string()), Some("/home/v".to_string())),
        Err(EnvError::AlreadyInitialized)
    );
    assert_eq!(get(&cell).user, "u");
}
