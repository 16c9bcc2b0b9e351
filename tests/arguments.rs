use aicommit::arguments::{classify_argument, handle_arguments, CliAction};

#[test]
fn flags_in_order() {
    let args: Vec<String> = ["aicommit", "-v", "x", "--help", "--copy-default-config", "-h"].iter().map(|s| s.to_string()).collect();
    assert_eq!(
        handle_arguments(&args),
        vec![CliAction::ShowVersion, CliAction::ShowUsage, CliAction::CopyDefaultConfig, CliAction::ShowUsage]
    );
}

#[test]
fn no_flags_no_actions() {
    let args: Vec<String> = vec!["aicommit".to_string(), "--HELP".to_string()];
    assert!(handle_arguments(&args).is_empty());
    assert_eq!(classify_argument(&"--version".to_string()), Some(CliAction::ShowVersion));
    assert_eq!(classify_argument(&"-x".to_string()), None);
}
