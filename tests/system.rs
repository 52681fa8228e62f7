use xero_auth::ansi::strip_ansi_codes;
use xero_auth::system_check::{check_dependencies, get_distribution_name, parse_os_release_name, DependencyCheckResult};
use xero_auth::text::{join, lines};

const AUR_HINT: &str = "AUR Helper repositories:\n• Paru: <a href=\"https://github.com/Morganamilo/paru\">https://github.com/Morganamilo/paru</a>\n• Yay: <a href=\"https://github.com/Jguer/yay\">https://github.com/Jguer/yay</a>";

#[test]
fn nothing_missing() {
    let r = check_dependencies(true, true);
    assert!(!r.has_missing_dependencies());
    assert!(r.missing_dependencies().is_empty());
    assert_eq!(r.format_missing_list(), "");
    assert_eq!(r.generate_install_hint(), "");
}

#[test]
fn both_missing() {
    let r = check_dependencies(false, false);
    assert_eq!(r, DependencyCheckResult { flatpak_missing: true, aur_helper_missing: true });
    assert!(r.has_missing_dependencies());
    assert_eq!(r.missing_dependencies(), vec!["flatpak".to_string(), "paru or yay".to_string()]);
    assert_eq!(r.format_missing_list(), "• <b>flatpak</b>\n• <b>paru or yay</b>");
    assert_eq!(
        r.generate_install_hint(),
        format!("Install flatpak: <tt>sudo pacman -S flatpak</tt>\n\n{}", AUR_HINT)
    );
}

#[test]
fn only_aur_helper_missing() {
    let r = DependencyCheckResult { flatpak_missing: false, aur_helper_missing: true };
    assert_eq!(r.missing_dependencies(), vec!["paru or yay".to_string()]);
    assert_eq!(r.format_missing_list(), "• <b>paru or yay</b>");
    assert_eq!(r.generate_install_hint(), AUR_HINT);
}

#[test]
fn os_release_name_preference() {
    let text = "ID=arch\nPRETTY_NAME=\"Arch Linux\"\nNAME=\"XeroLinux\"\n";
    assert_eq!(parse_os_release_name(text), Some("XeroLinux".to_string()));
    assert_eq!(parse_os_release_name("ID=arch\nPRETTY_NAME=\"Arch Linux\""), Some("Arch Linux".to_string()));
    assert_eq!(parse_os_release_name("NAME=\"\"\nID=arch"), Some("arch".to_string()));
    assert_eq!(parse_os_release_name("VERSION=1\n"), None);
    assert_eq!(parse_os_release_name(""), None);
}

#[test]
fn os_release_edge_cases() {
    assert_eq!(parse_os_release_name("NAME=Fedora\r\n"), Some("Fedora".to_string()));
    assert_eq!(parse_os_release_name("NAME=NAME=x"), Some("x".to_string()));
    assert_eq!(parse_os_release_name("NAME=\"\"\"\nNAME=second"), Some("second".to_string()));
    assert_eq!(parse_os_release_name(" NAME=x"), None);
}

#[test]
fn distribution_name_sources() {
    assert_eq!(get_distribution_name(Some("NAME=Etc"), Some("NAME=Lib"), None), Some("Etc".to_string()));
    assert_eq!(get_distribution_name(None, Some("NAME=Lib"), None), Some("Lib".to_string()));
    assert_eq!(get_distribution_name(Some("X=1"), None, Some("DISTRIB_ID=\"Ubuntu\"\n")), Some("Ubuntu".to_string()));
    assert_eq!(get_distribution_name(None, None, Some("DISTRIB_ID=\n")), None);
    assert_eq!(get_distribution_name(None, None, None), None);
}

#[test]
fn text_lines() {
    assert_eq!(lines("a\nb"), vec!["a".to_string(), "b".to_string()]);
    assert_eq!(lines("a\r\n\nb\n"), vec!["a".to_string(), String::new(), "b".to_string()]);
    assert_eq!(lines("a\r"), vec!["a\r".to_string()]);
    assert!(lines("").is_empty());
}

#[test]
fn text_join() {
    let v = vec!["x".to_string(), "y".to_string(), "z".to_string()];
    assert_eq!(join(&v, ", "), "x, y, z");
    assert_eq!(join(&Vec::new(), ", "), "");
}

#[test]
fn ansi_codes_removed() {
    assert_eq!(strip_ansi_codes("\x1b[31mred\x1b[0m plain"), "red plain");
    assert_eq!(strip_ansi_codes("\x1b[?25lwait\x1b[?25h\n"), "wait\n");
    assert_eq!(strip_ansi_codes("héllo"), "héllo");
    assert_eq!(strip_ansi_codes(""), "");
}
