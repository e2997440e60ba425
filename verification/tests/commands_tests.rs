use tray_shell::commands::{greet, system_info_message};

#[test]
fn greet_formats_the_greeting() {
    assert_eq!(greet("World"), "Hello, World! You've been greeted from Rust!");
}

#[test]
fn greet_with_an_empty_name() {
    assert_eq!(greet(""), "Hello, ! You've been greeted from Rust!");
}

#[test]
fn system_info_message_names_the_operating_system() {
    assert_eq!(system_info_message("linux"), "操作系统类型: linux");
    assert_eq!(system_info_message("macos"), "操作系统类型: macos");
}
