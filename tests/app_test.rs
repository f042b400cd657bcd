use crabcleaner::{App, Config, Opening};

#[test]
fn app_get_configurations_works() {
    let app: App = App::new_for_test(
        String::from(".\\default.crc"),
        String::from("mv file.mp3 to C:\\\\Users\\\\Username\\\\Music      // This rule moves `file.mp3` to the Music folder"),
    );
    assert!(!app.get_configurations().is_empty());
}

#[test]
fn app_get_configuration_works() {
    let app: App = App::new_for_test(
        String::from(".\\default.crc"),
        String::from("mv file.mp3 to C:\\\\Users\\\\Username\\\\Music      // This rule moves `file.mp3` to the Music folder"),
    );
    assert_eq!(".\\default.crc", app.get_configuration(0).get_filename());
}

#[test]
fn app_execute_configurations_works() {
    let app: App = App::new_for_test(
        String::from(".\\default.crc"),
        String::from("mv file.mp3 to C:\\\\Users\\\\Username\\\\Music      // This rule moves `file.mp3` to the Music folder"),
    );
    let rule = app.get_configuration(0).get_rule(0);
    assert!(matches!(
        rule.begin(app.is_dry_run(), app.is_interactive()),
        Opening::Scan
    ));
}

#[test]
fn app_add_config_appends() {
    let mut app = App::new(
        Config::new(String::from("a.crc"), String::from("mv a to b")),
        String::from("dir"),
        String::from("a.crc"),
        true,
        false,
    );
    app.add_config(Config::new(String::from("b.crc"), String::from("pre a with b")));
    assert_eq!(2, app.get_configurations().len());
    assert_eq!("b.crc", app.get_configuration(1).get_filename());
    assert_eq!("dir", app.get_clean_path());
    assert_eq!("a.crc", app.get_conf_file_path());
    assert!(app.is_dry_run());
    assert!(!app.is_interactive());
}

#[test]
fn app_remove_comment_keeps_text_before_marker() {
    assert_eq!("mv a to b ", App::remove_comment("mv a to b // note // more"));
    assert_eq!("no comment", App::remove_comment("no comment"));
    assert_eq!("", App::remove_comment("//all"));
}
