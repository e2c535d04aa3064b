use glosc::protocol::{open_command_value, registry_tool, ProtocolRegistrar, RegistryWrite};

fn args_of(w: &RegistryWrite) -> Vec<String> {
    w.command_args()
}

#[test]
fn open_command_quotes_path_with_space() {
    assert_eq!(
        open_command_value("C:\\Program Files\\Glosc\\glosc.exe"),
        "\"C:\\Program Files\\Glosc\\glosc.exe\" \"%1\""
    );
}

#[test]
fn registry_plan_for_path_with_space() {
    let exe = "C:\\Program Files\\Glosc\\glosc.exe";
    let plan = ProtocolRegistrar::PerUserRegistry.plan(Some(exe));
    assert_eq!(plan.len(), 3);
    assert_eq!(
        args_of(&plan[0]),
        vec!["add", "HKCU\\Software\\Classes\\glosc", "/ve", "/d", "URL:Glosc Protocol", "/f"]
    );
    assert_eq!(
        args_of(&plan[1]),
        vec!["add", "HKCU\\Software\\Classes\\glosc", "/v", "URL Protocol", "/d", "", "/f"]
    );
    assert_eq!(
        args_of(&plan[2]),
        vec![
            "add",
            "HKCU\\Software\\Classes\\glosc\\shell\\open\\command",
            "/ve",
            "/d",
            "\"C:\\Program Files\\Glosc\\glosc.exe\" \"%1\"",
            "/f"
        ]
    );
}

#[test]
fn registry_plan_without_path_writes_nothing() {
    assert!(ProtocolRegistrar::PerUserRegistry.plan(None).is_empty());
    assert!(ProtocolRegistrar::PerUserRegistry.plan(Some("")).is_empty());
}

#[test]
fn registry_plan_off_registry_platforms_writes_nothing() {
    let registrar = ProtocolRegistrar::for_platform(false);
    assert!(registrar == ProtocolRegistrar::Unsupported);
    assert!(registrar.plan(Some("/usr/bin/glosc")).is_empty());
    assert!(ProtocolRegistrar::for_platform(true) == ProtocolRegistrar::PerUserRegistry);
}

#[test]
fn registry_tool_name() {
    assert_eq!(registry_tool(), "reg");
}
