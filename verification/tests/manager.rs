use hagibis_hub_mapper::config::manager::{
    is_safe_mode, load_plan, temp_extension, FileRead, LoadPlan, UNSAFE_MODE_BITS,
};

#[test]
fn safe_modes() {
    assert_eq!(UNSAFE_MODE_BITS, 0o022);
    assert!(is_safe_mode(0o600));
    assert!(is_safe_mode(0o644));
    assert!(is_safe_mode(0o100600));
    assert!(!is_safe_mode(0o620));
    assert!(!is_safe_mode(0o602));
    assert!(!is_safe_mode(0o666));
}

#[test]
fn load_decisions() {
    for r in [
        FileRead::Missing,
        FileRead::Unsafe,
        FileRead::ReadFailed,
        FileRead::ParseFailed,
        FileRead::Parsed,
    ] {
        assert_eq!(load_plan(false, r), LoadPlan::UseDefaults);
    }
    assert_eq!(load_plan(true, FileRead::Parsed), LoadPlan::UseFile);
    assert_eq!(load_plan(true, FileRead::Unsafe), LoadPlan::UseDefaults);
    assert_eq!(load_plan(true, FileRead::Missing), LoadPlan::WriteDefaults);
    assert_eq!(load_plan(true, FileRead::ReadFailed), LoadPlan::WriteDefaults);
    assert_eq!(load_plan(true, FileRead::ParseFailed), LoadPlan::UseDefaults);
}

#[test]
fn temp_file_extension() {
    assert_eq!(temp_extension(0), "toml.0.tmp");
    assert_eq!(temp_extension(255), "toml.ff.tmp");
    assert_eq!(temp_extension(0x1a2b3c), "toml.1a2b3c.tmp");
    assert_eq!(temp_extension(u128::MAX), format!("toml.{:x}.tmp", u128::MAX));
}

#[test]
fn is_safe_file_rejects_world_writable() {
    // a regular file with mode 0o622
    assert!(!is_safe_mode(0o100622));
}

#[test]
fn is_safe_file_accepts_owner_only() {
    // a regular file with mode 0o600
    assert!(is_safe_mode(0o100600));
}

#[test]
fn dir_lock_prevents_concurrent_config_read() {
    // without the directory lock the saved file is not read: defaults are used
    assert_eq!(load_plan(false, FileRead::Parsed), LoadPlan::UseDefaults);
    assert_eq!(load_plan(true, FileRead::Parsed), LoadPlan::UseFile);
}
