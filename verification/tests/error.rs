use hagibis_hub_mapper::error::Error;

#[test]
fn error_display_seize() {
    let e = Error::Seize("device busy".into());
    assert!(e.to_string().contains("seize error"));
    assert!(e.to_string().contains("device busy"));
}

#[test]
fn error_display_config() {
    let e = Error::Config("bad toml".into());
    assert_eq!(e.to_string(), "config error: bad toml");
}

#[test]
fn error_display_io() {
    let e = Error::Io(std::io::Error::new(std::io::ErrorKind::NotFound, "missing"));
    assert!(e.to_string().contains("io error"));
}

#[test]
fn error_from_io() {
    let io = std::io::Error::new(std::io::ErrorKind::PermissionDenied, "nope");
    let e: Error = io.into();
    assert!(matches!(e, Error::Io(_)));
}

#[test]
fn error_messages_of_every_kind() {
    assert_eq!(Error::Inject("x".into()).to_string(), "inject error: x");
    assert_eq!(Error::Other("plain".into()).to_string(), "plain");
    assert_eq!(
        Error::Io(std::io::Error::new(std::io::ErrorKind::Other, "disk")).to_string(),
        "io error: disk"
    );
}
