use specialfx::Error;

#[test]
fn error_messages() {
    assert_eq!(
        Error::Unsupported.message(),
        "colour overlays are not supported on this platform"
    );
    assert_eq!(Error::NotMainThread.message(), "overlays must be created on the main thread");
    assert_eq!(Error::Os("no screens found".to_string()).message(), "no screens found");
}
