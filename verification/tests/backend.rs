use hagibis_hub_mapper::backend::HIDBackend;
use hagibis_hub_mapper::error::Error;
use hagibis_hub_mapper::hid::Report;

struct StubBackend;

impl HIDBackend for StubBackend {
    fn seize(&mut self) -> Result<(), Error> {
        Ok(())
    }
    fn run_once(&mut self, _timeout_ms: u32) -> Result<Option<Report>, Error> {
        Ok(None)
    }
    fn release(&mut self) {}
}

#[test]
fn is_device_present_defaults_to_true() {
    let backend = StubBackend;
    assert!(backend.is_device_present());
}
