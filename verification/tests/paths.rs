use agon_libretro_core::loader::LoadFailures;
use agon_libretro_core::paths::{
    firmware_source, needs_extraction, sdcard_dir, vdp_candidates, FirmwareSource,
};

#[test]
fn sdcard_override_wins() {
    let r = sdcard_dir(Some("env"), Some("content"), Some(("system/agon", true)), "sdcard");
    assert_eq!(r, "env");
}

#[test]
fn sdcard_is_content_parent_without_override() {
    let r = sdcard_dir(None, Some("games"), Some(("system/agon", true)), "sdcard");
    assert_eq!(r, "games");
}

#[test]
fn sdcard_is_system_agon_directory_by_default() {
    assert_eq!(sdcard_dir(None, None, Some(("system/agon", true)), "sdcard"), "system/agon");
    assert_eq!(sdcard_dir(None, None, Some(("system/agon", false)), "sdcard"), "sdcard");
    assert_eq!(sdcard_dir::<&str>(None, None, None, "sdcard"), "sdcard");
}

#[test]
fn firmware_choices() {
    assert!(matches!(
        firmware_source(Some("mine.bin"), Some(("system/agon/mos_console8.bin", true))),
        FirmwareSource::Path("mine.bin")
    ));
    assert!(matches!(
        firmware_source(None, Some(("system/agon/mos_console8.bin", true))),
        FirmwareSource::Path("system/agon/mos_console8.bin")
    ));
    assert!(matches!(
        firmware_source(None, Some(("system/agon/mos_console8.bin", false))),
        FirmwareSource::Bundled
    ));
    assert!(matches!(firmware_source::<&str>(None, None), FirmwareSource::Bundled));
}

#[test]
fn extraction_only_when_size_differs() {
    assert!(!needs_extraction(Some(16384), 16384));
    assert!(needs_extraction(Some(16383), 16384));
    assert!(needs_extraction(None, 16384));
    assert!(needs_extraction(None, 0));
}

#[test]
fn vdp_candidates_in_search_order() {
    let all = vdp_candidates(Some("env"), Some("system"), Some(("beside", "cores")), "bundled");
    assert_eq!(all, vec!["env", "system", "beside", "cores", "bundled"]);
    let few = vdp_candidates(None, Some("system"), None, "bundled");
    assert_eq!(few, vec!["system", "bundled"]);
    let one = vdp_candidates::<&str>(None, None, None, "bundled");
    assert_eq!(one, vec!["bundled"]);
}

#[test]
fn load_failure_report_lists_every_failure() {
    let mut failures = LoadFailures::new();
    assert_eq!(failures.report(), "could not load Agon VDP firmware:\n");
    failures.record("a.so: not found".to_string());
    assert_eq!(failures.report(), "could not load Agon VDP firmware:\na.so: not found");
    failures.record("b.so: bad ELF".to_string());
    assert_eq!(failures.len(), 2);
    assert_eq!(
        failures.report(),
        "could not load Agon VDP firmware:\na.so: not found\nb.so: bad ELF"
    );
}
