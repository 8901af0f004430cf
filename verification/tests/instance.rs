use libreofficekit::engine::InitReport;
use libreofficekit::engine::SlotTable;
use libreofficekit::lock::InstanceLock;
use libreofficekit::Office;
use libreofficekit::OfficeError;
use libreofficekit::ProductVersion;

fn full_slots() -> SlotTable {
    SlotTable {
        set_option: true,
        dump_state: true,
        sign_document: true,
        send_dialog_event: true,
        save_as: true,
        get_document_type: true,
    }
}

fn healthy_init(version: ProductVersion) -> InitReport {
    InitReport {
        ok: true,
        init_error: String::new(),
        version,
        slots: full_slots(),
    }
}

fn new_office(lock: &mut InstanceLock) -> Office {
    Office::new(lock, "/opt/libreoffice/program", healthy_init(ProductVersion::new(7, 6))).unwrap()
}

/// While one instance is active a second construction fails with the
/// exclusivity error; after the first is fully destroyed, construction
/// succeeds again at once.
#[test]
fn test_instance_exclusivity() {
    let mut lock = InstanceLock::new();
    let mut office = new_office(&mut lock);

    let second = Office::new(
        &mut lock,
        "/opt/libreoffice/program",
        healthy_init(ProductVersion::new(7, 6)),
    );
    assert!(matches!(second, Err(OfficeError::InstanceLock)));

    office.drop_handle(&mut lock);
    assert_eq!(office.strong, 0);

    let third = Office::new(
        &mut lock,
        "/opt/libreoffice/program",
        healthy_init(ProductVersion::new(7, 6)),
    );
    assert!(third.is_ok());
}

/// A failed initialization releases the lock, so a later attempt is not
/// locked out.
#[test]
fn test_failed_init_releases_lock() {
    let mut lock = InstanceLock::new();

    let failed = Office::new(
        &mut lock,
        "/opt/libreoffice/program",
        InitReport {
            ok: false,
            init_error: String::new(),
            version: ProductVersion::new(7, 6),
            slots: full_slots(),
        },
    );
    assert!(matches!(failed, Err(OfficeError::UnknownInit)));

    let reported = Office::new(
        &mut lock,
        "/opt/libreoffice/program",
        InitReport {
            ok: true,
            init_error: String::from("bad install"),
            version: ProductVersion::new(7, 6),
            slots: full_slots(),
        },
    );
    match reported {
        Err(OfficeError::OfficeError(message)) => assert_eq!(message, "bad install"),
        other => panic!("unexpected outcome {:?}", other.is_ok()),
    }

    let relative = Office::new(
        &mut lock,
        "./libreoffice",
        healthy_init(ProductVersion::new(7, 6)),
    );
    assert!(matches!(relative, Err(OfficeError::InvalidPath)));

    let with_nul = Office::new(
        &mut lock,
        "/opt/libre\0office",
        healthy_init(ProductVersion::new(7, 6)),
    );
    assert!(matches!(with_nul, Err(OfficeError::InvalidString)));

    assert!(!lock.claimed);
    assert!(Office::new(
        &mut lock,
        "/opt/libreoffice/program",
        healthy_init(ProductVersion::new(7, 6))
    )
    .is_ok());
}

/// A weak handle upgrades while a strong owner lives, and fails with
/// the stale-reference error once the last strong owner is gone.
#[test]
fn test_weak_handle_upgrade() {
    let mut lock = InstanceLock::new();
    let mut office = new_office(&mut lock);

    let weak = office.register_callback("").unwrap();

    assert!(weak.into_office(&mut office).is_ok());
    assert_eq!(office.strong, 2);
    office.drop_handle(&mut lock);
    assert_eq!(office.strong, 1);

    office.drop_handle(&mut lock);
    assert_eq!(office.strong, 0);
    let upgraded = weak.into_office(&mut office);
    assert!(matches!(upgraded, Err(OfficeError::InstanceDropped)));
}

/// A weak handle from an earlier instance does not upgrade against a
/// newer one.
#[test]
fn test_weak_handle_stale_instance() {
    let mut lock = InstanceLock::new();
    let mut office = new_office(&mut lock);
    let weak = office.register_callback("").unwrap();
    office.drop_handle(&mut lock);

    let mut second = new_office(&mut lock);
    let upgraded = weak.into_office(&mut second);
    assert!(matches!(upgraded, Err(OfficeError::InstanceDropped)));
}

/// Registering a second handler targets only the new handler; clearing
/// uninstalls it.
#[test]
fn test_callback_replacement() {
    let mut lock = InstanceLock::new();
    let mut office = new_office(&mut lock);

    office.register_callback("").unwrap();
    let first = office.callback.unwrap();
    office.register_callback("").unwrap();
    let second = office.callback.unwrap();
    assert_ne!(first, second);

    office.clear_callback("").unwrap();
    assert!(office.callback.is_none());
}

/// An engine build without the callback capability reports the missing
/// slot, and a failed installation leaves the previous handler in
/// place.
#[test]
fn test_callback_errors() {
    let mut lock = InstanceLock::new();
    let mut old_office = Office::new(
        &mut lock,
        "/opt/libreoffice/program",
        healthy_init(ProductVersion::new(5, 4)),
    )
    .unwrap();
    let missing = old_office.register_callback("");
    assert!(matches!(
        missing,
        Err(OfficeError::MissingFunction("registerCallback"))
    ));
    old_office.drop_handle(&mut lock);

    let mut office = new_office(&mut lock);
    office.register_callback("").unwrap();
    let installed = office.callback;
    let failed = office.register_callback("register failed");
    match failed {
        Err(OfficeError::OfficeError(message)) => assert_eq!(message, "register failed"),
        _ => panic!("expected the polled engine error"),
    }
    assert_eq!(office.callback, installed);
}

/// The polling protocol: an empty error slot means success, anything
/// else is the failure of the call just made.
#[test]
fn test_error_polling() {
    let mut lock = InstanceLock::new();
    let office = new_office(&mut lock);

    assert!(office.get_error("").is_none());
    assert_eq!(office.get_error("disk full").unwrap(), "disk full");

    assert!(office.set_option("a", "b", "").is_ok());
    let failed = office.set_option("a", "b", "no such option");
    match failed {
        Err(OfficeError::OfficeError(message)) => assert_eq!(message, "no such option"),
        _ => panic!("expected the polled engine error"),
    }

    let bad = office.set_option("a\0", "b", "");
    assert!(matches!(bad, Err(OfficeError::InvalidString)));
}

/// A macro run reports success through its return value; the error slot
/// is consulted only after a failed run.
#[test]
fn test_run_macro() {
    let mut lock = InstanceLock::new();
    let office = new_office(&mut lock);

    assert_eq!(office.run_macro("macro:///m", true, "ignored").unwrap(), true);
    assert_eq!(office.run_macro("macro:///m", false, "").unwrap(), false);
    let failed = office.run_macro("macro:///m", false, "macro failed");
    assert!(matches!(failed, Err(OfficeError::OfficeError(_))));
}

/// Metadata retrieval validates UTF-8 and hands the text through.
#[test]
fn test_metadata_retrieval() {
    let mut lock = InstanceLock::new();
    let office = new_office(&mut lock);

    let fetch = libreofficekit::engine::MetadataFetch {
        bytes: b"{\"ProductName\":\"X\"}".to_vec(),
        poll: String::new(),
    };
    assert_eq!(office.get_version_info(fetch).unwrap(), "{\"ProductName\":\"X\"}");

    let fetch = libreofficekit::engine::MetadataFetch {
        bytes: vec![0xff, 0xfe],
        poll: String::new(),
    };
    assert!(matches!(
        office.get_filter_types(fetch),
        Err(OfficeError::InvalidUtf8String)
    ));

    let fetch = libreofficekit::engine::MetadataFetch {
        bytes: Vec::new(),
        poll: String::from("engine busy"),
    };
    assert!(matches!(
        office.get_filter_types(fetch),
        Err(OfficeError::OfficeError(_))
    ));
}

/// Version-gated capabilities report their missing slot on old builds.
#[test]
fn test_missing_capabilities_on_old_build() {
    let mut lock = InstanceLock::new();
    let office = Office::new(
        &mut lock,
        "/opt/libreoffice/program",
        healthy_init(ProductVersion::new(5, 4)),
    )
    .unwrap();

    assert!(matches!(
        office.trim_memory(1000, ""),
        Err(OfficeError::MissingFunction("trimMemory"))
    ));
    assert!(matches!(
        office.run_macro("m", true, ""),
        Err(OfficeError::MissingFunction("runMacro"))
    ));
    let fetch = libreofficekit::engine::MetadataFetch {
        bytes: Vec::new(),
        poll: String::new(),
    };
    assert!(matches!(
        office.get_version_info(fetch),
        Err(OfficeError::MissingFunction("getVersionInfo"))
    ));
}
