use libreofficekit::document::DocumentProfile;
use libreofficekit::engine::InitReport;
use libreofficekit::engine::PromptAnswer;
use libreofficekit::engine::SlotTable;
use libreofficekit::lock::InstanceLock;
use libreofficekit::DocUrl;
use libreofficekit::Office;
use libreofficekit::OfficeError;
use libreofficekit::ProductVersion;

fn new_office_with(version: ProductVersion, slots: SlotTable, lock: &mut InstanceLock) -> Office {
    Office::new(
        lock,
        "/opt/libreoffice/program",
        InitReport {
            ok: true,
            init_error: String::new(),
            version,
            slots,
        },
    )
    .unwrap()
}

fn full_slots() -> SlotTable {
    SlotTable {
        set_option: true,
        dump_state: true,
        sign_document: true,
        send_dialog_event: true,
        save_as: true,
        get_document_type: true,
    }
}

fn no_slots() -> SlotTable {
    SlotTable {
        set_option: false,
        dump_state: false,
        sign_document: false,
        send_dialog_event: false,
        save_as: false,
        get_document_type: false,
    }
}

/// The state dump passes through on a clean poll.
#[test]
fn test_dump_state() {
    let mut lock = InstanceLock::new();
    let office = new_office_with(ProductVersion::new(7, 6), full_slots(), &mut lock);
    assert_eq!(
        office.dump_state(String::from("state text"), "").unwrap(),
        "state text"
    );
    assert!(matches!(
        office.dump_state(String::from("x"), "dump failed"),
        Err(OfficeError::OfficeError(_))
    ));
}

/// Slots the installed table lacks report the missing-function kind.
#[test]
fn test_missing_table_slots() {
    let mut lock = InstanceLock::new();
    let office = new_office_with(ProductVersion::new(7, 6), no_slots(), &mut lock);
    assert!(matches!(
        office.dump_state(String::new(), ""),
        Err(OfficeError::MissingFunction("dumpState"))
    ));
    assert!(matches!(
        office.set_option("a", "b", ""),
        Err(OfficeError::MissingFunction("setOption"))
    ));
    assert!(matches!(
        office.send_dialog_event(1, "args", ""),
        Err(OfficeError::MissingFunction("sendDialogEvent"))
    ));
    assert!(matches!(
        office.sign_document(
            &DocUrl::from_absolute_path("/tmp/out.pdf").unwrap(),
            b"cert",
            b"key",
            true,
            ""
        ),
        Err(OfficeError::MissingFunction("signDocument"))
    ));
}

/// A dialog event follows the polling protocol and rejects embedded
/// null bytes.
#[test]
fn test_send_dialog_event() {
    let mut lock = InstanceLock::new();
    let office = new_office_with(ProductVersion::new(7, 6), full_slots(), &mut lock);
    assert!(office.send_dialog_event(7, "{\"id\":1}", "").is_ok());
    assert!(matches!(
        office.send_dialog_event(7, "a\0b", ""),
        Err(OfficeError::InvalidString)
    ));
    assert!(matches!(
        office.send_dialog_event(7, "args", "window gone"),
        Err(OfficeError::OfficeError(_))
    ));
}

/// Memory trimming is gated on the build version and polls the slot.
#[test]
fn test_trim_memory() {
    let mut lock = InstanceLock::new();
    let office = new_office_with(ProductVersion::new(7, 6), full_slots(), &mut lock);
    assert!(office.trim_memory(-1, "").is_ok());
    assert!(office.trim_memory(1000, "").is_ok());
    assert!(matches!(
        office.trim_memory(1000, "trim failed"),
        Err(OfficeError::OfficeError(_))
    ));
}

/// Signing reports the engine's verdict once the poll that follows the
/// call comes back clean; a polled message is the call's failure.
#[test]
fn test_sign_document() {
    let mut lock = InstanceLock::new();
    let office = new_office_with(ProductVersion::new(7, 6), full_slots(), &mut lock);
    let url = DocUrl::from_absolute_path("/tmp/out.pdf").unwrap();
    assert_eq!(
        office.sign_document(&url, b"cert", b"key", true, "").unwrap(),
        true
    );
    assert_eq!(
        office.sign_document(&url, b"cert", b"key", false, "").unwrap(),
        false
    );
    match office.sign_document(&url, b"cert", b"key", true, "bad certificate") {
        Err(OfficeError::OfficeError(message)) => assert_eq!(message, "bad certificate"),
        _ => panic!("expected the polled engine error"),
    }
}

/// Loading is gated on the oldest supported build version.
#[test]
fn test_load_version_gates() {
    let mut lock = InstanceLock::new();
    let mut office = new_office_with(ProductVersion::new(4, 2), full_slots(), &mut lock);
    let url = DocUrl::from_absolute_path("/docs/a.docx").unwrap();
    let profile = DocumentProfile {
        password: None,
        loadable: true,
        fail_message: String::from("failed"),
        doc_type_code: 0,
        save_formats: Vec::new(),
    };
    assert!(matches!(
        office.document_load(&url, profile, &Vec::new()),
        Err(OfficeError::MissingFunction("documentLoad"))
    ));

    let profile = DocumentProfile {
        password: None,
        loadable: true,
        fail_message: String::from("failed"),
        doc_type_code: 0,
        save_formats: Vec::new(),
    };
    assert!(matches!(
        office.document_load_with_options(&url, "opts", profile, &Vec::new()),
        Err(OfficeError::MissingFunction("documentLoadWithOptions"))
    ));
    assert_eq!(office.prompts_issued, 0);
}

/// Load options cross the C boundary and must be free of null bytes.
#[test]
fn test_load_with_options() {
    let mut lock = InstanceLock::new();
    let mut office = new_office_with(ProductVersion::new(7, 6), full_slots(), &mut lock);
    let url = DocUrl::from_absolute_path("/docs/a.docx").unwrap();
    let profile = DocumentProfile {
        password: None,
        loadable: true,
        fail_message: String::from("failed"),
        doc_type_code: 0,
        save_formats: Vec::new(),
    };
    assert!(matches!(
        office.document_load_with_options(&url, "op\0ts", profile, &Vec::new()),
        Err(OfficeError::InvalidString)
    ));

    let profile = DocumentProfile {
        password: None,
        loadable: true,
        fail_message: String::from("failed"),
        doc_type_code: 2,
        save_formats: Vec::new(),
    };
    let document = office
        .document_load_with_options(&url, "{}", profile, &Vec::new())
        .unwrap();
    assert_eq!(document.raw.doc_type_code, 2);
}

/// A document that the engine cannot load fails with the engine's
/// message; prompting never starts for an unprotected document.
#[test]
fn test_unloadable_document() {
    let mut lock = InstanceLock::new();
    let mut office = new_office_with(ProductVersion::new(7, 6), full_slots(), &mut lock);
    let url = DocUrl::from_absolute_path("/docs/broken.docx").unwrap();
    let profile = DocumentProfile {
        password: None,
        loadable: false,
        fail_message: String::from("unsupported format"),
        doc_type_code: 0,
        save_formats: Vec::new(),
    };
    match office.document_load(&url, profile, &Vec::new()) {
        Err(OfficeError::OfficeError(message)) => assert_eq!(message, "unsupported format"),
        _ => panic!("expected the engine's failure message"),
    }
    assert_eq!(office.prompts_issued, 0);
}

/// A protected document whose exchange never ends aborts after one
/// final unanswered prompt.
#[test]
fn test_prompt_exchange_exhausted() {
    let mut lock = InstanceLock::new();
    let mut office = new_office_with(ProductVersion::new(7, 6), full_slots(), &mut lock);
    office
        .set_optional_features(
            libreofficekit::OfficeOptionalFeatures::from_bits(
                libreofficekit::features::DOCUMENT_PASSWORD,
            ),
            "",
        )
        .unwrap();
    office.register_callback("").unwrap();

    let url = DocUrl::from_absolute_path("/docs/enc.docx").unwrap();
    let profile = DocumentProfile {
        password: Some(String::from("secret")),
        loadable: true,
        fail_message: String::from("could not decrypt"),
        doc_type_code: 0,
        save_formats: Vec::new(),
    };
    let answers = vec![
        PromptAnswer::Password(String::from("wrong")),
        PromptAnswer::Password(String::from("still wrong")),
    ];
    assert!(office.document_load(&url, profile, &answers).is_err());
    assert_eq!(office.prompts_issued, 3);
}

/// Prompting needs both a registered handler and the password feature;
/// either one alone leaves a protected load failing without a prompt.
#[test]
fn test_prompting_needs_feature_and_handler() {
    let mut lock = InstanceLock::new();
    let mut office = new_office_with(ProductVersion::new(7, 6), full_slots(), &mut lock);
    let url = DocUrl::from_absolute_path("/docs/enc.docx").unwrap();
    let answers = vec![PromptAnswer::Password(String::from("secret"))];

    // feature enabled, but no handler registered
    office
        .set_optional_features(
            libreofficekit::OfficeOptionalFeatures::from_bits(
                libreofficekit::features::DOCUMENT_PASSWORD,
            ),
            "",
        )
        .unwrap();
    let profile = DocumentProfile {
        password: Some(String::from("secret")),
        loadable: true,
        fail_message: String::from("could not decrypt"),
        doc_type_code: 0,
        save_formats: Vec::new(),
    };
    assert!(office.document_load(&url, profile, &answers).is_err());
    assert_eq!(office.prompts_issued, 0);

    // handler registered, but feature disabled again
    office.register_callback("").unwrap();
    office
        .set_optional_features(libreofficekit::OfficeOptionalFeatures::empty(), "")
        .unwrap();
    let profile = DocumentProfile {
        password: Some(String::from("secret")),
        loadable: true,
        fail_message: String::from("could not decrypt"),
        doc_type_code: 0,
        save_formats: Vec::new(),
    };
    assert!(office.document_load(&url, profile, &answers).is_err());
    assert_eq!(office.prompts_issued, 0);
}

/// Destroying a document is possible only while the engine lives, and
/// the handle records it.
#[test]
fn test_document_destroy() {
    let mut lock = InstanceLock::new();
    let mut office = new_office_with(ProductVersion::new(7, 6), full_slots(), &mut lock);
    let url = DocUrl::from_absolute_path("/docs/a.docx").unwrap();
    let profile = DocumentProfile {
        password: None,
        loadable: true,
        fail_message: String::from("failed"),
        doc_type_code: 0,
        save_formats: Vec::new(),
    };
    let mut document = office.document_load(&url, profile, &Vec::new()).unwrap();
    assert!(document.raw.alive);
    document.destroy(&office);
    assert!(!document.raw.alive);
}

/// Cloning a strong handle raises the owner count without touching the
/// exclusivity lock; each owner's drop lowers it again.
#[test]
fn test_clone_handle() {
    let mut lock = InstanceLock::new();
    let mut office = new_office_with(ProductVersion::new(7, 6), full_slots(), &mut lock);
    assert_eq!(office.strong, 1);
    office.clone_handle();
    assert_eq!(office.strong, 2);
    assert!(lock.claimed);
    office.drop_handle(&mut lock);
    assert!(lock.claimed);
    office.drop_handle(&mut lock);
    assert!(!lock.claimed);
}

/// Enabling optional features is gated on the build version.
#[test]
fn test_optional_features_gate() {
    let mut lock = InstanceLock::new();
    let mut office = new_office_with(ProductVersion::new(5, 4), full_slots(), &mut lock);
    assert!(matches!(
        office.set_optional_features(libreofficekit::OfficeOptionalFeatures::empty(), ""),
        Err(OfficeError::MissingFunction("setOptionalFeatures"))
    ));
}

/// The first existing well-known location is preferred; with none, the
/// fallback selected from the installation root is used.
#[test]
fn test_find_install_path_preference() {
    let known = vec![
        (String::from("/usr/lib64/libreoffice/program"), false),
        (String::from("/usr/lib/libreoffice/program"), true),
    ];
    assert_eq!(
        Office::find_install_path(&known, Some(String::from("/opt/libreoffice24.2/program")))
            .unwrap(),
        "/usr/lib/libreoffice/program"
    );

    let none_known = vec![
        (String::from("/usr/lib64/libreoffice/program"), false),
        (String::from("/usr/lib/libreoffice/program"), false),
    ];
    assert_eq!(
        Office::find_install_path(&none_known, Some(String::from("/opt/libreoffice24.2/program")))
            .unwrap(),
        "/opt/libreoffice24.2/program"
    );
    assert_eq!(Office::find_install_path(&none_known, None), None);

    let both = vec![(String::from("/a"), true), (String::from("/b"), true)];
    assert_eq!(Office::find_install_path(&both, None).unwrap(), "/a");
}
