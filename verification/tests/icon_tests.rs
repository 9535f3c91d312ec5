use neo_core::icon::{
    conversion_outcome, display_name_query, first_bundle_path, first_existing, fs_name_query,
    icon_file_name, icon_presence, icon_resource_path, locate_begin, locate_outcome, locate_step,
    plist_path, resolve_begin, resolve_step, temp_png_name, well_known_candidates, IconError,
    LocateAction, LocateEvent, LocatePhase, ResolveAction, ResolveEvent, ResolvePhase,
};

#[test]
fn queries_interpolate_the_name() {
    assert_eq!(
        display_name_query("Calculator"),
        "kMDItemDisplayName == 'Calculator' && kMDItemKind == 'Application'"
    );
    assert_eq!(
        fs_name_query("Calculator"),
        "kMDItemFSName == 'Calculator.app' && kMDItemKind == 'Application'"
    );
}

#[test]
fn queries_escape_untrusted_names() {
    assert_eq!(
        display_name_query("O'Brien"),
        "kMDItemDisplayName == 'O\\'Brien' && kMDItemKind == 'Application'"
    );
    assert_eq!(
        display_name_query("a\\b' && kMDItemKind == '*"),
        "kMDItemDisplayName == 'a\\\\b\\' && kMDItemKind == \\'*' && kMDItemKind == 'Application'"
    );
}

#[test]
fn first_bundle_line_is_picked() {
    let out = "noise\n/Applications/Safari.app\n/Applications/Mail.app\n";
    assert_eq!(
        first_bundle_path(out).as_deref(),
        Some("/Applications/Safari.app")
    );
}

#[test]
fn lines_without_the_suffix_are_skipped() {
    assert_eq!(first_bundle_path(""), None);
    assert_eq!(first_bundle_path("no match here\nstill none"), None);
    // Ends with ".application", not with ".app".
    assert_eq!(first_bundle_path("/x/y.application"), None);
    assert_eq!(first_bundle_path("/x/y.application\n/z.app"), Some(String::from("/z.app")));
}

#[test]
fn candidates_cover_the_well_known_directories() {
    let v = well_known_candidates("Calculator");
    assert_eq!(
        v,
        vec![
            String::from("/Applications/Calculator.app"),
            String::from("/System/Applications/Calculator.app"),
            String::from("/System/Applications/Utilities/Calculator.app"),
            String::from("/System/Library/CoreServices/Calculator.app"),
        ]
    );
}

#[test]
fn first_existing_candidate_is_taken() {
    let v = well_known_candidates("Calculator");
    assert_eq!(first_existing(&v, &vec![false, true, true, false]), Some(1));
    assert_eq!(first_existing(&v, &vec![false, false, false, false]), None);
}

#[test]
fn unlocated_app_is_not_found() {
    // No metadata hit and no existing candidate: the name is reported.
    assert_eq!(first_bundle_path(""), None);
    let r = locate_outcome(None, "NoSuchApp");
    let e = r.unwrap_err();
    assert_eq!(
        e,
        IconError::AppNotFound {
            app_name: String::from("NoSuchApp")
        }
    );
    assert_eq!(e.message(), "App not found: NoSuchApp");
}

#[test]
fn located_path_is_passed_through() {
    let r = locate_outcome(Some(String::from("/Applications/Safari.app")), "Safari");
    assert_eq!(r.unwrap(), "/Applications/Safari.app");
}

#[test]
fn empty_icon_attribute_falls_back_to_default() {
    let empty = String::from("");
    assert_eq!(icon_file_name(Some(&empty)).unwrap(), "AppIcon.icns");
    // The reader's output usually carries a trailing newline; blank
    // output is still the handled empty case.
    let blank = String::from("\n");
    assert_eq!(icon_file_name(Some(&blank)).unwrap(), "AppIcon.icns");
}

#[test]
fn icon_attribute_is_trimmed_and_suffixed() {
    let named = String::from("MyIcon\n");
    assert_eq!(icon_file_name(Some(&named)).unwrap(), "MyIcon.icns");
    let suffixed = String::from(" AppIcon.icns ");
    assert_eq!(icon_file_name(Some(&suffixed)).unwrap(), "AppIcon.icns");
}

#[test]
fn bundle_relative_paths_are_built() {
    assert_eq!(
        plist_path("/Applications/X.app"),
        "/Applications/X.app/Contents/Info.plist"
    );
    assert_eq!(
        icon_resource_path("/Applications/X.app", "AppIcon.icns"),
        "/Applications/X.app/Contents/Resources/AppIcon.icns"
    );
}

#[test]
fn failed_plist_read_is_an_error() {
    let e = icon_file_name(None).unwrap_err();
    assert_eq!(e, IconError::PlistReadError);
    assert_eq!(e.message(), "Failed to read plist");
}

#[test]
fn missing_icon_resource_is_reported_with_its_path() {
    let p = String::from("/Applications/X.app/Contents/Resources/AppIcon.icns");
    assert_eq!(icon_presence(p.clone(), true).unwrap(), p);
    let e = icon_presence(p.clone(), false).unwrap_err();
    assert_eq!(e, IconError::IconNotFound { icns_path: p });
    assert_eq!(
        e.message(),
        "Icon file not found: /Applications/X.app/Contents/Resources/AppIcon.icns"
    );
}

#[test]
fn temp_names_sanitize_and_carry_the_token() {
    assert_eq!(temp_png_name("Calculator", 7), "neo_icon_Calculator_7.png");
    assert_eq!(
        temp_png_name("Visual Studio Code", 12345),
        "neo_icon_Visual_Studio_Code_12345.png"
    );
    assert_ne!(temp_png_name("Calculator", 1), temp_png_name("Calculator", 2));
}

#[test]
fn conversion_outcomes_are_mapped() {
    assert!(conversion_outcome(true, true, String::from("unused")).is_ok());
    let e = conversion_outcome(false, false, String::from("spawn failed")).unwrap_err();
    assert_eq!(
        e,
        IconError::ConversionFailed {
            detail: String::from("spawn failed")
        }
    );
    let e = conversion_outcome(true, false, String::from("cannot decode icns")).unwrap_err();
    assert_eq!(e.message(), "Icon conversion failed: cannot decode icns");
}

#[test]
fn locate_machine_walks_the_fallback_chain() {
    let name = "NoSuchApp";
    let (phase, action) = locate_begin(name);
    assert_eq!(phase, LocatePhase::DisplayQuery);
    assert_eq!(
        action,
        LocateAction::RunSearch(String::from(
            "kMDItemDisplayName == 'NoSuchApp' && kMDItemKind == 'Application'"
        ))
    );

    // The display-name search yields no bundle line.
    let (phase, action) = locate_step(phase, name, LocateEvent::SearchOutput(Some(String::new())));
    assert_eq!(phase, LocatePhase::FsNameQuery);
    assert_eq!(
        action,
        LocateAction::RunSearch(String::from(
            "kMDItemFSName == 'NoSuchApp.app' && kMDItemKind == 'Application'"
        ))
    );

    // The filesystem-name search could not even be run.
    let (phase, action) = locate_step(phase, name, LocateEvent::SearchOutput(None));
    assert_eq!(phase, LocatePhase::Candidates);
    assert_eq!(
        action,
        LocateAction::ProbeCandidates(well_known_candidates(name))
    );

    // No well-known candidate exists either.
    let (phase, action) = locate_step(
        phase,
        name,
        LocateEvent::CandidatesPresent(vec![false, false, false, false]),
    );
    assert_eq!(action, LocateAction::Finish);
    assert_eq!(
        phase,
        LocatePhase::Done(Err(IconError::AppNotFound {
            app_name: String::from(name)
        }))
    );
}

#[test]
fn locate_machine_takes_a_search_hit() {
    let (phase, _) = locate_begin("Safari");
    let (phase, action) = locate_step(
        phase,
        "Safari",
        LocateEvent::SearchOutput(Some(String::from("/Applications/Safari.app\n"))),
    );
    assert_eq!(
        phase,
        LocatePhase::Done(Ok(String::from("/Applications/Safari.app")))
    );
    assert_eq!(action, LocateAction::Finish);
}

#[test]
fn calculator_resolves_via_the_well_known_fallback() {
    // The metadata search yields nothing on either query.
    let name = "Calculator";
    let (phase, _) = locate_begin(name);
    let (phase, _) = locate_step(phase, name, LocateEvent::SearchOutput(Some(String::new())));
    let (phase, _) = locate_step(phase, name, LocateEvent::SearchOutput(Some(String::new())));
    assert_eq!(phase, LocatePhase::Candidates);

    // The first well-known candidate exists.
    let (phase, action) = locate_step(
        phase,
        name,
        LocateEvent::CandidatesPresent(vec![true, false, false, false]),
    );
    assert_eq!(action, LocateAction::Finish);
    let app_path = match phase {
        LocatePhase::Done(outcome) => outcome.unwrap(),
        _ => panic!("locate did not finish"),
    };
    assert_eq!(app_path, "/Applications/Calculator.app");

    // The pipeline asks for the bundle's property list.
    let (phase, action) = resolve_begin(app_path);
    assert_eq!(
        action,
        ResolveAction::ReadPlist(String::from(
            "/Applications/Calculator.app/Contents/Info.plist"
        ))
    );

    // The attribute names the icon; its resource is probed.
    let (phase, action) = resolve_step(
        phase,
        name,
        7,
        ResolveEvent::PlistOutput(Some(String::from("AppIcon\n"))),
    );
    assert_eq!(
        action,
        ResolveAction::ProbeIcon(String::from(
            "/Applications/Calculator.app/Contents/Resources/AppIcon.icns"
        ))
    );

    // The resource exists; the converter is asked for a 32x32 PNG in
    // the temporary file.
    let (phase, action) = resolve_step(phase, name, 7, ResolveEvent::IconPresent(true));
    assert_eq!(
        action,
        ResolveAction::Convert {
            source: String::from(
                "/Applications/Calculator.app/Contents/Resources/AppIcon.icns"
            ),
            target_name: String::from("neo_icon_Calculator_7.png"),
        }
    );

    // The converter exits cleanly; the file is read back.
    let (phase, action) = resolve_step(
        phase,
        name,
        7,
        ResolveEvent::ConverterOutcome {
            spawned: true,
            exit_ok: true,
            diagnostic: String::new(),
        },
    );
    assert_eq!(
        action,
        ResolveAction::ReadTemp(String::from("neo_icon_Calculator_7.png"))
    );

    // The bytes come back; cleanup is requested before finishing.
    let png = vec![0x89u8, b'P', b'N', b'G', 0x0d, 0x0a, 0x1a, 0x0a];
    let (phase, action) = resolve_step(phase, name, 7, ResolveEvent::ReadBack(Some(png)));
    assert_eq!(
        action,
        ResolveAction::RemoveTemp(String::from("neo_icon_Calculator_7.png"))
    );

    // The outcome stands whatever the removal said.
    let (phase, action) = resolve_step(phase, name, 7, ResolveEvent::TempRemoved(true));
    assert_eq!(action, ResolveAction::Finish);
    let url = match phase {
        ResolvePhase::Done(outcome) => outcome.unwrap(),
        _ => panic!("resolution did not finish"),
    };
    let payload = url.strip_prefix("data:image/png;base64,").unwrap();
    assert!(!payload.is_empty());
}

#[test]
fn pipeline_failures_finish_without_cleanup_of_unwritten_files() {
    // The property-list reader could not be run.
    let (phase, _) = resolve_begin(String::from("/Applications/X.app"));
    let (phase, action) = resolve_step(phase, "X", 0, ResolveEvent::PlistOutput(None));
    assert_eq!(action, ResolveAction::Finish);
    assert_eq!(phase, ResolvePhase::Done(Err(IconError::PlistReadError)));

    // The icon resource is missing.
    let (phase, _) = resolve_begin(String::from("/Applications/X.app"));
    let (phase, action) = resolve_step(
        phase,
        "X",
        0,
        ResolveEvent::PlistOutput(Some(String::from("AppIcon"))),
    );
    assert_eq!(
        action,
        ResolveAction::ProbeIcon(String::from(
            "/Applications/X.app/Contents/Resources/AppIcon.icns"
        ))
    );
    let (phase, action) = resolve_step(phase, "X", 0, ResolveEvent::IconPresent(false));
    assert_eq!(action, ResolveAction::Finish);
    assert_eq!(
        phase,
        ResolvePhase::Done(Err(IconError::IconNotFound {
            icns_path: String::from("/Applications/X.app/Contents/Resources/AppIcon.icns")
        }))
    );

    // The converter exits with a failure: its diagnostic is carried.
    let (phase, _) = resolve_begin(String::from("/Applications/X.app"));
    let (phase, _) = resolve_step(
        phase,
        "X",
        0,
        ResolveEvent::PlistOutput(Some(String::new())),
    );
    let (phase, _) = resolve_step(phase, "X", 0, ResolveEvent::IconPresent(true));
    let (phase, action) = resolve_step(
        phase,
        "X",
        0,
        ResolveEvent::ConverterOutcome {
            spawned: true,
            exit_ok: false,
            diagnostic: String::from("cannot decode icns"),
        },
    );
    assert_eq!(action, ResolveAction::Finish);
    assert_eq!(
        phase,
        ResolvePhase::Done(Err(IconError::ConversionFailed {
            detail: String::from("cannot decode icns")
        }))
    );
}
