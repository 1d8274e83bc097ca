use boxwine::action::{Action, Stage};
use boxwine::config::Config;
use boxwine::files::info_plist::{create_info_plist, EXECUTABLE_NAME, INFO_PLIST_NAME};
use boxwine::files::launch::{create_launch, LAUNCH_PATH};
use boxwine::init::{init, Init, EXAMPLE_CONFIG};

#[test]
fn property_list_without_icon() {
    let step = create_info_plist(&Config::default(), "My App.app");
    assert_eq!(step.stage, Stage::Bundle);
    assert_eq!(step.context, "Writing Info.plist");
    let expected = "<?xml version=\"1.0\" encoding=\"UTF-8\"?>\n\
<!DOCTYPE plist PUBLIC \"-//Apple//DTD PLIST 1.0//EN\" \"http://www.apple.com/DTDs/PropertyList-1.0.dtd\">\n\
<plist version=\"1.0\">\n\
<dict>\n  <key>CFBundleExecutable</key>\n  <string>launch</string>\n  <key>CFBundleIconFile</key>\n  <string></string>\n</dict>\n</plist>";
    assert_eq!(
        step.action,
        Action::WriteFile {
            path: "My App.app/Info.plist".to_string(),
            contents: expected.to_string(),
            executable: false,
        }
    );
}

#[test]
fn property_list_names_the_icon() {
    let mut config = Config::default();
    config.app.icon = Some("AppIcon".to_string());
    match create_info_plist(&config, "x.app").action {
        Action::WriteFile { contents, .. } => {
            assert!(contents.contains(
                "  <key>CFBundleIconFile</key>\n  <string>AppIcon</string>\n</dict>\n</plist>"
            ));
            assert!(contents
                .contains("  <key>CFBundleExecutable</key>\n  <string>launch</string>\n"));
        }
        other => panic!("unexpected action {:?}", other),
    }
}

#[test]
fn names_of_the_fixed_files() {
    assert_eq!(INFO_PLIST_NAME, "Info.plist");
    assert_eq!(EXECUTABLE_NAME, "launch");
    assert_eq!(LAUNCH_PATH, "Contents/MacOS/launch");
}

#[test]
fn start_script_finds_the_prefix_beside_itself() {
    let step = create_launch(&Config::default(), "wineprefix", "My App.app");
    assert_eq!(step.stage, Stage::Bundle);
    assert_eq!(step.context, "Writing launch script");
    match step.action {
        Action::WriteFile { path, contents, executable } => {
            assert_eq!(path, "My App.app/Contents/MacOS/launch");
            assert!(executable);
            assert!(contents.starts_with("#!/bin/sh\n"));
            assert!(contents.contains("\nWINEPREFIX=\"${DIR}/wineprefix\"\n"));
            assert!(contents.contains("tar -xzf \"${WINEPREFIX}.tar.gz\" -C \"${WINEPREFIX}\"\n"));
            assert!(contents.contains("\nWINE=\"${DIR}/wine/bin/wine\"\n"));
            assert!(contents.ends_with(
                "WINEPREFIX=\"${WINEPREFIX}\" \"${WINE}\" start 'C:/windows/system32/cmd.exe'\n"
            ));
        }
        other => panic!("unexpected action {:?}", other),
    }
}

#[test]
fn start_script_takes_any_prefix_name() {
    match create_launch(&Config::default(), "other", "a.app").action {
        Action::WriteFile { contents, .. } => {
            assert!(contents.contains("\nWINEPREFIX=\"${DIR}/other\"\n"));
            assert!(!contents.contains("${DIR}/wineprefix"));
        }
        other => panic!("unexpected action {:?}", other),
    }
}

#[test]
fn example_configuration_is_written_to_the_given_file() {
    let action = init(Init { file: "app.boxwine.toml".to_string() });
    assert_eq!(
        action,
        Action::WriteFile {
            path: "app.boxwine.toml".to_string(),
            contents: EXAMPLE_CONFIG.to_string(),
            executable: false,
        }
    );
}

#[test]
fn example_configuration_has_every_section() {
    for section in [
        "[app]",
        "[app.entrypoint]",
        "[wine]",
        "[wine.build]",
        "[wine.prefix]",
        "[[wine.volume]]",
        "[[wine.run]]",
        "[winetricks]",
    ] {
        assert!(EXAMPLE_CONFIG.contains(section), "{}", section);
    }
}
