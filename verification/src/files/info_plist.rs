//! The property list that tells macOS what the bundle holds.

use vstd::prelude::*;
use crate::action::{Action, ActionView, Stage, Step, StepView};
use crate::config::{Config, ConfigView};
use crate::text::{join, join_path};

verus! {

/// Name of the property list inside the bundle.
pub const INFO_PLIST_NAME: &'static str = "Info.plist";

/// Name of the bundle's executable, as the property list gives it.
pub const EXECUTABLE_NAME: &'static str = "launch";

/// The property list up to the name of the executable.
pub const INFO_PLIST_HEAD: &'static str = r#"<?xml version="1.0" encoding="UTF-8"?>
<!DOCTYPE plist PUBLIC "-//Apple//DTD PLIST 1.0//EN" "http://www.apple.com/DTDs/PropertyList-1.0.dtd">
<plist version="1.0">
<dict>
  <key>CFBundleExecutable</key>
  <string>"#;

/// The property list between the name of the executable and the icon.
pub const INFO_PLIST_MIDDLE: &'static str = r#"</string>
  <key>CFBundleIconFile</key>
  <string>"#;

/// The property list behind the icon.
pub const INFO_PLIST_TAIL: &'static str = r#"</string>
</dict>
</plist>"#;

/// The icon that the property list names: the configured one, or none.
pub open spec fn icon_of(config: ConfigView) -> Seq<char> {
    match config.app.icon {
        Some(icon) => icon,
        None => Seq::empty(),
    }
}

/// The text of the property list for an application with the icon `icon`.
pub open spec fn info_plist_text(icon: Seq<char>) -> Seq<char> {
    INFO_PLIST_HEAD@ + EXECUTABLE_NAME@ + INFO_PLIST_MIDDLE@ + icon + INFO_PLIST_TAIL@
}

/// The step that writes the property list of the bundle at `app_path`.
pub open spec fn info_plist_step(config: ConfigView, app_path: Seq<char>) -> StepView {
    StepView {
        stage: Stage::Bundle,
        context: "Writing Info.plist"@,
        action: ActionView::WriteFile {
            path: join(app_path, INFO_PLIST_NAME@),
            contents: info_plist_text(icon_of(config)),
            executable: false,
        },
    }
}

/// Plans the writing of the bundle's property list.
pub fn create_info_plist(config: &Config, app_path: &str) -> (step: Step)
    ensures
        step@ == info_plist_step(config@, app_path@),
{
    let info_plist_path = join_path(app_path, INFO_PLIST_NAME);

    let mut info_plist = String::from_str(INFO_PLIST_HEAD);
    info_plist.append(EXECUTABLE_NAME);
    info_plist.append(INFO_PLIST_MIDDLE);
    match config.get_app_icon() {
        Some(icon) => {
            info_plist.append(icon.as_str());
        },
        None => {
            assert(info_plist@ + Seq::<char>::empty() =~= info_plist@);
        },
    }
    info_plist.append(INFO_PLIST_TAIL);

    Step {
        stage: Stage::Bundle,
        context: String::from_str("Writing Info.plist"),
        action: Action::WriteFile {
            path: info_plist_path,
            contents: info_plist,
            executable: false,
        },
    }
}

} // verus!
