//! The script that macOS starts when the bundle is opened.

use vstd::prelude::*;
use crate::action::{Action, ActionView, Stage, Step, StepView};
use crate::config::Config;
use crate::text::{join, join_path};

verus! {

/// Where the script lies inside the bundle.
pub const LAUNCH_PATH: &'static str = "Contents/MacOS/launch";

/// The script up to the name of the prefix's directory.
pub const LAUNCH_HEAD: &'static str = r#"#!/bin/sh

# Directory of this script
DIR="$( cd "$( dirname "${BASH_SOURCE[0]}" )" >/dev/null 2>&1 && pwd )"


WINEPREFIX="${DIR}/"#;

/// The script behind the name of the prefix's directory: it unpacks a
/// packed prefix on the first start, then starts Wine.
pub const LAUNCH_TAIL: &'static str = r#""

if test -f "${WINEPREFIX}.tar.gz"; then
    echo "Uncompressing wineprefix ..."
    mkdir -p "${WINEPREFIX}"
    tar -xzf "${WINEPREFIX}.tar.gz" -C "${WINEPREFIX}"
    rm "${WINEPREFIX}.tar.gz"
    echo "Done!"
fi

WINE="${DIR}/wine/bin/wine"

# Launch wine
WINEPREFIX="${WINEPREFIX}" "${WINE}" start 'C:/windows/system32/cmd.exe'
"#;

/// The text of the script for a prefix that lies beside it under the name
/// `wineprefix_name`.
pub open spec fn launch_text(wineprefix_name: Seq<char>) -> Seq<char> {
    LAUNCH_HEAD@ + wineprefix_name + LAUNCH_TAIL@
}

/// The step that writes the script of the bundle at `app_path`.
pub open spec fn launch_step(wineprefix_name: Seq<char>, app_path: Seq<char>) -> StepView {
    StepView {
        stage: Stage::Bundle,
        context: "Writing launch script"@,
        action: ActionView::WriteFile {
            path: join(app_path, LAUNCH_PATH@),
            contents: launch_text(wineprefix_name),
            executable: true,
        },
    }
}

/// Plans the writing of the bundle's start script, which finds the prefix
/// under `wineprefix_name` in its own directory.
pub fn create_launch(_config: &Config, wineprefix_name: &str, app_path: &str) -> (step: Step)
    ensures
        step@ == launch_step(wineprefix_name@, app_path@),
{
    let launch_script_path = join_path(app_path, LAUNCH_PATH);

    let mut launch_script = String::from_str(LAUNCH_HEAD);
    launch_script.append(wineprefix_name);
    launch_script.append(LAUNCH_TAIL);

    Step {
        stage: Stage::Bundle,
        context: String::from_str("Writing launch script"),
        action: Action::WriteFile {
            path: launch_script_path,
            contents: launch_script,
            executable: true,
        },
    }
}

} // verus!
