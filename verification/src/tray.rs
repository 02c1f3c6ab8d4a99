//! The tray menu.

use crate::text::{decimal, decimal_text, joined};
use vstd::prelude::*;
use vstd::string::*;

verus! {

/// The page that lists all releases.
pub const RELEASES_PAGE: &'static str = "https://github.com/OCplan/ocvoice-audio-router/releases";

/// The line that names the app and its version.
pub fn version_label(version: &str) -> (label: String)
    ensures
        label@ == "OCvoice Audio Router v"@ + version@,
{
    joined("OCvoice Audio Router v", version)
}

/// The line that says how many audio devices there are.
pub fn devices_label(device_count: usize) -> (label: String)
    ensures
        label@ == decimal(device_count as nat) + " audio device"@ + if device_count == 1 {
            ""@
        } else {
            "s"@
        },
{
    let mut label = decimal_text(device_count as u64);
    label.append(" audio device");
    label.append(
        if device_count == 1 {
            ""
        } else {
            "s"
        },
    );
    label
}

/// The menu entry that leads to the setup page.
pub const SETUP_ENTRY: &'static str = "YouTube setup / Opsætning";

/// The local setup page of a server on `port`.
pub fn setup_page(port: u16) -> (url: String)
    ensures
        url@ == "http://127.0.0.1:"@ + decimal(port as nat) + "/setup"@,
{
    let mut url = joined("http://127.0.0.1:", &decimal_text(port as u64));
    url.append("/setup");
    url
}

/// The page that "Check for Update" opens: that of the update that was found
/// last, or the list of all releases.
pub fn update_page(found: &Option<String>) -> (url: String)
    ensures
        url@ == match found {
            Some(page) => page@,
            None => RELEASES_PAGE@,
        },
{
    match found {
        Some(page) => page.clone(),
        None => RELEASES_PAGE.to_owned(),
    }
}

/// The log message for an update that the menu now leads to.
pub fn indicator_message(tag: &str) -> (message: String)
    ensures
        message@ == "[Tray] Update indicator set for "@ + tag@,
{
    joined("[Tray] Update indicator set for ", tag)
}

} // verus!
