//! What the tray shows.

use vstd::prelude::*;
use vstd::string::*;

verus! {

/// The platform the app runs on, as far as the tray cares.
#[derive(Clone, Copy, Debug, PartialEq, Eq)]
pub enum Platform {
    MacOs,
    Windows,
    Other,
}

/// Side length, in pixels, of the tray icon: 16 on Windows, 22 elsewhere.
pub fn tray_icon_size(platform: Platform) -> (r: u32)
    ensures
        r == (if platform == Platform::Windows { 16u32 } else { 22u32 }),
{
    match platform {
        Platform::Windows => 16,
        _ => 22,
    }
}

/// Where the tray's text goes.
#[derive(Clone, Copy, Debug, PartialEq, Eq)]
pub enum TextSlot {
    /// Beside the icon in the menu bar.
    Title,
    /// In the tooltip shown on hover.
    Tooltip,
}

/// macOS shows the text next to the icon; other platforms as a tooltip.
pub fn tray_text_slot(platform: Platform) -> (r: TextSlot)
    ensures
        r == (if platform == Platform::MacOs { TextSlot::Title } else { TextSlot::Tooltip }),
{
    match platform {
        Platform::MacOs => TextSlot::Title,
        _ => TextSlot::Tooltip,
    }
}

/// The tray label of a balance.
pub open spec fn label_text(unlimited: bool, show_text: bool, rounded_percent: Seq<char>) -> Seq<char> {
    if !show_text {
        Seq::empty()
    } else if unlimited {
        "\u{221e}"@
    } else {
        rounded_percent + "%"@
    }
}

/// The tray label of a balance: empty when text is off, `∞` for an unlimited
/// balance, else the remaining percentage (already rounded to a whole number)
/// followed by `%`.
pub fn format_label(unlimited: bool, show_text: bool, rounded_percent: &str) -> (r: String)
    ensures
        r@ == label_text(unlimited, show_text, rounded_percent@),
        !show_text ==> r@.len() == 0,
        show_text && unlimited ==> r@ == "\u{221e}"@,
        show_text && !unlimited ==> r@ == rounded_percent@ + "%"@,
{
    if unlimited {
        return if show_text { String::from_str("\u{221e}") } else { String::new() };
    }
    if show_text {
        let mut s = String::from_str(rounded_percent);
        s.append("%");
        s
    } else {
        String::new()
    }
}

/// Label shown while no token is configured.
pub open spec fn set_token_text() -> Seq<char> {
    "\u{2699} Set Token"@
}

/// Label shown after a failed refresh.
pub open spec fn error_text() -> Seq<char> {
    "\u{26a0} Error"@
}

/// The label shown while no token is configured.
pub fn set_token_label() -> (r: String)
    ensures
        r@ == set_token_text(),
{
    String::from_str("\u{2699} Set Token")
}

/// The label shown after a failed refresh.
pub fn error_label() -> (r: String)
    ensures
        r@ == error_text(),
{
    String::from_str("\u{26a0} Error")
}

/// What a tray menu entry asks for.
#[derive(Clone, Copy, Debug, PartialEq, Eq)]
pub enum MenuCommand {
    /// Open the popup window, or bring it to the front.
    OpenPopup,
    /// Leave the app.
    Quit,
    /// Nothing.
    Ignore,
}

/// The command of a tray menu entry, by its id.
pub open spec fn menu_command_for(id: Seq<char>) -> MenuCommand {
    if id == "open"@ || id == "settings"@ {
        MenuCommand::OpenPopup
    } else if id == "quit"@ {
        MenuCommand::Quit
    } else {
        MenuCommand::Ignore
    }
}

/// Dispatches a tray menu entry: "open" and "settings" both open the popup,
/// "quit" leaves, anything else is ignored.
pub fn menu_command(id: &str) -> (r: MenuCommand)
    ensures
        r == menu_command_for(id@),
        r == MenuCommand::OpenPopup <==> (id@ == "open"@ || id@ == "settings"@),
        r == MenuCommand::Quit <==> id@ == "quit"@,
{
    proof {
        reveal_strlit("open");
        reveal_strlit("settings");
        reveal_strlit("quit");
        assert("quit"@[0] != "open"@[0]);
        assert("quit"@.len() != "settings"@.len());
    }
    let id = String::from_str(id);
    if id == String::from_str("open") || id == String::from_str("settings") {
        MenuCommand::OpenPopup
    } else if id == String::from_str("quit") {
        MenuCommand::Quit
    } else {
        MenuCommand::Ignore
    }
}

} // verus!
