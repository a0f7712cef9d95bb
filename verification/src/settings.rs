//! Defaults of the stored settings.

use vstd::prelude::*;
use vstd::string::*;

verus! {

/// Theme used when none has been stored.
pub fn default_theme() -> (r: String)
    ensures
        r@ == "system"@,
{
    String::from_str("system")
}

/// Refresh interval, in minutes, used when none has been stored.
pub const DEFAULT_REFRESH_MINUTES: u64 = 5;

/// Token used when none has been stored: none, so the app asks for one.
pub fn default_token() -> (r: String)
    ensures
        r@ == Seq::<char>::empty(),
{
    String::new()
}

/// Whether the percentage is shown beside the tray icon when nothing has been
/// stored: it is.
pub const DEFAULT_SHOW_PERCENT_TEXT: bool = true;

/// Whether the app launches at login when nothing has been stored: it does not.
pub const DEFAULT_AUTO_START: bool = false;

} // verus!
