//! The colour palette and the icons (Unicode symbols) of the user interface.

use vstd::prelude::*;

verus! {

/// The icons of the user interface.
pub struct Icons;

impl Icons {
    pub const PERSON: &'static str = "👤";
    pub const PEOPLE: &'static str = "👥";
    pub const FAMILY: &'static str = "👨‍👩‍👧‍👦";
    pub const TREE: &'static str = "🌳";
    pub const DOCUMENT: &'static str = "📄";
    pub const FOLDER: &'static str = "📁";
    pub const IMAGE: &'static str = "🖼";
    pub const SEARCH: &'static str = "🔍";
    pub const SETTINGS: &'static str = "⚙";
    pub const ADD: &'static str = "➕";
    pub const EDIT: &'static str = "✏";
    pub const DELETE: &'static str = "🗑";
    pub const SAVE: &'static str = "💾";
    pub const BOOKMARK: &'static str = "⭐";
    pub const BOOKMARK_EMPTY: &'static str = "☆";
    pub const CHECK: &'static str = "✓";
    pub const CROSS: &'static str = "✗";
    pub const ARROW_LEFT: &'static str = "←";
    pub const ARROW_RIGHT: &'static str = "→";
    pub const CALENDAR: &'static str = "📅";
    pub const NOTE: &'static str = "📝";
    pub const DASHBOARD: &'static str = "📊";
    pub const BACKUP: &'static str = "💾";
    pub const IMPORT: &'static str = "📥";
    pub const EXPORT: &'static str = "📤";
    pub const DOWNLOAD: &'static str = "⬇";
    pub const LINK: &'static str = "🔗";
    pub const HEART: &'static str = "❤";
    pub const FILTER: &'static str = "⏷";
    pub const CAMERA: &'static str = "📷";
    pub const LOCATION: &'static str = "📍";
}

/// The colour palette, each colour as `0xRRGGBB`.
pub struct Colors;

impl Colors {
    pub const PRIMARY: u32 = 0x3B82F6;
    pub const PRIMARY_HOVER: u32 = 0x2563EB;
    pub const SUCCESS: u32 = 0x22C55E;
    pub const SUCCESS_BG: u32 = 0xDCFCE7;
    pub const WARNING: u32 = 0xEAB308;
    pub const WARNING_BG: u32 = 0xFEF9C3;
    pub const ERROR: u32 = 0xEF4444;
    pub const ERROR_BG: u32 = 0xFEE2E2;
    pub const INFO: u32 = 0x3B82F6;
    pub const INFO_BG: u32 = 0xDBEAFE;
    pub const TEXT_PRIMARY: u32 = 0x111827;
    pub const TEXT_SECONDARY: u32 = 0x6B7280;
    pub const TEXT_MUTED: u32 = 0x9CA3AF;
    pub const PARENT: u32 = 0x9333EA;
    pub const CHILD: u32 = 0x22C55E;
    pub const SPOUSE: u32 = 0xEF4444;
    pub const SIBLING: u32 = 0x3B82F6;
}

/// The red, green and blue parts of a colour `0xRRGGBB`.
pub fn rgb_channels(color: u32) -> (r: (u8, u8, u8))
    requires
        color < 0x1000000,
    ensures
        color == r.0 as int * 65536 + r.1 as int * 256 + r.2 as int,
{
    let red = (color / 65536) as u8;
    let green = (color / 256 % 256) as u8;
    let blue = (color % 256) as u8;
    (red, green, blue)
}

} // verus!
