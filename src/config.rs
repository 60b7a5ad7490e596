use vstd::prelude::*;
use crate::units::SpeedUnits;

verus! {

/// Schema version of the persisted record. A record of any other version is
/// treated as unreadable.
pub const CONFIG_VERSION: u32 = 1;

/// Default font size, 16.0 points, as the bit pattern of an IEEE-754 single.
pub const DEFAULT_FONT_SIZE_BITS: u32 = 0x4180_0000;

/// A colour as four 8-bit channels, red, green, blue and alpha.
#[derive(Clone, Copy, Debug, PartialEq, Eq, Structural)]
pub struct Rgba {
    pub r: u8,
    pub g: u8,
    pub b: u8,
    pub a: u8,
}

/// Opaque black, the default background.
pub open spec fn default_background() -> Rgba {
    Rgba { r: 0, g: 0, b: 0, a: 255 }
}

/// Opaque white, the default font colour.
pub open spec fn default_font_colour() -> Rgba {
    Rgba { r: 255, g: 255, b: 255, a: 255 }
}

/// Appearance of the control panel itself.
///
/// Font sizes are held as the bit pattern of an IEEE-754 single precision
/// point size: the record only carries them, so they survive unchanged.
#[derive(Clone, Copy, Debug, PartialEq, Eq, Structural)]
pub struct HomeConfig {
    pub font_size_bits: u32,
    pub bg_colour: Rgba,
    pub font_colour: Rgba,
}

/// Settings of the speed overlay.
#[derive(Clone, Copy, Debug, PartialEq, Eq, Structural)]
pub struct SpeedConfig {
    pub display: bool,
    pub font_size_bits: u32,
    pub units: SpeedUnits,
    pub overlay_bgcolour: Rgba,
    pub overlay_fontcolour: Rgba,
}

/// Settings of the last-lap-time overlay.
#[derive(Clone, Copy, Debug, PartialEq, Eq, Structural)]
pub struct LastLapTimeConfig {
    pub display: bool,
    pub font_size_bits: u32,
    pub overlay_bgcolour: Rgba,
    pub overlay_fontcolour: Rgba,
}

/// The whole persisted configuration record, shared by the control panel and
/// every overlay process.
#[derive(Clone, Copy, Debug, PartialEq, Eq, Structural)]
pub struct WindowsConfig {
    pub version: u32,
    pub home_config: HomeConfig,
    pub speed_config: SpeedConfig,
    pub lastlaptime_config: LastLapTimeConfig,
}

/// The default record: every overlay disabled, 16-point text, white on black,
/// speed in metres per second.
pub open spec fn default_config() -> WindowsConfig {
    WindowsConfig {
        version: CONFIG_VERSION,
        home_config: HomeConfig {
            font_size_bits: DEFAULT_FONT_SIZE_BITS,
            bg_colour: default_background(),
            font_colour: default_font_colour(),
        },
        speed_config: SpeedConfig {
            display: false,
            font_size_bits: DEFAULT_FONT_SIZE_BITS,
            units: SpeedUnits::Metrespersecond,
            overlay_bgcolour: default_background(),
            overlay_fontcolour: default_font_colour(),
        },
        lastlaptime_config: LastLapTimeConfig {
            display: false,
            font_size_bits: DEFAULT_FONT_SIZE_BITS,
            overlay_bgcolour: default_background(),
            overlay_fontcolour: default_font_colour(),
        },
    }
}

/// The record that start-up uses, given what was read from disk: the stored
/// record when there was one of the current version, else the default.
pub open spec fn loaded_or_default(loaded: Option<WindowsConfig>) -> WindowsConfig {
    match loaded {
        Some(c) => if c.version == CONFIG_VERSION { c } else { default_config() },
        None => default_config(),
    }
}

impl Rgba {
    fn opaque_black() -> (r: Rgba)
        ensures
            r == default_background(),
    {
        Rgba { r: 0, g: 0, b: 0, a: 255 }
    }

    fn opaque_white() -> (r: Rgba)
        ensures
            r == default_font_colour(),
    {
        Rgba { r: 255, g: 255, b: 255, a: 255 }
    }
}

impl WindowsConfig {
    /// The default record.
    pub fn default_config() -> (r: WindowsConfig)
        ensures
            r == default_config(),
    {
        WindowsConfig {
            version: CONFIG_VERSION,
            home_config: HomeConfig {
                font_size_bits: DEFAULT_FONT_SIZE_BITS,
                bg_colour: Rgba::opaque_black(),
                font_colour: Rgba::opaque_white(),
            },
            speed_config: SpeedConfig {
                display: false,
                font_size_bits: DEFAULT_FONT_SIZE_BITS,
                units: SpeedUnits::Metrespersecond,
                overlay_bgcolour: Rgba::opaque_black(),
                overlay_fontcolour: Rgba::opaque_white(),
            },
            lastlaptime_config: LastLapTimeConfig {
                display: false,
                font_size_bits: DEFAULT_FONT_SIZE_BITS,
                overlay_bgcolour: Rgba::opaque_black(),
                overlay_fontcolour: Rgba::opaque_white(),
            },
        }
    }

    /// Turns the outcome of reading the persisted record into the record to
    /// run with. A missing, unreadable or other-version record gives the
    /// default, so a lost configuration never blocks start-up.
    pub fn from_loaded(loaded: Option<WindowsConfig>) -> (r: WindowsConfig)
        ensures
            r == loaded_or_default(loaded),
            r.version == CONFIG_VERSION,
    {
        match loaded {
            Some(c) => {
                if c.version == CONFIG_VERSION {
                    c
                } else {
                    WindowsConfig::default_config()
                }
            },
            None => WindowsConfig::default_config(),
        }
    }
}

impl Default for WindowsConfig {
    fn default() -> (r: WindowsConfig)
        ensures
            r == default_config(),
    {
        WindowsConfig::default_config()
    }
}

/// A record that failed to load is replaced by one in which no overlay is
/// enabled, with the default sizes and colours.
pub proof fn lemma_failed_load_disables_overlays(loaded: Option<WindowsConfig>)
    requires
        loaded is None || loaded->0.version != CONFIG_VERSION,
    ensures
        !loaded_or_default(loaded).speed_config.display,
        !loaded_or_default(loaded).lastlaptime_config.display,
        loaded_or_default(loaded) == default_config(),
{
}

/// A record of the current version comes back from loading exactly as it was
/// stored, every field included.
pub proof fn lemma_stored_record_loads_unchanged(c: WindowsConfig)
    requires
        c.version == CONFIG_VERSION,
    ensures
        loaded_or_default(Some(c)) == c,
{
}

} // verus!
