//! Facts about the machine a program runs on, normalised from what the host
//! reports: a browser's User-Agent string, or the raw name buffers and the
//! packed version number of a native system.

use vstd::prelude::*;

pub mod text;
pub mod utf16;
pub mod wasm;
pub mod windows;

verus! {

/// The coarse classification of the operating system.
#[derive(Debug, PartialEq, Eq)]
pub enum Platform {
    Windows,
    Linux,
    MacOS,
    /// A system that is not told apart; carries the text that was examined.
    Unknown(String),
}

/// The mathematical value of a [`Platform`].
pub enum PlatformView {
    Windows,
    Linux,
    MacOS,
    Unknown(Seq<char>),
}

impl View for Platform {
    type V = PlatformView;

    open spec fn view(&self) -> PlatformView {
        match self {
            Platform::Windows => PlatformView::Windows,
            Platform::Linux => PlatformView::Linux,
            Platform::MacOS => PlatformView::MacOS,
            Platform::Unknown(s) => PlatformView::Unknown(s@),
        }
    }
}

/// The family of probe that produced the data. Fixed per probe, never derived
/// from what was parsed.
#[derive(Debug, Clone, Copy, PartialEq, Eq)]
pub enum DesktopEnv {
    Windows,
    Wasm,
}

} // verus!
