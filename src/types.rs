//! The records that move between the store, the collectors and their callers.

use vstd::prelude::*;

verus! {

/// Position, size and state of the application window.
#[derive(Debug, Clone, Copy, PartialEq, Eq, Structural)]
pub struct WindowInformation {
    /// Horizontal start position.
    pub x: i32,
    /// Vertical start position.
    pub y: i32,
    /// Width of the window.
    pub width: u32,
    /// Height of the window.
    pub height: u32,
    /// Whether the window is maximized.
    pub maximized: bool,
    /// Whether the window is fullscreen.
    pub fullscreen: bool,
}

impl Default for WindowInformation {
    fn default() -> (r: Self)
        ensures
            r == (WindowInformation {
                x: 0,
                y: 0,
                width: 0,
                height: 0,
                maximized: false,
                fullscreen: false,
            }),
    {
        WindowInformation { x: 0, y: 0, width: 0, height: 0, maximized: false, fullscreen: false }
    }
}

/// Window width and height as read from the settings rows; absent where a row's text is no number.
#[derive(Debug, Clone, Copy, PartialEq, Eq)]
pub struct Dimension {
    pub x_position: Option<i32>,
    pub y_position: Option<i32>,
}

impl Default for Dimension {
    fn default() -> (r: Self)
        ensures
            r.x_position is None,
            r.y_position is None,
    {
        Dimension { x_position: None, y_position: None }
    }
}

/// A snapshot of one disk, formatted for display; every field absent when no disk was found.
#[derive(Debug, Clone)]
pub struct Storage {
    pub name: Option<String>,
    pub usage: Option<String>,
    pub mount_point: Option<String>,
    pub file_system: Option<String>,
    pub type_: Option<String>,
    /// e.g. "500.00 GB"
    pub total_space: Option<String>,
    /// e.g. "120.20 GB"
    pub free_space: Option<String>,
    /// e.g. "379.80 GB"
    pub used_space: Option<String>,
    /// e.g. "75.96 %"
    pub percent_used: Option<String>,
}

impl Storage {
    /// Whether no field is present.
    pub open spec fn is_empty(&self) -> bool {
        &&& self.name is None
        &&& self.usage is None
        &&& self.mount_point is None
        &&& self.file_system is None
        &&& self.type_ is None
        &&& self.total_space is None
        &&& self.free_space is None
        &&& self.used_space is None
        &&& self.percent_used is None
    }
}

impl Default for Storage {
    fn default() -> (r: Self)
        ensures
            r.is_empty(),
    {
        Storage {
            name: None,
            usage: None,
            mount_point: None,
            file_system: None,
            type_: None,
            total_space: None,
            free_space: None,
            used_space: None,
            percent_used: None,
        }
    }
}

/// A snapshot of the processor, formatted for display.
#[derive(Debug, Clone)]
pub struct Processor {
    pub name: String,
    pub vendor: String,
    pub family: String,
    /// e.g. "3.20 GHz"
    pub speed: String,
    pub cores: String,
    /// e.g. "12.50 %"
    pub usage: String,
}

/// A snapshot of main memory, formatted for display.
#[derive(Debug, Clone)]
pub struct Memory {
    /// e.g. "15.52 GB"
    pub total: String,
    pub used: String,
    pub free: String,
}

} // verus!
