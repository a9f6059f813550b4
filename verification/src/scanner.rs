//! Platform-specific port scanners. A variant that cannot yet enumerate
//! ports fails fast with a distinguished `UnsupportedPlatform` error rather
//! than returning a partial or fabricated table; callers must treat this as
//! a hard capability absence, not a transient failure.

use vstd::prelude::*;
use vstd::string::*;

use crate::error::Error;
use crate::port_info::PortInfo;

verus! {

/// Linux-specific port scanner.
pub struct LinuxScanner;

impl LinuxScanner {
    /// Create a new Linux scanner.
    pub fn new() -> Self {
        LinuxScanner
    }

    /// Scan all listening TCP ports.
    pub fn scan(&self) -> (r: Result<Vec<PortInfo>, Error>)
        ensures
            r matches Err(Error::UnsupportedPlatform(m)) && m@
                == "Linux scanner not yet implemented"@,
    {
        Err(Error::UnsupportedPlatform(String::from_str("Linux scanner not yet implemented")))
    }
}

impl Default for LinuxScanner {
    fn default() -> Self {
        LinuxScanner::new()
    }
}

/// Windows-specific port scanner.
pub struct WindowsScanner;

impl WindowsScanner {
    /// Create a new Windows scanner.
    pub fn new() -> Self {
        WindowsScanner
    }

    /// Scan all listening TCP ports.
    pub fn scan(&self) -> (r: Result<Vec<PortInfo>, Error>)
        ensures
            r matches Err(Error::UnsupportedPlatform(m)) && m@
                == "Windows scanner not yet implemented"@,
    {
        Err(Error::UnsupportedPlatform(String::from_str("Windows scanner not yet implemented")))
    }
}

impl Default for WindowsScanner {
    fn default() -> Self {
        WindowsScanner::new()
    }
}

} // verus!
