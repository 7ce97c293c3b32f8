//! The output-limit policy that governs truncation of shell-tool output.

use vstd::prelude::*;

verus! {

/// Method for trimming oversized output.
#[derive(Clone, Copy, Debug, PartialEq, Eq, Structural)]
pub enum TrimMethod {
    /// Keep the first lines.
    Head,
    /// Keep the last lines.
    Tail,
    /// Cut at the byte limit.
    Bytes,
}

/// Limit on the size of tool output, to keep a large command output from
/// overwhelming the context window.
#[derive(Clone, Copy, Debug, PartialEq, Eq, Structural)]
pub struct OutputLimit {
    /// Maximum output size in bytes, or approximate lines; zero disables
    /// trimming.
    pub max_size: usize,
    /// How oversized output is trimmed.
    pub method: TrimMethod,
}

impl Default for OutputLimit {
    /// No limit: trimming disabled.
    fn default() -> (r: Self)
        ensures
            r.max_size == 0,
            r.method == TrimMethod::Head,
    {
        OutputLimit { max_size: 0, method: TrimMethod::Head }
    }
}

} // verus!
