//! The command line, as plain values: the account to audit and the switches.
//! (Reading the arguments happens at the edge.)
use vstd::prelude::*;

verus! {

/// Color theme. `Auto` detects the terminal background.
#[derive(Clone, Copy, Debug, PartialEq, Eq, Structural)]
pub enum Theme {
    Auto,
    Dark,
    Light,
}

impl Default for Theme {
    fn default() -> (t: Self)
        ensures
            t == Theme::Auto,
    {
        Theme::Auto
    }
}

/// Output format. `Pretty` prints the styled terminal report; `Json` and
/// `Markdown` emit a machine-readable report instead.
#[derive(Clone, Copy, Debug, PartialEq, Eq, Structural)]
pub enum Format {
    Pretty,
    Json,
    Markdown,
}

impl Default for Format {
    fn default() -> (f: Self)
        ensures
            f == Format::Pretty,
    {
        Format::Pretty
    }
}

/// The parsed command line.
pub struct Cli {
    /// The organization, user or `owner/repo` to audit.
    pub account: Option<String>,
    /// Print help.
    pub help: bool,
    /// Print version.
    pub version: bool,
    /// Display all collaborators and members instead of truncating the list.
    pub verbose: bool,
    /// Download and install the latest released version of moat, then exit.
    pub self_update: bool,
    /// Color theme.
    pub theme: Theme,
    /// Output format.
    pub format: Format,
}

impl Cli {
    /// An account must be named unless help, the version or a self-update is
    /// asked for.
    pub open spec fn complete(self) -> bool {
        self.account is Some || self.self_update || self.help || self.version
    }

    /// Is the command line complete?
    pub fn is_complete(&self) -> (b: bool)
        ensures
            b == self.complete(),
    {
        self.account.is_some() || self.self_update || self.help || self.version
    }

    /// Does the report go to the terminal styled?
    pub fn pretty(&self) -> (b: bool)
        ensures
            b == (self.format == Format::Pretty),
    {
        self.format == Format::Pretty
    }
}

} // verus!
