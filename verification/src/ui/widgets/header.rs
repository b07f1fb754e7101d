//! The header: the logo with the version below it, or one compact line
//! where the terminal is too low for the logo.

use vstd::prelude::*;
use vstd::string::StringExecFns;

verus! {

/// The header of the main screen.
#[derive(Debug, Clone, Copy, PartialEq, Eq, Structural)]
pub struct Header {
    show_logo: bool,
}

/// The number of lines of the logo.
pub open spec fn logo_height() -> nat {
    4
}

/// The lines of the logo, top to bottom.
pub open spec fn spec_logo_lines() -> Seq<Seq<char>> {
    seq![
        " ██   ██  ██████  ██  ██  ██████  ████    ██████  ██████  ██████"@,
        " ███ ███  ██  ██  ██  ██  ██  ██  ██ ██   ██  ██  ██      ██  ██"@,
        " ██ █ ██  ██████  ██████  ██  ██  ████    ██████  ██ ███  ██████"@,
        " ██   ██  ██  ██  ██  ██  ██████  ██ ██   ██  ██  ██████  ██  ██"@,
    ]
}

impl Header {
    pub closed spec fn shows_logo(&self) -> bool {
        self.show_logo
    }

    pub fn new(show_logo: bool) -> (header: Header)
        ensures
            header.shows_logo() == show_logo,
    {
        Header { show_logo }
    }

    /// Whether the logo is shown.
    pub fn show_logo(&self) -> (r: bool)
        ensures
            r == self.shows_logo(),
    {
        self.show_logo
    }

    /// The rows that a header takes: the logo and the version line below
    /// it, or the one compact line.
    pub open spec fn spec_height(show_logo: bool) -> u16 {
        if show_logo {
            5
        } else {
            1
        }
    }

    #[verifier::when_used_as_spec(spec_height)]
    pub fn height(show_logo: bool) -> (rows: u16)
        ensures
            rows == Self::spec_height(show_logo),
            show_logo ==> rows == logo_height() + 1,
    {
        if show_logo {
            5
        } else {
            1
        }
    }

    /// The lines of the header for a program of the given version.
    pub open spec fn spec_lines(&self, version: Seq<char>) -> Seq<Seq<char>> {
        if self.shows_logo() {
            spec_logo_lines().push(" v"@ + version)
        } else {
            seq!["MAHORAGA v"@ + version]
        }
    }

    /// The lines of the header for a program of the given version: as many
    /// as its height.
    pub fn lines(&self, version: &str) -> (lines: Vec<String>)
        ensures
            lines.deep_view() == self.spec_lines(version@),
            lines.len() == Self::spec_height(self.shows_logo()),
    {
        let mut lines: Vec<String> = Vec::new();
        if self.show_logo {
            lines.push(" ██   ██  ██████  ██  ██  ██████  ████    ██████  ██████  ██████".to_owned());
            lines.push(" ███ ███  ██  ██  ██  ██  ██  ██  ██ ██   ██  ██  ██      ██  ██".to_owned());
            lines.push(" ██ █ ██  ██████  ██████  ██  ██  ████    ██████  ██ ███  ██████".to_owned());
            lines.push(" ██   ██  ██  ██  ██  ██  ██████  ██ ██   ██  ██  ██████  ██  ██".to_owned());
            let mut last = " v".to_owned();
            last.append(version);
            lines.push(last);
        } else {
            let mut only = "MAHORAGA v".to_owned();
            only.append(version);
            lines.push(only);
        }
        assert(lines.deep_view() =~= self.spec_lines(version@));
        lines
    }
}

} // verus!
