//! The configuration that every operation reads.

use vstd::prelude::*;

verus! {

/// The operation that a run was asked for.
#[derive(Debug, Clone, PartialEq, Eq)]
pub enum Mode {
    Create,
    Update,
    Get,
}

/// The settings of one run, fixed once it has started.
///
/// `title` names the snippet: it is sent on creation and is the key of a
/// lookup. `file_path` and `file_content` describe the file of an upload and
/// may be absent for the other operations.
#[derive(Debug, Clone, PartialEq, Eq)]
pub struct Opts {
    pub mode: Mode,
    pub title: String,
    pub file_path: Option<String>,
    pub visibility: String,
    pub url: String,
    pub token: String,
    pub file_content: Option<String>,
}

/// The visibility that a configuration carries: the one asked for, or
/// `"intern"` where none was.
pub open spec fn visibility_or_default(visibility: Option<Seq<char>>) -> Seq<char> {
    match visibility {
        Some(v) => v,
        None => "intern"@,
    }
}

/// The characters of an optional string.
pub open spec fn opt_chars(s: Option<String>) -> Option<Seq<char>> {
    match s {
        Some(s) => Some(s@),
        None => None,
    }
}

impl Opts {
    /// Whether the file of an upload is fully described.
    pub open spec fn has_upload(&self) -> bool {
        self.file_path is Some && self.file_content is Some
    }

    /// Whether the settings fit the operation asked for: an update needs the
    /// file of its upload, the other operations need nothing more.
    pub open spec fn well_formed(&self) -> bool {
        self.mode is Update ==> self.has_upload()
    }

    /// Tests whether an upload can be made from these settings.
    pub fn can_upload(&self) -> (can: bool)
        ensures
            can == self.has_upload(),
    {
        self.file_path.is_some() && self.file_content.is_some()
    }

    /// Tests whether the settings fit the operation asked for.
    pub fn is_well_formed(&self) -> (fits: bool)
        ensures
            fits == self.well_formed(),
    {
        match self.mode {
            Mode::Update => self.can_upload(),
            _ => true,
        }
    }

    /// Collects the settings of a run. A visibility left out becomes `"intern"`;
    /// every other setting is kept as given.
    pub fn new(
        mode: Mode,
        title: String,
        file_path: Option<String>,
        visibility: Option<String>,
        url: String,
        token: String,
        file_content: Option<String>,
    ) -> (opts: Opts)
        ensures
            opts.mode == mode,
            opts.title == title,
            opts.file_path == file_path,
            opts.visibility@ == visibility_or_default(opt_chars(visibility)),
            opts.url == url,
            opts.token == token,
            opts.file_content == file_content,
    {
        let visibility = match visibility {
            Some(v) => v,
            None => "intern".to_owned(),
        };
        Opts { mode, title, file_path, visibility, url, token, file_content }
    }
}

} // verus!
