//! The state of the file explorer: the folder that it shows.

use vstd::prelude::*;

verus! {

/// A view onto one folder. It opens on the user's home folder, whose path is
/// also its title.
pub struct FileExplorerWindow {
    title: String,
    path: String,
}

impl FileExplorerWindow {
    /// The explorer as it opens, on the folder `home`.
    pub fn new(home: &str) -> (made: FileExplorerWindow)
        ensures
            made.title_text() == home@,
            made.path_text() == home@,
    {
        FileExplorerWindow { title: String::from_str(home), path: String::from_str(home) }
    }

    /// The title, as text.
    pub closed spec fn title_text(&self) -> Seq<char> {
        self.title@
    }

    /// The folder shown, as text.
    pub closed spec fn path_text(&self) -> Seq<char> {
        self.path@
    }

    pub fn get_title(&self) -> (title: String)
        ensures
            title@ == self.title_text(),
    {
        self.title.clone()
    }

    /// The folder shown.
    pub fn get_cwd(&self) -> (path: &String)
        ensures
            path@ == self.path_text(),
    {
        &self.path
    }

    /// Shows the folder `s` from now on. The title stays.
    pub fn set_cwd(&mut self, s: &str)
        ensures
            final(self).path_text() == s@,
            final(self).title_text() == old(self).title_text(),
    {
        self.path = String::from_str(s);
    }
}

} // verus!
