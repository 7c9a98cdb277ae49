//! The player's settings: the library folders and the configured device.

use vstd::prelude::*;

verus! {

/// The mathematical value of the settings.
pub struct SettingsModel {
    pub lib_folders: Seq<Seq<char>>,
    pub device: int,
}

/// The folders that hold the music library, and the index of the output
/// device to use.
pub struct Settings {
    lib_folders: Vec<String>,
    device: usize,
}

impl View for Settings {
    type V = SettingsModel;

    closed spec fn view(&self) -> SettingsModel {
        SettingsModel {
            lib_folders: Seq::new(self.lib_folders@.len(), |i: int| self.lib_folders@[i]@),
            device: self.device as int,
        }
    }
}

impl Settings {
    /// The settings of a first start: no folder, and the first device.
    pub fn new() -> (made: Settings)
        ensures
            made@.lib_folders.len() == 0,
            made@.device == 0,
    {
        Settings { lib_folders: Vec::new(), device: 0 }
    }

    /// Settings with these folders and this device.
    pub fn from_parts(lib_folders: Vec<String>, device: usize) -> (made: Settings)
        ensures
            made@.lib_folders.len() == lib_folders@.len(),
            forall|i: int|
                0 <= i < lib_folders@.len() ==> #[trigger] made@.lib_folders[i] == lib_folders@[i]@,
            made@.device == device,
    {
        Settings { lib_folders, device }
    }

    pub fn get_device(&self) -> (device: usize)
        ensures
            device as int == self@.device,
    {
        self.device
    }

    /// Configures another device. The folders stay.
    pub fn set_device(&mut self, device: usize)
        ensures
            final(self)@.device == device,
            final(self)@.lib_folders == old(self)@.lib_folders,
    {
        self.device = device;
        assert(self@.lib_folders =~= old(self)@.lib_folders);
    }

    /// The library folders, in the order in which they were added.
    pub fn get_lib_folders(&self) -> (folders: &Vec<String>)
        ensures
            folders@.len() == self@.lib_folders.len(),
            forall|i: int|
                0 <= i < folders@.len() ==> (#[trigger] folders@[i])@ == self@.lib_folders[i],
    {
        &self.lib_folders
    }

    /// Adds `folder` after the folders that are there.
    pub fn add_folder(&mut self, folder: String)
        ensures
            final(self)@.lib_folders == old(self)@.lib_folders.push(folder@),
            final(self)@.device == old(self)@.device,
    {
        self.lib_folders.push(folder);
        assert(self@.lib_folders =~= old(self)@.lib_folders.push(folder@));
    }

    /// Takes out the folder at `index` and hands it back. The later folders
    /// move up by one.
    pub fn remove_folder(&mut self, index: usize) -> (folder: String)
        requires
            index < old(self)@.lib_folders.len(),
        ensures
            folder@ == old(self)@.lib_folders[index as int],
            final(self)@.lib_folders == old(self)@.lib_folders.remove(index as int),
            final(self)@.device == old(self)@.device,
    {
        let folder = self.lib_folders.remove(index);
        assert(self@.lib_folders =~= old(self)@.lib_folders.remove(index as int));
        folder
    }
}

} // verus!
