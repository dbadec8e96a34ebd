//! Locations: where the program keeps its files and finds those of Windows.
use vstd::prelude::*;
use crate::text::strings;

verus! {

/// A folder that the program does not choose itself.
#[derive(Debug, Clone, Copy, PartialEq, Eq, Structural)]
pub enum BaseFolder {
    /// The folder that `LOCALAPPDATA` names.
    LocalAppData,
    /// The folder that the program lies in.
    Program,
    /// The folder that `SystemRoot` names.
    SystemRoot,
    /// `C:\Windows`.
    Windows,
}

/// A file or a folder: names to be followed from a base folder on.
#[derive(Debug)]
pub struct Location {
    pub base: BaseFolder,
    pub names: Vec<String>,
}

/// [`Location`], seen through the characters of its names.
#[verifier::ext_equal]
pub struct LocationView {
    pub base: BaseFolder,
    pub names: Seq<Seq<char>>,
}

impl View for Location {
    type V = LocationView;

    open spec fn view(&self) -> LocationView {
        LocationView { base: self.base, names: strings(self.names@) }
    }
}

impl LocationView {
    /// What lies in a folder under a name.
    pub open spec fn join(self, name: Seq<char>) -> LocationView {
        LocationView { names: self.names.push(name), ..self }
    }

    /// The folder that a file lies in.
    pub open spec fn parent(self) -> LocationView {
        LocationView { names: self.names.drop_last(), ..self }
    }
}

/// The folder of the program's own files: one of its own where `LOCALAPPDATA` is set, and the one
/// that the program lies in otherwise.
pub open spec fn data_folder(has_local_app_data: bool) -> LocationView {
    if has_local_app_data {
        LocationView { base: BaseFolder::LocalAppData, names: seq!["RAMOpt"@] }
    } else {
        LocationView { base: BaseFolder::Program, names: Seq::empty() }
    }
}

/// The folder that the program lies in.
pub open spec fn program_folder() -> LocationView {
    LocationView { base: BaseFolder::Program, names: Seq::empty() }
}

fn folder(base: BaseFolder) -> (location: Location)
    ensures
        location@ == (LocationView { base, names: Seq::empty() }),
{
    let location = Location { base, names: Vec::new() };
    assert(location@.names =~= Seq::empty());
    location
}

fn join(location: Location, name: &str) -> (inner: Location)
    ensures
        inner@ == location@.join(name@),
{
    let mut names = location.names;
    let ghost earlier = names@;
    names.push(name.to_owned());
    assert(strings(names@) =~= strings(earlier).push(name@));
    Location { base: location.base, names }
}

/// The folder of the program's own files.
pub fn data_directory(has_local_app_data: bool) -> (location: Location)
    ensures
        location@ == data_folder(has_local_app_data),
{
    if has_local_app_data {
        let location = join(folder(BaseFolder::LocalAppData), "RAMOpt");
        assert(location@ =~= data_folder(true));
        location
    } else {
        folder(BaseFolder::Program)
    }
}

/// The settings file.
pub fn settings_path(has_local_app_data: bool) -> (location: Location)
    ensures
        location@ == data_folder(has_local_app_data).join("settings.json"@),
{
    join(data_directory(has_local_app_data), "settings.json")
}

/// The file that settings are written to before it takes the place of the settings file.
pub fn settings_draft_path(has_local_app_data: bool) -> (location: Location)
    ensures
        location@ == data_folder(has_local_app_data).join("settings.json.tmp"@),
{
    join(data_directory(has_local_app_data), "settings.json.tmp")
}

/// The settings file of earlier versions, beside the program.
pub fn legacy_settings_path() -> (location: Location)
    ensures
        location@ == program_folder().join("settings.json"@),
{
    join(folder(BaseFolder::Program), "settings.json")
}

/// The script that updates the program.
pub fn updater_path() -> (location: Location)
    ensures
        location@ == program_folder().join("RAMOpt-updater.bat"@),
{
    join(folder(BaseFolder::Program), "RAMOpt-updater.bat")
}

/// The log.
pub fn log_path(has_local_app_data: bool) -> (location: Location)
    ensures
        location@ == data_folder(has_local_app_data).join("ramopt.log"@),
{
    join(data_directory(has_local_app_data), "ramopt.log")
}

/// The file that a full log is put away as.
pub fn rotated_log_path(has_local_app_data: bool) -> (location: Location)
    ensures
        location@ == data_folder(has_local_app_data).join("ramopt.log.1"@),
{
    join(data_directory(has_local_app_data), "ramopt.log.1")
}

/// The folder of Windows: the one that `SystemRoot` names, or the usual one.
pub open spec fn system_folder(has_system_root: bool) -> LocationView {
    LocationView {
        base: if has_system_root {
            BaseFolder::SystemRoot
        } else {
            BaseFolder::Windows
        },
        names: Seq::empty(),
    }
}

/// A program of Windows.
pub fn system_binary(has_system_root: bool, name: &str) -> (location: Location)
    ensures
        location@ == system_folder(has_system_root).join("System32"@).join(name@),
{
    let base = if has_system_root {
        BaseFolder::SystemRoot
    } else {
        BaseFolder::Windows
    };
    join(join(folder(base), "System32"), name)
}

/// What lies in a folder under a name lies in that folder.
pub proof fn law_files_lie_in_their_folder(location: LocationView, name: Seq<char>)
    ensures
        location.join(name).parent() == location,
{
    assert(location.join(name).names.drop_last() =~= location.names);
}

/// Settings are saved beside the program exactly when `LOCALAPPDATA` is not set; otherwise the file
/// of earlier versions is another one, and can be left behind.
pub proof fn law_settings_leave_the_program_folder(has_local_app_data: bool)
    ensures
        data_folder(has_local_app_data).join("settings.json"@) == program_folder().join(
            "settings.json"@,
        ) <==> !has_local_app_data,
{
    assert(data_folder(false).join("settings.json"@) =~= program_folder().join("settings.json"@));
}

} // verus!
