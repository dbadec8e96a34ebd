//! Laws of locations.
use vstd::prelude::*;
use crate::locations::{
    data_directory, legacy_settings_path, log_path, rotated_log_path, settings_draft_path,
    settings_path, system_binary, updater_path, BaseFolder, Location,
};
use crate::text::strings;

verus! {

/// Whether a location is reached by one name from the folder of the program's own files, wherever
/// that is.
pub open spec fn is_own_file(file: Location, folder: Location, name: Seq<char>) -> bool {
    file.base == folder.base && strings(file.names@) == strings(folder.names@).push(name)
}

/// The program's own files lie in one folder: `RAMOpt` under `LOCALAPPDATA` where that is set, and that
/// of the program otherwise; each has a name of its own.
pub proof fn law_own_files_lie_together(
    has_local_app_data: bool,
    folder: Location,
    settings: Location,
    draft: Location,
    log: Location,
    rotated: Location,
)
    requires
        call_ensures(data_directory, (has_local_app_data,), folder),
        call_ensures(settings_path, (has_local_app_data,), settings),
        call_ensures(settings_draft_path, (has_local_app_data,), draft),
        call_ensures(log_path, (has_local_app_data,), log),
        call_ensures(rotated_log_path, (has_local_app_data,), rotated),
    ensures
        has_local_app_data ==> folder.base == BaseFolder::LocalAppData && strings(folder.names@)
            == seq!["RAMOpt"@],
        !has_local_app_data ==> folder.base == BaseFolder::Program && folder.names@.len() == 0,
        is_own_file(settings, folder, "settings.json"@),
        is_own_file(draft, folder, "settings.json.tmp"@),
        is_own_file(log, folder, "ramopt.log"@),
        is_own_file(rotated, folder, "ramopt.log.1"@),
{
    assert(strings(folder.names@).len() == folder.names@.len());
}

/// The settings of earlier versions and the updater lie beside the program.
pub proof fn law_files_beside_the_program(settings: Location, updater: Location)
    requires
        call_ensures(legacy_settings_path, (), settings),
        call_ensures(updater_path, (), updater),
    ensures
        settings.base == BaseFolder::Program,
        strings(settings.names@) == seq!["settings.json"@],
        updater.base == BaseFolder::Program,
        strings(updater.names@) == seq!["RAMOpt-updater.bat"@],
{
    assert(strings(settings.names@) =~= seq!["settings.json"@]);
    assert(strings(updater.names@) =~= seq!["RAMOpt-updater.bat"@]);
}

/// A program of Windows lies under its name in `System32`, in the folder that `SystemRoot` names or in
/// the usual one.
pub proof fn law_programs_of_windows(has_system_root: bool, name: &str, location: Location)
    requires
        call_ensures(system_binary, (has_system_root, name), location),
    ensures
        has_system_root <==> location.base == BaseFolder::SystemRoot,
        !has_system_root <==> location.base == BaseFolder::Windows,
        strings(location.names@) == seq!["System32"@, name@],
{
    assert(strings(location.names@) =~= seq!["System32"@, name@]);
}

} // verus!
