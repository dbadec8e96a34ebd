use ramopt::areas::{
    area_at, begin_area, drive_letter, optimize_area, AreaReply, AreaStage, MemoryArea, NtPayload,
    NtRequest, AREA_COUNT,
};
use ramopt::native::{
    enable_privilege, flush_sentinel, is_valid, nt_success, wide, win32_error, CallReply,
    PrivilegeStage,
};
use ramopt::volume::{flush_volume_cache, root_path, volume_path, VolumeReply, VolumeStage};

fn call(returned: i32, handle: usize, last_error: u32) -> CallReply {
    CallReply { returned, handle, last_error }
}

fn enabled(name: &str, replies: [CallReply; 3]) -> Result<(), String> {
    let mut stage = PrivilegeStage::OpenToken;
    for reply in replies {
        stage = enable_privilege(name, stage, reply);
    }
    match stage {
        PrivilegeStage::Finished(result) => result,
        other => panic!("{other:?}"),
    }
}

fn area_end(stage: AreaStage) -> Result<(), String> {
    match stage {
        AreaStage::Finished(result) => result,
        other => panic!("{other:?}"),
    }
}

fn volume_end(stage: VolumeStage) -> Result<(), String> {
    match stage {
        VolumeStage::Finished(result) => result,
        other => panic!("{other:?}"),
    }
}

#[test]
fn nt_success_accepts_success_and_information_statuses() {
    assert!(nt_success("test", 0).is_ok());
    assert!(nt_success("test", 1).is_ok());
    assert!(nt_success("test", i32::MIN).is_err());
}

#[test]
fn nt_failures_name_the_status() {
    assert_eq!(
        nt_success("standby-list purge", 0xC000_0061u32 as i32),
        Err("standby-list purge failed (NTSTATUS 0xC0000061)".to_string())
    );
    assert_eq!(nt_success("x", -1), Err("x failed (NTSTATUS 0xFFFFFFFF)".to_string()));
    assert_eq!(nt_success("x", i32::MIN), Err("x failed (NTSTATUS 0x80000000)".to_string()));
    assert_eq!(nt_success("x", i32::MAX), Ok(()));
}

#[test]
fn win32_errors_name_the_code() {
    assert_eq!(win32_error("OpenProcessToken", 5), "OpenProcessToken failed (Win32 error 5)");
}

#[test]
fn handles() {
    assert!(!is_valid(0));
    assert!(!is_valid(usize::MAX));
    assert!(is_valid(4));
}

#[test]
fn names_are_terminated() {
    assert_eq!(wide(&vec![82, 65]), vec![82, 65, 0]);
    assert_eq!(wide(&vec![]), vec![0]);
}

#[test]
fn the_size_that_empties_the_cache() {
    let expected = if usize::BITS == 64 { usize::MAX } else { i32::MAX as usize };
    assert_eq!(flush_sentinel(), expected);
}

#[test]
fn privileges() {
    let name = "SeProfileSingleProcessPrivilege";
    let fine = call(1, 8, 0);
    assert_eq!(enabled(name, [fine, fine, fine]), Ok(()));
    let closed = Err("OpenProcessToken failed (Win32 error 5)".to_string());
    assert_eq!(enabled(name, [call(0, 8, 5), fine, fine]), closed);
    assert_eq!(enabled(name, [call(1, 0, 5), fine, fine]), closed);
    assert_eq!(enabled(name, [call(1, usize::MAX, 5), fine, fine]), closed);
    assert_eq!(
        enabled(name, [fine, call(0, 0, 1313), fine]),
        Err(format!("LookupPrivilegeValueW({name}) failed (Win32 error 1313)"))
    );
    assert_eq!(
        enabled(name, [fine, fine, call(0, 0, 6)]),
        Err(format!("AdjustTokenPrivileges({name}) failed (Win32 error 6)"))
    );
    assert_eq!(
        enabled(name, [fine, fine, call(1, 0, 1300)]),
        Err(format!("AdjustTokenPrivileges({name}) failed: privilege not assigned"))
    );
}

#[test]
fn areas_come_in_three_phases() {
    let names: Vec<&str> = (0..AREA_COUNT).map(|place| area_at(place).name()).collect();
    assert_eq!(
        names,
        vec![
            "working set",
            "system file cache",
            "modified page list",
            "standby list",
            "combined page list",
            "registry cache",
            "modified file cache",
        ]
    );
}

#[test]
fn native_requests() {
    let request = |class: u32, payload: NtPayload| Some(NtRequest { class, payload });
    assert_eq!(MemoryArea::WorkingSet.request(), request(80, NtPayload::Command(2)));
    assert_eq!(MemoryArea::ModifiedPageList.request(), request(80, NtPayload::Command(3)));
    assert_eq!(MemoryArea::StandbyList.request(), request(80, NtPayload::Command(4)));
    assert_eq!(MemoryArea::SystemFileCache.request(), request(21, NtPayload::FileCacheLimits { minimum: flush_sentinel(), maximum: flush_sentinel() }));
    assert_eq!(MemoryArea::CombinedPageList.request(), request(130, NtPayload::CombinePages));
    assert_eq!(MemoryArea::RegistryCache.request(), request(155, NtPayload::Nothing));
    assert_eq!(MemoryArea::ModifiedFileCache.request(), None);
    assert_eq!(MemoryArea::WorkingSet.privilege(), Some("SeProfileSingleProcessPrivilege"));
    assert_eq!(MemoryArea::SystemFileCache.privilege(), Some("SeIncreaseQuotaPrivilege"));
    assert_eq!(MemoryArea::RegistryCache.privilege(), None);
    assert_eq!(MemoryArea::ModifiedFileCache.privilege(), None);
}

#[test]
fn an_area_with_a_privilege() {
    let area = MemoryArea::StandbyList;
    let refused = optimize_area(
        area,
        begin_area(area),
        AreaReply::Privilege(Err("no privilege".to_string())),
    );
    assert_eq!(area_end(refused), Err("no privilege".to_string()));
    let stage = optimize_area(area, begin_area(area), AreaReply::Privilege(Ok(())));
    assert!(matches!(stage, AreaStage::SetInformation));
    let failed = optimize_area(area, stage, AreaReply::Status(-1));
    assert_eq!(
        area_end(failed),
        Err("standby-list purge failed (NTSTATUS 0xFFFFFFFF)".to_string())
    );
}

#[test]
fn an_area_without_a_privilege() {
    let area = MemoryArea::RegistryCache;
    let stage = begin_area(area);
    assert!(matches!(stage, AreaStage::SetInformation));
    assert_eq!(area_end(optimize_area(area, stage, AreaReply::Status(0))), Ok(()));
}

#[test]
fn replies_to_other_steps_change_nothing() {
    let area = MemoryArea::WorkingSet;
    let stage = optimize_area(area, begin_area(area), AreaReply::Status(0));
    assert!(matches!(stage, AreaStage::EnablePrivilege));
}

#[test]
fn both_calls_on_the_file_cache_are_made() {
    let area = MemoryArea::SystemFileCache;
    let run = |status: i32, size: CallReply| {
        let stage = optimize_area(area, begin_area(area), AreaReply::Privilege(Ok(())));
        let stage = optimize_area(area, stage, AreaReply::Status(status));
        assert!(matches!(
            &stage,
            AreaStage::SetFileCacheSize { minimum, maximum, .. }
                if *minimum == flush_sentinel() && *maximum == flush_sentinel()
        ));
        area_end(optimize_area(area, stage, AreaReply::FileCacheSize(size)))
    };
    assert_eq!(run(0, call(1, 0, 0)), Ok(()));
    assert_eq!(
        run(0, call(0, 0, 87)),
        Err("SetSystemFileCacheSize failed (Win32 error 87)".to_string())
    );
    assert_eq!(
        run(-1, call(1, 0, 0)),
        Err("system-file-cache trim failed (NTSTATUS 0xFFFFFFFF)".to_string())
    );
    assert_eq!(
        run(-1, call(0, 0, 87)),
        Err("system-file-cache trim failed (NTSTATUS 0xFFFFFFFF); SetSystemFileCacheSize failed (Win32 error 87)".to_string())
    );
}

fn flush_drives(drives: u32, failing: &str) -> (String, Result<(), String>) {
    let area = MemoryArea::ModifiedFileCache;
    let mut stage = begin_area(area);
    assert!(matches!(stage, AreaStage::ListDrives));
    stage = optimize_area(area, stage, AreaReply::Drives { drives, last_error: 31 });
    let mut flushed = String::new();
    loop {
        let letter = match &stage {
            AreaStage::FlushVolume { index, .. } => drive_letter(*index) as char,
            _ => return (flushed, area_end(stage)),
        };
        flushed.push(letter);
        let result = if failing.contains(letter) {
            Err(format!("{letter} failed"))
        } else {
            Ok(())
        };
        stage = optimize_area(area, stage, AreaReply::Volume(result));
    }
}

#[test]
fn every_drive_is_flushed() {
    assert_eq!(
        flush_drives(0, ""),
        (String::new(), Err("GetLogicalDrives failed (Win32 error 31)".to_string()))
    );
    assert_eq!(flush_drives(0b1101, ""), ("ACD".to_string(), Ok(())));
    assert_eq!(
        flush_drives(0b1101, "AD"),
        ("ACD".to_string(), Err("A failed; D failed".to_string()))
    );
    assert_eq!(
        flush_drives(u32::MAX, ""),
        ("ABCDEFGHIJKLMNOPQRSTUVWXYZ".to_string(), Ok(()))
    );
    assert_eq!(flush_drives(1 << 26, ""), (String::new(), Ok(())));
}

#[test]
fn volume_names() {
    assert_eq!(volume_path(b'C'), r"\\.\C:");
    assert_eq!(root_path(b'C'), r"C:\");
}

fn flush_volume(replies: Vec<VolumeReply>) -> VolumeStage {
    let mut stage = VolumeStage::QueryType;
    for reply in replies {
        stage = flush_volume_cache(b'C', stage, reply);
    }
    stage
}

#[test]
fn volumes() {
    let opened = VolumeReply::Call(call(0, 12, 0));
    assert_eq!(volume_end(flush_volume(vec![VolumeReply::Type(2)])), Ok(()));
    assert!(matches!(flush_volume(vec![VolumeReply::Type(3)]), VolumeStage::Open));
    assert_eq!(
        volume_end(flush_volume(vec![VolumeReply::Type(3), VolumeReply::Call(call(0, usize::MAX, 5))])),
        Err(r"CreateFileW(\\.\C:) failed (Win32 error 5)".to_string())
    );
    assert_eq!(
        volume_end(flush_volume(vec![VolumeReply::Type(3), opened, VolumeReply::Call(call(1, 0, 0))])),
        Ok(())
    );
    assert_eq!(
        volume_end(flush_volume(vec![VolumeReply::Type(3), opened, VolumeReply::Call(call(0, 0, 1))])),
        Err(r"FlushFileBuffers(\\.\C:) failed (Win32 error 1)".to_string())
    );
    assert_eq!(
        volume_end(flush_volume(vec![VolumeReply::Type(3), opened, VolumeReply::TimedOut])),
        Err(r"FlushFileBuffers(\\.\C:) timed out after 5 seconds".to_string())
    );
    assert_eq!(
        volume_end(flush_volume(vec![VolumeReply::Type(3), opened, VolumeReply::Disconnected])),
        Err(r"FlushFileBuffers(\\.\C:) worker disconnected".to_string())
    );
}
