//! Physical memory: how much is in use, and how the program says so.
use vstd::prelude::*;
use crate::number::{decimal, push_decimal};
use crate::rounding::{one_decimal, percent, percentage, push_one_decimal, round_to_double, to_double};

verus! {

/// The bytes of a gigabyte.
pub const GIGABYTE: u128 = 0x4000_0000;

/// The bytes of a megabyte.
pub const MEGABYTE: u128 = 0x10_0000;

/// Physical memory at one moment, in bytes.
#[derive(Debug, Clone, Copy, PartialEq, Eq, Structural)]
pub struct MemoryStatus {
    /// The memory in use.
    pub used: u64,
    /// All the memory that there is.
    pub total: u64,
}

impl MemoryStatus {
    /// The memory that is not in use.
    pub open spec fn available(self) -> nat {
        if self.used <= self.total {
            (self.total - self.used) as nat
        } else {
            0
        }
    }
}

/// The memory in use is what is not available.
pub fn memory_status(total: u64, available: u64) -> (status: MemoryStatus)
    ensures
        status.total == total,
        status.used == if available <= total { total - available } else { 0 },
        status.used <= status.total,
{
    MemoryStatus { used: total.saturating_sub(available), total }
}

/// What a call that measures the memory came to: one that answered zero failed, and tells nothing.
pub fn measured_memory(answered: i32, total: u64, available: u64) -> (status: Option<MemoryStatus>)
    ensures
        status is None <==> answered == 0,
        status matches Some(now) ==> {
            &&& now.total == total
            &&& now.used == if available <= total { total - available } else { 0 }
            &&& now.used <= now.total
        },
{
    if answered == 0 {
        None
    } else {
        Some(memory_status(total, available))
    }
}

/// What the log says of a call that could not measure the memory.
pub fn measurement_failure(code: u32) -> (text: String)
    ensures
        text@ == "GlobalMemoryStatusEx failed: "@ + decimal(code as nat),
{
    let mut text = "GlobalMemoryStatusEx failed: ".to_owned();
    push_decimal(&mut text, code as u128);
    text
}

/// An amount of memory in gigabytes, with one digit behind the point.
pub open spec fn gb_text(bytes: nat) -> Seq<char> {
    one_decimal(to_double(bytes), GIGABYTE as nat)
}

/// An amount of memory in gigabytes, with one digit behind the point.
pub fn gb(bytes: u64) -> (text: String)
    ensures
        text@ == gb_text(bytes as nat),
{
    let mut text = String::new();
    push_one_decimal(&mut text, round_to_double(bytes as u128), GIGABYTE);
    assert(text@ =~= gb_text(bytes as nat));
    text
}

/// What the tray icon says of the memory in use.
pub open spec fn tooltip_text(used: nat, total: nat) -> Seq<char> {
    "RAMOpt - RAM: "@ + gb_text(used) + " / "@ + gb_text(total) + " GB ("@ + decimal(
        percentage(used, total),
    ) + "%)"@
}

/// What the tray icon says of the memory in use.
pub fn memory_tooltip(used: u64, total: u64) -> (text: String)
    ensures
        text@ == tooltip_text(used as nat, total as nat),
{
    let mut text = "RAMOpt - RAM: ".to_owned();
    text.append(gb(used).as_str());
    text.append(" / ");
    text.append(gb(total).as_str());
    text.append(" GB (");
    push_decimal(&mut text, percent(used, total));
    text.append("%)");
    text
}

/// What the program shows of the memory: the two amounts of the window, where they could be
/// measured, and the text of the tray icon.
#[derive(Debug)]
pub struct MemoryDisplay {
    /// The amounts in use and in all, in gigabytes.
    pub amounts: Option<(String, String)>,
    /// The text of the tray icon.
    pub tooltip: String,
}

/// [`MemoryDisplay`], seen through the characters of its texts.
pub struct MemoryDisplayView {
    pub amounts: Option<(Seq<char>, Seq<char>)>,
    pub tooltip: Seq<char>,
}

impl View for MemoryDisplay {
    type V = MemoryDisplayView;

    open spec fn view(&self) -> MemoryDisplayView {
        MemoryDisplayView {
            amounts: match self.amounts {
                Some((used, total)) => Some((used@, total@)),
                None => None,
            },
            tooltip: self.tooltip@,
        }
    }
}

/// What the program shows of a measurement of the memory.
pub open spec fn shown_memory(status: Option<MemoryStatus>) -> MemoryDisplayView {
    match status {
        Some(now) => MemoryDisplayView {
            amounts: Some((gb_text(now.used as nat), gb_text(now.total as nat))),
            tooltip: tooltip_text(now.used as nat, now.total as nat),
        },
        None => MemoryDisplayView { amounts: None, tooltip: "RAMOpt - RAM unavailable"@ },
    }
}

/// What the program shows of a measurement of the memory.
pub fn memory_display(status: Option<MemoryStatus>) -> (display: MemoryDisplay)
    ensures
        display@ == shown_memory(status),
{
    match status {
        Some(now) => MemoryDisplay {
            amounts: Some((gb(now.used), gb(now.total))),
            tooltip: memory_tooltip(now.used, now.total),
        },
        None => MemoryDisplay { amounts: None, tooltip: "RAMOpt - RAM unavailable".to_owned() },
    }
}

/// How much less memory is in use than before, in megabytes with one digit behind the point. The
/// sign tells that more is in use, however little.
pub open spec fn freed_text(before: nat, after: nat) -> Seq<char> {
    let old_double = to_double(before);
    let new_double = to_double(after);
    if old_double >= new_double {
        one_decimal(to_double((old_double - new_double) as nat), MEGABYTE as nat)
    } else {
        "-"@ + one_decimal(to_double((new_double - old_double) as nat), MEGABYTE as nat)
    }
}

/// How much less memory is in use than before, in megabytes.
pub fn freed_megabytes(before: u64, after: u64) -> (text: String)
    ensures
        text@ == freed_text(before as nat, after as nat),
{
    let old_double: u128 = round_to_double(before as u128);
    let new_double: u128 = round_to_double(after as u128);
    let mut text = String::new();
    if old_double >= new_double {
        push_one_decimal(&mut text, round_to_double(old_double - new_double), MEGABYTE);
        assert(text@ =~= freed_text(before as nat, after as nat));
    } else {
        text.append("-");
        push_one_decimal(&mut text, round_to_double(new_double - old_double), MEGABYTE);
        assert(text@ =~= freed_text(before as nat, after as nat));
    }
    text
}

/// What the log says of the memory before and after a cleanup, in whole megabytes.
pub open spec fn snapshot_text(before: MemoryStatus, after: MemoryStatus) -> Seq<char> {
    "Memory snapshot: used "@ + decimal((before.used as nat) / (MEGABYTE as nat)) + " -> "@
        + decimal((after.used as nat) / (MEGABYTE as nat)) + " MB; available "@ + decimal(
        before.available() / (MEGABYTE as nat),
    ) + " -> "@ + decimal(after.available() / (MEGABYTE as nat)) + " MB"@
}

/// What the log says of the memory before and after a cleanup.
pub fn memory_snapshot(before: MemoryStatus, after: MemoryStatus) -> (text: String)
    ensures
        text@ == snapshot_text(before, after),
{
    let mut text = "Memory snapshot: used ".to_owned();
    push_decimal(&mut text, before.used as u128 / MEGABYTE);
    text.append(" -> ");
    push_decimal(&mut text, after.used as u128 / MEGABYTE);
    text.append(" MB; available ");
    push_decimal(&mut text, before.total.saturating_sub(before.used) as u128 / MEGABYTE);
    text.append(" -> ");
    push_decimal(&mut text, after.total.saturating_sub(after.used) as u128 / MEGABYTE);
    text.append(" MB");
    text
}

} // verus!
