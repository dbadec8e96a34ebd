//! Laws of what the program says of the memory.
use vstd::prelude::*;
use crate::laws::rounding::{
    is_amount, lemma_one_decimal, lemma_small_doubles, lemma_to_double, nearest_double,
};
use crate::memory::{
    freed_megabytes, gb, measured_memory, measurement_failure, memory_display, memory_snapshot,
    memory_status, memory_tooltip, MemoryDisplay, MemoryStatus,
};
use crate::number::decimal;
use crate::rounding::{percent, to_double};

verus! {

/// The memory in use and the available one make up the whole, unless more is said to be available than
/// there is: then none is in use.
pub proof fn law_used_memory_is_what_is_not_available(
    total: u64,
    available: u64,
    status: MemoryStatus,
)
    requires
        call_ensures(memory_status, (total, available), status),
    ensures
        status.total == total,
        available <= total ==> status.used + available == total,
        available > total ==> status.used == 0,
{
}

/// A call that answered zero measured nothing; any other measured what it filled in.
pub proof fn law_answered_calls_measure(
    answered: i32,
    total: u64,
    available: u64,
    status: Option<MemoryStatus>,
    now: MemoryStatus,
)
    requires
        call_ensures(measured_memory, (answered, total, available), status),
        call_ensures(memory_status, (total, available), now),
    ensures
        answered == 0 ==> status is None,
        answered != 0 ==> status == Some(now),
{
}

/// The log tells the code of a measurement that failed.
pub proof fn law_failed_measurements_are_told(code: u32, text: String)
    requires
        call_ensures(measurement_failure, (code,), text),
    ensures
        text@ == "GlobalMemoryStatusEx failed: "@ + decimal(code as nat),
{
}

/// An amount is told in gigabytes of 2 to the 30 bytes, to the nearest tenth of the amount as a double,
/// which is the amount itself below 2 to the 53.
pub proof fn law_gigabytes(bytes: u64, text: String)
    requires
        call_ensures(gb, (bytes,), text),
    ensures
        exists|amount: int| #[trigger]
            nearest_double(amount, bytes as int) && is_amount(text@, amount, 0x4000_0000),
        bytes < 0x20_0000_0000_0000 ==> is_amount(text@, bytes as int, 0x4000_0000),
{
    let amount = to_double(bytes as nat);
    lemma_to_double(bytes as nat);
    lemma_small_doubles(bytes as nat);
    lemma_one_decimal(amount, 0x4000_0000);
    assert(nearest_double(amount as int, bytes as int));
}

/// The tray icon tells the memory in use, the whole and the percentage, each as it is told alone.
pub proof fn law_tooltip_tells_both_amounts(
    used: u64,
    total: u64,
    used_text: String,
    total_text: String,
    rounded: u128,
    text: String,
)
    requires
        call_ensures(gb, (used,), used_text),
        call_ensures(gb, (total,), total_text),
        call_ensures(percent, (used, total), rounded),
        call_ensures(memory_tooltip, (used, total), text),
    ensures
        text@ == "RAMOpt - RAM: "@ + used_text@ + " / "@ + total_text@ + " GB ("@ + decimal(
            rounded as nat,
        ) + "%)"@,
{
}

/// What is shown of a measurement are its own amounts, in the window and at the tray icon; without one
/// the window keeps what it showed.
pub proof fn law_measurements_are_shown(
    status: Option<MemoryStatus>,
    used_text: String,
    total_text: String,
    tooltip: String,
    display: MemoryDisplay,
)
    requires
        status matches Some(now) ==> call_ensures(gb, (now.used,), used_text),
        status matches Some(now) ==> call_ensures(gb, (now.total,), total_text),
        status matches Some(now) ==> call_ensures(memory_tooltip, (now.used, now.total), tooltip),
        call_ensures(memory_display, (status,), display),
    ensures
        display.amounts is Some <==> status is Some,
        display.amounts matches Some((used, total)) ==> used@ == used_text@ && total@
            == total_text@,
        status is Some ==> display.tooltip@ == tooltip@,
        status is None ==> display.tooltip@ == "RAMOpt - RAM unavailable"@,
{
}

/// Whether a text tells the difference of two amounts as doubles, in megabytes of 2 to the 20 bytes, to
/// the nearest tenth, with a sign in front exactly where the second is greater.
pub open spec fn tells_difference(text: Seq<char>, before: int, after: int, size: int) -> bool {
    if before >= after {
        nearest_double(size, before - after) && is_amount(text, size, 0x10_0000)
    } else {
        nearest_double(size, after - before) && text.len() > 0 && text[0] == '-' && is_amount(
            text.skip(1),
            size,
            0x10_0000,
        )
    }
}

/// What was freed is the difference of what was in use before and after, both as doubles.
pub proof fn law_freed_memory_is_the_difference(before: u64, after: u64, text: String)
    requires
        call_ensures(freed_megabytes, (before, after), text),
    ensures
        exists|x: int, y: int, size: int|
            {
                &&& #[trigger] nearest_double(x, before as int)
                &&& #[trigger] nearest_double(y, after as int)
                &&& #[trigger] tells_difference(text@, x, y, size)
            },
        before < 0x20_0000_0000_0000 && after < 0x20_0000_0000_0000 ==> tells_difference(
            text@,
            before as int,
            after as int,
            if before >= after {
                before - after
            } else {
                after - before
            },
        ),
{
    let x = to_double(before as nat);
    let y = to_double(after as nat);
    lemma_to_double(before as nat);
    lemma_to_double(after as nat);
    lemma_small_doubles(before as nat);
    lemma_small_doubles(after as nat);
    let apart = if x >= y {
        (x - y) as nat
    } else {
        (y - x) as nat
    };
    let size = to_double(apart);
    lemma_to_double(apart);
    lemma_small_doubles(apart);
    lemma_one_decimal(size, 0x10_0000);
    reveal_strlit("-");
    let amount = crate::rounding::one_decimal(size, 0x10_0000);
    if x < y {
        assert(text@ == "-"@ + amount);
        assert(text@.skip(1) =~= amount);
    }
    assert(tells_difference(text@, x as int, y as int, size as int));
}

/// As much in use before and after the other way round frees as much with the sign turned.
pub proof fn law_freed_memory_changes_its_sign(
    before: u64,
    after: u64,
    text: String,
    turned: String,
)
    requires
        after < before,
        before < 0x20_0000_0000_0000,
        call_ensures(freed_megabytes, (before, after), text),
        call_ensures(freed_megabytes, (after, before), turned),
    ensures
        turned@ == "-"@ + text@,
{
    lemma_small_doubles(before as nat);
    lemma_small_doubles(after as nat);
}

/// The log tells the memory in use and the memory that is not, before and after, each in whole
/// megabytes.
pub proof fn law_snapshots_tell_four_amounts(
    before: MemoryStatus,
    after: MemoryStatus,
    text: String,
)
    requires
        before.used <= before.total,
        after.used <= after.total,
        call_ensures(memory_snapshot, (before, after), text),
    ensures
        text@ == "Memory snapshot: used "@ + decimal((before.used / 0x10_0000) as nat) + " -> "@
            + decimal((after.used / 0x10_0000) as nat) + " MB; available "@ + decimal(
            ((before.total - before.used) / 0x10_0000) as nat,
        ) + " -> "@ + decimal(((after.total - after.used) / 0x10_0000) as nat) + " MB"@,
{
}

/// Where more is said to be in use than there is, nothing is available.
pub proof fn law_snapshots_never_tell_less_than_nothing(
    before: MemoryStatus,
    after: MemoryStatus,
    filled: MemoryStatus,
    text: String,
    other: String,
)
    requires
        before.used > before.total,
        filled.used == before.used,
        filled.total == before.used,
        call_ensures(memory_snapshot, (before, after), text),
        call_ensures(memory_snapshot, (filled, after), other),
    ensures
        text@ == other@,
{
}

} // verus!
