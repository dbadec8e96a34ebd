use ramopt::memory::{
    freed_megabytes, gb, measured_memory, measurement_failure, memory_display, memory_snapshot,
    memory_status, memory_tooltip, MemoryStatus,
};
use ramopt::number::{parse_u32, push_decimal, push_hexadecimal, ParseIntError};
use ramopt::rounding::{divide_half_even, percent, push_one_decimal, round_to_double};

/// A sequence of numbers that looks random and is the same in every run.
struct Numbers(u64);

impl Numbers {
    fn next(&mut self) -> u64 {
        self.0 ^= self.0 << 13;
        self.0 ^= self.0 >> 7;
        self.0 ^= self.0 << 17;
        self.0
    }

    /// A number of up to 64 bits, small ones as often as large ones.
    fn any(&mut self) -> u64 {
        let bits = self.next() % 64;
        self.next() >> bits
    }
}

fn gb_by_float(bytes: u64) -> String {
    format!("{:.1}", bytes as f64 / (1024.0 * 1024.0 * 1024.0))
}

fn tooltip_by_float(used: u64, total: u64) -> String {
    let percent = if total > 0 { used as f64 / total as f64 } else { 0.0 };
    format!(
        "RAMOpt - RAM: {} / {} GB ({:.0}%)",
        gb_by_float(used),
        gb_by_float(total),
        percent * 100.0
    )
}

fn freed_by_float(before: u64, after: u64) -> String {
    format!("{:.1}", (before as f64 - after as f64) / (1024.0 * 1024.0))
}

#[test]
fn decimal_digits() {
    for n in [0u128, 7, 10, 99, 100, 4294967295, u64::MAX as u128, u128::MAX] {
        let mut text = "n=".to_string();
        push_decimal(&mut text, n);
        assert_eq!(text, format!("n={n}"));
    }
}

#[test]
fn hexadecimal_digits() {
    for n in [0u32, 9, 10, 255, 0xC000_0061, u32::MAX] {
        let mut text = String::new();
        push_hexadecimal(&mut text, n, 8);
        assert_eq!(text, format!("{n:08X}"));
    }
}

#[test]
fn numbers_are_read_as_the_standard_library_reads_them() {
    for text in [
        "0", "1", "+1", "007", "4294967295", "4294967296", "99999999999999999999", "", "+", "-",
        "-1", "++1", "1 ", " 1", "1a", "a1", "99999999999a", "1.0", "\u{662}", "+\u{e9}",
    ] {
        match (parse_u32(text), text.parse::<u32>()) {
            (Ok(a), Ok(b)) => assert_eq!(a, b, "{text:?}"),
            (Err(a), Err(b)) => assert_eq!(a.text(), b.to_string(), "{text:?}"),
            (a, b) => panic!("{text:?}: {a:?} and {b:?}"),
        }
    }
    assert_eq!(parse_u32(""), Err(ParseIntError::Empty));
    assert_eq!(parse_u32("x"), Err(ParseIntError::InvalidDigit));
    assert_eq!(parse_u32("4294967296"), Err(ParseIntError::PosOverflow));
}

#[test]
fn written_numbers_are_read_back() {
    for n in [0u32, 1, 9, 10, 12345, u32::MAX] {
        let mut text = String::new();
        push_decimal(&mut text, n as u128);
        assert_eq!(parse_u32(&text), Ok(n));
    }
}

#[test]
fn halves_go_to_the_even_number() {
    assert_eq!(divide_half_even(1, 2), 0);
    assert_eq!(divide_half_even(3, 2), 2);
    assert_eq!(divide_half_even(5, 2), 2);
    assert_eq!(divide_half_even(7, 2), 4);
    assert_eq!(divide_half_even(7, 3), 2);
    assert_eq!(divide_half_even(8, 3), 3);
}

#[test]
fn whole_numbers_round_as_doubles() {
    let mut numbers = Numbers(1);
    for n in [0, 1, (1 << 53) - 1, 1 << 53, (1 << 53) + 1, (1 << 53) + 3, u64::MAX, u64::MAX - 1023, u64::MAX - 1024] {
        assert_eq!(round_to_double(n as u128), (n as f64) as u128, "{n}");
    }
    for _ in 0..20000 {
        let n = numbers.any();
        assert_eq!(round_to_double(n as u128), (n as f64) as u128, "{n}");
    }
}

#[test]
fn one_digit_behind_the_point() {
    for (n, d, expected) in [(0, 4, "0.0"), (1, 4, "0.2"), (3, 4, "0.8"), (5, 4, "1.2"), (10, 4, "2.5"), (199, 10, "19.9")] {
        let mut text = String::new();
        push_one_decimal(&mut text, n, d);
        assert_eq!(text, expected);
    }
}

#[test]
fn gigabytes() {
    assert_eq!(gb(0), "0.0");
    assert_eq!(gb(1 << 30), "1.0");
    assert_eq!(gb(16 << 30), "16.0");
    assert_eq!(gb(3 << 29), "1.5");
    let mut numbers = Numbers(2);
    for _ in 0..20000 {
        let n = numbers.any();
        assert_eq!(gb(n), gb_by_float(n), "{n}");
    }
    for k in 0..200u64 {
        let half_tenth = (k * (1 << 30)) / 20;
        for n in [half_tenth, half_tenth + 1, half_tenth.saturating_sub(1)] {
            assert_eq!(gb(n), gb_by_float(n), "{n}");
        }
    }
}

#[test]
fn percentages() {
    assert_eq!(percent(0, 0), 0);
    assert_eq!(percent(5, 0), 0);
    assert_eq!(percent(1, 2), 50);
    assert_eq!(percent(1, 3), 33);
    assert_eq!(percent(2, 3), 67);
    assert_eq!(percent(1, 8), 12);
    assert_eq!(percent(3, 8), 38);
    assert_eq!(percent(7, 7), 100);
    assert_eq!(percent(u64::MAX, u64::MAX), 100);
    assert_eq!(percent(u64::MAX, 1), 1844674407370955161600);
}

#[test]
fn tooltips() {
    assert_eq!(
        memory_tooltip(8 << 30, 16 << 30),
        "RAMOpt - RAM: 8.0 / 16.0 GB (50%)"
    );
    assert_eq!(memory_tooltip(0, 0), "RAMOpt - RAM: 0.0 / 0.0 GB (0%)");
    let mut numbers = Numbers(3);
    for _ in 0..20000 {
        let used = numbers.any();
        let total = numbers.any();
        assert_eq!(memory_tooltip(used, total), tooltip_by_float(used, total), "{used} {total}");
        let part = used.min(total);
        assert_eq!(memory_tooltip(part, total), tooltip_by_float(part, total), "{part} {total}");
    }
    for total in 1..120u64 {
        for used in 0..=total {
            assert_eq!(memory_tooltip(used, total), tooltip_by_float(used, total), "{used} {total}");
            assert!(percent(used, total) <= 100);
        }
    }
}

#[test]
fn freed_memory() {
    assert_eq!(freed_megabytes(3 << 20, 1 << 20), "2.0");
    assert_eq!(freed_megabytes(1 << 20, 3 << 20), "-2.0");
    assert_eq!(freed_megabytes(5, 5), "0.0");
    assert_eq!(freed_megabytes(5, 6), "-0.0");
    assert_eq!(freed_megabytes(6, 5), "0.0");
    let mut numbers = Numbers(4);
    for _ in 0..20000 {
        let before = numbers.any();
        let after = numbers.any();
        assert_eq!(freed_megabytes(before, after), freed_by_float(before, after), "{before} {after}");
        let near = before.wrapping_add(numbers.any() % (64 << 20));
        assert_eq!(freed_megabytes(before, near), freed_by_float(before, near), "{before} {near}");
    }
}

#[test]
fn memory_in_use_is_what_is_not_available() {
    assert_eq!(memory_status(100, 30), MemoryStatus { used: 70, total: 100 });
    assert_eq!(memory_status(100, 0), MemoryStatus { used: 100, total: 100 });
    assert_eq!(memory_status(100, 130), MemoryStatus { used: 0, total: 100 });
}

#[test]
fn a_call_that_failed_measures_nothing() {
    assert_eq!(measured_memory(0, 100, 30), None);
    assert_eq!(measured_memory(1, 100, 30), Some(MemoryStatus { used: 70, total: 100 }));
    assert_eq!(measured_memory(-1, 100, 130), Some(MemoryStatus { used: 0, total: 100 }));
    assert_eq!(measurement_failure(5), "GlobalMemoryStatusEx failed: 5");
}

#[test]
fn display_follows_the_measurement() {
    let shown = memory_display(Some(MemoryStatus { used: 1 << 30, total: 4 << 30 }));
    assert_eq!(shown.amounts, Some(("1.0".to_string(), "4.0".to_string())));
    assert_eq!(shown.tooltip, "RAMOpt - RAM: 1.0 / 4.0 GB (25%)");
    let unknown = memory_display(None);
    assert_eq!(unknown.amounts, None);
    assert_eq!(unknown.tooltip, "RAMOpt - RAM unavailable");
}

#[test]
fn snapshots_are_in_whole_megabytes() {
    let before = MemoryStatus { used: (3 << 20) + 5, total: 10 << 20 };
    let after = MemoryStatus { used: 12 << 20, total: 10 << 20 };
    assert_eq!(
        memory_snapshot(before, after),
        "Memory snapshot: used 3 -> 12 MB; available 6 -> 0 MB"
    );
}
