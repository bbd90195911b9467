use voxtype::calendar::{chrono_now, civil_from_days, format_timestamp, log_line};

#[test]
fn civil_date_conversion() {
    assert_eq!(civil_from_days(0), (1970, 1, 1));
    // 2026-08-05: days since epoch = 20670
    assert_eq!(civil_from_days(20670), (2026, 8, 5));
    // Leap year boundary: 2000-02-29 = epoch day 11016
    assert_eq!(civil_from_days(11016), (2000, 2, 29));
    // 1969-12-31 = epoch day -1 (algorithm handles negatives)
    assert_eq!(civil_from_days(-1), (1969, 12, 31));
}

#[test]
fn log_timestamp_format() {
    let t = chrono_now();
    let bytes = t.as_bytes();
    assert_eq!(bytes.len(), 23, "timestamp {:?}", t);
    assert_eq!(&t[4..5], "-");
    assert_eq!(&t[7..8], "-");
    assert_eq!(&t[10..11], " ");
    assert_eq!(&t[13..14], ":");
    assert_eq!(&t[16..17], ":");
    assert_eq!(&t[19..20], ".");
    assert!(t[..4].bytes().all(|b| b.is_ascii_digit()));
}

#[test]
fn timestamps_of_known_instants() {
    assert_eq!(format_timestamp(0, 0), "1970-01-01 00:00:00.000");
    assert_eq!(
        format_timestamp(20670 * 86400 + 23 * 3600 + 59 * 60 + 8, 42),
        "2026-08-05 23:59:08.042"
    );
}

#[test]
fn every_day_of_four_centuries_follows_the_one_before() {
    let days_in = |y: i64, m: u32| -> u32 {
        let leap = (y % 4 == 0 && y % 100 != 0) || y % 400 == 0;
        match m {
            2 => {
                if leap {
                    29
                } else {
                    28
                }
            }
            4 | 6 | 9 | 11 => 30,
            _ => 31,
        }
    };
    let (mut y, mut m, mut d) = civil_from_days(-146_097);
    for z in -146_096..146_097i64 {
        if d < days_in(y, m) {
            d += 1;
        } else if m < 12 {
            m += 1;
            d = 1;
        } else {
            y += 1;
            m = 1;
            d = 1;
        }
        assert_eq!(civil_from_days(z), (y, m, d));
    }
}

#[test]
fn log_lines() {
    assert_eq!(
        log_line("2026-08-05 23:59:08.042", 4711, "Recording started"),
        "[2026-08-05 23:59:08.042] 4711: Recording started\n"
    );
}
