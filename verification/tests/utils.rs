use syno_download_station::entities::{AdditionalTaskInfo, Task, TaskStatus, Transfer};
use syno_download_station::text::{decimal, join, starts_with, trim_end};
use syno_download_station::utils::{convert_time_left, seconds_left, speed_label};

fn create_test_task() -> Task {
    Task {
        id: String::from("123"),
        username: String::from("Bob"),
        task_type: String::from("bt"),
        title: String::from("Ubuntu 16.04"),
        size: 1_234_567_890,
        status: TaskStatus::Downloading,
        status_extra: None,
        additional: Some(AdditionalTaskInfo {
            transfer: Some(Transfer { speed_download: 98765, ..Default::default() }),
            ..Default::default()
        }),
    }
}

#[test]
fn test_calculate_size() {
    let task = create_test_task();
    assert_eq!("1.23 GB", task.calculate_size());
}

#[test]
fn test_calculate_speed() {
    // Test with downloading
    let mut task = create_test_task();
    assert_eq!("(98.77 KB/s)", task.calculate_speed());
    // Test with uploading
    task.status = TaskStatus::Seeding;
    task.additional.as_mut().unwrap().transfer.as_mut().unwrap().speed_download = 0;
    task.additional.as_mut().unwrap().transfer.as_mut().unwrap().speed_upload = 45678;
    assert_eq!("(45.68 KB/s)", task.calculate_speed());
}

#[test]
fn test_calculate_time_left() {
    let task = create_test_task();
    assert_eq!("⏳Time left: 3 h 28 m", task.calculate_time_left());
}

#[test]
fn size_of_small_and_large_tasks() {
    let mut task = create_test_task();
    task.size = 0;
    assert_eq!("0 B", task.calculate_size());
    task.size = 999;
    assert_eq!("999 B", task.calculate_size());
    task.size = 1_000;
    assert_eq!("1 KB", task.calculate_size());
    task.size = 1_500_000;
    assert_eq!("1.5 MB", task.calculate_size());
}

#[test]
fn speed_is_empty_unless_transferring() {
    let mut task = create_test_task();
    task.status = TaskStatus::Paused;
    assert_eq!("", task.calculate_speed());
    task.status = TaskStatus::Downloading;
    task.additional.as_mut().unwrap().transfer.as_mut().unwrap().speed_download = 0;
    assert_eq!("", task.calculate_speed());
    task.additional.as_mut().unwrap().transfer = None;
    assert_eq!("", task.calculate_speed());
    task.additional = None;
    assert_eq!("", task.calculate_speed());
}

#[test]
fn speed_label_wraps_the_amount() {
    assert_eq!("(1 KB/s)", speed_label("1 KB"));
    assert_eq!("(/s)", speed_label(""));
}

#[test]
fn time_left_is_empty_unless_downloading() {
    let mut task = create_test_task();
    task.status = TaskStatus::Seeding;
    assert_eq!("", task.calculate_time_left());
    task.status = TaskStatus::Downloading;
    task.additional.as_mut().unwrap().transfer = None;
    assert_eq!("", task.calculate_time_left());
    task.additional = None;
    assert_eq!("", task.calculate_time_left());
}

#[test]
fn time_left_is_unknown_without_speed() {
    let mut task = create_test_task();
    task.additional.as_mut().unwrap().transfer.as_mut().unwrap().speed_download = 0;
    assert_eq!("⏳Time left: Unknown", task.calculate_time_left());
}

#[test]
fn time_left_is_unknown_when_more_is_downloaded_than_the_size() {
    let mut task = create_test_task();
    task.additional.as_mut().unwrap().transfer.as_mut().unwrap().size_downloaded = 2_000_000_000;
    assert_eq!("⏳Time left: Unknown", task.calculate_time_left());
}

#[test]
fn seconds_left_rounds_down_and_is_capped() {
    assert_eq!(12500, seconds_left(1_234_567_890, 0, 98765));
    assert_eq!(0, seconds_left(10, 10, 3));
    assert_eq!(3, seconds_left(10, 0, 3));
    assert_eq!(-1, seconds_left(10, 0, 0));
    assert_eq!(-1, seconds_left(10, 11, 5));
    assert_eq!(i64::MAX, seconds_left(u64::MAX, 0, 1));
    assert_eq!(i64::MAX, seconds_left(u64::MAX, 0, 2));
    assert_eq!(i64::MAX - 1, seconds_left(u64::MAX - 3, 0, 2));
}

#[test]
fn convert_time_left_picks_the_largest_units() {
    assert_eq!("Unknown", convert_time_left(-1));
    assert_eq!("Unknown", convert_time_left(i64::MIN));
    assert_eq!("0 s", convert_time_left(0));
    assert_eq!("59 s", convert_time_left(59));
    assert_eq!("1 m 0 s", convert_time_left(60));
    assert_eq!("59 m 59 s", convert_time_left(3599));
    assert_eq!("1 h 0 m", convert_time_left(3600));
    assert_eq!("3 h 28 m", convert_time_left(12500));
    assert_eq!("23 h 59 m", convert_time_left(86399));
    assert_eq!("1 d 0 h 0 m", convert_time_left(86400));
    assert_eq!("1 d 1 h 1 m", convert_time_left(86400 + 3600 + 60 + 59));
    assert_eq!("106751991167300 d 15 h 30 m", convert_time_left(i64::MAX));
}

#[test]
fn decimal_numerals() {
    assert_eq!("0", decimal(0));
    assert_eq!("7", decimal(7));
    assert_eq!("10", decimal(10));
    assert_eq!("1234567890", decimal(1234567890));
    assert_eq!("18446744073709551615", decimal(u64::MAX));
}

#[test]
fn prefixes() {
    assert!(starts_with("http://nas", "http://"));
    assert!(starts_with("http://", "http://"));
    assert!(starts_with("anything", ""));
    assert!(!starts_with("http:/", "http://"));
    assert!(!starts_with("ftp://nas", "http://"));
    assert!(!starts_with("", "magnet:"));
    assert!(starts_with("größe", "grö"));
}

#[test]
fn trimming() {
    assert_eq!("http://nas:5000", trim_end("http://nas:5000/", '/'));
    assert_eq!("http://nas:5000", trim_end("http://nas:5000///", '/'));
    assert_eq!("http://nas:5000", trim_end("http://nas:5000", '/'));
    assert_eq!("http:", trim_end("http://", '/'));
    assert_eq!("", trim_end("///", '/'));
    assert_eq!("", trim_end("", '/'));
    assert_eq!("a/b", trim_end("a/b/", '/'));
}

#[test]
fn joining() {
    assert_eq!("", join(&vec![], ","));
    assert_eq!("a", join(&vec!["a".to_string()], ","));
    assert_eq!("a,b,c", join(&vec!["a".to_string(), "b".to_string(), "c".to_string()], ","));
    assert_eq!(",", join(&vec!["".to_string(), "".to_string()], ","));
}

#[test]
fn status_codes_round_trip() {
    assert_eq!(TaskStatus::Finished, TaskStatus::from_code(5));
    assert_eq!(5, TaskStatus::Finished.code());
    assert_eq!(TaskStatus::Waiting, TaskStatus::from_code(1));
    assert_eq!(TaskStatus::CaptchaNeeded, TaskStatus::from_code(15));
    assert_eq!(TaskStatus::Error, TaskStatus::from_code(101));
    assert_eq!(TaskStatus::ErrorExtractWrongPassword, TaskStatus::from_code(119));
    assert_eq!(TaskStatus::ErrorInvalidAccountPassword, TaskStatus::from_code(134));
    assert_eq!(TaskStatus::Unknown(0), TaskStatus::from_code(0));
    assert_eq!(TaskStatus::Unknown(16), TaskStatus::from_code(16));
    assert_eq!(TaskStatus::Unknown(100), TaskStatus::from_code(100));
    assert_eq!(TaskStatus::Unknown(135), TaskStatus::from_code(135));
    for code in 0..=255u8 {
        assert_eq!(code, TaskStatus::from_code(code).code());
    }
}
