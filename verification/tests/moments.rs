use chrono::Duration;
use chrono::Local;

use persian_tools::remaining_time::remaining_time;
use persian_tools::remaining_time::RemainingTime;
use persian_tools::time_ago::time_ago;
use persian_tools::time_diff::time_diff_between;
use persian_tools::time_diff::time_diff_now;
use persian_tools::time_diff::TimeDiff;
use persian_tools::time_diff::Timestamp;

#[test]
fn remaining_time_fail_test() {
    assert!(remaining_time("123:12312").is_err());
}

#[test]
fn remaining_time_due_moment() {
    let current_time = Local::now();
    let due_date = current_time
        + Duration::weeks(320)
        + Duration::hours(7)
        + Duration::minutes(13)
        + Duration::seconds(37);
    let formatted_time = due_date.format("%Y-%m-%d %H:%M:%S").to_string();

    assert_eq!(
        remaining_time(&formatted_time).unwrap(),
        RemainingTime {
            years: 6,
            months: 1,
            days: 20,
            hours: 7,
            minutes: 13,
            seconds: 37,
            is_finished: false,
        }
    );
}

#[test]
fn remaining_time_past_moment_is_finished() {
    let current_time = Local::now();
    let past = current_time - Duration::hours(5);
    let formatted_time = past.format("%Y-%m-%d %H:%M:%S").to_string();
    assert!(remaining_time(&formatted_time).unwrap().is_finished);
}

#[test]
fn time_diff_ten_minutes_ago() {
    let current_time = Local::now();
    let ten_minutes_ago = current_time - Duration::minutes(10);
    let formatted_time = ten_minutes_ago.format("%Y-%m-%d %H:%M:%S").to_string();

    assert!(time_diff_now(Timestamp::from(formatted_time))
        .is_ok_and(|datetime| datetime.short_form() == "10 دقیقه قبل"));
}

#[test]
fn time_diff_between_two_moments() {
    let current_time = Local::now();
    let start = current_time
        + Duration::weeks(320)
        + Duration::hours(7)
        + Duration::minutes(13)
        + Duration::seconds(37);

    let end = (current_time + Duration::weeks(150) + Duration::hours(4)).timestamp();

    let formatted_time = start.format("%Y-%m-%d %H:%M:%S").to_string();
    assert_eq!(
        time_diff_between(Timestamp::from(formatted_time), Timestamp::from(end)).unwrap(),
        TimeDiff {
            years: 3,
            months: 3,
            days: 5,
            hours: 3,
            minutes: 13,
            seconds: 37,
            is_future: false,
        }
    );
}

#[test]
fn time_diff_long_form_persian_digits() {
    let current_time = Local::now();
    let start = current_time
        + Duration::weeks(320)
        + Duration::hours(7)
        + Duration::minutes(13)
        + Duration::seconds(37);

    let end = (current_time + Duration::weeks(150) + Duration::hours(4)).timestamp();

    let formatted_time = start.format("%Y-%m-%d %H:%M:%S").to_string();
    assert_eq!(
        time_diff_between(Timestamp::from(formatted_time), Timestamp::from(end))
            .unwrap()
            .long_form_fa_digits(),
        "۳ سال و ۳ ماه و ۵ روز و ۳ ساعت و ۱۳ دقیقه و ۳۷ ثانیه قبل"
    );
}

#[test]
fn time_ago_ten_minutes() {
    let current_time = Local::now();
    let ten_minutes_ago = current_time - Duration::minutes(10);
    let formatted_time = ten_minutes_ago.format("%Y-%m-%d %H:%M:%S").to_string();

    assert!(time_ago(Some(&formatted_time)).is_ok_and(|phrase| phrase == "10 دقیقه قبل"));
}

#[test]
fn time_ago_none_is_now() {
    assert!(time_ago(None).is_ok_and(|phrase| phrase == "اکنون"));
}
