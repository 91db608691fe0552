use game_catalog::clock::SaveTime;

fn moment(year: i32, month: u8, day: u8, hour: u8, minute: u8, second: u8) -> SaveTime {
    SaveTime { year, month, day, hour, minute, second, nanosecond: 0 }
}

#[test]
fn unix_timestamp_of_known_moments() {
    assert_eq!(moment(1970, 1, 1, 0, 0, 0).unix_timestamp(), Some(0));
    assert_eq!(moment(1970, 1, 1, 0, 0, 1).unix_timestamp(), Some(1));
    assert_eq!(moment(1970, 1, 2, 0, 0, 0).unix_timestamp(), Some(86_400));
    assert_eq!(moment(1969, 12, 31, 23, 59, 59).unix_timestamp(), Some(-1));
    assert_eq!(moment(2019, 1, 1, 0, 0, 0).unix_timestamp(), Some(1_546_300_800));
    assert_eq!(moment(2000, 2, 29, 12, 30, 15).unix_timestamp(), Some(951_827_415));
    assert_eq!(moment(2038, 1, 19, 3, 14, 8).unix_timestamp(), Some(2_147_483_648));
}

#[test]
fn unix_timestamp_ignores_the_fraction_of_a_second() {
    let whole = moment(2019, 1, 1, 0, 0, 0);
    let almost = SaveTime { nanosecond: 999_999_999, ..whole };
    assert_eq!(almost.unix_timestamp(), Some(1_546_300_800));
}

#[test]
fn unix_timestamp_at_the_ends_of_the_calendar() {
    assert_eq!(moment(-9999, 1, 1, 0, 0, 0).unix_timestamp(), Some(-377_705_116_800));
    assert_eq!(moment(9999, 12, 31, 23, 59, 59).unix_timestamp(), Some(253_402_300_799));
}

#[test]
fn leap_days_are_real_only_in_leap_years() {
    assert!(moment(2020, 2, 29, 0, 0, 0).is_valid());
    assert!(moment(2000, 2, 29, 0, 0, 0).is_valid());
    assert!(!moment(1900, 2, 29, 0, 0, 0).is_valid());
    assert!(!moment(2019, 2, 29, 0, 0, 0).is_valid());
    assert!(!moment(2020, 2, 30, 0, 0, 0).is_valid());
    assert!(moment(-4, 2, 29, 0, 0, 0).is_valid());
    assert!(moment(0, 2, 29, 0, 0, 0).is_valid());
    assert!(!moment(-100, 2, 29, 0, 0, 0).is_valid());
    assert!(moment(-400, 2, 29, 0, 0, 0).is_valid());
    assert!(!moment(-1, 2, 29, 0, 0, 0).is_valid());
}

#[test]
fn months_have_their_lengths() {
    let lengths: [u8; 12] = [31, 28, 31, 30, 31, 30, 31, 31, 30, 31, 30, 31];
    for month in 1..=12u8 {
        let last = lengths[(month - 1) as usize];
        assert!(moment(2021, month, last, 0, 0, 0).is_valid());
        assert!(!moment(2021, month, last + 1, 0, 0, 0).is_valid());
        assert!(!moment(2021, month, 0, 0, 0, 0).is_valid());
    }
}

#[test]
fn fields_out_of_range_are_no_moment() {
    assert!(!moment(2021, 0, 1, 0, 0, 0).is_valid());
    assert!(!moment(2021, 13, 1, 0, 0, 0).is_valid());
    assert!(!moment(2021, 1, 1, 24, 0, 0).is_valid());
    assert!(!moment(2021, 1, 1, 0, 60, 0).is_valid());
    assert!(!moment(2021, 1, 1, 0, 0, 60).is_valid());
    assert!(!moment(10000, 1, 1, 0, 0, 0).is_valid());
    assert!(!moment(-10000, 1, 1, 0, 0, 0).is_valid());
    assert!(!moment(i32::MAX, 1, 1, 0, 0, 0).is_valid());
    assert!(!moment(i32::MIN, 1, 1, 0, 0, 0).is_valid());
    let too_fine = SaveTime { nanosecond: 1_000_000_000, ..moment(2021, 1, 1, 0, 0, 0) };
    assert!(!too_fine.is_valid());
    assert_eq!(too_fine.unix_timestamp(), None);
    assert_eq!(moment(2021, 2, 29, 0, 0, 0).unix_timestamp(), None);
    assert!(moment(2021, 1, 1, 23, 59, 59).is_valid());
}

#[test]
fn unix_timestamp_agrees_with_the_time_crate() {
    let date = time::Date::from_calendar_date(2024, time::Month::July, 4).unwrap();
    let clock = time::Time::from_hms(13, 14, 15).unwrap();
    let expected = time::PrimitiveDateTime::new(date, clock).assume_utc().unix_timestamp();
    assert_eq!(moment(2024, 7, 4, 13, 14, 15).unix_timestamp(), Some(expected));
    assert_eq!(expected, 1_720_098_855);
}
