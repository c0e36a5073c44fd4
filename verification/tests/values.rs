use photos_norm::add_extention::AddExtention;
use photos_norm::camera_info::{camera_summary, compose_camera, flash_code_to_string};
use photos_norm::date::{check_fields, DateFields, DateParseError, DateTime};
use photos_norm::file_name::target_file_name;
use photos_norm::metadata::ImageMetadata;
use photos_norm::rational::{render_exposure_bias, render_unsigned_rational};
use photos_norm::tag::{DisplayWithComment, Tag, TagSet};
use photos_norm::text::{clone_text, holds_text, push_decimal, push_signed_decimal, starts_with};

fn text(value: &str) -> Option<String> {
    Some(value.to_string())
}

#[test]
fn decimal_numbers() {
    let mut out = String::from("n=");
    push_decimal(&mut out, 0);
    assert_eq!(out, "n=0");
    push_decimal(&mut out, 9);
    push_decimal(&mut out, 10);
    push_decimal(&mut out, 1203);
    assert_eq!(out, "n=09101203");
    let mut out = String::new();
    push_decimal(&mut out, u64::MAX);
    assert_eq!(out, "18446744073709551615");
}

#[test]
fn signed_decimal_numbers() {
    let mut out = String::new();
    push_signed_decimal(&mut out, -1);
    push_signed_decimal(&mut out, 0);
    push_signed_decimal(&mut out, 25);
    push_signed_decimal(&mut out, -2147483648);
    assert_eq!(out, "-1025-2147483648");
}

#[test]
fn unsigned_rationals() {
    assert_eq!(render_unsigned_rational(1, 32), "1/32");
    assert_eq!(render_unsigned_rational(0, 0), "0/0");
    assert_eq!(render_unsigned_rational(4294967295, 100), "4294967295/100");
}

#[test]
fn exposure_bias() {
    assert_eq!(render_exposure_bias(0, 1), "0");
    assert_eq!(render_exposure_bias(0, -7), "0");
    assert_eq!(render_exposure_bias(1, 3), "1/3");
    assert_eq!(render_exposure_bias(-2, 3), "-2/3");
    assert_eq!(render_exposure_bias(5, -10), "5/-10");
    assert_eq!(render_exposure_bias(i32::MIN, i32::MAX), "-2147483648/2147483647");
    assert_eq!(render_exposure_bias(7, 0), "7/0");
}

#[test]
fn prefixes() {
    assert!(starts_with("image/jpeg", "image"));
    assert!(starts_with("image", "image"));
    assert!(starts_with("image", ""));
    assert!(!starts_with("imag", "image"));
    assert!(!starts_with("video/image", "image"));
    assert!(starts_with("été chaud", "été"));
    assert!(!starts_with("ete", "été"));
}

#[test]
fn optional_texts() {
    assert!(holds_text(&text("a"), "a"));
    assert!(!holds_text(&text("a"), "b"));
    assert!(!holds_text(&None, ""));
    assert!(holds_text(&text(""), ""));
    assert_eq!(clone_text(&text("a b")), text("a b"));
    assert_eq!(clone_text(&None), None);
}

#[test]
fn known_flash_codes() {
    let table: [(u16, &str); 27] = [
        (0x00, "No Flash"),
        (0x01, "Fired"),
        (0x05, "Fired, Return not detected"),
        (0x07, "Fired, Return detected"),
        (0x08, "On, Did not fire"),
        (0x09, "On, Fired"),
        (0x0d, "On, Return not detected"),
        (0x0f, "On, Return detected"),
        (0x10, "Off, Did not fire"),
        (0x14, "Off, Did not fire, Return not detected"),
        (0x18, "Auto, Did not fire"),
        (0x19, "Auto, Fired"),
        (0x1d, "Auto, Fired, Return not detected"),
        (0x1f, "Auto, Fired, Return detected"),
        (0x20, "No flash function"),
        (0x30, "Off, No flash function"),
        (0x41, "Fired, Red-eye reduction"),
        (0x45, "Fired, Red-eye reduction, Return not detected"),
        (0x47, "Fired, Red-eye reduction, Return detected"),
        (0x49, "On, Red-eye reduction"),
        (0x4d, "On, Red-eye reduction, Return not detected"),
        (0x4f, "On, Red-eye reduction, Return detected"),
        (0x50, "Off, Red-eye reduction"),
        (0x58, "Auto, Did not fire, Red-eye reduction"),
        (0x59, "Auto, Fired, Red-eye reduction"),
        (0x5d, "Auto, Fired, Red-eye reduction, Return not detected"),
        (0x5f, "Auto, Fired, Red-eye reduction, Return detected"),
    ];
    for (code, expected) in table {
        assert_eq!(flash_code_to_string(code), expected);
    }
}

#[test]
fn unknown_flash_codes() {
    let known: [u16; 27] = [
        0x00, 0x01, 0x05, 0x07, 0x08, 0x09, 0x0d, 0x0f, 0x10, 0x14, 0x18, 0x19, 0x1d, 0x1f, 0x20,
        0x30, 0x41, 0x45, 0x47, 0x49, 0x4d, 0x4f, 0x50, 0x58, 0x59, 0x5d, 0x5f,
    ];
    for code in 0..=u16::MAX {
        if !known.contains(&code) {
            assert_eq!(flash_code_to_string(code), "Unknown flash code");
        } else {
            assert_ne!(flash_code_to_string(code), "Unknown flash code");
        }
    }
}

#[test]
fn camera_descriptions() {
    assert_eq!(compose_camera(text("Pablo"), text("Picasso"), text("1.4")), text("Pablo Picasso (1.4)"));
    assert_eq!(compose_camera(text("Pablo"), text("Picasso"), None), text("Pablo Picasso"));
    assert_eq!(compose_camera(text("Pablo"), None, text("1.4")), text("Pablo (1.4)"));
    assert_eq!(compose_camera(None, text("Picasso"), text("1.4")), text("Picasso (1.4)"));
    assert_eq!(compose_camera(text("Pablo"), None, None), text("Pablo"));
    assert_eq!(compose_camera(None, text("Picasso"), None), text("Picasso"));
    assert_eq!(compose_camera(None, None, text("1.4")), None);
    assert_eq!(compose_camera(None, None, None), None);
    assert_eq!(compose_camera(text(""), text(""), text("")), text("  ()"));
}

#[test]
fn camera_summaries() {
    assert_eq!(
        camera_summary(
            &text("Pablo Picasso (1.4)"),
            &text("1/32"),
            &text("0"),
            &text("5.6"),
            Some(100),
            &text("7.9"),
            &text("Auto, Did not fire"),
        ),
        "Pablo Picasso (1.4), Exposure: 1/32, Bias: 0, Aperture: 5.6, ISO: 100, Focal: 7.9 mm, \
         Flash: Auto, Did not fire"
    );
    assert_eq!(
        camera_summary(&None, &None, &None, &None, None, &None, &None),
        "Unknown camera, Exposure: Undefined, Bias: Undefined, Aperture: Undefined, \
         ISO: Undefined, Focal: Undefined, Flash: Undefined"
    );
    assert_eq!(
        camera_summary(&None, &text("2"), &None, &None, Some(0), &None, &None),
        "Unknown camera, Exposure: 2, Bias: Undefined, Aperture: Undefined, ISO: 0, \
         Focal: Undefined, Flash: Undefined"
    );
}

#[test]
fn valid_and_invalid_dates() {
    assert!(DateTime::new(2006, 10, 29, 16, 27, 21).is_some());
    assert!(DateTime::new(2024, 2, 29, 0, 0, 0).is_some());
    assert!(DateTime::new(2023, 2, 29, 0, 0, 0).is_none());
    assert!(DateTime::new(2000, 2, 29, 0, 0, 0).is_some());
    assert!(DateTime::new(1900, 2, 29, 0, 0, 0).is_none());
    assert!(DateTime::new(-4, 2, 29, 0, 0, 0).is_some());
    assert!(DateTime::new(-100, 2, 29, 0, 0, 0).is_none());
    assert!(DateTime::new(-400, 2, 29, 0, 0, 0).is_some());
    assert!(DateTime::new(2023, 4, 31, 0, 0, 0).is_none());
    assert!(DateTime::new(2023, 4, 30, 23, 59, 59).is_some());
    assert!(DateTime::new(2023, 12, 31, 0, 0, 0).is_some());
    assert!(DateTime::new(2023, 13, 1, 0, 0, 0).is_none());
    assert!(DateTime::new(2023, 0, 1, 0, 0, 0).is_none());
    assert!(DateTime::new(2023, 1, 0, 0, 0, 0).is_none());
    assert!(DateTime::new(2023, 1, 32, 0, 0, 0).is_none());
    assert!(DateTime::new(2023, 1, 1, 24, 0, 0).is_none());
    assert!(DateTime::new(2023, 1, 1, 0, 60, 0).is_none());
    assert!(DateTime::new(2023, 1, 1, 0, 0, 60).is_none());
    assert!(DateTime::new(262142, 12, 31, 23, 59, 59).is_some());
    assert!(DateTime::new(262143, 1, 1, 0, 0, 0).is_none());
    assert!(DateTime::new(-262143, 1, 1, 0, 0, 0).is_some());
    assert!(DateTime::new(-262144, 12, 31, 0, 0, 0).is_none());
}

#[test]
fn validity_agrees_with_chrono() {
    for year in [-262144, -262143, -401, -400, -100, -4, -1, 0, 1, 1900, 2000, 2023, 2024, 262142, 262143] {
        for month in 0..=13 {
            for day in [0, 1, 28, 29, 30, 31, 32] {
                let fields =
                    DateFields { year, month, day, hour: 1, minute: 2, second: 3, nanosecond: 0 };
                assert_eq!(
                    check_fields(&fields),
                    chrono::NaiveDate::from_ymd_opt(year, month, day).is_some(),
                    "{:?}",
                    fields
                );
            }
        }
    }
    for (hour, minute, second, nanosecond) in [
        (23, 59, 59, 999_999_999),
        (23, 59, 59, 1_000_000_000),
        (23, 59, 59, 1_999_999_999),
        (23, 59, 59, 2_000_000_000),
        (23, 59, 58, 1_000_000_000),
        (0, 0, 59, 1_000_000_000),
        (24, 0, 0, 0),
        (0, 60, 0, 0),
        (0, 0, 60, 0),
    ] {
        let fields = DateFields { year: 2001, month: 1, day: 1, hour, minute, second, nanosecond };
        assert_eq!(
            check_fields(&fields),
            chrono::NaiveTime::from_hms_nano_opt(hour, minute, second, nanosecond).is_some(),
            "{:?}",
            fields
        );
    }
}

#[test]
fn dates_as_text() {
    let date = DateTime::new(2006, 10, 29, 16, 27, 21).unwrap();
    assert_eq!(date.to_exif_string(), "2006:10:29 16:27:21");
    assert_eq!(date.to_file_stamp(), "2006_10_29-16_27_21");
    let date = DateTime::new(2001, 2, 3, 4, 5, 6).unwrap();
    assert_eq!(date.to_exif_string(), "2001:02:03 04:05:06");
    assert_eq!(date.to_file_stamp(), "2001_02_03-04_05_06");
    let date = DateTime::new(999, 1, 1, 0, 0, 0).unwrap();
    assert_eq!(date.to_exif_string(), "0999:01:01 00:00:00");
    let date = DateTime::new(0, 1, 1, 0, 0, 0).unwrap();
    assert_eq!(date.to_exif_string(), "0000:01:01 00:00:00");
    let date = DateTime::new(9999, 12, 31, 23, 59, 59).unwrap();
    assert_eq!(date.to_file_stamp(), "9999_12_31-23_59_59");
    let date = DateTime::new(10000, 1, 1, 0, 0, 0).unwrap();
    assert_eq!(date.to_exif_string(), "+10000:01:01 00:00:00");
    let date = DateTime::new(262142, 1, 1, 0, 0, 0).unwrap();
    assert_eq!(date.to_file_stamp(), "+262142_01_01-00_00_00");
    let date = DateTime::new(-5, 1, 1, 0, 0, 0).unwrap();
    assert_eq!(date.to_exif_string(), "-0005:01:01 00:00:00");
    let date = DateTime::new(-1, 1, 1, 0, 0, 0).unwrap();
    assert_eq!(date.to_file_stamp(), "-0001_01_01-00_00_00");
    let date = DateTime::new(-12345, 6, 7, 8, 9, 10).unwrap();
    assert_eq!(date.to_exif_string(), "-12345:06:07 08:09:10");
}

#[test]
fn leap_second_is_written_as_sixty() {
    let fields = DateFields {
        year: 2016,
        month: 12,
        day: 31,
        hour: 23,
        minute: 59,
        second: 59,
        nanosecond: 1_000_000_000,
    };
    let date = DateTime::from_fields(fields).unwrap();
    assert_eq!(date.to_exif_string(), "2016:12:31 23:59:60");
    assert_eq!(date.fields(), fields);
    assert_eq!(DateTime::from_exif_string("2016:12:31 23:59:60"), Ok(date));
    assert!(!date.same(&DateTime::new(2016, 12, 31, 23, 59, 59).unwrap()));
}

#[test]
fn dates_from_text() {
    assert_eq!(
        DateTime::from_exif_string("2006:10:29 16:27:21"),
        Ok(DateTime::new(2006, 10, 29, 16, 27, 21).unwrap())
    );
    assert_eq!(DateTime::from_exif_string("2001:01:01"), Err(DateParseError));
    assert_eq!(DateTime::from_exif_string(""), Err(DateParseError));
    assert_eq!(DateTime::from_exif_string("2001-01-01 01:01:01"), Err(DateParseError));
    assert_eq!(DateTime::from_exif_string("2001:02:30 01:01:01"), Err(DateParseError));
    assert_eq!(DateTime::from_exif_string("2001:01:01 24:00:00"), Err(DateParseError));
    assert_eq!(DateTime::from_exif_string("2001:01:01 01:01:01 and more"), Err(DateParseError));
    let date = DateTime::from_exif_string("2001:01:01 01:01:01").unwrap();
    assert_eq!(
        date.fields(),
        DateFields { year: 2001, month: 1, day: 1, hour: 1, minute: 1, second: 1, nanosecond: 0 }
    );
    assert!(date.same(&DateTime::new(2001, 1, 1, 1, 1, 1).unwrap()));
    assert!(!date.same(&DateTime::new(2001, 1, 1, 1, 1, 2).unwrap()));
}

#[test]
fn file_name_derivation() {
    let date = DateTime::new(2006, 10, 29, 16, 27, 21).unwrap();
    assert_eq!(
        target_file_name(&date, &text("A fun picture!"), &text("jpg")),
        "2006_10_29-16_27_21 - A fun picture!.jpg"
    );
    assert_eq!(target_file_name(&date, &None, &text("jpg")), "2006_10_29-16_27_21.jpg");
    assert_eq!(target_file_name(&date, &text("A fun picture!"), &None), "2006_10_29-16_27_21 - A fun picture!");
    assert_eq!(target_file_name(&date, &None, &None), "2006_10_29-16_27_21");
}

#[test]
fn file_names_are_made_safe() {
    let date = DateTime::new(2006, 10, 29, 16, 27, 21).unwrap();
    assert_eq!(
        target_file_name(&date, &text("a/b:c*d"), &text("jpg")),
        "2006_10_29-16_27_21 - a_b_c_d.jpg"
    );
    assert_eq!(target_file_name(&date, &text("two  spaces"), &text("png")), "2006_10_29-16_27_21 - two spaces.png");
}

#[test]
fn tag_sets() {
    let mut set = TagSet::empty();
    assert!(set.is_empty());
    assert_eq!(set.to_vec(), vec![]);
    set.insert(Tag::FileName);
    set.insert(Tag::Description);
    assert!(!set.is_empty());
    assert!(set.contains(Tag::FileName));
    assert!(set.contains(Tag::Description));
    assert!(!set.contains(Tag::Date));
    assert!(!set.contains(Tag::Dimensions));
    assert_eq!(set.to_vec(), vec![Tag::Description, Tag::FileName]);
    set.insert(Tag::Description);
    assert_eq!(set.to_vec(), vec![Tag::Description, Tag::FileName]);
    set.insert(Tag::Dimensions);
    set.insert(Tag::Date);
    assert_eq!(set.to_vec(), vec![Tag::Description, Tag::Date, Tag::Dimensions, Tag::FileName]);
    set.remove(Tag::Description);
    set.remove(Tag::Description);
    assert_eq!(set.to_vec(), vec![Tag::Date, Tag::Dimensions, Tag::FileName]);
    set.remove(Tag::FileName);
    set.remove(Tag::Date);
    set.remove(Tag::Dimensions);
    assert!(set.is_empty());
    assert_eq!(set, TagSet::empty());
}

#[test]
fn tag_sets_as_text() {
    let mut set = TagSet::empty();
    assert_eq!(set.to_string_coma(), "");
    set.insert(Tag::FileName);
    assert_eq!(set.to_string_coma(), "FileName");
    set.insert(Tag::Description);
    assert_eq!(set.to_string_coma(), "Description, FileName");
    set.insert(Tag::Dimensions);
    set.insert(Tag::Date);
    assert_eq!(set.to_string_coma(), "Description, Date, Dimensions, FileName");
}

#[test]
fn tag_names() {
    assert_eq!(Tag::Description.name(), "Description");
    assert_eq!(Tag::Date.name(), "Date");
    assert_eq!(Tag::Dimensions.name(), "Dimensions");
    assert_eq!(Tag::FileName.name(), "FileName");
}

#[test]
fn tags_with_comment() {
    assert_eq!(Tag::Description.with_comment(&text("a.jpg")), "Description");
    assert_eq!(Tag::Date.with_comment(&None), "Date");
    assert_eq!(Tag::Dimensions.with_comment(&text("a.jpg")), "Dimensions");
    assert_eq!(Tag::FileName.with_comment(&text("a.jpg")), "FileName(a.jpg)");
    assert_eq!(Tag::FileName.with_comment(&None), "FileName()");

    let mut store = little_exif::metadata::Metadata::new();
    store.set_tag(little_exif::exif_tag::ExifTag::Make("Pablo".to_string()));
    let metadata =
        ImageMetadata::new("some/where/photo.jpg", &text("image/jpeg"), Some((1, 1)), store).unwrap();
    assert_eq!(Tag::FileName.to_string_comment(&metadata), "FileName(photo.jpg)");
    assert_eq!(Tag::Date.to_string_comment(&metadata), "Date");
}

#[test]
fn extensions() {
    let mut name = String::from("photo");
    name.add_ext("jpg");
    assert_eq!(name, "photo.jpg");
    name.add_ext("");
    assert_eq!(name, "photo.jpg");
    name.add_ext("bak");
    assert_eq!(name, "photo.jpg.bak");
}
