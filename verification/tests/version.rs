use std::cmp::Ordering;

use app_update::version::{Rank, Version};

fn read(text: &str) -> Version {
    Version::parse(text).expect("a version")
}

fn with_parts(major: u64, minor: u64, patch: u64, pre: &str, build: &str) -> Version {
    Version { major, minor, patch, pre: String::from(pre), build: String::from(build) }
}

fn texts() -> Vec<&'static str> {
    vec![
        "0.0.0",
        "0.0.1",
        "0.1.0",
        "1.0.0-alpha",
        "1.0.0-alpha.1",
        "1.0.0-alpha.beta",
        "1.0.0-beta",
        "1.0.0-beta.2",
        "1.0.0-beta.11",
        "1.0.0-rc.1",
        "1.0.0-rc1",
        "1.0.0",
        "1.0.0+1",
        "1.0.0+01",
        "1.0.0+2",
        "1.0.0+build.5",
        "1.0.0-rc.1+build.5",
        "1.2.0-rc1",
        "1.2.0",
        "1.5.0",
        "1.19.0",
        "2.0.0-beta.1",
        "2.0.0-0",
        "2.0.0--",
        "2.0.0-x.7.z.92",
        "2.0.0",
        "18446744073709551615.18446744073709551615.18446744073709551615",
    ]
}

#[test]
fn new_version_has_no_other_part() {
    let version = Version::new(1, 2, 3);
    assert_eq!(version, with_parts(1, 2, 3, "", ""));
    assert!(version.is_plain());
    assert!(!with_parts(1, 2, 3, "rc1", "").is_plain());
    assert!(!with_parts(1, 2, 3, "", "7").is_plain());
}

#[test]
fn parse_reads_the_numbers() {
    assert_eq!(Version::parse("1.2.0"), Some(Version::new(1, 2, 0)));
    assert_eq!(Version::parse("0.0.0"), Some(Version::new(0, 0, 0)));
    assert_eq!(Version::parse("10.200.3000"), Some(Version::new(10, 200, 3000)));
    assert_eq!(
        Version::parse("18446744073709551615.0.1"),
        Some(Version::new(u64::MAX, 0, 1))
    );
}

#[test]
fn parse_reads_the_other_parts() {
    assert_eq!(Version::parse("1.2.0-rc1"), Some(with_parts(1, 2, 0, "rc1", "")));
    assert_eq!(Version::parse("2.0.0-beta.1"), Some(with_parts(2, 0, 0, "beta.1", "")));
    assert_eq!(Version::parse("0.8.1+zstd.1.5.0"), Some(with_parts(0, 8, 1, "", "zstd.1.5.0")));
    assert_eq!(
        Version::parse("1.0.0-alpha.1+build.05"),
        Some(with_parts(1, 0, 0, "alpha.1", "build.05"))
    );
}

#[test]
fn parse_refuses_what_is_no_version() {
    for text in [
        "",
        "1",
        "1.2",
        "1.2.3.4",
        "1.2.",
        ".1.2",
        "01.2.3",
        "1.02.3",
        "1.2.03",
        "v1.2.3",
        " 1.2.3",
        "1.2.3 ",
        "1.2.x",
        "1.2.3-",
        "1.2.3+",
        "1.2.3-01",
        "1.2.3-a..b",
        "1.2.3-a_b",
        "18446744073709551616.0.0",
        "1.2.3\u{e9}",
    ] {
        assert_eq!(Version::parse(text), None, "{}", text);
    }
}

#[test]
fn parse_reads_as_semver_does() {
    let mut all = texts();
    all.extend(["", "1.2", "01.0.0", "v1.0.0", "1.0.0-", "1.0.0-00", "1.0.0+00", "a.b.c"]);
    for text in all {
        match (Version::parse(text), semver::Version::parse(text)) {
            (Some(ours), Ok(theirs)) => {
                assert_eq!(ours.major, theirs.major);
                assert_eq!(ours.minor, theirs.minor);
                assert_eq!(ours.patch, theirs.patch);
                assert_eq!(ours.pre, theirs.pre.as_str());
                assert_eq!(ours.build, theirs.build.as_str());
            }
            (None, Err(_)) => {}
            (ours, theirs) => panic!("{}: {:?} and {:?}", text, ours, theirs.is_ok()),
        }
    }
}

#[test]
fn versions_are_ordered_as_semver_orders_them() {
    for left in texts() {
        for right in texts() {
            let expected = match semver::Version::parse(left)
                .expect("a version")
                .cmp(&semver::Version::parse(right).expect("a version"))
            {
                Ordering::Less => Rank::Older,
                Ordering::Equal => Rank::Same,
                Ordering::Greater => Rank::Newer,
            };
            assert_eq!(read(left).rank(&read(right)), Some(expected), "{} and {}", left, right);
            assert_eq!(
                read(left).is_newer_than(&read(right)),
                expected == Rank::Newer,
                "{} and {}",
                left,
                right
            );
        }
    }
}

#[test]
fn numbers_are_compared_as_numbers() {
    assert_eq!(Version::new(1, 5, 0).rank(&Version::new(1, 19, 0)), Some(Rank::Older));
    assert_eq!(Version::new(10, 0, 0).rank(&Version::new(9, 0, 0)), Some(Rank::Newer));
    assert_eq!(Version::new(1, 2, 4).rank(&Version::new(1, 2, 3)), Some(Rank::Newer));
    assert_eq!(Version::new(1, 2, 3).rank(&Version::new(1, 2, 3)), Some(Rank::Same));
    assert!(Version::new(2, 0, 0).is_newer_than(&Version::new(1, 9, 9)));
    assert!(!Version::new(1, 9, 9).is_newer_than(&Version::new(2, 0, 0)));
    assert!(!Version::new(1, 2, 3).is_newer_than(&Version::new(1, 2, 3)));
}

#[test]
fn numbers_decide_before_the_other_parts() {
    assert_eq!(read("1.2.0-rc1").rank(&read("1.0.0")), Some(Rank::Newer));
    assert_eq!(read("1.0.0").rank(&read("1.0.1-alpha")), Some(Rank::Older));
    assert_eq!(read("3.0.0+1").rank(&read("2.9.9+9")), Some(Rank::Newer));
}

#[test]
fn release_is_newer_than_its_pre_releases() {
    assert!(read("2.0.0").is_newer_than(&read("2.0.0-beta.1")));
    assert!(!read("2.0.0-beta.1").is_newer_than(&read("2.0.0")));
    assert_eq!(read("1.0.0-rc.1").rank(&read("1.0.0")), Some(Rank::Older));
}

#[test]
fn pre_releases_come_in_their_order() {
    let chain = [
        "1.0.0-alpha",
        "1.0.0-alpha.1",
        "1.0.0-alpha.beta",
        "1.0.0-beta",
        "1.0.0-beta.2",
        "1.0.0-beta.11",
        "1.0.0-rc.1",
        "1.0.0",
    ];
    for earlier in 0..chain.len() {
        for later in earlier + 1..chain.len() {
            assert!(read(chain[later]).is_newer_than(&read(chain[earlier])));
            assert!(!read(chain[earlier]).is_newer_than(&read(chain[later])));
        }
    }
}

#[test]
fn build_parts_are_ordered_too() {
    assert_eq!(read("1.0.0+2").rank(&read("1.0.0+1")), Some(Rank::Newer));
    assert_eq!(read("1.0.0+1").rank(&read("1.0.0")), Some(Rank::Newer));
    assert_eq!(read("1.0.0+01").rank(&read("1.0.0+1")), Some(Rank::Newer));
    assert_eq!(read("1.0.0+build").rank(&read("1.0.0+build")), Some(Rank::Same));
}

#[test]
fn part_that_semver_refuses_gives_no_rank() {
    let odd = with_parts(1, 0, 0, "not a part", "");
    assert_eq!(odd.rank(&Version::new(1, 0, 0)), None);
    assert_eq!(Version::new(1, 0, 0).rank(&odd), None);
    assert!(!odd.is_newer_than(&Version::new(1, 0, 0)));
    assert_eq!(with_parts(1, 0, 0, "", "a..b").rank(&read("1.0.0-rc1")), None);
    assert_eq!(odd.rank(&Version::new(0, 9, 0)), Some(Rank::Newer));
    assert_eq!(odd.rank(&Version::new(1, 0, 1)), Some(Rank::Older));
}

#[test]
fn clone_keeps_every_part() {
    let version = read("1.2.3-rc.4+5");
    assert_eq!(version.clone(), version);
    assert_eq!(version.clone().pre, "rc.4");
    assert_eq!(version.clone().build, "5");
}
