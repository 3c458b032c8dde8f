use enma::schedule::{parse_schedule, schedule_at, schedule_request, seconds_between, ScheduledAnime};

fn some(s: &str) -> Option<String> {
    Some(s.to_string())
}

fn pair(name: &str, value: &str) -> (String, String) {
    (name.to_string(), value.to_string())
}

fn entry(href: &str, time: &str, name: &str, episode: &str) -> String {
    format!(
        "<li><a href=\"{}\" class=\"tsl-link\"><div class=\"time\">{}</div>\
         <div class=\"film-detail\"><h3 class=\"film-name dynamic-name\" data-jname=\"{} (jp)\">{}</h3>\
         <div class=\"fd-play\"><button class=\"btn btn-sm btn-play\">{}</button></div></div></a></li>",
        href, time, name, name, episode
    )
}

#[test]
fn schedule_request_writes_the_date_in_two_digits() {
    let request = schedule_request(2024, 3, 5);
    assert_eq!(request.url, "https://hianime.to/ajax/schedule/list?tzOffset=-330&date=2024-03-05");
    assert_eq!(
        request.headers,
        vec![
            pair("accept", "*/*"),
            pair("referer", "https://hianime.to/home"),
            pair("x-requested-with", "XMLHttpRequest"),
        ]
    );
    assert_eq!(
        schedule_request(987, 12, 31).url,
        "https://hianime.to/ajax/schedule/list?tzOffset=-330&date=987-12-31"
    );
    assert_eq!(
        schedule_request(2024, 123, 0).url,
        "https://hianime.to/ajax/schedule/list?tzOffset=-330&date=2024-123-00"
    );
}

#[test]
fn entries_are_read_with_their_airing_instant() {
    let html = format!(
        "{}{}",
        entry(" /one-piece-100 ", " 10:30 ", "One Piece", "Episode 1122"),
        entry("/bleach-806", "soon", "Bleach", "Episode 7"),
    );
    let now: i64 = 1704450600000 - 90_500;
    let schedule = schedule_at(&html, 2024, 1, 5, now);
    assert_eq!(schedule.animes.len(), 2);
    let first = &schedule.animes[0];
    assert_eq!(first.id(), &some("one-piece-100"));
    assert_eq!(first.name(), &some("One Piece"));
    assert_eq!(first.jname(), &some("One Piece (jp)"));
    assert_eq!(first.time(), &some("10:30"));
    assert_eq!(first.episode_number(), Some(1122));
    assert_eq!(first.airing_timestamp(), 1704450600000);
    assert_eq!(first.seconds_until_airing(), 90);
    assert_eq!(first.already_aired(), false);
    let second = &schedule.animes[1];
    assert_eq!(second.id(), &some("bleach-806"));
    assert_eq!(second.time(), &some("soon"));
    assert_eq!(second.episode_number(), Some(7));
    assert_eq!(second.airing_timestamp(), 0);
    assert_eq!(second.seconds_until_airing(), -1704450509);
    assert_eq!(second.already_aired(), true);
}

#[test]
fn every_entry_has_the_number_on_its_own_button() {
    let html = format!(
        "{}<li><a href=\"/no-button-1\" class=\"tsl-link\"><div class=\"time\">11:00</div></a></li>{}",
        entry("/a-1", "10:00", "A", "Episode 3"),
        entry("/b-2", "12:00", "B", "Episode 7"),
    );
    let schedule = schedule_at(&html, 2024, 1, 5, 0);
    assert_eq!(schedule.animes.len(), 3);
    assert_eq!(schedule.animes[0].episode_number(), Some(3));
    assert_eq!(schedule.animes[1].episode_number(), None);
    assert_eq!(schedule.animes[2].episode_number(), Some(7));
}

#[test]
fn a_day_without_data_has_no_entries() {
    let schedule = schedule_at("<li> No data to display for today </li><li>x</li>", 2024, 1, 5, 0);
    assert!(schedule.animes.is_empty());
    assert!(schedule_at("", 2024, 1, 5, 0).animes.is_empty());
    let bare = schedule_at("<li>something</li>", 2024, 1, 5, 0);
    assert_eq!(bare.animes.len(), 1);
    assert_eq!(bare.animes[0].id(), &None);
    assert_eq!(bare.animes[0].time(), &some(""));
    assert_eq!(bare.animes[0].airing_timestamp(), 0);
    assert_eq!(bare.animes[0].seconds_until_airing(), 0);
    assert_eq!(bare.animes[0].already_aired(), true);
}

#[test]
fn whether_an_entry_has_aired_follows_from_the_seconds_left() {
    let instants: [i64; 9] = [i64::MIN, -5_000_000_000_000, -1000, -999, 0, 999, 1000, 5_000_000_000_000, i64::MAX];
    for airing in instants {
        for now in instants {
            let entry = ScheduledAnime::new(None, None, None, None, None, airing, now);
            assert_eq!(entry.already_aired(), entry.seconds_until_airing() <= 0);
            assert_eq!(entry.seconds_until_airing(), seconds_between(airing, now));
            assert_eq!(entry.airing_timestamp(), airing);
        }
    }
}

#[test]
fn seconds_are_whole_and_wrap_to_32_bits() {
    assert_eq!(seconds_between(1000, 0), 1);
    assert_eq!(seconds_between(1999, 0), 1);
    assert_eq!(seconds_between(999, 0), 0);
    assert_eq!(seconds_between(-999, 0), 0);
    assert_eq!(seconds_between(-1000, 0), -1);
    assert_eq!(seconds_between(-1999, 0), -1);
    assert_eq!(seconds_between(0, 1500), -1);
    assert_eq!(seconds_between(2147483647000, 0), 2147483647);
    assert_eq!(seconds_between(2147483648000, 0), -2147483648);
    assert_eq!(seconds_between(-2147483648000, 0), -2147483648);
    assert_eq!(seconds_between(-2147483649000, 0), 2147483647);
    assert_eq!(seconds_between(4294967296000, 0), 0);
    let cases: [(i64, i64); 5] = [(i64::MAX, i64::MIN), (i64::MIN, i64::MAX), (i64::MAX, 0), (0, i64::MAX), (123456789012345, -987654321098765)];
    for (airing, now) in cases {
        let expected = ((airing as i128 - now as i128) / 1000) as i32;
        assert_eq!(seconds_between(airing, now), expected);
    }
}

#[test]
fn the_schedule_is_seen_at_the_time_of_the_call() {
    let past = parse_schedule(&entry("/a-1", "00:00", "A", "Episode 1"), 2001, 1, 1);
    assert_eq!(past.animes.len(), 1);
    assert_eq!(past.animes[0].airing_timestamp(), 978307200000);
    assert!(past.animes[0].seconds_until_airing() < 0);
    assert_eq!(past.animes[0].already_aired(), true);
    let later = parse_schedule(&entry("/a-1", "00:00", "A", "Episode 1"), 2037, 1, 1);
    assert!(later.animes[0].seconds_until_airing() > 0);
    assert_eq!(later.animes[0].already_aired(), false);
}
