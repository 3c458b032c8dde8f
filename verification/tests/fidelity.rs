use enma::filters::SearchFilter;
use enma::number::decimal_text;
use enma::split::{collapse_spaces, leading_word, trailing_word};
use enma::text::{chars_of, string_of, trim};
use regex::Regex;

const SAMPLES: [&str; 16] = [
    "",
    " ",
    "a",
    " a",
    "a ",
    "  One  Piece \n\t",
    "\u{a0}x\u{3000}y\u{2003}",
    "\u{85}\u{1680}z\u{2028}\u{2029}",
    "\u{200b}zero width\u{200b}",
    "\u{180e}mongolian\u{180e}",
    "\u{feff}bom",
    "Ep 12",
    "#3 Spotlight",
    "\r\n\r\n",
    "PG-13 \n  HD\t\tTV  24m",
    "x\u{202f}y\u{205f}z",
];

#[test]
fn trim_agrees_with_std() {
    for text in SAMPLES {
        assert_eq!(string_of(&trim(&chars_of(text))), text.trim(), "{:?}", text);
    }
}

#[test]
fn words_agree_with_std() {
    for text in SAMPLES {
        let first = leading_word(&chars_of(text)).map(|w| string_of(&w));
        let last = trailing_word(&chars_of(text)).map(|w| string_of(&w));
        assert_eq!(first.as_deref(), text.split_whitespace().next(), "{:?}", text);
        assert_eq!(last.as_deref(), text.split_whitespace().last(), "{:?}", text);
    }
}

#[test]
fn collapsing_agrees_with_the_pattern_for_runs_of_white_space() {
    let runs = Regex::new(r"\s+").unwrap();
    for text in SAMPLES {
        assert_eq!(
            string_of(&collapse_spaces(&chars_of(text))),
            runs.replace_all(text, " ").into_owned(),
            "{:?}",
            text
        );
    }
}

#[test]
fn decimal_agrees_with_std() {
    let mut n: u64 = 0;
    while n < 2000 {
        assert_eq!(string_of(&decimal_text(n)), n.to_string());
        n += 1;
    }
    for n in [9_999u64, 10_000, 65_535, 65_536, 4_294_967_295, 4_294_967_296, u64::MAX - 1] {
        assert_eq!(string_of(&decimal_text(n)), n.to_string());
    }
}

#[test]
fn dates_are_those_of_the_pattern_with_a_month_and_a_day() {
    let pattern = Regex::new(r"^\d{4}-([0-9]|1[0-2])-([0-9]|[12][0-9]|3[01])$").unwrap();
    let years = ["2024", "0000", "999", "20245", "20x4", ""];
    let numbers = [
        "", "0", "1", "9", "10", "12", "13", "19", "20", "29", "30", "31", "32", "00", "01", "09",
        "001", "100", "a", "1a", "+1", "-1", " 1", "1 ",
    ];
    for year in years {
        for month in numbers {
            for day in numbers {
                let value = format!("{}-{}-{}", year, month, day);
                let expected = if pattern.is_match(&value) && month != "0" && day != "0" {
                    format!(
                        "sy={}&sm={}&sd={}",
                        year.parse::<u16>().unwrap(),
                        month.parse::<u8>().unwrap(),
                        day.parse::<u8>().unwrap()
                    )
                } else {
                    String::new()
                };
                assert_eq!(
                    SearchFilter::StartDate(value.clone()).mapped_value(),
                    expected,
                    "{:?}",
                    value
                );
            }
        }
    }
}
