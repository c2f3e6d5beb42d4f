use discux::page::date;
use discux::signal::{redirect_to_error_page, ErrorSignal};

#[test]
fn error_location_encodes_both_texts() {
    let loc = redirect_to_error_page(&"Query article: abc".to_string(), &"Article doesn't exist!".to_string());
    assert_eq!(loc, "/error/info?action=Query+article%3A+abc&err_info=Article+doesn%27t+exist%21");
}

#[test]
fn error_location_of_signal_with_ampersand() {
    let sig = ErrorSignal::new("a&b=c".to_string(), "".to_string());
    assert_eq!(sig.location(), "/error/info?action=a%26b%3Dc&err_info=");
}

#[test]
fn date_formats_utc_seconds() {
    assert_eq!(date(0), Some("1970-01-01 00:00:00".to_string()));
    assert_eq!(date(1431648000), Some("2015-05-15 00:00:00".to_string()));
    assert_eq!(date(-1), Some("1969-12-31 23:59:59".to_string()));
}

#[test]
fn date_out_of_range_is_none() {
    assert_eq!(date(i64::MAX), None);
    assert_eq!(date(i64::MIN), None);
}

#[test]
fn error_location_encodes_hash_percent_and_non_ascii() {
    let loc = redirect_to_error_page(&"a #1 100%".to_string(), &"été".to_string());
    assert_eq!(loc, "/error/info?action=a+%231+100%25&err_info=%C3%A9t%C3%A9");
}
