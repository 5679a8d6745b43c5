use guardian::tolerance::{classify, classify_with, within_tolerance, Classification, TOLERANCE_MS};

#[test]
fn tolerance_is_twelve_hundred_milliseconds() {
    assert_eq!(TOLERANCE_MS, 1200);
}

#[test]
fn reply_at_the_tolerance_is_fast() {
    assert_eq!(classify(1200), Classification::Fast);
    assert_eq!(within_tolerance(1200), "fast");
}

#[test]
fn reply_just_over_the_tolerance_is_slow() {
    assert_eq!(classify(1201), Classification::Slow);
    assert_eq!(within_tolerance(1201), "slow");
}

#[test]
fn instant_reply_is_fast() {
    assert_eq!(classify(0), Classification::Fast);
    assert_eq!(within_tolerance(0), "fast");
}

#[test]
fn longest_reply_is_slow() {
    assert_eq!(classify(u128::MAX), Classification::Slow);
    assert_eq!(within_tolerance(u128::MAX), "slow");
}

#[test]
fn every_reply_up_to_the_tolerance_is_fast_and_every_later_one_slow() {
    let mut elapsed: u128 = 0;
    while elapsed <= 3000 {
        let expected = if elapsed <= 1200 { Classification::Fast } else { Classification::Slow };
        assert_eq!(classify(elapsed), expected);
        assert_eq!(within_tolerance(elapsed), if elapsed <= 1200 { "fast" } else { "slow" });
        elapsed += 1;
    }
}

#[test]
fn tolerance_can_be_chosen() {
    assert_eq!(classify_with(300, 250), Classification::Slow);
    assert_eq!(classify_with(250, 250), Classification::Fast);
    assert_eq!(classify_with(1500, 2000), Classification::Fast);
    assert_eq!(classify_with(0, 0), Classification::Fast);
    assert_eq!(classify_with(1, 0), Classification::Slow);
}

#[test]
fn classes_are_reported_in_lower_case() {
    assert_eq!(Classification::Fast.label(), "fast");
    assert_eq!(Classification::Slow.label(), "slow");
    assert_eq!(Classification::Stopped.label(), "stopped");
}
