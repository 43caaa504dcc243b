use modtracker::tracker::{protracker_period_to_note, Tracker};

#[test]
fn period_zero_has_no_note() {
    assert_eq!(protracker_period_to_note(0, 0), None);
    assert_eq!(protracker_period_to_note(0, 3), None);
}

#[test]
fn periods_of_the_plain_table_have_their_names() {
    assert_eq!(protracker_period_to_note(428, 0).unwrap(), "C-5");
    assert_eq!(protracker_period_to_note(856, 0).unwrap(), "C-4");
    assert_eq!(protracker_period_to_note(3424, 0).unwrap(), "C-2");
    assert_eq!(protracker_period_to_note(28, 0).unwrap(), "B-8");
}

#[test]
fn the_nearest_period_is_taken_and_the_first_of_two() {
    assert_eq!(protracker_period_to_note(430, 0).unwrap(), "C-5");
    assert_eq!(protracker_period_to_note(417, 0).unwrap(), "C-5");
    assert_eq!(protracker_period_to_note(416, 0).unwrap(), "C-5");
    assert_eq!(protracker_period_to_note(415, 0).unwrap(), "C#5");
    assert_eq!(protracker_period_to_note(1, 0).unwrap(), "B-8");
    assert_eq!(protracker_period_to_note(65535, 0).unwrap(), "C-2");
}

#[test]
fn a_finetune_looks_in_the_finetuned_table() {
    assert_eq!(protracker_period_to_note(1712, 1).unwrap(), "C-2");
    assert_eq!(protracker_period_to_note(900, 4).unwrap(), "B-3");
    assert_eq!(protracker_period_to_note(862, -3).unwrap(), "B-9");
    assert_eq!(protracker_period_to_note(1814, 2).unwrap(), "C-10");
    assert_eq!(protracker_period_to_note(60000, 1).unwrap(), "C-2");
}

#[test]
fn trackers_have_their_names() {
    assert_eq!(Tracker::Generic.name(), "Generic");
    assert_eq!(Tracker::ProTracker.name(), "ProTracker");
    assert_eq!(Tracker::NoiseTracker.name(), "NoiseTracker");
    assert_eq!(Tracker::FastTracker.name(), "FastTracker");
    assert_eq!(Tracker::TakeTracker.name(), "TakeTracker");
    assert_eq!(Tracker::Startrekker.name(), "Startrekker");
    assert_eq!(Tracker::Falcon.name(), "Falcon");
    assert_eq!(Tracker::Oktalyzer.name(), "Oktalyzer");
    assert_eq!(
        Tracker::UltimateSoundTracker.name(),
        "Ultimate SoundTracker"
    );
    assert_eq!(
        Tracker::FastOrNoiseTracker.name(),
        "FastTracker/NoiseTracker/ProTracker"
    );
}
