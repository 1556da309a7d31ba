use guess_note::config::NoteRange;
use guess_note::error::GameError;
use guess_note::target::{generate_target, target_for_sample};

#[test]
fn ten_thousand_targets_stay_below_the_upper_bound() {
    let range = NoteRange::new(36, 96).unwrap();
    for _ in 0..10_000 {
        let target: u8 = generate_target(&range);
        assert!(target >= 36, "target {} is below the range", target);
        assert!(target < 96, "target {} reaches the upper bound", target);
    }
}

#[test]
fn random_targets_are_not_all_the_same() {
    let range = NoteRange::new(0, 255).unwrap();
    let first: u8 = generate_target(&range);
    let mut differs = false;
    for _ in 0..1_000 {
        if generate_target(&range) != first {
            differs = true;
        }
    }
    assert!(differs);
}

#[test]
fn smallest_sample_selects_the_lowest_note() {
    let range = NoteRange::new(36, 96).unwrap();
    assert_eq!(target_for_sample(&range, 0), 36);
}

#[test]
fn largest_sample_selects_the_note_below_the_upper_bound() {
    let range = NoteRange::new(36, 96).unwrap();
    assert_eq!(target_for_sample(&range, u32::MAX), 95);
}

#[test]
fn middle_sample_selects_the_middle_of_the_range() {
    let range = NoteRange::new(36, 96).unwrap();
    assert_eq!(target_for_sample(&range, 0x8000_0000), 66);
}

#[test]
fn samples_are_cut_down_not_rounded() {
    let range = NoteRange::new(36, 96).unwrap();
    // 60 * sample / 2^32 passes 1 at sample = 71582789.
    assert_eq!(target_for_sample(&range, 71_582_788), 36);
    assert_eq!(target_for_sample(&range, 71_582_789), 37);
    // 60 * sample / 2^32 passes 59 at sample = 4223384508.
    assert_eq!(target_for_sample(&range, 4_223_384_507), 94);
    assert_eq!(target_for_sample(&range, 4_223_384_508), 95);
}

#[test]
fn a_range_of_one_note_always_gives_that_note() {
    let range = NoteRange::new(60, 60).unwrap();
    assert_eq!(target_for_sample(&range, 0), 60);
    assert_eq!(target_for_sample(&range, 0x8000_0000), 60);
    assert_eq!(target_for_sample(&range, u32::MAX), 60);
    for _ in 0..100 {
        assert_eq!(generate_target(&range), 60);
    }
}

#[test]
fn the_widest_range_never_gives_its_upper_bound() {
    let range = NoteRange::new(0, 255).unwrap();
    assert_eq!(target_for_sample(&range, 0), 0);
    assert_eq!(target_for_sample(&range, u32::MAX), 254);
}

#[test]
fn a_range_keeps_its_bounds() {
    let range = NoteRange::new(36, 96).unwrap();
    assert_eq!(range.min_note(), 36);
    assert_eq!(range.max_note(), 96);
}

#[test]
fn an_empty_range_is_a_configuration_error() {
    assert_eq!(NoteRange::new(96, 36).err(), Some(GameError::ConfigurationError));
    assert_eq!(NoteRange::new(1, 0).err(), Some(GameError::ConfigurationError));
    assert!(NoteRange::new(0, 0).is_ok());
    assert!(NoteRange::new(255, 255).is_ok());
}
