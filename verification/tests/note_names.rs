use guess_note::note::note_number_to_sign;

const SIGNS: [&str; 12] = ["C", "C#", "D", "D#", "E", "F", "F#", "G", "G#", "A", "A#", "B"];

#[test]
fn lowest_note_is_c_minus_one() {
    assert_eq!(note_number_to_sign(0), "C-1");
}

#[test]
fn middle_c_is_c4() {
    assert_eq!(note_number_to_sign(60), "C4");
}

#[test]
fn highest_midi_note_is_g9() {
    assert_eq!(note_number_to_sign(127), "G9");
}

#[test]
fn sharps_carry_their_sign() {
    assert_eq!(note_number_to_sign(61), "C#4");
    assert_eq!(note_number_to_sign(1), "C#-1");
    assert_eq!(note_number_to_sign(70), "A#4");
}

#[test]
fn octave_changes_at_each_c() {
    assert_eq!(note_number_to_sign(11), "B-1");
    assert_eq!(note_number_to_sign(12), "C0");
    assert_eq!(note_number_to_sign(23), "B0");
    assert_eq!(note_number_to_sign(24), "C1");
    assert_eq!(note_number_to_sign(119), "B8");
    assert_eq!(note_number_to_sign(120), "C9");
}

#[test]
fn concert_pitch_is_a4() {
    assert_eq!(note_number_to_sign(69), "A4");
}

#[test]
fn every_midi_note_follows_table_and_octave() {
    let mut note: u8 = 0;
    loop {
        let class: usize = usize::from(note % 12);
        let octave: i32 = i32::from(note) / 12 - 1;
        assert_eq!(note_number_to_sign(note), format!("{}{}", SIGNS[class], octave));
        if note == 127 {
            break;
        }
        note += 1;
    }
}

#[test]
fn bytes_above_the_midi_range_are_named_by_the_same_rule() {
    assert_eq!(note_number_to_sign(128), "G#9");
    assert_eq!(note_number_to_sign(132), "C10");
    assert_eq!(note_number_to_sign(255), "D#20");
    let mut note: u8 = 128;
    loop {
        let class: usize = usize::from(note % 12);
        let octave: i32 = i32::from(note) / 12 - 1;
        assert_eq!(note_number_to_sign(note), format!("{}{}", SIGNS[class], octave));
        if note == 255 {
            break;
        }
        note += 1;
    }
}

#[test]
fn the_root_reexports_the_namer() {
    assert_eq!(guess_note::note_number_to_sign(62), "D4");
}
