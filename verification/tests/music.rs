use synth_language::music::{NoteName, SCALE_SIZE};

#[test]
fn base_index_counts_up_from_a() {
    let all = [
        NoteName::A,
        NoteName::ASharp,
        NoteName::B,
        NoteName::C,
        NoteName::CSharp,
        NoteName::D,
        NoteName::DSharp,
        NoteName::E,
        NoteName::F,
        NoteName::FSharp,
        NoteName::G,
        NoteName::GSharp,
    ];
    assert_eq!(all.len(), SCALE_SIZE);
    for i in 0..all.len() {
        assert_eq!(all[i].base_index(), i);
        assert_eq!(NoteName::from_base_index(i), Some(all[i]));
    }
    assert_eq!(NoteName::from_base_index(12), None);
    assert_eq!(NoteName::from_base_index(usize::MAX), None);
}

#[test]
fn index_in_octave_adds_twelve_an_octave() {
    assert_eq!(NoteName::A.index_in_octave(0), 0);
    assert_eq!(NoteName::C.index_in_octave(0), 3);
    assert_eq!(NoteName::C.index_in_octave(2), 27);
    // the A of octave four, 440 Hz, is 48 semitones above the lowest A
    assert_eq!(NoteName::A.index_in_octave(4), 48);
    assert_eq!(NoteName::GSharp.index_in_octave(7), 95);
}

#[test]
fn labels_are_written_and_read_back() {
    assert_eq!(NoteName::A.label(), "a");
    assert_eq!(NoteName::ASharp.label(), "a-sharp");
    assert_eq!(NoteName::C.label(), "c");
    assert_eq!(NoteName::GSharp.label(), "g-sharp");
    for i in 0..SCALE_SIZE {
        let note = NoteName::from_base_index(i).unwrap();
        assert_eq!(NoteName::from_label(&note.label()), Some(note));
    }
    assert_eq!(NoteName::from_label("f-sharp"), Some(NoteName::FSharp));
    assert_eq!(NoteName::from_label("h"), None);
    assert_eq!(NoteName::from_label("A"), None);
    assert_eq!(NoteName::from_label(""), None);
    assert_eq!(NoteName::from_label("a-sharp "), None);
}
