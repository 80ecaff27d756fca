//! The twelve notes of the scale and their places on a keyboard.
use vstd::prelude::*;

verus! {

/// The number of notes in an octave.
pub const SCALE_SIZE: usize = 12;

/// A note of the scale, counted up from A.
#[derive(Debug, Clone, Copy, PartialEq, Eq, Structural, Hash)]
pub enum NoteName {
    A,
    ASharp,
    B,
    C,
    CSharp,
    D,
    DSharp,
    E,
    F,
    FSharp,
    G,
    GSharp,
}

impl NoteName {
    /// The place of the note within an octave that starts at A.
    pub open spec fn base_index_spec(self) -> usize {
        match self {
            NoteName::A => 0,
            NoteName::ASharp => 1,
            NoteName::B => 2,
            NoteName::C => 3,
            NoteName::CSharp => 4,
            NoteName::D => 5,
            NoteName::DSharp => 6,
            NoteName::E => 7,
            NoteName::F => 8,
            NoteName::FSharp => 9,
            NoteName::G => 10,
            NoteName::GSharp => 11,
        }
    }

    #[verifier::when_used_as_spec(base_index_spec)]
    pub fn base_index(self) -> (i: usize)
        ensures
            i == self.base_index_spec(),
            i < SCALE_SIZE,
    {
        match self {
            NoteName::A => 0,
            NoteName::ASharp => 1,
            NoteName::B => 2,
            NoteName::C => 3,
            NoteName::CSharp => 4,
            NoteName::D => 5,
            NoteName::DSharp => 6,
            NoteName::E => 7,
            NoteName::F => 8,
            NoteName::FSharp => 9,
            NoteName::G => 10,
            NoteName::GSharp => 11,
        }
    }

    /// The note at place `index` of an octave, if there is one.
    pub fn from_base_index(index: usize) -> (note: Option<NoteName>)
        ensures
            index < SCALE_SIZE <==> note is Some,
            note is Some ==> note->0.base_index_spec() == index,
    {
        match index {
            0 => Some(NoteName::A),
            1 => Some(NoteName::ASharp),
            2 => Some(NoteName::B),
            3 => Some(NoteName::C),
            4 => Some(NoteName::CSharp),
            5 => Some(NoteName::D),
            6 => Some(NoteName::DSharp),
            7 => Some(NoteName::E),
            8 => Some(NoteName::F),
            9 => Some(NoteName::FSharp),
            10 => Some(NoteName::G),
            11 => Some(NoteName::GSharp),
            _ => None,
        }
    }

    /// The number of semitones from the A of octave zero up to the note in
    /// `octave`.
    pub fn index_in_octave(self, octave: usize) -> (i: usize)
        requires
            octave * SCALE_SIZE + SCALE_SIZE <= usize::MAX,
        ensures
            i == self.base_index_spec() + octave * SCALE_SIZE,
    {
        self.base_index() + (octave * SCALE_SIZE)
    }
}

impl NoteName {
    /// The name of the note as it is written: lower case, a sharp spelled out.
    pub open spec fn label_spec(self) -> Seq<char> {
        match self {
            NoteName::A => "a"@,
            NoteName::ASharp => "a-sharp"@,
            NoteName::B => "b"@,
            NoteName::C => "c"@,
            NoteName::CSharp => "c-sharp"@,
            NoteName::D => "d"@,
            NoteName::DSharp => "d-sharp"@,
            NoteName::E => "e"@,
            NoteName::F => "f"@,
            NoteName::FSharp => "f-sharp"@,
            NoteName::G => "g"@,
            NoteName::GSharp => "g-sharp"@,
        }
    }

    pub fn label(self) -> (s: String)
        ensures
            s@ == self.label_spec(),
    {
        match self {
            NoteName::A => "a".to_owned(),
            NoteName::ASharp => "a-sharp".to_owned(),
            NoteName::B => "b".to_owned(),
            NoteName::C => "c".to_owned(),
            NoteName::CSharp => "c-sharp".to_owned(),
            NoteName::D => "d".to_owned(),
            NoteName::DSharp => "d-sharp".to_owned(),
            NoteName::E => "e".to_owned(),
            NoteName::F => "f".to_owned(),
            NoteName::FSharp => "f-sharp".to_owned(),
            NoteName::G => "g".to_owned(),
            NoteName::GSharp => "g-sharp".to_owned(),
        }
    }

    /// The note that is written `s`, if there is one.
    pub fn from_label(s: &str) -> (note: Option<NoteName>)
        ensures
            note is Some ==> note->0.label_spec() == s@,
            note is Some ==> forall|n: NoteName|
                n.base_index_spec() < note->0.base_index_spec() ==> n.label_spec() != s@,
            note is None ==> forall|n: NoteName| n.label_spec() != s@,
    {
        let written = s.to_owned();
        let mut index: usize = 0;
        while index < SCALE_SIZE
            invariant
                index <= SCALE_SIZE,
                written@ == s@,
                forall|n: NoteName| n.base_index_spec() < index ==> n.label_spec() != s@,
            decreases SCALE_SIZE - index,
        {
            match NoteName::from_base_index(index) {
                Some(note) => {
                    if note.label() == written {
                        return Some(note);
                    }
                    assert forall|n: NoteName| n.base_index_spec() < index + 1 implies n.label_spec()
                        != s@ by {
                        if n.base_index_spec() == index {
                            assert(n == note);
                        }
                    }
                },
                None => {},
            }
            index += 1;
        }
        assert forall|n: NoteName| n.label_spec() != s@ by {
            assert(n.base_index_spec() < SCALE_SIZE);
        }
        None
    }
}

} // verus!
