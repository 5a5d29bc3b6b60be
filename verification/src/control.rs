//! The words of the control path.

use vstd::prelude::*;
use crate::params::Command;

verus! {

/// What a line of the control path asks for.
#[derive(Clone, Copy, Debug)]
pub enum Request {
    /// A change of the parameters.
    Change(Command),
    /// The end of the session.
    Quit,
    /// A known word that lacks its value: nothing is to be done.
    Incomplete,
    /// No known word: nothing is to be done.
    Unknown,
}

/// The word `n`, which sets the carrier frequency.
pub open spec fn word_carrier() -> Seq<u8> {
    seq![110u8]
}

/// The word `r`, which sets the ratio of modulator to carrier.
pub open spec fn word_ratio() -> Seq<u8> {
    seq![114u8]
}

/// The word `i`, which sets the modulation index.
pub open spec fn word_index() -> Seq<u8> {
    seq![105u8]
}

/// The word `a`, which sets the master amplitude.
pub open spec fn word_amplitude() -> Seq<u8> {
    seq![97u8]
}

/// The word `on`, which starts a note.
pub open spec fn word_on() -> Seq<u8> {
    seq![111u8, 110u8]
}

/// The word `off`, which ends a note.
pub open spec fn word_off() -> Seq<u8> {
    seq![111u8, 102u8, 102u8]
}

/// The word `q`, which ends the session.
pub open spec fn word_q() -> Seq<u8> {
    seq![113u8]
}

/// The word `quit`, which ends the session as well.
pub open spec fn word_quit() -> Seq<u8> {
    seq![113u8, 117u8, 105u8, 116u8]
}

/// What a first word asks for, together with the value that follows it, if
/// one does and is a number. Words are told apart letter by letter, capitals
/// from small letters too. A word that sets a parameter needs its value; the
/// other words take none, and a value after them is passed over.
pub open spec fn meaning(word: Seq<u8>, value: Option<i64>) -> Request {
    if word == word_q() || word == word_quit() {
        Request::Quit
    } else if word == word_on() {
        Request::Change(Command::NoteOn)
    } else if word == word_off() {
        Request::Change(Command::NoteOff)
    } else if word == word_carrier() {
        match value {
            Some(hz) => Request::Change(Command::SetCarrier(hz)),
            None => Request::Incomplete,
        }
    } else if word == word_ratio() {
        match value {
            Some(ratio) => Request::Change(Command::SetRatio(ratio)),
            None => Request::Incomplete,
        }
    } else if word == word_index() {
        match value {
            Some(index) => Request::Change(Command::SetIndex(index)),
            None => Request::Incomplete,
        }
    } else if word == word_amplitude() {
        match value {
            Some(amplitude) => Request::Change(Command::SetAmplitude(amplitude)),
            None => Request::Incomplete,
        }
    } else {
        Request::Unknown
    }
}

/// Reads the first word of a line, with the value that follows it.
pub fn interpret(word: &[u8], value: Option<i64>) -> (request: Request)
    ensures
        request == meaning(word@, value),
{
    let n: usize = word.len();
    if n == 1 {
        let c: u8 = word[0];
        proof {
            assert(word@ =~= seq![c]);
            assert(word_q()[0] == 113u8 && word_carrier()[0] == 110u8 && word_ratio()[0] == 114u8
                && word_index()[0] == 105u8 && word_amplitude()[0] == 97u8);
        }
        if c == 113 {
            Request::Quit
        } else if c == 110 {
            match value {
                Some(v) => Request::Change(Command::SetCarrier(v)),
                None => Request::Incomplete,
            }
        } else if c == 114 {
            match value {
                Some(v) => Request::Change(Command::SetRatio(v)),
                None => Request::Incomplete,
            }
        } else if c == 105 {
            match value {
                Some(v) => Request::Change(Command::SetIndex(v)),
                None => Request::Incomplete,
            }
        } else if c == 97 {
            match value {
                Some(v) => Request::Change(Command::SetAmplitude(v)),
                None => Request::Incomplete,
            }
        } else {
            Request::Unknown
        }
    } else if n == 2 {
        proof {
            assert(word@ =~= seq![word@[0], word@[1]]);
            assert(word_on()[0] == 111u8 && word_on()[1] == 110u8);
        }
        if word[0] == 111 && word[1] == 110 {
            Request::Change(Command::NoteOn)
        } else {
            Request::Unknown
        }
    } else if n == 3 {
        proof {
            assert(word@ =~= seq![word@[0], word@[1], word@[2]]);
            assert(word_off()[0] == 111u8 && word_off()[1] == 102u8 && word_off()[2] == 102u8);
        }
        if word[0] == 111 && word[1] == 102 && word[2] == 102 {
            Request::Change(Command::NoteOff)
        } else {
            Request::Unknown
        }
    } else if n == 4 {
        proof {
            assert(word@ =~= seq![word@[0], word@[1], word@[2], word@[3]]);
            assert(word_quit()[0] == 113u8 && word_quit()[1] == 117u8 && word_quit()[2] == 105u8
                && word_quit()[3] == 116u8);
        }
        if word[0] == 113 && word[1] == 117 && word[2] == 105 && word[3] == 116 {
            Request::Quit
        } else {
            Request::Unknown
        }
    } else {
        proof {
            assert(word_q().len() == 1 && word_carrier().len() == 1 && word_ratio().len() == 1
                && word_index().len() == 1 && word_amplitude().len() == 1 && word_on().len() == 2
                && word_off().len() == 3 && word_quit().len() == 4);
        }
        Request::Unknown
    }
}

} // verus!
