//! Display commands and their validating constructors.

use vstd::prelude::*;
use vstd::string::StrSliceExecFns;

use crate::error::Error;

verus! {

/// Holds when the character sequence carries an embedded NUL, which the
/// native string representation cannot express.
pub open spec fn has_nul(s: Seq<char>) -> bool {
    exists|i: int| 0 <= i < s.len() && s[i] == '\0'
}

/// Reports whether `s` holds an embedded NUL character.
pub fn contains_nul(s: &str) -> (r: bool)
    ensures
        r == has_nul(s@),
{
    let len = s.unicode_len();
    let mut i: usize = 0;
    while i < len
        invariant
            len as nat == s@.len(),
            i <= len,
            forall|j: int| 0 <= j < i ==> s@[j] != '\0',
        decreases len - i,
    {
        if s.get_char(i) == '\0' {
            assert(has_nul(s@));
            return true;
        }
        i += 1;
    }
    false
}

/// The kinds of content one line of the display can carry.
///
/// Values should be built through the constructors below, which check the
/// numeric bounds before anything reaches the native layer.
#[derive(Debug, Clone, Eq, PartialEq, Ord, PartialOrd, Hash)]
pub enum Command {
    /// A percentage bar with a value between 0 and 100.
    Percentage(u16),
    /// A line of text.
    Text(String),
    /// A slider with a value between 0 and 100.
    Slider(u16),
}

impl Command {
    /// The value that displaying this command reports back: the character
    /// count for text, the bar value for a percentage or slider.
    pub open spec fn value(&self) -> int {
        match self {
            Command::Percentage(v) => *v as int,
            Command::Text(s) => s@.len() as int,
            Command::Slider(v) => *v as int,
        }
    }

    /// Holds when the command carries text with an embedded NUL.
    pub open spec fn has_embedded_nul(&self) -> bool {
        match self {
            Command::Text(s) => has_nul(s@),
            _ => false,
        }
    }

    /// Builds a percentage-bar command, rejecting values above 100.
    pub fn percentage(percentage: u16) -> (r: Result<Command, Error>)
        ensures
            percentage <= 100 ==> r == Ok::<Command, Error>(Command::Percentage(percentage)),
            percentage > 100 ==> r == Err::<Command, Error>(Error::OutOfRangePercentage),
    {
        if percentage > 100 {
            Err(Error::OutOfRangePercentage)
        } else {
            Ok(Command::Percentage(percentage))
        }
    }

    /// Builds a text command; every string is accepted here, and an
    /// embedded NUL is rejected only when the command is displayed.
    pub fn string(string: String) -> (r: Result<Command, Error>)
        ensures
            r == Ok::<Command, Error>(Command::Text(string)),
    {
        Ok(Command::Text(string))
    }

    /// Builds a slider command, rejecting values above 100.
    pub fn slider(slider: u16) -> (r: Result<Command, Error>)
        ensures
            slider <= 100 ==> r == Ok::<Command, Error>(Command::Slider(slider)),
            slider > 100 ==> r == Err::<Command, Error>(Error::OutOfRangePercentage),
    {
        if slider > 100 {
            Err(Error::OutOfRangePercentage)
        } else {
            Ok(Command::Slider(slider))
        }
    }
}

/// Law: displaying text reports the text's length.
pub proof fn lemma_text_display_value(s: String)
    ensures
        Command::Text(s).value() == s@.len(),
{
}

/// Law: displaying a percentage or slider reports the bar value itself.
pub proof fn lemma_bar_display_value(v: u16)
    ensures
        Command::Percentage(v).value() == v,
        Command::Slider(v).value() == v,
{
}

} // verus!
