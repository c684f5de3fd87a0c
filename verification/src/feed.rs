//! Feed cycles and their integer codes.

use vstd::prelude::*;

verus! {

/// Feed cycle "name".
///
/// The Apex reports it as a name; it is both a command and a state, and it
/// travels as a small integer code.
#[derive(Clone, Copy, Debug, PartialEq, Eq, Structural)]
pub enum Feed {
    /// Cancel the active feed cycle.
    Cancel,
    /// Feed cycle A.
    A,
    /// Feed cycle B.
    B,
    /// Feed cycle C.
    C,
    /// Feed cycle D.
    D,
    /// No feed cycle is active.
    Inactive,
}

impl Feed {
    /// The integer code of a feed cycle.
    pub open spec fn spec_code(self) -> u32 {
        match self {
            Feed::Cancel => 0,
            Feed::A => 1,
            Feed::B => 2,
            Feed::C => 3,
            Feed::D => 4,
            Feed::Inactive => 256,
        }
    }

    /// The feed cycle that a code stands for, if it stands for one.
    pub open spec fn spec_from_code(code: u32) -> Option<Feed> {
        if code == 0 {
            Some(Feed::Cancel)
        } else if code == 1 {
            Some(Feed::A)
        } else if code == 2 {
            Some(Feed::B)
        } else if code == 3 {
            Some(Feed::C)
        } else if code == 4 {
            Some(Feed::D)
        } else if code == 256 {
            Some(Feed::Inactive)
        } else {
            None
        }
    }

    /// The integer code under which the device knows this feed cycle.
    #[verifier::when_used_as_spec(spec_code)]
    pub fn code(self) -> (code: u32)
        ensures
            code == self.spec_code(),
    {
        match self {
            Feed::Cancel => 0,
            Feed::A => 1,
            Feed::B => 2,
            Feed::C => 3,
            Feed::D => 4,
            Feed::Inactive => 256,
        }
    }

    /// Decodes an integer code. A code that names no feed cycle gives `None`
    /// of the `Option`, never a default cycle.
    #[verifier::when_used_as_spec(spec_from_code)]
    pub fn from_code(code: u32) -> (feed: Option<Feed>)
        ensures
            feed == Feed::spec_from_code(code),
    {
        match code {
            0 => Some(Feed::Cancel),
            1 => Some(Feed::A),
            2 => Some(Feed::B),
            3 => Some(Feed::C),
            4 => Some(Feed::D),
            256 => Some(Feed::Inactive),
            _ => None,
        }
    }

    /// Encoding a feed cycle and decoding the code gives the cycle back.
    pub proof fn lemma_code_round_trip(feed: Feed)
        ensures
            Feed::spec_from_code(feed.spec_code()) == Some(feed),
    {
    }

    /// A code decodes to a feed cycle exactly when that cycle encodes to it,
    /// so the six codes 0, 1, 2, 3, 4 and 256 are the only ones accepted.
    pub proof fn lemma_decode_is_inverse(code: u32, feed: Feed)
        ensures
            Feed::spec_from_code(code) == Some(feed) <==> feed.spec_code() == code,
            Feed::spec_from_code(code) is None <==> !(code == 0 || code == 1 || code == 2 || code
                == 3 || code == 4 || code == 256),
    {
    }
}

} // verus!
