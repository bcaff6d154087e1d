//! Text emission that may fail part way.
//!
//! An [`Emission`] is the text written so far together with the failure that
//! stopped the writing, if any. Writing to a stopped emission changes nothing, so
//! the specification of an emitter is one chain of writes in source order.

use vstd::prelude::*;

verus! {

/// The text written so far and what stopped the writing.
pub struct Emission {
    /// The text written so far.
    pub text: Seq<char>,
    /// The message of the failure that stopped the writing.
    pub failure: Option<Seq<char>>,
}

impl Emission {
    /// Nothing has failed.
    pub open spec fn ok(self) -> bool {
        self.failure is None
    }

    /// Writes `s`.
    pub open spec fn put(self, s: Seq<char>) -> Emission {
        if self.ok() {
            Emission { text: self.text + s, failure: None }
        } else {
            self
        }
    }

    /// Stops with the message `message`.
    pub open spec fn fail(self, message: Seq<char>) -> Emission {
        if self.ok() {
            Emission { text: self.text, failure: Some(message) }
        } else {
            self
        }
    }

    /// Writes what was rendered, or stops with the reason why it was not.
    pub open spec fn put_rendered(self, rendered: Result<Seq<char>, Seq<char>>) -> Emission {
        match rendered {
            Ok(s) => self.put(s),
            Err(message) => self.fail(message),
        }
    }
}

/// An emission that goes on after `text`.
pub open spec fn after(text: Seq<char>) -> Emission {
    Emission { text, failure: None }
}

/// The emission that an emitter leaves behind: its buffer and its result.
pub open spec fn outcome(text: Seq<char>, result: Result<(), String>) -> Emission {
    Emission {
        text,
        failure: match result {
            Ok(_) => None,
            Err(message) => Some(message@),
        },
    }
}

/// A rendering with its texts viewed.
pub open spec fn rendered(result: Result<String, String>) -> Result<Seq<char>, Seq<char>> {
    match result {
        Ok(s) => Ok(s@),
        Err(message) => Err(message@),
    }
}

/// Appends what was rendered, or fails with the reason why it was not.
pub fn put_rendered(out: &mut String, result: &Result<String, String>) -> (r: Result<(), String>)
    ensures
        outcome(final(out)@, r) == after(old(out)@).put_rendered(rendered(*result)),
{
    match result {
        Ok(s) => {
            out.append(s.as_str());
            Ok(())
        },
        Err(message) => Err(message.clone()),
    }
}

}
