//! Identifier strings that can be used in LLVM. LLVM works with
//! null-terminated strings, so identifiers must not contain null characters.

use vstd::prelude::*;

verus! {

/// Error type used when an identifier contains null characters.
#[derive(Copy, Clone, Debug, PartialEq, Eq, Structural)]
pub struct Error;

impl Error {
    /// A human-readable description of the error.
    pub fn message(&self) -> (r: String)
        ensures
            r@ == "identifiers must not contain null bytes"@,
    {
        "identifiers must not contain null bytes".to_owned()
    }
}

/// True when the characters can form an LLVM identifier: none is a null
/// character.
pub open spec fn spec_valid_identifier(s: Seq<char>) -> bool {
    forall|i: int| 0 <= i < s.len() ==> s[i] != '\0'
}

/// Checks that a string contains no null character.
pub fn is_valid_identifier(text: &str) -> (r: bool)
    ensures
        r == spec_valid_identifier(text@),
{
    let n = text.unicode_len();
    let mut i: usize = 0;
    while i < n
        invariant
            n == text@.len(),
            i <= n,
            forall|j: int| 0 <= j < i ==> text@[j] != '\0',
        decreases n - i,
    {
        if text.get_char(i) == '\0' {
            return false;
        }
        i = i + 1;
    }
    true
}

/// A borrowed identifier string, known to contain no null characters.
#[derive(Copy, Clone, Debug)]
pub struct Id<'a> {
    text: &'a str,
}

impl<'a> View for Id<'a> {
    type V = Seq<char>;

    closed spec fn view(&self) -> Seq<char> {
        self.text@
    }
}

impl<'a> Id<'a> {
    /// Valid: the identifier contains no null character.
    pub open spec fn wf(&self) -> bool {
        spec_valid_identifier(self@)
    }

    /// Creates a borrowed identifier from a borrowed string, checking that it
    /// contains no null character.
    pub fn try_from(text: &'a str) -> (r: Result<Self, Error>)
        ensures
            r is Ok <==> spec_valid_identifier(text@),
            r matches Ok(id) ==> id@ == text@ && id.wf(),
    {
        if is_valid_identifier(text) {
            Ok(Id { text })
        } else {
            Err(Error)
        }
    }

    /// The text of the identifier.
    pub fn as_str(&self) -> (r: &'a str)
        ensures
            r@ == self@,
    {
        self.text
    }

    /// Copies this identifier into an owned one.
    pub fn to_identifier(&self) -> (r: Identifier)
        requires
            self.wf(),
        ensures
            r@ == self@ && r.wf(),
    {
        Identifier { text: self.text.to_owned() }
    }
}

/// An owned identifier string, known to contain no null characters.
#[derive(Clone, Debug)]
pub struct Identifier {
    text: String,
}

impl View for Identifier {
    type V = Seq<char>;

    closed spec fn view(&self) -> Seq<char> {
        self.text@
    }
}

impl Identifier {
    /// Valid: the identifier contains no null character.
    pub open spec fn wf(&self) -> bool {
        spec_valid_identifier(self@)
    }

    /// Creates a new owned identifier string, checking that it contains no
    /// null character.
    pub fn try_from(text: String) -> (r: Result<Self, Error>)
        ensures
            r is Ok <==> spec_valid_identifier(text@),
            r matches Ok(id) ==> id@ == text@ && id.wf(),
    {
        if is_valid_identifier(text.as_str()) {
            Ok(Identifier { text })
        } else {
            Err(Error)
        }
    }

    /// Borrows the contents of this identifier string.
    pub fn as_id(&self) -> (r: Id<'_>)
        requires
            self.wf(),
        ensures
            r@ == self@ && r.wf(),
    {
        Id { text: self.text.as_str() }
    }

    /// The text of the identifier.
    pub fn as_str(&self) -> (r: &str)
        ensures
            r@ == self@,
    {
        self.text.as_str()
    }
}

impl Default for Identifier {
    /// The empty identifier.
    fn default() -> (r: Self)
        ensures
            r@ == Seq::<char>::empty() && r.wf(),
    {
        let r = Identifier { text: String::new() };
        assert(r@ =~= Seq::<char>::empty());
        r
    }
}

} // verus!
