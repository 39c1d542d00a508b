//! The operators `+` and `+=` of the ASCII string: concatenation with another
//! string, with text, with a character and with a byte.
//!
//! Text and characters must be made of mapped characters; a byte or another
//! string can always be appended.

use std::ops::{Add, AddAssign};
use vstd::prelude::*;
use vstd::std_specs::ops::AddSpecImpl;
use crate::ascii_string::{all_mapped, bytes_of, AsciiString};
use crate::ascii_translators::{char_to_ord, is_mapped};

verus! {

impl Add<AsciiString> for AsciiString {
    type Output = Self;

    /// Concatenates two `AsciiString`s.
    fn add(self, rhs: AsciiString) -> (sum: Self)
        ensures
            sum@ == self@ + rhs@,
    {
        let mut sum = self;
        sum.push_ascii_string(&rhs);
        sum
    }
}

impl AddSpecImpl<AsciiString> for AsciiString {
    /// What `add` gives is stated by `add` itself, over the views.
    open spec fn obeys_add_spec() -> bool {
        false
    }

    /// The right-hand sides that can be appended.
    open spec fn add_req(self, rhs: AsciiString) -> bool {
        true
    }

    open spec fn add_spec(self, rhs: AsciiString) -> Self {
        arbitrary()
    }
}

impl Add<&AsciiString> for AsciiString {
    type Output = Self;

    /// Concatenates two `AsciiString`s.
    fn add(self, rhs: &AsciiString) -> (sum: Self)
        ensures
            sum@ == self@ + rhs@,
    {
        let mut sum = self;
        sum.push_ascii_string(rhs);
        sum
    }
}

impl AddSpecImpl<&AsciiString> for AsciiString {
    /// What `add` gives is stated by `add` itself, over the views.
    open spec fn obeys_add_spec() -> bool {
        false
    }

    /// The right-hand sides that can be appended.
    open spec fn add_req(self, rhs: &AsciiString) -> bool {
        true
    }

    open spec fn add_spec(self, rhs: &AsciiString) -> Self {
        arbitrary()
    }
}

impl Add<String> for AsciiString {
    type Output = Self;

    /// Concatenates an `AsciiString` and a `String`.
    fn add(self, rhs: String) -> (sum: Self)
        ensures
            sum@ == self@ + bytes_of(rhs@),
    {
        let mut sum = self;
        sum.push_str(rhs.as_str());
        sum
    }
}

impl AddSpecImpl<String> for AsciiString {
    /// What `add` gives is stated by `add` itself, over the views.
    open spec fn obeys_add_spec() -> bool {
        false
    }

    /// The right-hand sides that can be appended.
    open spec fn add_req(self, rhs: String) -> bool {
        all_mapped(rhs@)
    }

    open spec fn add_spec(self, rhs: String) -> Self {
        arbitrary()
    }
}

impl Add<&String> for AsciiString {
    type Output = Self;

    /// Concatenates an `AsciiString` and a `&String`.
    fn add(self, rhs: &String) -> (sum: Self)
        ensures
            sum@ == self@ + bytes_of(rhs@),
    {
        let mut sum = self;
        sum.push_str(rhs.as_str());
        sum
    }
}

impl AddSpecImpl<&String> for AsciiString {
    /// What `add` gives is stated by `add` itself, over the views.
    open spec fn obeys_add_spec() -> bool {
        false
    }

    /// The right-hand sides that can be appended.
    open spec fn add_req(self, rhs: &String) -> bool {
        all_mapped(rhs@)
    }

    open spec fn add_spec(self, rhs: &String) -> Self {
        arbitrary()
    }
}

impl Add<&str> for AsciiString {
    type Output = Self;

    /// Concatenates an `AsciiString` and a `&str`.
    fn add(self, rhs: &str) -> (sum: Self)
        ensures
            sum@ == self@ + bytes_of(rhs@),
    {
        let mut sum = self;
        sum.push_str(rhs);
        sum
    }
}

impl AddSpecImpl<&str> for AsciiString {
    /// What `add` gives is stated by `add` itself, over the views.
    open spec fn obeys_add_spec() -> bool {
        false
    }

    /// The right-hand sides that can be appended.
    open spec fn add_req(self, rhs: &str) -> bool {
        all_mapped(rhs@)
    }

    open spec fn add_spec(self, rhs: &str) -> Self {
        arbitrary()
    }
}

impl Add<char> for AsciiString {
    type Output = Self;

    /// Concatenates an `AsciiString` and a `char`.
    fn add(self, rhs: char) -> (sum: Self)
        ensures
            sum@ == self@.push(char_to_ord(rhs)->0),
    {
        let mut sum = self;
        sum.push_char(rhs);
        sum
    }
}

impl AddSpecImpl<char> for AsciiString {
    /// What `add` gives is stated by `add` itself, over the views.
    open spec fn obeys_add_spec() -> bool {
        false
    }

    /// The right-hand sides that can be appended.
    open spec fn add_req(self, rhs: char) -> bool {
        is_mapped(rhs)
    }

    open spec fn add_spec(self, rhs: char) -> Self {
        arbitrary()
    }
}

impl Add<&char> for AsciiString {
    type Output = Self;

    /// Concatenates an `AsciiString` and a `&char`.
    fn add(self, rhs: &char) -> (sum: Self)
        ensures
            sum@ == self@.push(char_to_ord(*rhs)->0),
    {
        let mut sum = self;
        sum.push_char(*rhs);
        sum
    }
}

impl AddSpecImpl<&char> for AsciiString {
    /// What `add` gives is stated by `add` itself, over the views.
    open spec fn obeys_add_spec() -> bool {
        false
    }

    /// The right-hand sides that can be appended.
    open spec fn add_req(self, rhs: &char) -> bool {
        is_mapped(*rhs)
    }

    open spec fn add_spec(self, rhs: &char) -> Self {
        arbitrary()
    }
}

impl AddAssign<AsciiString> for AsciiString {
    /// Appends an `AsciiString`.
    fn add_assign(&mut self, rhs: AsciiString)
        ensures
            final(self)@ == old(self)@ + rhs@,
    {
        self.push_ascii_string(&rhs);
    }
}

impl AddAssign<&AsciiString> for AsciiString {
    /// Appends an `AsciiString`.
    fn add_assign(&mut self, rhs: &AsciiString)
        ensures
            final(self)@ == old(self)@ + rhs@,
    {
        self.push_ascii_string(rhs);
    }
}

impl AddAssign<&str> for AsciiString {
    /// Appends a `&str`.
    fn add_assign(&mut self, rhs: &str)
        requires
            all_mapped(rhs@),
        ensures
            final(self)@ == old(self)@ + bytes_of(rhs@),
    {
        self.push_str(rhs);
    }
}

impl AddAssign<String> for AsciiString {
    /// Appends a `String`.
    fn add_assign(&mut self, rhs: String)
        requires
            all_mapped(rhs@),
        ensures
            final(self)@ == old(self)@ + bytes_of(rhs@),
    {
        self.push_str(rhs.as_str());
    }
}

impl AddAssign<char> for AsciiString {
    /// Appends a `char`.
    fn add_assign(&mut self, rhs: char)
        requires
            is_mapped(rhs),
        ensures
            final(self)@ == old(self)@.push(char_to_ord(rhs)->0),
    {
        self.push_char(rhs);
    }
}

impl AddAssign<&char> for AsciiString {
    /// Appends a `&char`.
    fn add_assign(&mut self, rhs: &char)
        requires
            is_mapped(*rhs),
        ensures
            final(self)@ == old(self)@.push(char_to_ord(*rhs)->0),
    {
        self.push_char(*rhs);
    }
}

impl AddAssign<u8> for AsciiString {
    /// Appends a byte.
    fn add_assign(&mut self, rhs: u8)
        ensures
            final(self)@ == old(self)@.push(rhs),
    {
        self.push(rhs);
    }
}

} // verus!
