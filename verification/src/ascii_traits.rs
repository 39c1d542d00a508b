//! The conversions between ordinals and characters, as capabilities of the
//! byte-like and character-like types.

use std::fmt::Display;
use vstd::prelude::*;
use vstd::string::{to_string_from_display_ensures, StringExecFns};
use crate::ascii_translators::{
    ascii_ord_ref_to_char, ascii_ord_to_char, char_ref_to_ascii_ord, char_to_ascii_ord,
    char_to_ord, ord_to_char,
};

verus! {

/// Whether `msg` is the text that reports `value` as having no ordinal: the
/// words `Character`, then the value as its `Display` shows it, then
/// `is not ASCII`.
pub open spec fn is_not_ascii_message<T: Display + ?Sized>(value: &T, msg: Seq<char>) -> bool {
    exists|shown: String|
        {
            &&& #[trigger] to_string_from_display_ensures::<T>(value, shown)
            &&& msg == "Character "@ + shown@ + " is not ASCII"@
        }
}

pub trait AsciiOrdToChar {
    /// The character that the ordinal stands for.
    spec fn char_spec(&self) -> char;

    /// Returns the character represented by the ASCII ordinal value.
    fn to_ascii_char(&self) -> (c: char)
        ensures
            c == self.char_spec(),
    ;
}

impl AsciiOrdToChar for u8 {
    open spec fn char_spec(&self) -> char {
        ord_to_char(*self)
    }

    fn to_ascii_char(&self) -> (c: char) {
        ascii_ord_to_char(*self)
    }
}

impl AsciiOrdToChar for &u8 {
    open spec fn char_spec(&self) -> char {
        ord_to_char(**self)
    }

    fn to_ascii_char(&self) -> (c: char) {
        ascii_ord_ref_to_char(*self)
    }
}

pub trait CharToAsciiOrd {
    /// The ordinal of the value, where it has one.
    spec fn ord_spec(&self) -> Option<u8>;

    /// Returns the ASCII ordinal value of the character, or `None` if the
    /// character is not ASCII.
    fn ascii_ord(&self) -> (r: Option<u8>)
        ensures
            r == self.ord_spec(),
    ;

    /// Returns the ASCII ordinal value of the character, or a `default`
    /// substitution if the character is not ASCII.
    fn ascii_ord_or(&self, default: u8) -> (r: u8)
        ensures
            r == (match self.ord_spec() {
                Some(o) => o,
                None => default,
            }),
    {
        match self.ascii_ord() {
            Some(o) => o,
            None => default,
        }
    }

    /// Returns the ASCII ordinal value of a value that is known to have one.
    fn ascii_ord_unchecked(&self) -> (r: u8)
        requires
            self.ord_spec() is Some,
        ensures
            Some(r) == self.ord_spec(),
    {
        self.ascii_ord().unwrap()
    }

    /// Returns the ASCII ordinal value of a character, or the text that
    /// reports it as not ASCII.
    fn try_ascii_ord(&self) -> (r: Result<u8, String>) where Self: Display
        ensures
            match self.ord_spec() {
                Some(o) => r == Ok::<u8, String>(o),
                None => r is Err && is_not_ascii_message(self, r->Err_0@),
            },
    {
        match self.ascii_ord() {
            Some(o) => Ok(o),
            None => {
                let shown = self.to_string();
                let mut msg = String::from_str("Character ");
                msg.append(shown.as_str());
                msg.append(" is not ASCII");
                Err(msg)
            },
        }
    }
}

impl CharToAsciiOrd for char {
    open spec fn ord_spec(&self) -> Option<u8> {
        char_to_ord(*self)
    }

    fn ascii_ord(&self) -> (r: Option<u8>) {
        char_to_ascii_ord(*self)
    }
}

impl CharToAsciiOrd for &char {
    open spec fn ord_spec(&self) -> Option<u8> {
        char_to_ord(**self)
    }

    fn ascii_ord(&self) -> (r: Option<u8>) {
        char_ref_to_ascii_ord(*self)
    }
}

impl CharToAsciiOrd for u8 {
    open spec fn ord_spec(&self) -> Option<u8> {
        Some(*self)
    }

    fn ascii_ord(&self) -> (r: Option<u8>) {
        Some(*self)
    }
}

} // verus!
