//! Trait sugar over the selector: find or attach a postposition on any
//! token-like value (strings, characters, integers) by routing the value's
//! string form through the same classification.

use vstd::prelude::*;
use vstd::string::StringExecFns;

use crate::numeral::dec_digits;
use crate::numeral::dec_signed;
use crate::numeral::i64_to_string;
use crate::numeral::u64_to_string;
use crate::spec_attached;
use crate::spec_josa;

verus! {

/// Utility trait to find or attach postpositions.
pub trait Postposition {
    /// The string form of the value, as a character sequence; the
    /// classification works on this form.
    spec fn spec_str(&self) -> Seq<char>;

    /// The equivalent of the free function [`josa`](crate::josa), applied
    /// to the value's string form.
    fn josa<'a>(&self, consonant: &'a str, vowel: &'a str) -> (r: &'a str)
        ensures
            r@ == spec_josa(self.spec_str(), consonant@, vowel@),
    ;

    /// Attaches the appropriate postposition at the end. A value whose
    /// string form is empty or entirely unsupported comes back as that
    /// string form, unchanged.
    fn attached(&self, consonant: &str, vowel: &str) -> (r: String)
        ensures
            r@ == spec_attached(self.spec_str(), consonant@, vowel@),
    ;
}

/// Relies on `char::to_string` (through `Display`): the string form of a
/// character is that single character.
#[verifier::external_body]
fn char_to_string(c: char) -> (s: String)
    ensures
        s@ == seq![c],
{
    c.to_string()
}

impl Postposition for str {
    open spec fn spec_str(&self) -> Seq<char> {
        self@
    }

    fn josa<'a>(&self, consonant: &'a str, vowel: &'a str) -> &'a str {
        crate::josa(self, consonant, vowel)
    }

    fn attached(&self, consonant: &str, vowel: &str) -> String {
        let p = crate::josa(self, consonant, vowel);
        if p.is_empty() {
            self.to_owned()
        } else {
            self.to_owned().concat(p)
        }
    }
}

impl Postposition for char {
    open spec fn spec_str(&self) -> Seq<char> {
        seq![*self]
    }

    fn josa<'a>(&self, consonant: &'a str, vowel: &'a str) -> &'a str {
        let s = char_to_string(*self);
        crate::josa(s.as_str(), consonant, vowel)
    }

    fn attached(&self, consonant: &str, vowel: &str) -> String {
        let s = char_to_string(*self);
        let p = crate::josa(s.as_str(), consonant, vowel);
        if p.is_empty() {
            s
        } else {
            s.concat(p)
        }
    }
}

/// The selected postposition for an unsigned integer's decimal form.
fn josa_u64<'a>(n: u64, consonant: &'a str, vowel: &'a str) -> (r: &'a str)
    ensures
        r@ == spec_josa(dec_digits(n as nat), consonant@, vowel@),
{
    let s = u64_to_string(n);
    crate::josa(s.as_str(), consonant, vowel)
}

/// An unsigned integer's decimal form with its postposition attached.
fn attached_u64(n: u64, consonant: &str, vowel: &str) -> (r: String)
    ensures
        r@ == spec_attached(dec_digits(n as nat), consonant@, vowel@),
{
    let s = u64_to_string(n);
    let p = crate::josa(s.as_str(), consonant, vowel);
    if p.is_empty() {
        s
    } else {
        s.concat(p)
    }
}

/// The selected postposition for a signed integer's decimal form.
fn josa_i64<'a>(n: i64, consonant: &'a str, vowel: &'a str) -> (r: &'a str)
    ensures
        r@ == spec_josa(dec_signed(n as int), consonant@, vowel@),
{
    let s = i64_to_string(n);
    crate::josa(s.as_str(), consonant, vowel)
}

/// A signed integer's decimal form with its postposition attached.
fn attached_i64(n: i64, consonant: &str, vowel: &str) -> (r: String)
    ensures
        r@ == spec_attached(dec_signed(n as int), consonant@, vowel@),
{
    let s = i64_to_string(n);
    let p = crate::josa(s.as_str(), consonant, vowel);
    if p.is_empty() {
        s
    } else {
        s.concat(p)
    }
}

impl Postposition for u8 {
    open spec fn spec_str(&self) -> Seq<char> {
        dec_digits(*self as nat)
    }

    fn josa<'a>(&self, consonant: &'a str, vowel: &'a str) -> &'a str {
        josa_u64(*self as u64, consonant, vowel)
    }

    fn attached(&self, consonant: &str, vowel: &str) -> String {
        attached_u64(*self as u64, consonant, vowel)
    }
}

impl Postposition for u16 {
    open spec fn spec_str(&self) -> Seq<char> {
        dec_digits(*self as nat)
    }

    fn josa<'a>(&self, consonant: &'a str, vowel: &'a str) -> &'a str {
        josa_u64(*self as u64, consonant, vowel)
    }

    fn attached(&self, consonant: &str, vowel: &str) -> String {
        attached_u64(*self as u64, consonant, vowel)
    }
}

impl Postposition for u32 {
    open spec fn spec_str(&self) -> Seq<char> {
        dec_digits(*self as nat)
    }

    fn josa<'a>(&self, consonant: &'a str, vowel: &'a str) -> &'a str {
        josa_u64(*self as u64, consonant, vowel)
    }

    fn attached(&self, consonant: &str, vowel: &str) -> String {
        attached_u64(*self as u64, consonant, vowel)
    }
}

impl Postposition for u64 {
    open spec fn spec_str(&self) -> Seq<char> {
        dec_digits(*self as nat)
    }

    fn josa<'a>(&self, consonant: &'a str, vowel: &'a str) -> &'a str {
        josa_u64(*self, consonant, vowel)
    }

    fn attached(&self, consonant: &str, vowel: &str) -> String {
        attached_u64(*self, consonant, vowel)
    }
}

impl Postposition for usize {
    open spec fn spec_str(&self) -> Seq<char> {
        dec_digits(*self as nat)
    }

    fn josa<'a>(&self, consonant: &'a str, vowel: &'a str) -> &'a str {
        josa_u64(*self as u64, consonant, vowel)
    }

    fn attached(&self, consonant: &str, vowel: &str) -> String {
        attached_u64(*self as u64, consonant, vowel)
    }
}

impl Postposition for i8 {
    open spec fn spec_str(&self) -> Seq<char> {
        dec_signed(*self as int)
    }

    fn josa<'a>(&self, consonant: &'a str, vowel: &'a str) -> &'a str {
        josa_i64(*self as i64, consonant, vowel)
    }

    fn attached(&self, consonant: &str, vowel: &str) -> String {
        attached_i64(*self as i64, consonant, vowel)
    }
}

impl Postposition for i16 {
    open spec fn spec_str(&self) -> Seq<char> {
        dec_signed(*self as int)
    }

    fn josa<'a>(&self, consonant: &'a str, vowel: &'a str) -> &'a str {
        josa_i64(*self as i64, consonant, vowel)
    }

    fn attached(&self, consonant: &str, vowel: &str) -> String {
        attached_i64(*self as i64, consonant, vowel)
    }
}

impl Postposition for i32 {
    open spec fn spec_str(&self) -> Seq<char> {
        dec_signed(*self as int)
    }

    fn josa<'a>(&self, consonant: &'a str, vowel: &'a str) -> &'a str {
        josa_i64(*self as i64, consonant, vowel)
    }

    fn attached(&self, consonant: &str, vowel: &str) -> String {
        attached_i64(*self as i64, consonant, vowel)
    }
}

impl Postposition for i64 {
    open spec fn spec_str(&self) -> Seq<char> {
        dec_signed(*self as int)
    }

    fn josa<'a>(&self, consonant: &'a str, vowel: &'a str) -> &'a str {
        josa_i64(*self, consonant, vowel)
    }

    fn attached(&self, consonant: &str, vowel: &str) -> String {
        attached_i64(*self, consonant, vowel)
    }
}

impl Postposition for isize {
    open spec fn spec_str(&self) -> Seq<char> {
        dec_signed(*self as int)
    }

    fn josa<'a>(&self, consonant: &'a str, vowel: &'a str) -> &'a str {
        josa_i64(*self as i64, consonant, vowel)
    }

    fn attached(&self, consonant: &str, vowel: &str) -> String {
        attached_i64(*self as i64, consonant, vowel)
    }
}

} // verus!
