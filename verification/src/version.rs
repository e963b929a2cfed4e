//! The version of a game build.

use vstd::prelude::*;
use vstd::string::StringExecFns;
use crate::text::{decimal, decimal_2, push_decimal, push_decimal_2};

verus! {

/// A build of the game, as the file-version metadata of its executable names
/// it: major, minor, patch.
#[derive(Clone, Copy, Debug, PartialEq, Eq, Structural)]
pub struct Version(pub u32, pub u32, pub u32);

impl Version {
    /// What `to_fromsoft_string` writes: `major.minor.patch`, the minor number in
    /// two digits at least.
    pub open spec fn fromsoft_text(self) -> Seq<char> {
        decimal(self.0 as nat) + seq!['.'] + decimal_2(self.1 as nat) + seq!['.'] + decimal(
            self.2 as nat,
        )
    }

    /// The version held by the two words of a fixed file-info block: major and
    /// minor are the halves of the most significant word, patch is the upper
    /// half of the least significant one.
    pub fn from_file_version(most_significant: u32, least_significant: u32) -> (version: Version)
        ensures
            version.0 == most_significant / 0x1_0000,
            version.1 == most_significant % 0x1_0000,
            version.2 == least_significant / 0x1_0000,
    {
        let major = (most_significant >> 16) & 0xffff;
        let minor = most_significant & 0xffff;
        let patch = (least_significant >> 16) & 0xffff;
        assert(major == most_significant / 0x1_0000) by (bit_vector)
            requires
                major == (most_significant >> 16) & 0xffff,
        ;
        assert(minor == most_significant % 0x1_0000) by (bit_vector)
            requires
                minor == most_significant & 0xffff,
        ;
        assert(patch == least_significant / 0x1_0000) by (bit_vector)
            requires
                patch == (least_significant >> 16) & 0xffff,
        ;
        Version(major, minor, patch)
    }

    /// The version as the publisher writes it, such as `1.03.2`.
    pub fn to_fromsoft_string(&self) -> (text: String)
        ensures
            text@ == self.fromsoft_text(),
    {
        let mut text = String::new();
        push_decimal(&mut text, self.0 as u64);
        text.append(".");
        push_decimal_2(&mut text, self.1 as u64);
        text.append(".");
        push_decimal(&mut text, self.2 as u64);
        proof {
            reveal_strlit(".");
        }
        text
    }
}

} // verus!
