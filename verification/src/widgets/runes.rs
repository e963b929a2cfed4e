//! The widget that adds a fixed amount of runes.

use vstd::prelude::*;
use vstd::string::StringExecFns;
use crate::memedit::PointerChain;
use crate::memory::Memory;
use crate::text::{decimal, push_decimal};
use crate::util::KeyState;

verus! {

/// Adds `amount` runes to those that the player holds, on the press of a
/// button or of the hotkey.
#[derive(Debug)]
pub struct Runes {
    pub label: String,
    pub ptr: PointerChain<u32>,
    pub hotkey: KeyState,
    pub amount: u32,
}

impl Runes {
    /// The text on the widget's button.
    pub open spec fn label_text(amount: u32, key: Seq<char>) -> Seq<char> {
        "Add "@ + decimal(amount as nat) + " Runes ("@ + key + ")"@
    }

    /// The widget that adds `amount` runes through `ptr`, labelled with the
    /// amount and the name of the hotkey.
    pub fn new(amount: u32, ptr: PointerChain<u32>, hotkey: KeyState) -> (runes: Runes)
        ensures
            runes.label@ == Runes::label_text(amount, hotkey.name@),
            runes.ptr@ == ptr@,
            runes.hotkey@ == hotkey@,
            runes.amount == amount,
    {
        let mut label = String::new();
        label.append("Add ");
        push_decimal(&mut label, amount as u64);
        label.append(" Runes (");
        label.append(hotkey.name.as_str());
        label.append(")");
        Runes { label, ptr, hotkey, amount }
    }

    /// The count that `add` writes when the player holds `runes`.
    pub fn total(&self, runes: u32) -> (total: u32)
        requires
            runes + self.amount <= u32::MAX,
        ensures
            total == runes + self.amount,
    {
        runes + self.amount
    }

    /// Adds the amount to the runes that the player holds and gives the new
    /// count. Where the count cannot be read, nothing is written and the
    /// result is `None`.
    pub fn add(&self, memory: &mut Memory) -> (total: Option<u32>)
        requires
            self.ptr@.read::<u32>(old(memory)@) matches Some(runes) ==> runes + self.amount
                <= u32::MAX,
        ensures
            match self.ptr@.read::<u32>(old(memory)@) {
                Some(runes) => total == Some((runes + self.amount) as u32) && Some(final(memory)@)
                    == self.ptr@.write(old(memory)@, (runes + self.amount) as u32),
                None => total == None::<u32> && final(memory)@ == old(memory)@,
            },
    {
        match self.ptr.read(memory) {
            Some(runes) => {
                let total = self.total(runes);
                self.ptr.write(memory, total);
                Some(total)
            },
            None => None,
        }
    }
}

} // verus!
