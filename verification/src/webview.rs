use vstd::prelude::*;

pub mod chrome_backend;
pub mod webview_backend;

verus! {

/// A native window of the host program, known by its address alone. The
/// engine hands such references out and takes them in; nothing here looks
/// behind one.
#[derive(Debug, Clone, Copy, PartialEq, Eq, Structural)]
pub struct Window {
    address: usize,
}

impl Window {
    /// The address that the reference holds.
    pub closed spec fn spec_address(self) -> usize {
        self.address
    }

    /// Wraps the address of a native window.
    pub fn from_address(address: usize) -> (window: Window)
        ensures
            window.spec_address() == address,
    {
        Window { address }
    }

    /// The address of the native window.
    #[verifier::when_used_as_spec(spec_address)]
    pub fn address(self) -> (address: usize)
        ensures
            address == self.spec_address(),
    {
        self.address
    }
}

/// How the width and height given to `set_size` are to be read.
#[allow(non_camel_case_types)]
#[derive(Debug, Clone, Copy, PartialEq, Eq, Structural)]
pub enum SizeHint {
    /// Width and height are the default size; the window resizes freely.
    NONE,
    /// Width and height are the smallest size allowed.
    MIN,
    /// Width and height are the largest size allowed.
    MAX,
    /// The window cannot be resized.
    FIXED,
}

impl SizeHint {
    /// The number that stands for this hint on the engine's side.
    pub open spec fn ordinal(self) -> int {
        match self {
            SizeHint::NONE => 0,
            SizeHint::MIN => 1,
            SizeHint::MAX => 2,
            SizeHint::FIXED => 3,
        }
    }

    /// The hint that a number stands for, if any.
    pub open spec fn of_ordinal(code: int) -> Option<SizeHint> {
        if code == 0 {
            Some(SizeHint::NONE)
        } else if code == 1 {
            Some(SizeHint::MIN)
        } else if code == 2 {
            Some(SizeHint::MAX)
        } else if code == 3 {
            Some(SizeHint::FIXED)
        } else {
            None
        }
    }

    /// Encodes the hint for the engine.
    pub fn code(self) -> (code: i32)
        ensures
            code == self.ordinal(),
    {
        match self {
            SizeHint::NONE => 0,
            SizeHint::MIN => 1,
            SizeHint::MAX => 2,
            SizeHint::FIXED => 3,
        }
    }

    /// Decodes a number that came from the engine's side.
    pub fn from_code(code: i32) -> (hint: Option<SizeHint>)
        ensures
            hint == SizeHint::of_ordinal(code as int),
    {
        if code == 0 {
            Some(SizeHint::NONE)
        } else if code == 1 {
            Some(SizeHint::MIN)
        } else if code == 2 {
            Some(SizeHint::MAX)
        } else if code == 3 {
            Some(SizeHint::FIXED)
        } else {
            None
        }
    }

    /// Encoding loses nothing: every hint is found again from its number,
    /// the numbers are 0 to 3, and no other number stands for a hint.
    pub proof fn lemma_ordinal_round_trip(hint: SizeHint, code: int)
        ensures
            0 <= hint.ordinal() <= 3,
            SizeHint::of_ordinal(hint.ordinal()) == Some(hint),
            SizeHint::of_ordinal(code) is Some <==> 0 <= code <= 3,
            SizeHint::of_ordinal(code) == Some(hint) <==> code == hint.ordinal(),
    {
    }
}

impl Default for SizeHint {
    fn default() -> (hint: SizeHint)
        ensures
            hint == SizeHint::NONE,
    {
        SizeHint::NONE
    }
}

} // verus!
