//! A small error type for trying the logging operations out.

use vstd::prelude::*;
use crate::displayable::{decimal, Displayable};

verus! {

/// An error that carries a numeric code and nothing else.
#[derive(Debug)]
pub struct TestError(u32);

impl View for TestError {
    type V = u32;

    /// The code the error carries.
    closed spec fn view(&self) -> u32 {
        self.0
    }
}

impl TestError {
    /// An error with the given code.
    pub fn new(code: u32) -> (error: Self)
        ensures
            error@ == code,
    {
        Self(code)
    }

    /// The code the error carries.
    pub fn code(&self) -> (code: u32)
        ensures
            code == self@,
    {
        self.0
    }
}

/// The words that every `TestError` renders to before its code.
pub open spec fn test_error_prefix() -> Seq<char> {
    seq!['T', 'e', 's', 't', 'E', 'r', 'r', 'o', 'r', ':', ' ']
}

/// A `TestError` renders to its name, a colon, a space and its code.
impl Displayable for TestError {
    open spec fn text(&self) -> Seq<char> {
        test_error_prefix() + decimal(self@ as nat)
    }

    fn render(&self) -> (rendered: String) {
        proof {
            reveal_strlit("TestError: ");
        }
        let mut rendered = "TestError: ".to_owned();
        let code = self.0.render();
        rendered.append(code.as_str());
        rendered
    }
}

} // verus!
