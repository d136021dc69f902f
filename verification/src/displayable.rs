//! Values that can be rendered to human-readable text.

use vstd::prelude::*;

verus! {

/// A value that has exactly one rendering as text.
///
/// The logging operations state what they log in terms of `text`, and call
/// `render` to get it. An implementation owes them a `render` that returns
/// exactly that text, every time.
pub trait Displayable {
    /// The text this value renders to.
    spec fn text(&self) -> Seq<char>;

    /// Renders the value.
    fn render(&self) -> (rendered: String)
        ensures
            rendered@ == self.text(),
    ;
}

/// A string slice renders to itself.

impl Displayable for str {
    open spec fn text(&self) -> Seq<char> {
        self@
    }

    fn render(&self) -> (rendered: String) {
        self.to_owned()
    }
}

/// A reference renders to what it refers to.
impl<'a, D: Displayable + ?Sized> Displayable for &'a D {
    open spec fn text(&self) -> Seq<char> {
        (**self).text()
    }

    fn render(&self) -> (rendered: String) {
        (**self).render()
    }
}

/// A string renders to itself.
impl Displayable for String {
    open spec fn text(&self) -> Seq<char> {
        self@
    }

    fn render(&self) -> (rendered: String) {
        self.clone()
    }
}

/// The ten decimal digits, in order.
pub open spec fn digits() -> Seq<char> {
    seq!['0', '1', '2', '3', '4', '5', '6', '7', '8', '9']
}

/// The decimal numeral of `n`: most significant digit first, no leading
/// zeros, no sign.
pub open spec fn decimal(n: nat) -> Seq<char>
    decreases n,
{
    if n < 10 {
        seq![digits()[n as int]]
    } else {
        decimal(n / 10).push(digits()[(n % 10) as int])
    }
}

/// The one-character numeral of a digit.
fn digit_str(d: u32) -> (s: &'static str)
    requires
        d < 10,
    ensures
        s@ == seq![digits()[d as int]],
{
    proof {
        reveal_strlit("0");
        reveal_strlit("1");
        reveal_strlit("2");
        reveal_strlit("3");
        reveal_strlit("4");
        reveal_strlit("5");
        reveal_strlit("6");
        reveal_strlit("7");
        reveal_strlit("8");
        reveal_strlit("9");
    }
    match d {
        0 => "0",
        1 => "1",
        2 => "2",
        3 => "3",
        4 => "4",
        5 => "5",
        6 => "6",
        7 => "7",
        8 => "8",
        _ => "9",
    }
}

/// A number renders to its decimal numeral.
impl Displayable for u32 {
    open spec fn text(&self) -> Seq<char> {
        decimal(*self as nat)
    }

    fn render(&self) -> (rendered: String)
        decreases *self,
    {
        let n: u32 = *self;
        if n < 10 {
            digit_str(n).to_owned()
        } else {
            let mut rendered = (n / 10).render();
            rendered.append(digit_str(n % 10));
            rendered
        }
    }
}

} // verus!
