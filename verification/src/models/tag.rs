//! Tags: the virtual desktops that windows belong to.

use crate::layouts::Layouts;
use vstd::prelude::*;
use vstd::string::StringExecFns;

verus! {

/// The number of a tag. Tags are numbered from 1.
pub type TagId = usize;

/// The character of one decimal digit.
pub open spec fn digit_char(digit: nat) -> char {
    if digit == 0 {
        '0'
    } else if digit == 1 {
        '1'
    } else if digit == 2 {
        '2'
    } else if digit == 3 {
        '3'
    } else if digit == 4 {
        '4'
    } else if digit == 5 {
        '5'
    } else if digit == 6 {
        '6'
    } else if digit == 7 {
        '7'
    } else if digit == 8 {
        '8'
    } else {
        '9'
    }
}

/// A number written in decimal, without leading zeros.
pub open spec fn decimal_digits(n: nat) -> Seq<char>
    decreases n,
{
    if n < 10 {
        seq![digit_char(n)]
    } else {
        decimal_digits(n / 10).push(digit_char(n % 10))
    }
}

fn digit_str(digit: usize) -> (text: &'static str)
    requires
        digit < 10,
    ensures
        text@ == seq![digit_char(digit as nat)],
{
    proof {
        reveal_strlit("0");
        reveal_strlit("1");
        reveal_strlit("2");
        reveal_strlit("3");
        reveal_strlit("4");
        reveal_strlit("5");
        reveal_strlit("6");
        reveal_strlit("7");
        reveal_strlit("8");
        reveal_strlit("9");
    }
    let text: &'static str = if digit == 0 {
        "0"
    } else if digit == 1 {
        "1"
    } else if digit == 2 {
        "2"
    } else if digit == 3 {
        "3"
    } else if digit == 4 {
        "4"
    } else if digit == 5 {
        "5"
    } else if digit == 6 {
        "6"
    } else if digit == 7 {
        "7"
    } else if digit == 8 {
        "8"
    } else {
        "9"
    };
    assert(text@ =~= seq![digit_char(digit as nat)]);
    text
}

/// Writes a number in decimal.
pub fn decimal_label(n: usize) -> (label: String)
    ensures
        label@ == decimal_digits(n as nat),
    decreases n,
{
    if n < 10 {
        String::from_str(digit_str(n))
    } else {
        let head: String = decimal_label(n / 10);
        let label: String = head.concat(digit_str(n % 10));
        assert(label@ =~= decimal_digits((n / 10) as nat).push(digit_char((n % 10) as nat)));
        label
    }
}

/// A virtual desktop.
#[derive(Debug)]
pub struct Tag {
    pub id: TagId,
    pub label: String,
    pub hidden: bool,
    pub layout: Layouts,
}

impl Tag {
    /// A tag that is not hidden.
    pub fn new(id: TagId, label: &str, layout: Layouts) -> (tag: Tag)
        ensures
            tag.id == id,
            tag.label@ == label@,
            !tag.hidden,
            tag.layout == layout,
    {
        Tag { id, label: String::from_str(label), hidden: false, layout }
    }
}

impl Clone for Tag {
    fn clone(&self) -> (tag: Tag)
        ensures
            tag == *self,
    {
        Tag {
            id: self.id,
            label: self.label.clone(),
            hidden: self.hidden,
            layout: self.layout,
        }
    }
}

} // verus!
