//! The failures of a dialog invocation.
use vstd::prelude::*;

verus! {

/// Why a dialog invocation failed.
#[derive(Debug, PartialEq, Eq)]
pub enum NFDError {
    /// An input string held an embedded terminator byte and has no native
    /// form. Carries the position of the first such byte in the string's
    /// UTF-8 bytes. No native call was made.
    NulError(usize),
    /// The native library reported a failure. Carries the message that the
    /// library gave for it at that moment.
    Error(String),
}

/// The mathematical value of an [`NFDError`].
pub enum ErrorView {
    NulError(nat),
    Error(Seq<char>),
}

impl View for NFDError {
    type V = ErrorView;

    open spec fn view(&self) -> ErrorView {
        match self {
            NFDError::NulError(position) => ErrorView::NulError(*position as nat),
            NFDError::Error(message) => ErrorView::Error(message@),
        }
    }
}

/// The decimal digit of `value`, which is below ten.
pub open spec fn digit(value: nat) -> char {
    (('0' as u8) + value) as u8 as char
}

/// `value` in decimal, without leading zeros.
pub open spec fn decimal(value: nat) -> Seq<char>
    decreases value,
{
    if value < 10 {
        seq![digit(value)]
    } else {
        decimal(value / 10).push(digit(value % 10))
    }
}

impl ErrorView {
    /// The human-readable message of the failure: the native library's own
    /// words for a native failure, and for an encoding failure a sentence
    /// that ends in the position of the terminator byte.
    pub open spec fn message(self) -> Seq<char> {
        match self {
            ErrorView::NulError(position) => "nul byte found in provided data at position: "@
                + decimal(position),
            ErrorView::Error(message) => message,
        }
    }
}

/// The text of one decimal digit.
fn digit_text(value: usize) -> (text: &'static str)
    requires
        value < 10,
    ensures
        text@ == seq![digit(value as nat)],
{
    proof {
        reveal_strlit("0");
        reveal_strlit("1");
        reveal_strlit("2");
        reveal_strlit("3");
        reveal_strlit("4");
        reveal_strlit("5");
        reveal_strlit("6");
        reveal_strlit("7");
        reveal_strlit("8");
        reveal_strlit("9");
    }
    let text = if value == 0 {
        "0"
    } else if value == 1 {
        "1"
    } else if value == 2 {
        "2"
    } else if value == 3 {
        "3"
    } else if value == 4 {
        "4"
    } else if value == 5 {
        "5"
    } else if value == 6 {
        "6"
    } else if value == 7 {
        "7"
    } else if value == 8 {
        "8"
    } else {
        "9"
    };
    assert(text@ =~= seq![digit(value as nat)]);
    text
}

/// Appends `value` in decimal to `text`.
fn append_decimal(text: &mut String, value: usize)
    ensures
        final(text)@ == old(text)@ + decimal(value as nat),
    decreases value,
{
    if value >= 10 {
        append_decimal(text, value / 10);
    }
    text.append(digit_text(value % 10));
    proof {
        let before = old(text)@;
        if value >= 10 {
            let head = decimal((value / 10) as nat);
            let last = seq![digit((value % 10) as nat)];
            assert((before + head) + last =~= before + head.push(digit((value % 10) as nat)));
        }
    }
}

impl NFDError {
    /// The human-readable message of the failure.
    pub fn message(&self) -> (message: String)
        ensures
            message@ == self@.message(),
    {
        match self {
            NFDError::NulError(position) => {
                let mut message = String::from_str("nul byte found in provided data at position: ");
                append_decimal(&mut message, *position);
                message
            },
            NFDError::Error(message) => message.clone(),
        }
    }
}

} // verus!
