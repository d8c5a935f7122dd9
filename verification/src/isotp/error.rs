use vstd::prelude::*;

verus! {

/// Errors of the ISO 15765-2 layer.
#[derive(Debug)]
pub enum IsoTpError {
    EmptyPdu,
    InvalidPdu(Vec<u8>),
    InvalidParam(String),
    InvalidStMin(u8),
    LengthOutOfRange(usize),
    MixFramesError,
    InvalidSequence { expect: u8, actual: u8 },
    DeviceError,
    Timeout { value: u64, unit: &'static str },
    OverloadFlow,
}

/// A decimal digit.
pub open spec fn digit_char(d: u8) -> char {
    (48 + d) as char
}

/// The decimal text of a byte, as `{}` formats it.
pub open spec fn decimal_text(v: u8) -> Seq<char> {
    if v < 10 {
        seq![digit_char(v)]
    } else if v < 100 {
        seq![digit_char(v / 10), digit_char(v % 10)]
    } else {
        seq![digit_char(v / 100), digit_char((v / 10) % 10), digit_char(v % 10)]
    }
}

/// The text of one decimal digit.
fn digit_str(d: u8) -> (r: &'static str)
    requires
        d < 10,
    ensures
        r@ == seq![digit_char(d)],
{
    match d {
        0 => {
            proof { reveal_strlit("0"); }
            "0"
        },
        1 => {
            proof { reveal_strlit("1"); }
            "1"
        },
        2 => {
            proof { reveal_strlit("2"); }
            "2"
        },
        3 => {
            proof { reveal_strlit("3"); }
            "3"
        },
        4 => {
            proof { reveal_strlit("4"); }
            "4"
        },
        5 => {
            proof { reveal_strlit("5"); }
            "5"
        },
        6 => {
            proof { reveal_strlit("6"); }
            "6"
        },
        7 => {
            proof { reveal_strlit("7"); }
            "7"
        },
        8 => {
            proof { reveal_strlit("8"); }
            "8"
        },
        _ => {
            proof { reveal_strlit("9"); }
            "9"
        },
    }
}

/// Writes a byte in decimal, without leading zeros.
pub(crate) fn decimal_string(v: u8) -> (r: String)
    ensures
        r@ == decimal_text(v),
{
    let mut out = String::new();
    if v >= 100 {
        out.append(digit_str(v / 100));
    }
    if v >= 10 {
        out.append(digit_str((v / 10) % 10));
    }
    out.append(digit_str(v % 10));
    proof {
        if v < 10 {
            assert(out@ =~= decimal_text(v));
        } else if v < 100 {
            assert(out@ =~= decimal_text(v));
        } else {
            assert(out@ =~= decimal_text(v));
        }
    }
    out
}

/// The mathematical content of an [`IsoTpError`].
pub enum IsoTpErrorView {
    EmptyPdu,
    InvalidPdu(Seq<u8>),
    InvalidParam(Seq<char>),
    InvalidStMin(u8),
    LengthOutOfRange(usize),
    MixFramesError,
    InvalidSequence { expect: u8, actual: u8 },
    DeviceError,
    Timeout { value: u64, unit: Seq<char> },
    OverloadFlow,
}

impl View for IsoTpError {
    type V = IsoTpErrorView;

    open spec fn view(&self) -> IsoTpErrorView {
        match self {
            IsoTpError::EmptyPdu => IsoTpErrorView::EmptyPdu,
            IsoTpError::InvalidPdu(v) => IsoTpErrorView::InvalidPdu(v@),
            IsoTpError::InvalidParam(s) => IsoTpErrorView::InvalidParam(s@),
            IsoTpError::InvalidStMin(v) => IsoTpErrorView::InvalidStMin(*v),
            IsoTpError::LengthOutOfRange(v) => IsoTpErrorView::LengthOutOfRange(*v),
            IsoTpError::MixFramesError => IsoTpErrorView::MixFramesError,
            IsoTpError::InvalidSequence { expect, actual } => IsoTpErrorView::InvalidSequence {
                expect: *expect,
                actual: *actual,
            },
            IsoTpError::DeviceError => IsoTpErrorView::DeviceError,
            IsoTpError::Timeout { value, unit } => IsoTpErrorView::Timeout { value: *value, unit: unit@ },
            IsoTpError::OverloadFlow => IsoTpErrorView::OverloadFlow,
        }
    }
}

impl Clone for IsoTpError {
    fn clone(&self) -> (r: IsoTpError)
        ensures
            r@ == self@,
    {
        match self {
            IsoTpError::EmptyPdu => IsoTpError::EmptyPdu,
            IsoTpError::InvalidPdu(v) => IsoTpError::InvalidPdu(v.clone()),
            IsoTpError::InvalidParam(s) => IsoTpError::InvalidParam(s.clone()),
            IsoTpError::InvalidStMin(v) => IsoTpError::InvalidStMin(*v),
            IsoTpError::LengthOutOfRange(v) => IsoTpError::LengthOutOfRange(*v),
            IsoTpError::MixFramesError => IsoTpError::MixFramesError,
            IsoTpError::InvalidSequence { expect, actual } => IsoTpError::InvalidSequence {
                expect: *expect,
                actual: *actual,
            },
            IsoTpError::DeviceError => IsoTpError::DeviceError,
            IsoTpError::Timeout { value, unit } => IsoTpError::Timeout { value: *value, unit: *unit },
            IsoTpError::OverloadFlow => IsoTpError::OverloadFlow,
        }
    }
}

} // verus!
