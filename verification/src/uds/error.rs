use vstd::prelude::*;
use crate::uds::service::Service;

verus! {

/// Errors of the UDS layer.
#[derive(Debug)]
pub enum Iso14229Error {
    InvalidData(String),
    InvalidDataLength { expect: usize, actual: usize },
    SubFunctionError(Service),
    ServiceError(Service),
    ReservedError(u8),
    InvalidParam(String),
    DidNotSupported(u16),
    InvalidDynamicallyDefinedDID(u16),
    InvalidSessionData(String),
    NotImplement,
}

/// The mathematical content of an [`Iso14229Error`].
pub enum Iso14229ErrorView {
    InvalidData(Seq<char>),
    InvalidDataLength { expect: usize, actual: usize },
    SubFunctionError(Service),
    ServiceError(Service),
    ReservedError(u8),
    InvalidParam(Seq<char>),
    DidNotSupported(u16),
    InvalidDynamicallyDefinedDID(u16),
    InvalidSessionData(Seq<char>),
    NotImplement,
}

impl View for Iso14229Error {
    type V = Iso14229ErrorView;

    open spec fn view(&self) -> Iso14229ErrorView {
        match self {
            Iso14229Error::InvalidData(s) => Iso14229ErrorView::InvalidData(s@),
            Iso14229Error::InvalidDataLength { expect, actual } => Iso14229ErrorView::InvalidDataLength {
                expect: *expect,
                actual: *actual,
            },
            Iso14229Error::SubFunctionError(s) => Iso14229ErrorView::SubFunctionError(*s),
            Iso14229Error::ServiceError(s) => Iso14229ErrorView::ServiceError(*s),
            Iso14229Error::ReservedError(v) => Iso14229ErrorView::ReservedError(*v),
            Iso14229Error::InvalidParam(s) => Iso14229ErrorView::InvalidParam(s@),
            Iso14229Error::DidNotSupported(d) => Iso14229ErrorView::DidNotSupported(*d),
            Iso14229Error::InvalidDynamicallyDefinedDID(d) => Iso14229ErrorView::InvalidDynamicallyDefinedDID(*d),
            Iso14229Error::InvalidSessionData(s) => Iso14229ErrorView::InvalidSessionData(s@),
            Iso14229Error::NotImplement => Iso14229ErrorView::NotImplement,
        }
    }
}

/// A fallible unit outcome seen through the error view.
pub open spec fn unit_result_view(r: Result<(), Iso14229Error>) -> Result<(), Iso14229ErrorView> {
    match r {
        Ok(()) => Ok(()),
        Err(e) => Err(e@),
    }
}

} // verus!
