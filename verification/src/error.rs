//! Results of calls into the window system, which report failure by a zero
//! or by a handle that names nothing.

use vstd::prelude::*;
use vstd::std_specs::cmp::PartialEqSpec;

use crate::window::Window;

verus! {

/// A call into the window system failed.
#[derive(Debug, Clone, Copy, PartialEq, Eq, Structural)]
pub enum WinError {
    /// It returned this value.
    Code(i32),
    /// It returned a null value.
    Null,
}

/// What a call into the window system gives: a value or the failure.
pub type WinResult<T> = Result<T, WinError>;

/// A call into the window system failed.
#[derive(Debug, Clone, Copy, PartialEq, Eq, Structural)]
pub enum WinApiError {
    /// It returned this value.
    Code(i32),
    /// It returned a null value.
    Null,
}

/// What a call into the window system gives: a value or the failure.
pub type WinApiResult<T> = Result<T, WinApiError>;

/// Numbers that a call returns, where zero stands for failure.
pub trait CTypeExt: Sized {
    /// Whether the number is the one that stands for failure.
    spec fn is_zero(&self) -> bool;

    /// The number itself, or the error if it is zero.
    fn as_result(self) -> (result: WinApiResult<Self>)
        ensures
            result == if self.is_zero() {
                Err::<Self, WinApiError>(WinApiError::Null)
            } else {
                Ok::<Self, WinApiError>(self)
            },
    ;
}

/// Handles that a call returns, where the null handle stands for failure.
pub trait PtrExt: Sized {
    /// Whether the handle names nothing.
    spec fn is_nothing(&self) -> bool;

    /// The handle itself, or the error if it names nothing.
    fn as_result(self) -> (result: WinApiResult<Self>)
        ensures
            result == if self.is_nothing() {
                Err::<Self, WinApiError>(WinApiError::Null)
            } else {
                Ok::<Self, WinApiError>(self)
            },
    ;
}

impl CTypeExt for i32 {
    open spec fn is_zero(&self) -> bool {
        *self == 0
    }

    fn as_result(self) -> (result: WinApiResult<i32>) {
        if self != 0 {
            Ok(self)
        } else {
            Err(WinApiError::Null)
        }
    }
}

impl CTypeExt for u16 {
    open spec fn is_zero(&self) -> bool {
        *self == 0
    }

    fn as_result(self) -> (result: WinApiResult<u16>) {
        if self != 0 {
            Ok(self)
        } else {
            Err(WinApiError::Null)
        }
    }
}

impl PtrExt for Window {
    open spec fn is_nothing(&self) -> bool {
        self.0 == 0
    }

    fn as_result(self) -> (result: WinApiResult<Window>) {
        if !self.is_null() {
            Ok(self)
        } else {
            Err(WinApiError::Null)
        }
    }
}

/// The handle itself, or the error if it names nothing.
pub fn winapi_ptr_to_result(input: Window) -> (result: WinResult<Window>)
    ensures
        result == if input.0 == 0 {
            Err::<Window, WinError>(WinError::Null)
        } else {
            Ok::<Window, WinError>(input)
        },
{
    if !input.is_null() {
        Ok(input)
    } else {
        Err(WinError::Null)
    }
}

/// The value itself, or the error if it equals zero.
pub fn winapi_nullable_to_result<T>(input: T) -> (result: WinResult<T>) where T: PartialEq<i32>
    ensures
        match result {
            Ok(value) => value == input,
            Err(e) => e == WinError::Null,
        },
        T::obeys_eq_spec() ==> (result is Err <==> input.eq_spec(&0)),
{
    if input != 0 {
        Ok(input)
    } else {
        Err(WinError::Null)
    }
}

} // verus!
