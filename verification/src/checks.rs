//! Checks on what a call into the window system returned, for calls that
//! report failure by a null value or by a particular value.

use vstd::prelude::*;

use crate::window::Window;

verus! {

/// A value that a call returns, with one value among them that stands for
/// "nothing".
pub trait ReturnValue: Sized + Copy {
    /// The value that stands for nothing.
    spec fn null_value() -> Self;

    /// Whether this is the value that stands for nothing.
    fn is_null(self) -> (null: bool)
        ensures
            null == (self == Self::null_value()),
    ;
}

impl ReturnValue for u16 {
    open spec fn null_value() -> u16 {
        0
    }

    fn is_null(self) -> (null: bool) {
        self == 0
    }
}

impl ReturnValue for u32 {
    open spec fn null_value() -> u32 {
        0
    }

    fn is_null(self) -> (null: bool) {
        self == 0
    }
}

impl ReturnValue for i32 {
    open spec fn null_value() -> i32 {
        0
    }

    fn is_null(self) -> (null: bool) {
        self == 0
    }
}

impl ReturnValue for isize {
    open spec fn null_value() -> isize {
        0
    }

    fn is_null(self) -> (null: bool) {
        self == 0
    }
}

impl ReturnValue for Window {
    open spec fn null_value() -> Window {
        Window(0)
    }

    fn is_null(self) -> (null: bool) {
        self.0 == 0
    }
}

/// The value, or the error that `error_gen` makes if the value is null.
pub fn if_null_to_error<T: ReturnValue, E, F: FnOnce() -> E>(value: T, error_gen: F) -> (result:
    Result<T, E>)
    requires
        error_gen.requires(()),
    ensures
        match result {
            Ok(v) => v == value && value != T::null_value(),
            Err(e) => value == T::null_value() && error_gen.ensures((), e),
        },
{
    if !value.is_null() {
        Ok(value)
    } else {
        Err(error_gen())
    }
}

/// The value, which the caller knows not to be null.
pub fn if_null_panic<T: ReturnValue>(value: T) -> (same: T)
    requires
        value != T::null_value(),
    ensures
        same == value,
{
    value
}

/// Nothing if the value is null, else the error that `error_gen` makes.
pub fn if_non_null_to_error<T: ReturnValue, E, F: FnOnce() -> E>(value: T, error_gen: F) -> (result:
    Result<(), E>)
    requires
        error_gen.requires(()),
    ensures
        match result {
            Ok(_) => value == T::null_value(),
            Err(e) => value != T::null_value() && error_gen.ensures((), e),
        },
{
    if value.is_null() {
        Ok(())
    } else {
        Err(error_gen())
    }
}

/// Nothing if the value differs from `should_not_equal`, else the error
/// that `error_gen` makes.
pub fn if_eq_to_error<E, F: FnOnce() -> E>(value: i32, should_not_equal: i32, error_gen: F) -> (result:
    Result<(), E>)
    requires
        error_gen.requires(()),
    ensures
        match result {
            Ok(_) => value != should_not_equal,
            Err(e) => value == should_not_equal && error_gen.ensures((), e),
        },
{
    if should_not_equal != value {
        Ok(())
    } else {
        Err(error_gen())
    }
}

/// Nothing if the value equals `must_equal`, else the error that
/// `error_gen` makes.
pub fn if_not_eq_to_error<E, F: FnOnce() -> E>(value: i32, must_equal: i32, error_gen: F) -> (result:
    Result<(), E>)
    requires
        error_gen.requires(()),
    ensures
        match result {
            Ok(_) => value == must_equal,
            Err(e) => value != must_equal && error_gen.ensures((), e),
        },
{
    if must_equal == value {
        Ok(())
    } else {
        Err(error_gen())
    }
}

} // verus!
