//! Lane mask types of the portable packed vectors.
//!
//! A mask lane is either all ones (`true`) or all zeros (`false`), stored in
//! an integer as wide as the lanes it masks.
#![allow(non_camel_case_types)]

use vstd::prelude::*;

verus! {

/// 1-bit wide mask
#[derive(Clone, Copy, Debug, PartialEq, Eq, Structural)]
pub struct m1(i64);

impl View for m1 {
    type V = bool;

    closed spec fn view(&self) -> bool {
        self.0 != 0
    }
}

impl m1 {
    /// The mask lane of `b`: all ones where `b`, all zeros otherwise.
    pub fn new(b: bool) -> (r: m1)
        ensures
            r@ == b,
    {
        if b {
            m1(-1)
        } else {
            m1(0)
        }
    }

    /// Whether the lane is set.
    pub fn test(self) -> (r: bool)
        ensures
            r == self@,
    {
        self.0 != 0
    }
}

/// 8-bit wide mask
#[derive(Clone, Copy, Debug, PartialEq, Eq, Structural)]
pub struct m8(i8);

impl View for m8 {
    type V = bool;

    closed spec fn view(&self) -> bool {
        self.0 != 0
    }
}

impl m8 {
    /// The mask lane of `b`: all ones where `b`, all zeros otherwise.
    pub fn new(b: bool) -> (r: m8)
        ensures
            r@ == b,
    {
        if b {
            m8(-1)
        } else {
            m8(0)
        }
    }

    /// Whether the lane is set.
    pub fn test(self) -> (r: bool)
        ensures
            r == self@,
    {
        self.0 != 0
    }
}

/// 16-bit wide mask
#[derive(Clone, Copy, Debug, PartialEq, Eq, Structural)]
pub struct m16(i16);

impl View for m16 {
    type V = bool;

    closed spec fn view(&self) -> bool {
        self.0 != 0
    }
}

impl m16 {
    /// The mask lane of `b`: all ones where `b`, all zeros otherwise.
    pub fn new(b: bool) -> (r: m16)
        ensures
            r@ == b,
    {
        if b {
            m16(-1)
        } else {
            m16(0)
        }
    }

    /// Whether the lane is set.
    pub fn test(self) -> (r: bool)
        ensures
            r == self@,
    {
        self.0 != 0
    }
}

/// 32-bit wide mask
#[derive(Clone, Copy, Debug, PartialEq, Eq, Structural)]
pub struct m32(i32);

impl View for m32 {
    type V = bool;

    closed spec fn view(&self) -> bool {
        self.0 != 0
    }
}

impl m32 {
    /// The mask lane of `b`: all ones where `b`, all zeros otherwise.
    pub fn new(b: bool) -> (r: m32)
        ensures
            r@ == b,
    {
        if b {
            m32(-1)
        } else {
            m32(0)
        }
    }

    /// Whether the lane is set.
    pub fn test(self) -> (r: bool)
        ensures
            r == self@,
    {
        self.0 != 0
    }
}

/// 64-bit wide mask
#[derive(Clone, Copy, Debug, PartialEq, Eq, Structural)]
pub struct m64(i64);

impl View for m64 {
    type V = bool;

    closed spec fn view(&self) -> bool {
        self.0 != 0
    }
}

impl m64 {
    /// The mask lane of `b`: all ones where `b`, all zeros otherwise.
    pub fn new(b: bool) -> (r: m64)
        ensures
            r@ == b,
    {
        if b {
            m64(-1)
        } else {
            m64(0)
        }
    }

    /// Whether the lane is set.
    pub fn test(self) -> (r: bool)
        ensures
            r == self@,
    {
        self.0 != 0
    }
}

} // verus!
