//! Program values that can be shown in the debug window and overridden from it.

use vstd::prelude::*;

verus! {

/// A program value that the debug window can read and overwrite.
///
/// `param_value` is the value that the program currently holds; `get_value`
/// hands it out and `set_value` replaces it.
pub trait AsDebuggableParam {
    type Value: 'static + Send + Sync + Clone;

    /// The value that the parameter currently holds.
    spec fn param_value(&self) -> Self::Value;

    fn get_value(&self) -> (value: &Self::Value)
        ensures
            *value == self.param_value(),
    ;

    fn set_value(&mut self, new_value: &Self::Value)
        ensures
            final(self).param_value() == *new_value,
    ;
}

/// A mutable borrow of a parameter is a parameter with the same value.
impl<T: AsDebuggableParam> AsDebuggableParam for &mut T {
    type Value = T::Value;

    open spec fn param_value(&self) -> T::Value {
        (**self).param_value()
    }

    fn get_value(&self) -> (value: &T::Value) {
        T::get_value(*self)
    }

    fn set_value(&mut self, new_value: &T::Value)
        ensures
            *final(*final(self)) == *final(*old(self)),
    {
        T::set_value(*self, new_value)
    }
}

impl AsDebuggableParam for bool {
    type Value = bool;

    open spec fn param_value(&self) -> bool {
        *self
    }

    fn get_value(&self) -> (value: &bool)
        ensures
            *value == *self,
    {
        self
    }

    fn set_value(&mut self, new_value: &bool)
        ensures
            *final(self) == *new_value,
    {
        *self = *new_value;
    }
}

impl AsDebuggableParam for char {
    type Value = char;

    open spec fn param_value(&self) -> char {
        *self
    }

    fn get_value(&self) -> (value: &char)
        ensures
            *value == *self,
    {
        self
    }

    fn set_value(&mut self, new_value: &char)
        ensures
            *final(self) == *new_value,
    {
        *self = *new_value;
    }
}

impl AsDebuggableParam for u8 {
    type Value = u8;

    open spec fn param_value(&self) -> u8 {
        *self
    }

    fn get_value(&self) -> (value: &u8)
        ensures
            *value == *self,
    {
        self
    }

    fn set_value(&mut self, new_value: &u8)
        ensures
            *final(self) == *new_value,
    {
        *self = *new_value;
    }
}

impl AsDebuggableParam for u16 {
    type Value = u16;

    open spec fn param_value(&self) -> u16 {
        *self
    }

    fn get_value(&self) -> (value: &u16)
        ensures
            *value == *self,
    {
        self
    }

    fn set_value(&mut self, new_value: &u16)
        ensures
            *final(self) == *new_value,
    {
        *self = *new_value;
    }
}

impl AsDebuggableParam for u32 {
    type Value = u32;

    open spec fn param_value(&self) -> u32 {
        *self
    }

    fn get_value(&self) -> (value: &u32)
        ensures
            *value == *self,
    {
        self
    }

    fn set_value(&mut self, new_value: &u32)
        ensures
            *final(self) == *new_value,
    {
        *self = *new_value;
    }
}

impl AsDebuggableParam for u64 {
    type Value = u64;

    open spec fn param_value(&self) -> u64 {
        *self
    }

    fn get_value(&self) -> (value: &u64)
        ensures
            *value == *self,
    {
        self
    }

    fn set_value(&mut self, new_value: &u64)
        ensures
            *final(self) == *new_value,
    {
        *self = *new_value;
    }
}

impl AsDebuggableParam for i8 {
    type Value = i8;

    open spec fn param_value(&self) -> i8 {
        *self
    }

    fn get_value(&self) -> (value: &i8)
        ensures
            *value == *self,
    {
        self
    }

    fn set_value(&mut self, new_value: &i8)
        ensures
            *final(self) == *new_value,
    {
        *self = *new_value;
    }
}

impl AsDebuggableParam for i16 {
    type Value = i16;

    open spec fn param_value(&self) -> i16 {
        *self
    }

    fn get_value(&self) -> (value: &i16)
        ensures
            *value == *self,
    {
        self
    }

    fn set_value(&mut self, new_value: &i16)
        ensures
            *final(self) == *new_value,
    {
        *self = *new_value;
    }
}

impl AsDebuggableParam for i32 {
    type Value = i32;

    open spec fn param_value(&self) -> i32 {
        *self
    }

    fn get_value(&self) -> (value: &i32)
        ensures
            *value == *self,
    {
        self
    }

    fn set_value(&mut self, new_value: &i32)
        ensures
            *final(self) == *new_value,
    {
        *self = *new_value;
    }
}

impl AsDebuggableParam for i64 {
    type Value = i64;

    open spec fn param_value(&self) -> i64 {
        *self
    }

    fn get_value(&self) -> (value: &i64)
        ensures
            *value == *self,
    {
        self
    }

    fn set_value(&mut self, new_value: &i64)
        ensures
            *final(self) == *new_value,
    {
        *self = *new_value;
    }
}

impl AsDebuggableParam for String {
    type Value = String;

    open spec fn param_value(&self) -> String {
        *self
    }

    fn get_value(&self) -> (value: &String)
        ensures
            *value == *self,
    {
        self
    }

    fn set_value(&mut self, new_value: &String)
        ensures
            *final(self) == *new_value,
    {
        *self = new_value.clone();
    }
}

/// A parameter of a plain type holds the variable itself: the value the
/// debug window reads is the variable's value, and a value written to it is
/// what the variable then holds.
pub proof fn law_plain_params_hold_themselves(
    b: bool,
    c: char,
    x8: u8,
    x16: u16,
    x32: u32,
    x64: u64,
    y8: i8,
    y16: i16,
    y32: i32,
    y64: i64,
    s: String,
)
    ensures
        b.param_value() == b,
        c.param_value() == c,
        x8.param_value() == x8,
        x16.param_value() == x16,
        x32.param_value() == x32,
        x64.param_value() == x64,
        y8.param_value() == y8,
        y16.param_value() == y16,
        y32.param_value() == y32,
        y64.param_value() == y64,
        s.param_value() == s,
{
}

} // verus!
