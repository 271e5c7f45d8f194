//! Complex numbers over any kind of number.

use vstd::prelude::*;
use std::fmt::Display;
use std::ops::Add;
use vstd::std_specs::convert::FromSpecImpl;
use vstd::std_specs::ops::AddSpec;
use vstd::std_specs::ops::AddSpecImpl;
use vstd::string::to_string_from_display_ensures;
use vstd::string::StringExecFns;

verus! {

/// The number `re + im i`.
#[derive(PartialEq, Debug, Clone, Copy)]
pub struct Complex<T> {
    pub re: T,
    pub im: T,
}

impl<T> Complex<T> {
    /// The number `re + im i`.
    pub fn new(re: T, im: T) -> (c: Self)
        ensures
            c.re == re,
            c.im == im,
    {
        Complex::<T> { re, im }
    }
}

impl<T: Default> Default for Complex<T> {
    /// The number whose parts are both the default of their type.
    fn default() -> (c: Self)
        ensures
            call_ensures(T::default, (), c.re),
            call_ensures(T::default, (), c.im),
    {
        Complex::<T> { re: T::default(), im: T::default() }
    }
}

impl<T: Add<T, Output = T>> Add for Complex<T> {
    type Output = Complex<T>;

    /// The sum, part by part.
    fn add(self, rhs: Complex<T>) -> (sum: Self::Output) {
        Complex::<T> { re: self.re + rhs.re, im: self.im + rhs.im }
    }
}

impl<T: Add<T, Output = T>> AddSpecImpl for Complex<T> {
    open spec fn obeys_add_spec() -> bool {
        <T as AddSpec>::obeys_add_spec()
    }

    open spec fn add_req(self, rhs: Complex<T>) -> bool {
        self.re.add_req(rhs.re) && self.im.add_req(rhs.im)
    }

    open spec fn add_spec(self, rhs: Complex<T>) -> Complex<T> {
        Complex::<T> { re: self.re.add_spec(rhs.re), im: self.im.add_spec(rhs.im) }
    }
}

impl<T> From<(T, T)> for Complex<T> {
    /// The number whose real part comes first in the pair.
    fn from(value: (T, T)) -> (c: Complex<T>) {
        Complex::<T> { re: value.0, im: value.1 }
    }
}

impl<T> FromSpecImpl<(T, T)> for Complex<T> {
    open spec fn obeys_from_spec() -> bool {
        true
    }

    open spec fn from_spec(value: (T, T)) -> Complex<T> {
        Complex::<T> { re: value.0, im: value.1 }
    }
}

impl<T: Display> Complex<T> {
    /// The number in writing: the real part as its type writes it, then
    /// `" + "`, the imaginary part, and `"i"`.
    pub fn to_text(&self) -> (text: String)
        ensures
            exists|re: String, im: String|
                {
                    &&& to_string_from_display_ensures::<T>(&self.re, re)
                    &&& to_string_from_display_ensures::<T>(&self.im, im)
                    &&& text@ == re@ + " + "@ + im@ + "i"@
                },
    {
        let re = self.re.to_string();
        let im = self.im.to_string();
        let ghost re_copy = re;
        let text = re.concat(" + ").concat(im.as_str()).concat("i");
        assert(text@ == re_copy@ + " + "@ + im@ + "i"@);
        text
    }
}

} // verus!
