//! Bounded integers that exclude the maximum value of their width.
//!
//! A `NonMax` wrapper stores its semantic value shifted up by one inside a
//! `core::num::NonZero*`, so the all-zero bit pattern stays unused and an
//! `Option` around the wrapper is as small as the bare integer.

use crate::raw::{
    non_zero_u16_get,
    non_zero_u16_new,
    non_zero_u16_value,
    non_zero_u32_get,
    non_zero_u32_new,
    non_zero_u32_value,
    non_zero_u64_get,
    non_zero_u64_new,
    non_zero_u64_value,
    non_zero_u8_get,
    non_zero_u8_new,
    non_zero_u8_value,
    non_zero_usize_get,
    non_zero_usize_new,
    non_zero_usize_value,
};
use vstd::prelude::*;

verus! {

/// An unsigned 8-bit integer that cannot hold `u8::MAX`.
///
/// The value is stored shifted up by one, so the raw encoding zero stays
/// permanently unused and `Option<NonMaxU8>` occupies a single byte.
#[derive(Clone, Copy, Eq, Hash, Ord)]
pub struct NonMaxU8(pub(crate) crate::raw::RawNonZeroU8);

impl NonMaxU8 {
    /// The raw stored integer: the semantic value shifted up by one.
    spec fn spec_raw(self) -> u8 {
        non_zero_u8_value(self.0)
    }

    /// The semantic value this wrapper stands for.
    pub closed spec fn spec_get(self) -> u8 {
        (self.spec_raw() - 1) as u8
    }

    /// Creates a non-max if the given value is not the maximum.
    pub fn new(value: u8) -> (r: Option<NonMaxU8>)
        ensures
            r is Some <==> value != u8::MAX,
            r is Some ==> r->0.spec_get() == value,
    {
        match non_zero_u8_new(value.wrapping_add(1)) {
            Some(inner) => Some(NonMaxU8(inner)),
            None => None,
        }
    }

    /// Returns the semantic value as the primitive type.
    pub fn get(self) -> (r: u8)
        ensures
            r == self.spec_get(),
    {
        non_zero_u8_get(self.0).wrapping_sub(1)
    }

    /// Adds a delta to the semantic value, if the sum stays below the maximum.
    ///
    /// The sum is computed on the raw stored integer with a single checked
    /// addition: the raw value already carries the shift by one, so raw
    /// overflow of the width coincides exactly with the sum reaching or
    /// passing the excluded maximum.
    pub fn checked_add(self, rhs: u8) -> (r: Option<NonMaxU8>)
        ensures
            r is Some <==> self.spec_get() + rhs < u8::MAX,
            r is Some ==> r->0.spec_get() == self.spec_get() + rhs,
    {
        let raw = non_zero_u8_get(self.0);
        match raw.checked_add(rhs) {
            Some(sum_raw) => match non_zero_u8_new(sum_raw) {
                Some(inner) => Some(NonMaxU8(inner)),
                None => vstd::pervasive::unreached(),
            },
            None => None,
        }
    }

    /// The decimal text of the semantic value; the raw shifted encoding is
    /// never rendered.
    pub fn to_decimal(self) -> (r: String)
        ensures
            r@ == crate::radix::spec_radix(self.spec_get() as nat, 10, false),
    {
        crate::radix::format_radix(self.get() as u64, 10, false)
    }

    /// The text of the semantic value in a base between two and sixteen.
    pub fn to_radix(self, base: u64, upper: bool) -> (r: String)
        requires
            2 <= base <= 16,
        ensures
            r@ == crate::radix::spec_radix(self.spec_get() as nat, base as nat, upper),
    {
        crate::radix::format_radix(self.get() as u64, base, upper)
    }
}

impl PartialEq for NonMaxU8 {
    fn eq(&self, other: &NonMaxU8) -> (r: bool) {
        self.get() == other.get()
    }
}

impl vstd::std_specs::cmp::PartialEqSpecImpl for NonMaxU8 {
    open spec fn obeys_eq_spec() -> bool {
        true
    }

    open spec fn eq_spec(&self, other: &NonMaxU8) -> bool {
        self.spec_get() == other.spec_get()
    }
}

impl PartialOrd for NonMaxU8 {
    fn partial_cmp(&self, other: &NonMaxU8) -> (r: Option<core::cmp::Ordering>) {
        if self.get() < other.get() {
            Some(core::cmp::Ordering::Less)
        } else if self.get() == other.get() {
            Some(core::cmp::Ordering::Equal)
        } else {
            Some(core::cmp::Ordering::Greater)
        }
    }
}

impl vstd::std_specs::cmp::PartialOrdSpecImpl for NonMaxU8 {
    open spec fn obeys_partial_cmp_spec() -> bool {
        true
    }

    open spec fn partial_cmp_spec(&self, other: &NonMaxU8) -> Option<core::cmp::Ordering> {
        if self.spec_get() < other.spec_get() {
            Some(core::cmp::Ordering::Less)
        } else if self.spec_get() == other.spec_get() {
            Some(core::cmp::Ordering::Equal)
        } else {
            Some(core::cmp::Ordering::Greater)
        }
    }
}

/// An unsigned 16-bit integer that cannot hold `u16::MAX`.
///
/// The value is stored shifted up by one, so the raw encoding zero stays
/// permanently unused and `Option<NonMaxU16>` occupies two bytes.
#[derive(Clone, Copy, Eq, Hash, Ord)]
pub struct NonMaxU16(pub(crate) crate::raw::RawNonZeroU16);

impl NonMaxU16 {
    /// The raw stored integer: the semantic value shifted up by one.
    spec fn spec_raw(self) -> u16 {
        non_zero_u16_value(self.0)
    }

    /// The semantic value this wrapper stands for.
    pub closed spec fn spec_get(self) -> u16 {
        (self.spec_raw() - 1) as u16
    }

    /// Creates a non-max if the given value is not the maximum.
    pub fn new(value: u16) -> (r: Option<NonMaxU16>)
        ensures
            r is Some <==> value != u16::MAX,
            r is Some ==> r->0.spec_get() == value,
    {
        match non_zero_u16_new(value.wrapping_add(1)) {
            Some(inner) => Some(NonMaxU16(inner)),
            None => None,
        }
    }

    /// Returns the semantic value as the primitive type.
    pub fn get(self) -> (r: u16)
        ensures
            r == self.spec_get(),
    {
        non_zero_u16_get(self.0).wrapping_sub(1)
    }

    /// Adds a delta to the semantic value, if the sum stays below the maximum.
    ///
    /// The sum is computed on the raw stored integer with a single checked
    /// addition: the raw value already carries the shift by one, so raw
    /// overflow of the width coincides exactly with the sum reaching or
    /// passing the excluded maximum.
    pub fn checked_add(self, rhs: u16) -> (r: Option<NonMaxU16>)
        ensures
            r is Some <==> self.spec_get() + rhs < u16::MAX,
            r is Some ==> r->0.spec_get() == self.spec_get() + rhs,
    {
        let raw = non_zero_u16_get(self.0);
        match raw.checked_add(rhs) {
            Some(sum_raw) => match non_zero_u16_new(sum_raw) {
                Some(inner) => Some(NonMaxU16(inner)),
                None => vstd::pervasive::unreached(),
            },
            None => None,
        }
    }

    /// The decimal text of the semantic value; the raw shifted encoding is
    /// never rendered.
    pub fn to_decimal(self) -> (r: String)
        ensures
            r@ == crate::radix::spec_radix(self.spec_get() as nat, 10, false),
    {
        crate::radix::format_radix(self.get() as u64, 10, false)
    }

    /// The text of the semantic value in a base between two and sixteen.
    pub fn to_radix(self, base: u64, upper: bool) -> (r: String)
        requires
            2 <= base <= 16,
        ensures
            r@ == crate::radix::spec_radix(self.spec_get() as nat, base as nat, upper),
    {
        crate::radix::format_radix(self.get() as u64, base, upper)
    }
}

impl PartialEq for NonMaxU16 {
    fn eq(&self, other: &NonMaxU16) -> (r: bool) {
        self.get() == other.get()
    }
}

impl vstd::std_specs::cmp::PartialEqSpecImpl for NonMaxU16 {
    open spec fn obeys_eq_spec() -> bool {
        true
    }

    open spec fn eq_spec(&self, other: &NonMaxU16) -> bool {
        self.spec_get() == other.spec_get()
    }
}

impl PartialOrd for NonMaxU16 {
    fn partial_cmp(&self, other: &NonMaxU16) -> (r: Option<core::cmp::Ordering>) {
        if self.get() < other.get() {
            Some(core::cmp::Ordering::Less)
        } else if self.get() == other.get() {
            Some(core::cmp::Ordering::Equal)
        } else {
            Some(core::cmp::Ordering::Greater)
        }
    }
}

impl vstd::std_specs::cmp::PartialOrdSpecImpl for NonMaxU16 {
    open spec fn obeys_partial_cmp_spec() -> bool {
        true
    }

    open spec fn partial_cmp_spec(&self, other: &NonMaxU16) -> Option<core::cmp::Ordering> {
        if self.spec_get() < other.spec_get() {
            Some(core::cmp::Ordering::Less)
        } else if self.spec_get() == other.spec_get() {
            Some(core::cmp::Ordering::Equal)
        } else {
            Some(core::cmp::Ordering::Greater)
        }
    }
}

/// An unsigned 32-bit integer that cannot hold `u32::MAX`.
///
/// The value is stored shifted up by one, so the raw encoding zero stays
/// permanently unused and `Option<NonMaxU32>` occupies four bytes.
#[derive(Clone, Copy, Eq, Hash, Ord)]
pub struct NonMaxU32(pub(crate) crate::raw::RawNonZeroU32);

impl NonMaxU32 {
    /// The raw stored integer: the semantic value shifted up by one.
    spec fn spec_raw(self) -> u32 {
        non_zero_u32_value(self.0)
    }

    /// The semantic value this wrapper stands for.
    pub closed spec fn spec_get(self) -> u32 {
        (self.spec_raw() - 1) as u32
    }

    /// Creates a non-max if the given value is not the maximum.
    pub fn new(value: u32) -> (r: Option<NonMaxU32>)
        ensures
            r is Some <==> value != u32::MAX,
            r is Some ==> r->0.spec_get() == value,
    {
        match non_zero_u32_new(value.wrapping_add(1)) {
            Some(inner) => Some(NonMaxU32(inner)),
            None => None,
        }
    }

    /// Returns the semantic value as the primitive type.
    pub fn get(self) -> (r: u32)
        ensures
            r == self.spec_get(),
    {
        non_zero_u32_get(self.0).wrapping_sub(1)
    }

    /// Adds a delta to the semantic value, if the sum stays below the maximum.
    ///
    /// The sum is computed on the raw stored integer with a single checked
    /// addition: the raw value already carries the shift by one, so raw
    /// overflow of the width coincides exactly with the sum reaching or
    /// passing the excluded maximum.
    pub fn checked_add(self, rhs: u32) -> (r: Option<NonMaxU32>)
        ensures
            r is Some <==> self.spec_get() + rhs < u32::MAX,
            r is Some ==> r->0.spec_get() == self.spec_get() + rhs,
    {
        let raw = non_zero_u32_get(self.0);
        match raw.checked_add(rhs) {
            Some(sum_raw) => match non_zero_u32_new(sum_raw) {
                Some(inner) => Some(NonMaxU32(inner)),
                None => vstd::pervasive::unreached(),
            },
            None => None,
        }
    }

    /// The decimal text of the semantic value; the raw shifted encoding is
    /// never rendered.
    pub fn to_decimal(self) -> (r: String)
        ensures
            r@ == crate::radix::spec_radix(self.spec_get() as nat, 10, false),
    {
        crate::radix::format_radix(self.get() as u64, 10, false)
    }

    /// The text of the semantic value in a base between two and sixteen.
    pub fn to_radix(self, base: u64, upper: bool) -> (r: String)
        requires
            2 <= base <= 16,
        ensures
            r@ == crate::radix::spec_radix(self.spec_get() as nat, base as nat, upper),
    {
        crate::radix::format_radix(self.get() as u64, base, upper)
    }
}

impl PartialEq for NonMaxU32 {
    fn eq(&self, other: &NonMaxU32) -> (r: bool) {
        self.get() == other.get()
    }
}

impl vstd::std_specs::cmp::PartialEqSpecImpl for NonMaxU32 {
    open spec fn obeys_eq_spec() -> bool {
        true
    }

    open spec fn eq_spec(&self, other: &NonMaxU32) -> bool {
        self.spec_get() == other.spec_get()
    }
}

impl PartialOrd for NonMaxU32 {
    fn partial_cmp(&self, other: &NonMaxU32) -> (r: Option<core::cmp::Ordering>) {
        if self.get() < other.get() {
            Some(core::cmp::Ordering::Less)
        } else if self.get() == other.get() {
            Some(core::cmp::Ordering::Equal)
        } else {
            Some(core::cmp::Ordering::Greater)
        }
    }
}

impl vstd::std_specs::cmp::PartialOrdSpecImpl for NonMaxU32 {
    open spec fn obeys_partial_cmp_spec() -> bool {
        true
    }

    open spec fn partial_cmp_spec(&self, other: &NonMaxU32) -> Option<core::cmp::Ordering> {
        if self.spec_get() < other.spec_get() {
            Some(core::cmp::Ordering::Less)
        } else if self.spec_get() == other.spec_get() {
            Some(core::cmp::Ordering::Equal)
        } else {
            Some(core::cmp::Ordering::Greater)
        }
    }
}

/// An unsigned 64-bit integer that cannot hold `u64::MAX`.
///
/// The value is stored shifted up by one, so the raw encoding zero stays
/// permanently unused and `Option<NonMaxU64>` occupies eight bytes.
#[derive(Clone, Copy, Eq, Hash, Ord)]
pub struct NonMaxU64(pub(crate) crate::raw::RawNonZeroU64);

impl NonMaxU64 {
    /// The raw stored integer: the semantic value shifted up by one.
    spec fn spec_raw(self) -> u64 {
        non_zero_u64_value(self.0)
    }

    /// The semantic value this wrapper stands for.
    pub closed spec fn spec_get(self) -> u64 {
        (self.spec_raw() - 1) as u64
    }

    /// Creates a non-max if the given value is not the maximum.
    pub fn new(value: u64) -> (r: Option<NonMaxU64>)
        ensures
            r is Some <==> value != u64::MAX,
            r is Some ==> r->0.spec_get() == value,
    {
        match non_zero_u64_new(value.wrapping_add(1)) {
            Some(inner) => Some(NonMaxU64(inner)),
            None => None,
        }
    }

    /// Returns the semantic value as the primitive type.
    pub fn get(self) -> (r: u64)
        ensures
            r == self.spec_get(),
    {
        non_zero_u64_get(self.0).wrapping_sub(1)
    }

    /// Adds a delta to the semantic value, if the sum stays below the maximum.
    ///
    /// The sum is computed on the raw stored integer with a single checked
    /// addition: the raw value already carries the shift by one, so raw
    /// overflow of the width coincides exactly with the sum reaching or
    /// passing the excluded maximum.
    pub fn checked_add(self, rhs: u64) -> (r: Option<NonMaxU64>)
        ensures
            r is Some <==> self.spec_get() + rhs < u64::MAX,
            r is Some ==> r->0.spec_get() == self.spec_get() + rhs,
    {
        let raw = non_zero_u64_get(self.0);
        match raw.checked_add(rhs) {
            Some(sum_raw) => match non_zero_u64_new(sum_raw) {
                Some(inner) => Some(NonMaxU64(inner)),
                None => vstd::pervasive::unreached(),
            },
            None => None,
        }
    }

    /// The decimal text of the semantic value; the raw shifted encoding is
    /// never rendered.
    pub fn to_decimal(self) -> (r: String)
        ensures
            r@ == crate::radix::spec_radix(self.spec_get() as nat, 10, false),
    {
        crate::radix::format_radix(self.get(), 10, false)
    }

    /// The text of the semantic value in a base between two and sixteen.
    pub fn to_radix(self, base: u64, upper: bool) -> (r: String)
        requires
            2 <= base <= 16,
        ensures
            r@ == crate::radix::spec_radix(self.spec_get() as nat, base as nat, upper),
    {
        crate::radix::format_radix(self.get(), base, upper)
    }
}

impl PartialEq for NonMaxU64 {
    fn eq(&self, other: &NonMaxU64) -> (r: bool) {
        self.get() == other.get()
    }
}

impl vstd::std_specs::cmp::PartialEqSpecImpl for NonMaxU64 {
    open spec fn obeys_eq_spec() -> bool {
        true
    }

    open spec fn eq_spec(&self, other: &NonMaxU64) -> bool {
        self.spec_get() == other.spec_get()
    }
}

impl PartialOrd for NonMaxU64 {
    fn partial_cmp(&self, other: &NonMaxU64) -> (r: Option<core::cmp::Ordering>) {
        if self.get() < other.get() {
            Some(core::cmp::Ordering::Less)
        } else if self.get() == other.get() {
            Some(core::cmp::Ordering::Equal)
        } else {
            Some(core::cmp::Ordering::Greater)
        }
    }
}

impl vstd::std_specs::cmp::PartialOrdSpecImpl for NonMaxU64 {
    open spec fn obeys_partial_cmp_spec() -> bool {
        true
    }

    open spec fn partial_cmp_spec(&self, other: &NonMaxU64) -> Option<core::cmp::Ordering> {
        if self.spec_get() < other.spec_get() {
            Some(core::cmp::Ordering::Less)
        } else if self.spec_get() == other.spec_get() {
            Some(core::cmp::Ordering::Equal)
        } else {
            Some(core::cmp::Ordering::Greater)
        }
    }
}

/// A platform-size unsigned integer that cannot hold `usize::MAX`.
///
/// The value is stored shifted up by one, so the raw encoding zero stays
/// permanently unused and `Option<NonMaxUsize>` occupies as much as a bare
/// platform-size integer.
#[derive(Clone, Copy, Eq, Hash, Ord)]
pub struct NonMaxUsize(pub(crate) crate::raw::RawNonZeroUsize);

impl NonMaxUsize {
    /// The raw stored integer: the semantic value shifted up by one.
    spec fn spec_raw(self) -> usize {
        non_zero_usize_value(self.0)
    }

    /// The semantic value this wrapper stands for.
    pub closed spec fn spec_get(self) -> usize {
        (self.spec_raw() - 1) as usize
    }

    /// Creates a non-max if the given value is not the maximum.
    pub fn new(value: usize) -> (r: Option<NonMaxUsize>)
        ensures
            r is Some <==> value != usize::MAX,
            r is Some ==> r->0.spec_get() == value,
    {
        match non_zero_usize_new(value.wrapping_add(1)) {
            Some(inner) => Some(NonMaxUsize(inner)),
            None => None,
        }
    }

    /// Returns the semantic value as the primitive type.
    pub fn get(self) -> (r: usize)
        ensures
            r == self.spec_get(),
    {
        non_zero_usize_get(self.0).wrapping_sub(1)
    }

    /// Adds a delta to the semantic value, if the sum stays below the maximum.
    ///
    /// The sum is computed on the raw stored integer with a single checked
    /// addition: the raw value already carries the shift by one, so raw
    /// overflow of the width coincides exactly with the sum reaching or
    /// passing the excluded maximum.
    pub fn checked_add(self, rhs: usize) -> (r: Option<NonMaxUsize>)
        ensures
            r is Some <==> self.spec_get() + rhs < usize::MAX,
            r is Some ==> r->0.spec_get() == self.spec_get() + rhs,
    {
        let raw = non_zero_usize_get(self.0);
        match raw.checked_add(rhs) {
            Some(sum_raw) => match non_zero_usize_new(sum_raw) {
                Some(inner) => Some(NonMaxUsize(inner)),
                None => vstd::pervasive::unreached(),
            },
            None => None,
        }
    }

    /// The decimal text of the semantic value; the raw shifted encoding is
    /// never rendered.
    pub fn to_decimal(self) -> (r: String)
        ensures
            r@ == crate::radix::spec_radix(self.spec_get() as nat, 10, false),
    {
        crate::radix::format_radix(self.get() as u64, 10, false)
    }

    /// The text of the semantic value in a base between two and sixteen.
    pub fn to_radix(self, base: u64, upper: bool) -> (r: String)
        requires
            2 <= base <= 16,
        ensures
            r@ == crate::radix::spec_radix(self.spec_get() as nat, base as nat, upper),
    {
        crate::radix::format_radix(self.get() as u64, base, upper)
    }
}

impl PartialEq for NonMaxUsize {
    fn eq(&self, other: &NonMaxUsize) -> (r: bool) {
        self.get() == other.get()
    }
}

impl vstd::std_specs::cmp::PartialEqSpecImpl for NonMaxUsize {
    open spec fn obeys_eq_spec() -> bool {
        true
    }

    open spec fn eq_spec(&self, other: &NonMaxUsize) -> bool {
        self.spec_get() == other.spec_get()
    }
}

impl PartialOrd for NonMaxUsize {
    fn partial_cmp(&self, other: &NonMaxUsize) -> (r: Option<core::cmp::Ordering>) {
        if self.get() < other.get() {
            Some(core::cmp::Ordering::Less)
        } else if self.get() == other.get() {
            Some(core::cmp::Ordering::Equal)
        } else {
            Some(core::cmp::Ordering::Greater)
        }
    }
}

impl vstd::std_specs::cmp::PartialOrdSpecImpl for NonMaxUsize {
    open spec fn obeys_partial_cmp_spec() -> bool {
        true
    }

    open spec fn partial_cmp_spec(&self, other: &NonMaxUsize) -> Option<core::cmp::Ordering> {
        if self.spec_get() < other.spec_get() {
            Some(core::cmp::Ordering::Less)
        } else if self.spec_get() == other.spec_get() {
            Some(core::cmp::Ordering::Equal)
        } else {
            Some(core::cmp::Ordering::Greater)
        }
    }
}

} // verus!
