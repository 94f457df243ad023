//! The trusted boundary of the crate: the raw nonzero encodings.
//!
//! Every wrapper in this crate stores its semantic value shifted up by one
//! inside a `core::num::NonZero*`, so the all-zero bit pattern stays unused
//! and `Option` around a wrapper is as small as the bare integer. Verus
//! cannot declare those types (their generic carries an unstable bound), so
//! each width gets a holder struct it does not look through, one spec
//! function naming the held integer, and wrappers relying on the inherent
//! methods and derived traits of `core::num::NonZero*`. Everything else in
//! the crate is verified against these contracts.

use vstd::prelude::*;

verus! {

/// A `core::num::NonZeroU8` behind the trusted boundary; `Option` around it
/// keeps the niche of the inner type.
#[verifier::external_body]
pub struct RawNonZeroU8 {
    inner: core::num::NonZeroU8,
}

/// The integer a [`RawNonZeroU8`] holds.
pub uninterp spec fn non_zero_u8_value(n: RawNonZeroU8) -> u8;

/// Relies on `core::num::NonZeroU8::new`: returns a value holding the
/// argument exactly when the argument is not zero.
#[verifier::external_body]
pub(crate) fn non_zero_u8_new(v: u8) -> (r: Option<RawNonZeroU8>)
    ensures
        r is Some <==> v != 0,
        r is Some ==> non_zero_u8_value(r->0) == v,
{
    match core::num::NonZeroU8::new(v) {
        Some(inner) => Some(RawNonZeroU8 { inner }),
        None => None,
    }
}

/// Relies on `core::num::NonZeroU8::get`: returns the held integer, which is
/// never zero.
#[verifier::external_body]
pub(crate) fn non_zero_u8_get(n: RawNonZeroU8) -> (r: u8)
    ensures
        r == non_zero_u8_value(n),
        r != 0,
{
    n.inner.get()
}

impl Clone for RawNonZeroU8 {
    /// Relies on the derived `Clone` of `core::num::NonZeroU8`: a plain copy.
    #[verifier::external_body]
    fn clone(&self) -> (r: RawNonZeroU8)
        ensures
            r == *self,
    {
        RawNonZeroU8 { inner: self.inner }
    }
}

impl Copy for RawNonZeroU8 {}

impl PartialEq for RawNonZeroU8 {
    /// Relies on the derived `PartialEq` of `core::num::NonZeroU8`: it
    /// compares the held integers.
    #[verifier::external_body]
    fn eq(&self, other: &RawNonZeroU8) -> (r: bool)
        ensures
            r == (non_zero_u8_value(*self) == non_zero_u8_value(*other)),
    {
        self.inner == other.inner
    }
}

impl Eq for RawNonZeroU8 {}

impl PartialOrd for RawNonZeroU8 {
    /// Relies on the derived `PartialOrd` of `core::num::NonZeroU8`: it
    /// orders by the held integers.
    #[verifier::external_body]
    fn partial_cmp(&self, other: &RawNonZeroU8) -> (r: Option<core::cmp::Ordering>) {
        self.inner.partial_cmp(&other.inner)
    }
}

impl Ord for RawNonZeroU8 {
    /// Relies on the derived `Ord` of `core::num::NonZeroU8`: it orders by
    /// the held integers.
    #[verifier::external_body]
    fn cmp(&self, other: &RawNonZeroU8) -> (r: core::cmp::Ordering) {
        self.inner.cmp(&other.inner)
    }
}

impl core::hash::Hash for RawNonZeroU8 {
    /// Relies on the derived `Hash` of `core::num::NonZeroU8`: it hashes the
    /// held integer.
    #[verifier::external_body]
    fn hash<H: core::hash::Hasher>(&self, state: &mut H) {
        self.inner.hash(state)
    }
}

/// A `core::num::NonZeroU16` behind the trusted boundary; `Option` around it
/// keeps the niche of the inner type.
#[verifier::external_body]
pub struct RawNonZeroU16 {
    inner: core::num::NonZeroU16,
}

/// The integer a [`RawNonZeroU16`] holds.
pub uninterp spec fn non_zero_u16_value(n: RawNonZeroU16) -> u16;

/// Relies on `core::num::NonZeroU16::new`: returns a value holding the
/// argument exactly when the argument is not zero.
#[verifier::external_body]
pub(crate) fn non_zero_u16_new(v: u16) -> (r: Option<RawNonZeroU16>)
    ensures
        r is Some <==> v != 0,
        r is Some ==> non_zero_u16_value(r->0) == v,
{
    match core::num::NonZeroU16::new(v) {
        Some(inner) => Some(RawNonZeroU16 { inner }),
        None => None,
    }
}

/// Relies on `core::num::NonZeroU16::get`: returns the held integer, which is
/// never zero.
#[verifier::external_body]
pub(crate) fn non_zero_u16_get(n: RawNonZeroU16) -> (r: u16)
    ensures
        r == non_zero_u16_value(n),
        r != 0,
{
    n.inner.get()
}

impl Clone for RawNonZeroU16 {
    /// Relies on the derived `Clone` of `core::num::NonZeroU16`: a plain copy.
    #[verifier::external_body]
    fn clone(&self) -> (r: RawNonZeroU16)
        ensures
            r == *self,
    {
        RawNonZeroU16 { inner: self.inner }
    }
}

impl Copy for RawNonZeroU16 {}

impl PartialEq for RawNonZeroU16 {
    /// Relies on the derived `PartialEq` of `core::num::NonZeroU16`: it
    /// compares the held integers.
    #[verifier::external_body]
    fn eq(&self, other: &RawNonZeroU16) -> (r: bool)
        ensures
            r == (non_zero_u16_value(*self) == non_zero_u16_value(*other)),
    {
        self.inner == other.inner
    }
}

impl Eq for RawNonZeroU16 {}

impl PartialOrd for RawNonZeroU16 {
    /// Relies on the derived `PartialOrd` of `core::num::NonZeroU16`: it
    /// orders by the held integers.
    #[verifier::external_body]
    fn partial_cmp(&self, other: &RawNonZeroU16) -> (r: Option<core::cmp::Ordering>) {
        self.inner.partial_cmp(&other.inner)
    }
}

impl Ord for RawNonZeroU16 {
    /// Relies on the derived `Ord` of `core::num::NonZeroU16`: it orders by
    /// the held integers.
    #[verifier::external_body]
    fn cmp(&self, other: &RawNonZeroU16) -> (r: core::cmp::Ordering) {
        self.inner.cmp(&other.inner)
    }
}

impl core::hash::Hash for RawNonZeroU16 {
    /// Relies on the derived `Hash` of `core::num::NonZeroU16`: it hashes the
    /// held integer.
    #[verifier::external_body]
    fn hash<H: core::hash::Hasher>(&self, state: &mut H) {
        self.inner.hash(state)
    }
}

/// A `core::num::NonZeroU32` behind the trusted boundary; `Option` around it
/// keeps the niche of the inner type.
#[verifier::external_body]
pub struct RawNonZeroU32 {
    inner: core::num::NonZeroU32,
}

/// The integer a [`RawNonZeroU32`] holds.
pub uninterp spec fn non_zero_u32_value(n: RawNonZeroU32) -> u32;

/// Relies on `core::num::NonZeroU32::new`: returns a value holding the
/// argument exactly when the argument is not zero.
#[verifier::external_body]
pub(crate) fn non_zero_u32_new(v: u32) -> (r: Option<RawNonZeroU32>)
    ensures
        r is Some <==> v != 0,
        r is Some ==> non_zero_u32_value(r->0) == v,
{
    match core::num::NonZeroU32::new(v) {
        Some(inner) => Some(RawNonZeroU32 { inner }),
        None => None,
    }
}

/// Relies on `core::num::NonZeroU32::get`: returns the held integer, which is
/// never zero.
#[verifier::external_body]
pub(crate) fn non_zero_u32_get(n: RawNonZeroU32) -> (r: u32)
    ensures
        r == non_zero_u32_value(n),
        r != 0,
{
    n.inner.get()
}

impl Clone for RawNonZeroU32 {
    /// Relies on the derived `Clone` of `core::num::NonZeroU32`: a plain copy.
    #[verifier::external_body]
    fn clone(&self) -> (r: RawNonZeroU32)
        ensures
            r == *self,
    {
        RawNonZeroU32 { inner: self.inner }
    }
}

impl Copy for RawNonZeroU32 {}

impl PartialEq for RawNonZeroU32 {
    /// Relies on the derived `PartialEq` of `core::num::NonZeroU32`: it
    /// compares the held integers.
    #[verifier::external_body]
    fn eq(&self, other: &RawNonZeroU32) -> (r: bool)
        ensures
            r == (non_zero_u32_value(*self) == non_zero_u32_value(*other)),
    {
        self.inner == other.inner
    }
}

impl Eq for RawNonZeroU32 {}

impl PartialOrd for RawNonZeroU32 {
    /// Relies on the derived `PartialOrd` of `core::num::NonZeroU32`: it
    /// orders by the held integers.
    #[verifier::external_body]
    fn partial_cmp(&self, other: &RawNonZeroU32) -> (r: Option<core::cmp::Ordering>) {
        self.inner.partial_cmp(&other.inner)
    }
}

impl Ord for RawNonZeroU32 {
    /// Relies on the derived `Ord` of `core::num::NonZeroU32`: it orders by
    /// the held integers.
    #[verifier::external_body]
    fn cmp(&self, other: &RawNonZeroU32) -> (r: core::cmp::Ordering) {
        self.inner.cmp(&other.inner)
    }
}

impl core::hash::Hash for RawNonZeroU32 {
    /// Relies on the derived `Hash` of `core::num::NonZeroU32`: it hashes the
    /// held integer.
    #[verifier::external_body]
    fn hash<H: core::hash::Hasher>(&self, state: &mut H) {
        self.inner.hash(state)
    }
}

/// A `core::num::NonZeroU64` behind the trusted boundary; `Option` around it
/// keeps the niche of the inner type.
#[verifier::external_body]
pub struct RawNonZeroU64 {
    inner: core::num::NonZeroU64,
}

/// The integer a [`RawNonZeroU64`] holds.
pub uninterp spec fn non_zero_u64_value(n: RawNonZeroU64) -> u64;

/// Relies on `core::num::NonZeroU64::new`: returns a value holding the
/// argument exactly when the argument is not zero.
#[verifier::external_body]
pub(crate) fn non_zero_u64_new(v: u64) -> (r: Option<RawNonZeroU64>)
    ensures
        r is Some <==> v != 0,
        r is Some ==> non_zero_u64_value(r->0) == v,
{
    match core::num::NonZeroU64::new(v) {
        Some(inner) => Some(RawNonZeroU64 { inner }),
        None => None,
    }
}

/// Relies on `core::num::NonZeroU64::get`: returns the held integer, which is
/// never zero.
#[verifier::external_body]
pub(crate) fn non_zero_u64_get(n: RawNonZeroU64) -> (r: u64)
    ensures
        r == non_zero_u64_value(n),
        r != 0,
{
    n.inner.get()
}

impl Clone for RawNonZeroU64 {
    /// Relies on the derived `Clone` of `core::num::NonZeroU64`: a plain copy.
    #[verifier::external_body]
    fn clone(&self) -> (r: RawNonZeroU64)
        ensures
            r == *self,
    {
        RawNonZeroU64 { inner: self.inner }
    }
}

impl Copy for RawNonZeroU64 {}

impl PartialEq for RawNonZeroU64 {
    /// Relies on the derived `PartialEq` of `core::num::NonZeroU64`: it
    /// compares the held integers.
    #[verifier::external_body]
    fn eq(&self, other: &RawNonZeroU64) -> (r: bool)
        ensures
            r == (non_zero_u64_value(*self) == non_zero_u64_value(*other)),
    {
        self.inner == other.inner
    }
}

impl Eq for RawNonZeroU64 {}

impl PartialOrd for RawNonZeroU64 {
    /// Relies on the derived `PartialOrd` of `core::num::NonZeroU64`: it
    /// orders by the held integers.
    #[verifier::external_body]
    fn partial_cmp(&self, other: &RawNonZeroU64) -> (r: Option<core::cmp::Ordering>) {
        self.inner.partial_cmp(&other.inner)
    }
}

impl Ord for RawNonZeroU64 {
    /// Relies on the derived `Ord` of `core::num::NonZeroU64`: it orders by
    /// the held integers.
    #[verifier::external_body]
    fn cmp(&self, other: &RawNonZeroU64) -> (r: core::cmp::Ordering) {
        self.inner.cmp(&other.inner)
    }
}

impl core::hash::Hash for RawNonZeroU64 {
    /// Relies on the derived `Hash` of `core::num::NonZeroU64`: it hashes the
    /// held integer.
    #[verifier::external_body]
    fn hash<H: core::hash::Hasher>(&self, state: &mut H) {
        self.inner.hash(state)
    }
}

/// A `core::num::NonZeroUsize` behind the trusted boundary; `Option` around it
/// keeps the niche of the inner type.
#[verifier::external_body]
pub struct RawNonZeroUsize {
    inner: core::num::NonZeroUsize,
}

/// The integer a [`RawNonZeroUsize`] holds.
pub uninterp spec fn non_zero_usize_value(n: RawNonZeroUsize) -> usize;

/// Relies on `core::num::NonZeroUsize::new`: returns a value holding the
/// argument exactly when the argument is not zero.
#[verifier::external_body]
pub(crate) fn non_zero_usize_new(v: usize) -> (r: Option<RawNonZeroUsize>)
    ensures
        r is Some <==> v != 0,
        r is Some ==> non_zero_usize_value(r->0) == v,
{
    match core::num::NonZeroUsize::new(v) {
        Some(inner) => Some(RawNonZeroUsize { inner }),
        None => None,
    }
}

/// Relies on `core::num::NonZeroUsize::get`: returns the held integer, which is
/// never zero.
#[verifier::external_body]
pub(crate) fn non_zero_usize_get(n: RawNonZeroUsize) -> (r: usize)
    ensures
        r == non_zero_usize_value(n),
        r != 0,
{
    n.inner.get()
}

impl Clone for RawNonZeroUsize {
    /// Relies on the derived `Clone` of `core::num::NonZeroUsize`: a plain copy.
    #[verifier::external_body]
    fn clone(&self) -> (r: RawNonZeroUsize)
        ensures
            r == *self,
    {
        RawNonZeroUsize { inner: self.inner }
    }
}

impl Copy for RawNonZeroUsize {}

impl PartialEq for RawNonZeroUsize {
    /// Relies on the derived `PartialEq` of `core::num::NonZeroUsize`: it
    /// compares the held integers.
    #[verifier::external_body]
    fn eq(&self, other: &RawNonZeroUsize) -> (r: bool)
        ensures
            r == (non_zero_usize_value(*self) == non_zero_usize_value(*other)),
    {
        self.inner == other.inner
    }
}

impl Eq for RawNonZeroUsize {}

impl PartialOrd for RawNonZeroUsize {
    /// Relies on the derived `PartialOrd` of `core::num::NonZeroUsize`: it
    /// orders by the held integers.
    #[verifier::external_body]
    fn partial_cmp(&self, other: &RawNonZeroUsize) -> (r: Option<core::cmp::Ordering>) {
        self.inner.partial_cmp(&other.inner)
    }
}

impl Ord for RawNonZeroUsize {
    /// Relies on the derived `Ord` of `core::num::NonZeroUsize`: it orders by
    /// the held integers.
    #[verifier::external_body]
    fn cmp(&self, other: &RawNonZeroUsize) -> (r: core::cmp::Ordering) {
        self.inner.cmp(&other.inner)
    }
}

impl core::hash::Hash for RawNonZeroUsize {
    /// Relies on the derived `Hash` of `core::num::NonZeroUsize`: it hashes the
    /// held integer.
    #[verifier::external_body]
    fn hash<H: core::hash::Hasher>(&self, state: &mut H) {
        self.inner.hash(state)
    }
}

} // verus!
