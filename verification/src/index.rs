//! Index types built on top of the bounded non-max integers.
//!
//! An `Index` wrapper has the same in-memory encoding as the `NonMax` wrapper
//! of its width, but a stricter construction contract: the reserved maximum
//! value is a caller error, not an ordinary absent result. Operations that
//! must tolerate out-of-range input use the `checked_` forms, which report
//! the one fatal condition, [`IndexTooLarge`], as a value.

use crate::non_max::{NonMaxU16, NonMaxU32, NonMaxU64, NonMaxU8, NonMaxUsize};
use vstd::prelude::*;

verus! {

/// The diagnostic value of the fatal out-of-range condition: a value was too
/// large for the width, or reached the reserved maximum of the width.
#[derive(Clone, Copy, PartialEq, Eq, Structural, Debug)]
pub struct IndexTooLarge;

impl IndexTooLarge {
    /// The diagnostic text of the condition.
    pub fn message(&self) -> (r: &'static str)
        ensures
            r@ == "index too large"@,
    {
        "index too large"
    }
}

/// The "index too large" condition: every failing index construction,
/// conversion and addition reports this one diagnostic value.
pub fn index_too_large() -> (e: IndexTooLarge)
    ensures
        e == IndexTooLarge,
{
    IndexTooLarge
}

/// An 8-bit index that cannot hold `u8::MAX`.
///
/// Same encoding as [`NonMaxU8`]: the value is stored shifted up by one, so
/// `Option<IndexU8>` occupies a single byte and `u8::MAX` is reserved to mean
/// absence.
#[derive(Clone, Copy, Eq, Hash, Ord)]
pub struct IndexU8(pub(crate) NonMaxU8);

impl IndexU8 {
    /// The semantic value this index stands for.
    pub closed spec fn spec_get(self) -> u8 {
        self.0.spec_get()
    }

    /// Creates an index. The maximum value of the width is reserved for
    /// absence and is not a valid index.
    pub fn new(value: u8) -> (r: IndexU8)
        requires
            value != u8::MAX,
        ensures
            r.spec_get() == value,
    {
        match NonMaxU8::new(value) {
            Some(inner) => IndexU8(inner),
            None => vstd::pervasive::unreached(),
        }
    }

    /// Creates an index, reporting the "index too large" condition when the
    /// value is the reserved maximum of the width.
    pub fn checked_new(value: u8) -> (r: Result<IndexU8, IndexTooLarge>)
        ensures
            r is Ok <==> value != u8::MAX,
            r is Ok ==> r->Ok_0.spec_get() == value,
    {
        match NonMaxU8::new(value) {
            Some(inner) => Ok(IndexU8(inner)),
            None => Err(index_too_large()),
        }
    }

    /// Returns the semantic value as the primitive type.
    pub fn get(self) -> (r: u8)
        ensures
            r == self.spec_get(),
    {
        self.0.get()
    }

    /// Adds a delta to the index, reporting the "index too large" condition
    /// when the sum overflows the width or reaches the reserved maximum.
    pub fn checked_add(self, rhs: u8) -> (r: Result<IndexU8, IndexTooLarge>)
        ensures
            r is Ok <==> self.spec_get() + rhs < u8::MAX,
            r is Ok ==> r->Ok_0.spec_get() == self.spec_get() + rhs,
    {
        match self.0.checked_add(rhs) {
            Some(inner) => Ok(IndexU8(inner)),
            None => Err(index_too_large()),
        }
    }

    /// Adds a delta in place; the sum must stay below the reserved maximum.
    pub fn add_assign(&mut self, rhs: u8)
        requires
            old(self).spec_get() + rhs < u8::MAX,
        ensures
            final(self).spec_get() == old(self).spec_get() + rhs,
    {
        *self = *self + rhs;
    }

    /// Converts a platform-size value into an index; the value must stay
    /// below the reserved maximum of the width.
    pub fn from_usize(value: usize) -> (r: IndexU8)
        requires
            value < u8::MAX as usize,
        ensures
            r.spec_get() == value as u8,
    {
        IndexU8::new(value as u8)
    }

    /// Converts a platform-size value into an index, reporting the "index too
    /// large" condition when the value does not fit the width or reaches the
    /// reserved maximum.
    pub fn checked_from_usize(value: usize) -> (r: Result<IndexU8, IndexTooLarge>)
        ensures
            r is Ok <==> value < u8::MAX as usize,
            r is Ok ==> r->Ok_0.spec_get() == value as u8,
    {
        if value < u8::MAX as usize {
            Ok(IndexU8::new(value as u8))
        } else {
            Err(index_too_large())
        }
    }

    /// Converts the index to the platform-size type.
    pub fn to_usize(self) -> (r: usize)
        ensures
            r == self.spec_get() as usize,
    {
        self.get() as usize
    }

    /// The decimal text of the semantic value; the raw shifted encoding is
    /// never rendered.
    pub fn to_decimal(self) -> (r: String)
        ensures
            r@ == crate::radix::spec_radix(self.spec_get() as nat, 10, false),
    {
        crate::radix::format_radix(self.get() as u64, 10, false)
    }

    /// The text of the semantic value in a base between two and sixteen.
    pub fn to_radix(self, base: u64, upper: bool) -> (r: String)
        requires
            2 <= base <= 16,
        ensures
            r@ == crate::radix::spec_radix(self.spec_get() as nat, base as nat, upper),
    {
        crate::radix::format_radix(self.get() as u64, base, upper)
    }
}

/// A platform-size value below the reserved maximum of the width survives the
/// round trip through an index unchanged.
pub proof fn lemma_usize_round_trip_u8(value: usize, i: IndexU8)
    requires
        value < u8::MAX as usize,
        i.spec_get() == value as u8,
    ensures
        i.spec_get() as usize == value,
{
}

impl core::ops::Add<u8> for IndexU8 {
    type Output = IndexU8;

    /// Adds a delta to the index; the sum must stay below the reserved
    /// maximum of the width.
    fn add(self, rhs: u8) -> (r: IndexU8)
        ensures
            r.spec_get() == self.spec_get() + rhs,
    {
        match self.0.checked_add(rhs) {
            Some(inner) => IndexU8(inner),
            None => vstd::pervasive::unreached(),
        }
    }
}

impl vstd::std_specs::ops::AddSpecImpl<u8> for IndexU8 {
    open spec fn obeys_add_spec() -> bool {
        false
    }

    open spec fn add_req(self, rhs: u8) -> bool {
        self.spec_get() + rhs < u8::MAX
    }

    open spec fn add_spec(self, rhs: u8) -> IndexU8 {
        self
    }
}

impl core::ops::Add<&u8> for IndexU8 {
    type Output = IndexU8;

    /// Reference-operand form of the addition; same contract as the owned
    /// form.
    fn add(self, rhs: &u8) -> (r: IndexU8)
        ensures
            r.spec_get() == self.spec_get() + *rhs,
    {
        self + *rhs
    }
}

impl vstd::std_specs::ops::AddSpecImpl<&u8> for IndexU8 {
    open spec fn obeys_add_spec() -> bool {
        false
    }

    open spec fn add_req(self, rhs: &u8) -> bool {
        self.spec_get() + *rhs < u8::MAX
    }

    open spec fn add_spec(self, rhs: &u8) -> IndexU8 {
        self
    }
}

impl core::ops::Add<u8> for &IndexU8 {
    type Output = IndexU8;

    /// Reference-operand form of the addition; same contract as the owned
    /// form.
    fn add(self, rhs: u8) -> (r: IndexU8)
        ensures
            r.spec_get() == self.spec_get() + rhs,
    {
        *self + rhs
    }
}

impl vstd::std_specs::ops::AddSpecImpl<u8> for &IndexU8 {
    open spec fn obeys_add_spec() -> bool {
        false
    }

    open spec fn add_req(self, rhs: u8) -> bool {
        self.spec_get() + rhs < u8::MAX
    }

    open spec fn add_spec(self, rhs: u8) -> IndexU8 {
        *self
    }
}

impl core::ops::Add<&u8> for &IndexU8 {
    type Output = IndexU8;

    /// Reference-operand form of the addition; same contract as the owned
    /// form.
    fn add(self, rhs: &u8) -> (r: IndexU8)
        ensures
            r.spec_get() == self.spec_get() + *rhs,
    {
        *self + *rhs
    }
}

impl vstd::std_specs::ops::AddSpecImpl<&u8> for &IndexU8 {
    open spec fn obeys_add_spec() -> bool {
        false
    }

    open spec fn add_req(self, rhs: &u8) -> bool {
        self.spec_get() + *rhs < u8::MAX
    }

    open spec fn add_spec(self, rhs: &u8) -> IndexU8 {
        *self
    }
}

impl PartialEq for IndexU8 {
    fn eq(&self, other: &IndexU8) -> (r: bool) {
        self.get() == other.get()
    }
}

impl vstd::std_specs::cmp::PartialEqSpecImpl for IndexU8 {
    open spec fn obeys_eq_spec() -> bool {
        true
    }

    open spec fn eq_spec(&self, other: &IndexU8) -> bool {
        self.spec_get() == other.spec_get()
    }
}

impl PartialOrd for IndexU8 {
    fn partial_cmp(&self, other: &IndexU8) -> (r: Option<core::cmp::Ordering>) {
        if self.get() < other.get() {
            Some(core::cmp::Ordering::Less)
        } else if self.get() == other.get() {
            Some(core::cmp::Ordering::Equal)
        } else {
            Some(core::cmp::Ordering::Greater)
        }
    }
}

impl vstd::std_specs::cmp::PartialOrdSpecImpl for IndexU8 {
    open spec fn obeys_partial_cmp_spec() -> bool {
        true
    }

    open spec fn partial_cmp_spec(&self, other: &IndexU8) -> Option<core::cmp::Ordering> {
        if self.spec_get() < other.spec_get() {
            Some(core::cmp::Ordering::Less)
        } else if self.spec_get() == other.spec_get() {
            Some(core::cmp::Ordering::Equal)
        } else {
            Some(core::cmp::Ordering::Greater)
        }
    }
}

/// A 16-bit index that cannot hold `u16::MAX`.
///
/// Same encoding as [`NonMaxU16`]: the value is stored shifted up by one, so
/// `Option<IndexU16>` occupies two bytes and `u16::MAX` is reserved to mean
/// absence.
#[derive(Clone, Copy, Eq, Hash, Ord)]
pub struct IndexU16(pub(crate) NonMaxU16);

impl IndexU16 {
    /// The semantic value this index stands for.
    pub closed spec fn spec_get(self) -> u16 {
        self.0.spec_get()
    }

    /// Creates an index. The maximum value of the width is reserved for
    /// absence and is not a valid index.
    pub fn new(value: u16) -> (r: IndexU16)
        requires
            value != u16::MAX,
        ensures
            r.spec_get() == value,
    {
        match NonMaxU16::new(value) {
            Some(inner) => IndexU16(inner),
            None => vstd::pervasive::unreached(),
        }
    }

    /// Creates an index, reporting the "index too large" condition when the
    /// value is the reserved maximum of the width.
    pub fn checked_new(value: u16) -> (r: Result<IndexU16, IndexTooLarge>)
        ensures
            r is Ok <==> value != u16::MAX,
            r is Ok ==> r->Ok_0.spec_get() == value,
    {
        match NonMaxU16::new(value) {
            Some(inner) => Ok(IndexU16(inner)),
            None => Err(index_too_large()),
        }
    }

    /// Returns the semantic value as the primitive type.
    pub fn get(self) -> (r: u16)
        ensures
            r == self.spec_get(),
    {
        self.0.get()
    }

    /// Adds a delta to the index, reporting the "index too large" condition
    /// when the sum overflows the width or reaches the reserved maximum.
    pub fn checked_add(self, rhs: u16) -> (r: Result<IndexU16, IndexTooLarge>)
        ensures
            r is Ok <==> self.spec_get() + rhs < u16::MAX,
            r is Ok ==> r->Ok_0.spec_get() == self.spec_get() + rhs,
    {
        match self.0.checked_add(rhs) {
            Some(inner) => Ok(IndexU16(inner)),
            None => Err(index_too_large()),
        }
    }

    /// Adds a delta in place; the sum must stay below the reserved maximum.
    pub fn add_assign(&mut self, rhs: u16)
        requires
            old(self).spec_get() + rhs < u16::MAX,
        ensures
            final(self).spec_get() == old(self).spec_get() + rhs,
    {
        *self = *self + rhs;
    }

    /// Converts a platform-size value into an index; the value must stay
    /// below the reserved maximum of the width.
    pub fn from_usize(value: usize) -> (r: IndexU16)
        requires
            value < u16::MAX as usize,
        ensures
            r.spec_get() == value as u16,
    {
        IndexU16::new(value as u16)
    }

    /// Converts a platform-size value into an index, reporting the "index too
    /// large" condition when the value does not fit the width or reaches the
    /// reserved maximum.
    pub fn checked_from_usize(value: usize) -> (r: Result<IndexU16, IndexTooLarge>)
        ensures
            r is Ok <==> value < u16::MAX as usize,
            r is Ok ==> r->Ok_0.spec_get() == value as u16,
    {
        if value < u16::MAX as usize {
            Ok(IndexU16::new(value as u16))
        } else {
            Err(index_too_large())
        }
    }

    /// Converts the index to the platform-size type.
    pub fn to_usize(self) -> (r: usize)
        ensures
            r == self.spec_get() as usize,
    {
        self.get() as usize
    }

    /// The decimal text of the semantic value; the raw shifted encoding is
    /// never rendered.
    pub fn to_decimal(self) -> (r: String)
        ensures
            r@ == crate::radix::spec_radix(self.spec_get() as nat, 10, false),
    {
        crate::radix::format_radix(self.get() as u64, 10, false)
    }

    /// The text of the semantic value in a base between two and sixteen.
    pub fn to_radix(self, base: u64, upper: bool) -> (r: String)
        requires
            2 <= base <= 16,
        ensures
            r@ == crate::radix::spec_radix(self.spec_get() as nat, base as nat, upper),
    {
        crate::radix::format_radix(self.get() as u64, base, upper)
    }
}

/// A platform-size value below the reserved maximum of the width survives the
/// round trip through an index unchanged.
pub proof fn lemma_usize_round_trip_u16(value: usize, i: IndexU16)
    requires
        value < u16::MAX as usize,
        i.spec_get() == value as u16,
    ensures
        i.spec_get() as usize == value,
{
}

impl core::ops::Add<u16> for IndexU16 {
    type Output = IndexU16;

    /// Adds a delta to the index; the sum must stay below the reserved
    /// maximum of the width.
    fn add(self, rhs: u16) -> (r: IndexU16)
        ensures
            r.spec_get() == self.spec_get() + rhs,
    {
        match self.0.checked_add(rhs) {
            Some(inner) => IndexU16(inner),
            None => vstd::pervasive::unreached(),
        }
    }
}

impl vstd::std_specs::ops::AddSpecImpl<u16> for IndexU16 {
    open spec fn obeys_add_spec() -> bool {
        false
    }

    open spec fn add_req(self, rhs: u16) -> bool {
        self.spec_get() + rhs < u16::MAX
    }

    open spec fn add_spec(self, rhs: u16) -> IndexU16 {
        self
    }
}

impl core::ops::Add<&u16> for IndexU16 {
    type Output = IndexU16;

    /// Reference-operand form of the addition; same contract as the owned
    /// form.
    fn add(self, rhs: &u16) -> (r: IndexU16)
        ensures
            r.spec_get() == self.spec_get() + *rhs,
    {
        self + *rhs
    }
}

impl vstd::std_specs::ops::AddSpecImpl<&u16> for IndexU16 {
    open spec fn obeys_add_spec() -> bool {
        false
    }

    open spec fn add_req(self, rhs: &u16) -> bool {
        self.spec_get() + *rhs < u16::MAX
    }

    open spec fn add_spec(self, rhs: &u16) -> IndexU16 {
        self
    }
}

impl core::ops::Add<u16> for &IndexU16 {
    type Output = IndexU16;

    /// Reference-operand form of the addition; same contract as the owned
    /// form.
    fn add(self, rhs: u16) -> (r: IndexU16)
        ensures
            r.spec_get() == self.spec_get() + rhs,
    {
        *self + rhs
    }
}

impl vstd::std_specs::ops::AddSpecImpl<u16> for &IndexU16 {
    open spec fn obeys_add_spec() -> bool {
        false
    }

    open spec fn add_req(self, rhs: u16) -> bool {
        self.spec_get() + rhs < u16::MAX
    }

    open spec fn add_spec(self, rhs: u16) -> IndexU16 {
        *self
    }
}

impl core::ops::Add<&u16> for &IndexU16 {
    type Output = IndexU16;

    /// Reference-operand form of the addition; same contract as the owned
    /// form.
    fn add(self, rhs: &u16) -> (r: IndexU16)
        ensures
            r.spec_get() == self.spec_get() + *rhs,
    {
        *self + *rhs
    }
}

impl vstd::std_specs::ops::AddSpecImpl<&u16> for &IndexU16 {
    open spec fn obeys_add_spec() -> bool {
        false
    }

    open spec fn add_req(self, rhs: &u16) -> bool {
        self.spec_get() + *rhs < u16::MAX
    }

    open spec fn add_spec(self, rhs: &u16) -> IndexU16 {
        *self
    }
}

impl PartialEq for IndexU16 {
    fn eq(&self, other: &IndexU16) -> (r: bool) {
        self.get() == other.get()
    }
}

impl vstd::std_specs::cmp::PartialEqSpecImpl for IndexU16 {
    open spec fn obeys_eq_spec() -> bool {
        true
    }

    open spec fn eq_spec(&self, other: &IndexU16) -> bool {
        self.spec_get() == other.spec_get()
    }
}

impl PartialOrd for IndexU16 {
    fn partial_cmp(&self, other: &IndexU16) -> (r: Option<core::cmp::Ordering>) {
        if self.get() < other.get() {
            Some(core::cmp::Ordering::Less)
        } else if self.get() == other.get() {
            Some(core::cmp::Ordering::Equal)
        } else {
            Some(core::cmp::Ordering::Greater)
        }
    }
}

impl vstd::std_specs::cmp::PartialOrdSpecImpl for IndexU16 {
    open spec fn obeys_partial_cmp_spec() -> bool {
        true
    }

    open spec fn partial_cmp_spec(&self, other: &IndexU16) -> Option<core::cmp::Ordering> {
        if self.spec_get() < other.spec_get() {
            Some(core::cmp::Ordering::Less)
        } else if self.spec_get() == other.spec_get() {
            Some(core::cmp::Ordering::Equal)
        } else {
            Some(core::cmp::Ordering::Greater)
        }
    }
}

/// A 32-bit index that cannot hold `u32::MAX`.
///
/// Same encoding as [`NonMaxU32`]: the value is stored shifted up by one, so
/// `Option<IndexU32>` occupies four bytes and `u32::MAX` is reserved to mean
/// absence.
#[derive(Clone, Copy, Eq, Hash, Ord)]
pub struct IndexU32(pub(crate) NonMaxU32);

impl IndexU32 {
    /// The semantic value this index stands for.
    pub closed spec fn spec_get(self) -> u32 {
        self.0.spec_get()
    }

    /// Creates an index. The maximum value of the width is reserved for
    /// absence and is not a valid index.
    pub fn new(value: u32) -> (r: IndexU32)
        requires
            value != u32::MAX,
        ensures
            r.spec_get() == value,
    {
        match NonMaxU32::new(value) {
            Some(inner) => IndexU32(inner),
            None => vstd::pervasive::unreached(),
        }
    }

    /// Creates an index, reporting the "index too large" condition when the
    /// value is the reserved maximum of the width.
    pub fn checked_new(value: u32) -> (r: Result<IndexU32, IndexTooLarge>)
        ensures
            r is Ok <==> value != u32::MAX,
            r is Ok ==> r->Ok_0.spec_get() == value,
    {
        match NonMaxU32::new(value) {
            Some(inner) => Ok(IndexU32(inner)),
            None => Err(index_too_large()),
        }
    }

    /// Returns the semantic value as the primitive type.
    pub fn get(self) -> (r: u32)
        ensures
            r == self.spec_get(),
    {
        self.0.get()
    }

    /// Adds a delta to the index, reporting the "index too large" condition
    /// when the sum overflows the width or reaches the reserved maximum.
    pub fn checked_add(self, rhs: u32) -> (r: Result<IndexU32, IndexTooLarge>)
        ensures
            r is Ok <==> self.spec_get() + rhs < u32::MAX,
            r is Ok ==> r->Ok_0.spec_get() == self.spec_get() + rhs,
    {
        match self.0.checked_add(rhs) {
            Some(inner) => Ok(IndexU32(inner)),
            None => Err(index_too_large()),
        }
    }

    /// Adds a delta in place; the sum must stay below the reserved maximum.
    pub fn add_assign(&mut self, rhs: u32)
        requires
            old(self).spec_get() + rhs < u32::MAX,
        ensures
            final(self).spec_get() == old(self).spec_get() + rhs,
    {
        *self = *self + rhs;
    }

    /// Converts a platform-size value into an index; the value must stay
    /// below the reserved maximum of the width.
    pub fn from_usize(value: usize) -> (r: IndexU32)
        requires
            value < u32::MAX as usize,
        ensures
            r.spec_get() == value as u32,
    {
        IndexU32::new(value as u32)
    }

    /// Converts a platform-size value into an index, reporting the "index too
    /// large" condition when the value does not fit the width or reaches the
    /// reserved maximum.
    pub fn checked_from_usize(value: usize) -> (r: Result<IndexU32, IndexTooLarge>)
        ensures
            r is Ok <==> value < u32::MAX as usize,
            r is Ok ==> r->Ok_0.spec_get() == value as u32,
    {
        if value < u32::MAX as usize {
            Ok(IndexU32::new(value as u32))
        } else {
            Err(index_too_large())
        }
    }

    /// Converts the index to the platform-size type.
    pub fn to_usize(self) -> (r: usize)
        ensures
            r == self.spec_get() as usize,
    {
        self.get() as usize
    }

    /// The decimal text of the semantic value; the raw shifted encoding is
    /// never rendered.
    pub fn to_decimal(self) -> (r: String)
        ensures
            r@ == crate::radix::spec_radix(self.spec_get() as nat, 10, false),
    {
        crate::radix::format_radix(self.get() as u64, 10, false)
    }

    /// The text of the semantic value in a base between two and sixteen.
    pub fn to_radix(self, base: u64, upper: bool) -> (r: String)
        requires
            2 <= base <= 16,
        ensures
            r@ == crate::radix::spec_radix(self.spec_get() as nat, base as nat, upper),
    {
        crate::radix::format_radix(self.get() as u64, base, upper)
    }
}

/// A platform-size value below the reserved maximum of the width survives the
/// round trip through an index unchanged.
pub proof fn lemma_usize_round_trip_u32(value: usize, i: IndexU32)
    requires
        value < u32::MAX as usize,
        i.spec_get() == value as u32,
    ensures
        i.spec_get() as usize == value,
{
}

impl core::ops::Add<u32> for IndexU32 {
    type Output = IndexU32;

    /// Adds a delta to the index; the sum must stay below the reserved
    /// maximum of the width.
    fn add(self, rhs: u32) -> (r: IndexU32)
        ensures
            r.spec_get() == self.spec_get() + rhs,
    {
        match self.0.checked_add(rhs) {
            Some(inner) => IndexU32(inner),
            None => vstd::pervasive::unreached(),
        }
    }
}

impl vstd::std_specs::ops::AddSpecImpl<u32> for IndexU32 {
    open spec fn obeys_add_spec() -> bool {
        false
    }

    open spec fn add_req(self, rhs: u32) -> bool {
        self.spec_get() + rhs < u32::MAX
    }

    open spec fn add_spec(self, rhs: u32) -> IndexU32 {
        self
    }
}

impl core::ops::Add<&u32> for IndexU32 {
    type Output = IndexU32;

    /// Reference-operand form of the addition; same contract as the owned
    /// form.
    fn add(self, rhs: &u32) -> (r: IndexU32)
        ensures
            r.spec_get() == self.spec_get() + *rhs,
    {
        self + *rhs
    }
}

impl vstd::std_specs::ops::AddSpecImpl<&u32> for IndexU32 {
    open spec fn obeys_add_spec() -> bool {
        false
    }

    open spec fn add_req(self, rhs: &u32) -> bool {
        self.spec_get() + *rhs < u32::MAX
    }

    open spec fn add_spec(self, rhs: &u32) -> IndexU32 {
        self
    }
}

impl core::ops::Add<u32> for &IndexU32 {
    type Output = IndexU32;

    /// Reference-operand form of the addition; same contract as the owned
    /// form.
    fn add(self, rhs: u32) -> (r: IndexU32)
        ensures
            r.spec_get() == self.spec_get() + rhs,
    {
        *self + rhs
    }
}

impl vstd::std_specs::ops::AddSpecImpl<u32> for &IndexU32 {
    open spec fn obeys_add_spec() -> bool {
        false
    }

    open spec fn add_req(self, rhs: u32) -> bool {
        self.spec_get() + rhs < u32::MAX
    }

    open spec fn add_spec(self, rhs: u32) -> IndexU32 {
        *self
    }
}

impl core::ops::Add<&u32> for &IndexU32 {
    type Output = IndexU32;

    /// Reference-operand form of the addition; same contract as the owned
    /// form.
    fn add(self, rhs: &u32) -> (r: IndexU32)
        ensures
            r.spec_get() == self.spec_get() + *rhs,
    {
        *self + *rhs
    }
}

impl vstd::std_specs::ops::AddSpecImpl<&u32> for &IndexU32 {
    open spec fn obeys_add_spec() -> bool {
        false
    }

    open spec fn add_req(self, rhs: &u32) -> bool {
        self.spec_get() + *rhs < u32::MAX
    }

    open spec fn add_spec(self, rhs: &u32) -> IndexU32 {
        *self
    }
}

impl PartialEq for IndexU32 {
    fn eq(&self, other: &IndexU32) -> (r: bool) {
        self.get() == other.get()
    }
}

impl vstd::std_specs::cmp::PartialEqSpecImpl for IndexU32 {
    open spec fn obeys_eq_spec() -> bool {
        true
    }

    open spec fn eq_spec(&self, other: &IndexU32) -> bool {
        self.spec_get() == other.spec_get()
    }
}

impl PartialOrd for IndexU32 {
    fn partial_cmp(&self, other: &IndexU32) -> (r: Option<core::cmp::Ordering>) {
        if self.get() < other.get() {
            Some(core::cmp::Ordering::Less)
        } else if self.get() == other.get() {
            Some(core::cmp::Ordering::Equal)
        } else {
            Some(core::cmp::Ordering::Greater)
        }
    }
}

impl vstd::std_specs::cmp::PartialOrdSpecImpl for IndexU32 {
    open spec fn obeys_partial_cmp_spec() -> bool {
        true
    }

    open spec fn partial_cmp_spec(&self, other: &IndexU32) -> Option<core::cmp::Ordering> {
        if self.spec_get() < other.spec_get() {
            Some(core::cmp::Ordering::Less)
        } else if self.spec_get() == other.spec_get() {
            Some(core::cmp::Ordering::Equal)
        } else {
            Some(core::cmp::Ordering::Greater)
        }
    }
}

/// A 64-bit index that cannot hold `u64::MAX`.
///
/// Same encoding as [`NonMaxU64`]: the value is stored shifted up by one, so
/// `Option<IndexU64>` occupies eight bytes and `u64::MAX` is reserved to mean
/// absence.
#[derive(Clone, Copy, Eq, Hash, Ord)]
pub struct IndexU64(pub(crate) NonMaxU64);

impl IndexU64 {
    /// The semantic value this index stands for.
    pub closed spec fn spec_get(self) -> u64 {
        self.0.spec_get()
    }

    /// Creates an index. The maximum value of the width is reserved for
    /// absence and is not a valid index.
    pub fn new(value: u64) -> (r: IndexU64)
        requires
            value != u64::MAX,
        ensures
            r.spec_get() == value,
    {
        match NonMaxU64::new(value) {
            Some(inner) => IndexU64(inner),
            None => vstd::pervasive::unreached(),
        }
    }

    /// Creates an index, reporting the "index too large" condition when the
    /// value is the reserved maximum of the width.
    pub fn checked_new(value: u64) -> (r: Result<IndexU64, IndexTooLarge>)
        ensures
            r is Ok <==> value != u64::MAX,
            r is Ok ==> r->Ok_0.spec_get() == value,
    {
        match NonMaxU64::new(value) {
            Some(inner) => Ok(IndexU64(inner)),
            None => Err(index_too_large()),
        }
    }

    /// Returns the semantic value as the primitive type.
    pub fn get(self) -> (r: u64)
        ensures
            r == self.spec_get(),
    {
        self.0.get()
    }

    /// Adds a delta to the index, reporting the "index too large" condition
    /// when the sum overflows the width or reaches the reserved maximum.
    pub fn checked_add(self, rhs: u64) -> (r: Result<IndexU64, IndexTooLarge>)
        ensures
            r is Ok <==> self.spec_get() + rhs < u64::MAX,
            r is Ok ==> r->Ok_0.spec_get() == self.spec_get() + rhs,
    {
        match self.0.checked_add(rhs) {
            Some(inner) => Ok(IndexU64(inner)),
            None => Err(index_too_large()),
        }
    }

    /// Adds a delta in place; the sum must stay below the reserved maximum.
    pub fn add_assign(&mut self, rhs: u64)
        requires
            old(self).spec_get() + rhs < u64::MAX,
        ensures
            final(self).spec_get() == old(self).spec_get() + rhs,
    {
        *self = *self + rhs;
    }

    /// Converts a platform-size value into an index. A platform-size value
    /// always fits this width, so only the reserved maximum is rejected.
    pub fn from_usize(value: usize) -> (r: IndexU64)
        requires
            value as u64 != u64::MAX,
        ensures
            r.spec_get() == value as u64,
    {
        IndexU64::new(value as u64)
    }

    /// Converts a platform-size value into an index, reporting the "index too
    /// large" condition when the value reaches the reserved maximum.
    pub fn checked_from_usize(value: usize) -> (r: Result<IndexU64, IndexTooLarge>)
        ensures
            r is Ok <==> value as u64 != u64::MAX,
            r is Ok ==> r->Ok_0.spec_get() == value as u64,
    {
        let v = value as u64;
        if v != u64::MAX {
            Ok(IndexU64::new(v))
        } else {
            Err(index_too_large())
        }
    }

    /// Converts the index to the platform-size type; the value must fit it.
    pub fn to_usize(self) -> (r: usize)
        requires
            self.spec_get() <= usize::MAX,
        ensures
            r == self.spec_get() as usize,
    {
        self.get() as usize
    }

    /// Converts the index to the platform-size type, reporting the "index too
    /// large" condition when the value does not fit it.
    pub fn checked_to_usize(self) -> (r: Result<usize, IndexTooLarge>)
        ensures
            r is Ok <==> self.spec_get() <= usize::MAX,
            r is Ok ==> r->Ok_0 == self.spec_get() as usize,
    {
        let g = self.get();
        if g <= usize::MAX as u64 {
            Ok(g as usize)
        } else {
            Err(index_too_large())
        }
    }

    /// The decimal text of the semantic value; the raw shifted encoding is
    /// never rendered.
    pub fn to_decimal(self) -> (r: String)
        ensures
            r@ == crate::radix::spec_radix(self.spec_get() as nat, 10, false),
    {
        crate::radix::format_radix(self.get(), 10, false)
    }

    /// The text of the semantic value in a base between two and sixteen.
    pub fn to_radix(self, base: u64, upper: bool) -> (r: String)
        requires
            2 <= base <= 16,
        ensures
            r@ == crate::radix::spec_radix(self.spec_get() as nat, base as nat, upper),
    {
        crate::radix::format_radix(self.get(), base, upper)
    }
}

/// A platform-size value below the reserved maximum of the width survives the
/// round trip through an index unchanged.
pub proof fn lemma_usize_round_trip_u64(value: usize, i: IndexU64)
    requires
        value as u64 != u64::MAX,
        i.spec_get() == value as u64,
    ensures
        i.spec_get() as usize == value,
{
}

impl core::ops::Add<u64> for IndexU64 {
    type Output = IndexU64;

    /// Adds a delta to the index; the sum must stay below the reserved
    /// maximum of the width.
    fn add(self, rhs: u64) -> (r: IndexU64)
        ensures
            r.spec_get() == self.spec_get() + rhs,
    {
        match self.0.checked_add(rhs) {
            Some(inner) => IndexU64(inner),
            None => vstd::pervasive::unreached(),
        }
    }
}

impl vstd::std_specs::ops::AddSpecImpl<u64> for IndexU64 {
    open spec fn obeys_add_spec() -> bool {
        false
    }

    open spec fn add_req(self, rhs: u64) -> bool {
        self.spec_get() + rhs < u64::MAX
    }

    open spec fn add_spec(self, rhs: u64) -> IndexU64 {
        self
    }
}

impl core::ops::Add<&u64> for IndexU64 {
    type Output = IndexU64;

    /// Reference-operand form of the addition; same contract as the owned
    /// form.
    fn add(self, rhs: &u64) -> (r: IndexU64)
        ensures
            r.spec_get() == self.spec_get() + *rhs,
    {
        self + *rhs
    }
}

impl vstd::std_specs::ops::AddSpecImpl<&u64> for IndexU64 {
    open spec fn obeys_add_spec() -> bool {
        false
    }

    open spec fn add_req(self, rhs: &u64) -> bool {
        self.spec_get() + *rhs < u64::MAX
    }

    open spec fn add_spec(self, rhs: &u64) -> IndexU64 {
        self
    }
}

impl core::ops::Add<u64> for &IndexU64 {
    type Output = IndexU64;

    /// Reference-operand form of the addition; same contract as the owned
    /// form.
    fn add(self, rhs: u64) -> (r: IndexU64)
        ensures
            r.spec_get() == self.spec_get() + rhs,
    {
        *self + rhs
    }
}

impl vstd::std_specs::ops::AddSpecImpl<u64> for &IndexU64 {
    open spec fn obeys_add_spec() -> bool {
        false
    }

    open spec fn add_req(self, rhs: u64) -> bool {
        self.spec_get() + rhs < u64::MAX
    }

    open spec fn add_spec(self, rhs: u64) -> IndexU64 {
        *self
    }
}

impl core::ops::Add<&u64> for &IndexU64 {
    type Output = IndexU64;

    /// Reference-operand form of the addition; same contract as the owned
    /// form.
    fn add(self, rhs: &u64) -> (r: IndexU64)
        ensures
            r.spec_get() == self.spec_get() + *rhs,
    {
        *self + *rhs
    }
}

impl vstd::std_specs::ops::AddSpecImpl<&u64> for &IndexU64 {
    open spec fn obeys_add_spec() -> bool {
        false
    }

    open spec fn add_req(self, rhs: &u64) -> bool {
        self.spec_get() + *rhs < u64::MAX
    }

    open spec fn add_spec(self, rhs: &u64) -> IndexU64 {
        *self
    }
}

impl PartialEq for IndexU64 {
    fn eq(&self, other: &IndexU64) -> (r: bool) {
        self.get() == other.get()
    }
}

impl vstd::std_specs::cmp::PartialEqSpecImpl for IndexU64 {
    open spec fn obeys_eq_spec() -> bool {
        true
    }

    open spec fn eq_spec(&self, other: &IndexU64) -> bool {
        self.spec_get() == other.spec_get()
    }
}

impl PartialOrd for IndexU64 {
    fn partial_cmp(&self, other: &IndexU64) -> (r: Option<core::cmp::Ordering>) {
        if self.get() < other.get() {
            Some(core::cmp::Ordering::Less)
        } else if self.get() == other.get() {
            Some(core::cmp::Ordering::Equal)
        } else {
            Some(core::cmp::Ordering::Greater)
        }
    }
}

impl vstd::std_specs::cmp::PartialOrdSpecImpl for IndexU64 {
    open spec fn obeys_partial_cmp_spec() -> bool {
        true
    }

    open spec fn partial_cmp_spec(&self, other: &IndexU64) -> Option<core::cmp::Ordering> {
        if self.spec_get() < other.spec_get() {
            Some(core::cmp::Ordering::Less)
        } else if self.spec_get() == other.spec_get() {
            Some(core::cmp::Ordering::Equal)
        } else {
            Some(core::cmp::Ordering::Greater)
        }
    }
}

/// A platform-size index that cannot hold `usize::MAX`.
///
/// Same encoding as [`NonMaxUsize`]: the value is stored shifted up by one, so
/// `Option<IndexUsize>` occupies as much as a bare platform-size integer and
/// `usize::MAX` is reserved to mean absence.
#[derive(Clone, Copy, Eq, Hash, Ord)]
pub struct IndexUsize(pub(crate) NonMaxUsize);

impl IndexUsize {
    /// The semantic value this index stands for.
    pub closed spec fn spec_get(self) -> usize {
        self.0.spec_get()
    }

    /// Creates an index. The maximum value of the width is reserved for
    /// absence and is not a valid index.
    pub fn new(value: usize) -> (r: IndexUsize)
        requires
            value != usize::MAX,
        ensures
            r.spec_get() == value,
    {
        match NonMaxUsize::new(value) {
            Some(inner) => IndexUsize(inner),
            None => vstd::pervasive::unreached(),
        }
    }

    /// Creates an index, reporting the "index too large" condition when the
    /// value is the reserved maximum of the width.
    pub fn checked_new(value: usize) -> (r: Result<IndexUsize, IndexTooLarge>)
        ensures
            r is Ok <==> value != usize::MAX,
            r is Ok ==> r->Ok_0.spec_get() == value,
    {
        match NonMaxUsize::new(value) {
            Some(inner) => Ok(IndexUsize(inner)),
            None => Err(index_too_large()),
        }
    }

    /// Returns the semantic value as the primitive type.
    pub fn get(self) -> (r: usize)
        ensures
            r == self.spec_get(),
    {
        self.0.get()
    }

    /// Adds a delta to the index, reporting the "index too large" condition
    /// when the sum overflows the width or reaches the reserved maximum.
    pub fn checked_add(self, rhs: usize) -> (r: Result<IndexUsize, IndexTooLarge>)
        ensures
            r is Ok <==> self.spec_get() + rhs < usize::MAX,
            r is Ok ==> r->Ok_0.spec_get() == self.spec_get() + rhs,
    {
        match self.0.checked_add(rhs) {
            Some(inner) => Ok(IndexUsize(inner)),
            None => Err(index_too_large()),
        }
    }

    /// Adds a delta in place; the sum must stay below the reserved maximum.
    pub fn add_assign(&mut self, rhs: usize)
        requires
            old(self).spec_get() + rhs < usize::MAX,
        ensures
            final(self).spec_get() == old(self).spec_get() + rhs,
    {
        *self = *self + rhs;
    }

    /// Converts a platform-size value into an index; the reserved maximum is
    /// rejected.
    pub fn from_usize(value: usize) -> (r: IndexUsize)
        requires
            value != usize::MAX,
        ensures
            r.spec_get() == value,
    {
        IndexUsize::new(value)
    }

    /// Converts a platform-size value into an index, reporting the "index too
    /// large" condition when the value reaches the reserved maximum.
    pub fn checked_from_usize(value: usize) -> (r: Result<IndexUsize, IndexTooLarge>)
        ensures
            r is Ok <==> value != usize::MAX,
            r is Ok ==> r->Ok_0.spec_get() == value,
    {
        IndexUsize::checked_new(value)
    }

    /// Converts the index to the platform-size type.
    pub fn to_usize(self) -> (r: usize)
        ensures
            r == self.spec_get(),
    {
        self.get()
    }

    /// The decimal text of the semantic value; the raw shifted encoding is
    /// never rendered.
    pub fn to_decimal(self) -> (r: String)
        ensures
            r@ == crate::radix::spec_radix(self.spec_get() as nat, 10, false),
    {
        crate::radix::format_radix(self.get() as u64, 10, false)
    }

    /// The text of the semantic value in a base between two and sixteen.
    pub fn to_radix(self, base: u64, upper: bool) -> (r: String)
        requires
            2 <= base <= 16,
        ensures
            r@ == crate::radix::spec_radix(self.spec_get() as nat, base as nat, upper),
    {
        crate::radix::format_radix(self.get() as u64, base, upper)
    }
}

impl core::ops::Add<usize> for IndexUsize {
    type Output = IndexUsize;

    /// Adds a delta to the index; the sum must stay below the reserved
    /// maximum of the width.
    fn add(self, rhs: usize) -> (r: IndexUsize)
        ensures
            r.spec_get() == self.spec_get() + rhs,
    {
        match self.0.checked_add(rhs) {
            Some(inner) => IndexUsize(inner),
            None => vstd::pervasive::unreached(),
        }
    }
}

impl vstd::std_specs::ops::AddSpecImpl<usize> for IndexUsize {
    open spec fn obeys_add_spec() -> bool {
        false
    }

    open spec fn add_req(self, rhs: usize) -> bool {
        self.spec_get() + rhs < usize::MAX
    }

    open spec fn add_spec(self, rhs: usize) -> IndexUsize {
        self
    }
}

impl core::ops::Add<&usize> for IndexUsize {
    type Output = IndexUsize;

    /// Reference-operand form of the addition; same contract as the owned
    /// form.
    fn add(self, rhs: &usize) -> (r: IndexUsize)
        ensures
            r.spec_get() == self.spec_get() + *rhs,
    {
        self + *rhs
    }
}

impl vstd::std_specs::ops::AddSpecImpl<&usize> for IndexUsize {
    open spec fn obeys_add_spec() -> bool {
        false
    }

    open spec fn add_req(self, rhs: &usize) -> bool {
        self.spec_get() + *rhs < usize::MAX
    }

    open spec fn add_spec(self, rhs: &usize) -> IndexUsize {
        self
    }
}

impl core::ops::Add<usize> for &IndexUsize {
    type Output = IndexUsize;

    /// Reference-operand form of the addition; same contract as the owned
    /// form.
    fn add(self, rhs: usize) -> (r: IndexUsize)
        ensures
            r.spec_get() == self.spec_get() + rhs,
    {
        *self + rhs
    }
}

impl vstd::std_specs::ops::AddSpecImpl<usize> for &IndexUsize {
    open spec fn obeys_add_spec() -> bool {
        false
    }

    open spec fn add_req(self, rhs: usize) -> bool {
        self.spec_get() + rhs < usize::MAX
    }

    open spec fn add_spec(self, rhs: usize) -> IndexUsize {
        *self
    }
}

impl core::ops::Add<&usize> for &IndexUsize {
    type Output = IndexUsize;

    /// Reference-operand form of the addition; same contract as the owned
    /// form.
    fn add(self, rhs: &usize) -> (r: IndexUsize)
        ensures
            r.spec_get() == self.spec_get() + *rhs,
    {
        *self + *rhs
    }
}

impl vstd::std_specs::ops::AddSpecImpl<&usize> for &IndexUsize {
    open spec fn obeys_add_spec() -> bool {
        false
    }

    open spec fn add_req(self, rhs: &usize) -> bool {
        self.spec_get() + *rhs < usize::MAX
    }

    open spec fn add_spec(self, rhs: &usize) -> IndexUsize {
        *self
    }
}

impl PartialEq for IndexUsize {
    fn eq(&self, other: &IndexUsize) -> (r: bool) {
        self.get() == other.get()
    }
}

impl vstd::std_specs::cmp::PartialEqSpecImpl for IndexUsize {
    open spec fn obeys_eq_spec() -> bool {
        true
    }

    open spec fn eq_spec(&self, other: &IndexUsize) -> bool {
        self.spec_get() == other.spec_get()
    }
}

impl PartialOrd for IndexUsize {
    fn partial_cmp(&self, other: &IndexUsize) -> (r: Option<core::cmp::Ordering>) {
        if self.get() < other.get() {
            Some(core::cmp::Ordering::Less)
        } else if self.get() == other.get() {
            Some(core::cmp::Ordering::Equal)
        } else {
            Some(core::cmp::Ordering::Greater)
        }
    }
}

impl vstd::std_specs::cmp::PartialOrdSpecImpl for IndexUsize {
    open spec fn obeys_partial_cmp_spec() -> bool {
        true
    }

    open spec fn partial_cmp_spec(&self, other: &IndexUsize) -> Option<core::cmp::Ordering> {
        if self.spec_get() < other.spec_get() {
            Some(core::cmp::Ordering::Less)
        } else if self.spec_get() == other.spec_get() {
            Some(core::cmp::Ordering::Equal)
        } else {
            Some(core::cmp::Ordering::Greater)
        }
    }
}

} // verus!
