//! Event identifiers: a 64-bit value holding a 16-bit category above a
//! 48-bit resource index.

use crate::error::EngineError;
use vstd::prelude::*;

verus! {

/// Number of distinct resource indices: an index is valid below this bound.
pub const IDX_LIMIT: u64 = 0x1_0000_0000_0000;

/// The bits of an identifier that hold the resource index.
pub const IDX_MASK: u64 = 0xFFFF_FFFF_FFFF;

/// The category tag held in the upper 16 bits of an identifier.
pub open spec fn category_of(raw: u64) -> int {
    raw as int / IDX_LIMIT as int
}

/// The resource index held in the lower 48 bits of an identifier.
pub open spec fn idx_of(raw: u64) -> int {
    raw as int % IDX_LIMIT as int
}

/// The identifier that holds `category` above `idx`.
pub open spec fn pack(category: int, idx: int) -> int {
    category * IDX_LIMIT as int + idx
}

/// What an event is about. The tag of a category is its position in this
/// list, counted from zero.
#[derive(Clone, Copy, Debug, PartialEq, Eq, Structural)]
pub enum Category {
    /// An operation whose completion asks for nothing further. The index is
    /// not used.
    Single,
    /// An accept on a listening socket. The index is that of the listener in
    /// the registry.
    BindAccept,
}

/// `num_traits::ToPrimitive::to_u16` on a `u64`: the same number as a `u16`
/// where it is at most `u16::MAX`, and nothing where it is larger.
#[verifier::external_body]
fn u64_to_u16(value: u64) -> (narrowed: Option<u16>)
    ensures
        value <= u16::MAX ==> narrowed == Some(value as u16),
        value > u16::MAX ==> narrowed is None,
{
    num_traits::ToPrimitive::to_u16(&value)
}

impl Category {
    /// The tag that stands for this category inside an identifier.
    pub open spec fn tag(self) -> int {
        match self {
            Category::Single => 0,
            Category::BindAccept => 1,
        }
    }

    /// The category that a tag stands for, if any.
    pub open spec fn from_tag(tag: int) -> Option<Category> {
        if tag == 0 {
            Some(Category::Single)
        } else if tag == 1 {
            Some(Category::BindAccept)
        } else {
            None
        }
    }

    /// The tag of this category.
    pub fn to_u64(self) -> (tag: u64)
        ensures
            tag == self.tag(),
    {
        match self {
            Category::Single => 0,
            Category::BindAccept => 1,
        }
    }

    /// The tag of this category in the width an identifier gives it. Every
    /// category has one.
    pub fn to_u16(self) -> (tag: Option<u16>)
        ensures
            tag matches Some(t) && t == self.tag(),
    {
        u64_to_u16(self.to_u64())
    }

    /// The category with the given tag, or `None` where no category has it.
    pub fn from_u64(tag: u64) -> (category: Option<Category>)
        ensures
            category == Category::from_tag(tag as int),
    {
        if tag == 0 {
            Some(Category::Single)
        } else if tag == 1 {
            Some(Category::BindAccept)
        } else {
            None
        }
    }
}

/// An opaque 64-bit event identifier.
#[derive(Clone, Copy, Debug, PartialEq, Eq, Structural)]
pub struct Token(pub u64);

impl Default for Token {
    /// The identifier of category `Single` and index zero.
    fn default() -> (token: Token)
        ensures
            token.0 == 0,
    {
        Token(0)
    }
}

impl Token {
    /// The raw category tag, which need not belong to any `Category`.
    pub fn category(self) -> (tag: u64)
        ensures
            tag == category_of(self.0),
            tag <= u16::MAX,
    {
        let raw: u64 = self.0;
        assert(raw >> 48 == raw / 0x1_0000_0000_0000 && raw >> 48 <= 0xFFFF) by (bit_vector);
        raw >> 48
    }

    /// The resource index.
    pub fn idx(self) -> (idx: u64)
        ensures
            idx == idx_of(self.0),
            idx < IDX_LIMIT,
    {
        let raw: u64 = self.0;
        assert(raw & 0xFFFF_FFFF_FFFF == raw % 0x1_0000_0000_0000) by (bit_vector);
        raw & IDX_MASK
    }

    /// Replaces the resource index and keeps the category. An index of
    /// 2^48 or more is refused and leaves the identifier as it was.
    pub fn set_idx(&mut self, idx: u64) -> (r: Result<(), EngineError>)
        ensures
            idx < IDX_LIMIT ==> r is Ok && final(self).0 == pack(category_of(old(self).0), idx as int),
            idx >= IDX_LIMIT ==> r == Err::<(), EngineError>(EngineError::IndexRange { idx })
                && *final(self) == *old(self),
    {
        if idx >= IDX_LIMIT {
            return Err(EngineError::IndexRange { idx });
        }
        let raw: u64 = self.0;
        assert((raw & !0xFFFF_FFFF_FFFFu64) | idx == (raw / 0x1_0000_0000_0000) * 0x1_0000_0000_0000
            + idx) by (bit_vector)
            requires
                idx < 0x1_0000_0000_0000u64,
        ;
        self.0 = (raw & !IDX_MASK) | idx;
        Ok(())
    }

    /// Replaces the category and keeps the resource index.
    pub fn set_category(&mut self, category: Category)
        ensures
            final(self).0 == pack(category.tag(), idx_of(old(self).0)),
    {
        let tag: u16 = match category.to_u16() {
            Some(tag) => tag,
            None => unreached(),
        };
        self.set_category_raw(tag);
    }

    /// Replaces the category by a raw tag and keeps the resource index.
    pub fn set_category_raw(&mut self, category: u16)
        ensures
            final(self).0 == pack(category as int, idx_of(old(self).0)),
    {
        let raw: u64 = self.0;
        assert(((category as u64) << 48) | (raw & 0xFFFF_FFFF_FFFF) == (category as u64)
            * 0x1_0000_0000_0000 + raw % 0x1_0000_0000_0000) by (bit_vector);
        self.0 = ((category as u64) << 48) | (raw & IDX_MASK);
    }

    /// The identifier of `category` and `idx`, or a range error where `idx`
    /// is 2^48 or more.
    pub fn encode(category: Category, idx: u64) -> (r: Result<Token, EngineError>)
        ensures
            idx < IDX_LIMIT ==> (r matches Ok(token) && token.0 == pack(category.tag(), idx as int)),
            idx >= IDX_LIMIT ==> r == Err::<Token, EngineError>(EngineError::IndexRange { idx }),
    {
        let mut token = Token::default();
        token.set_category(category);
        match token.set_idx(idx) {
            Ok(()) => Ok(token),
            Err(e) => Err(e),
        }
    }

    /// The raw category tag and the resource index of this identifier.
    pub fn decode(self) -> (parts: (u16, u64))
        ensures
            parts.0 == category_of(self.0),
            parts.1 == idx_of(self.0),
    {
        (self.category() as u16, self.idx())
    }
}

/// Decoding inverts encoding: the identifier of a category and an index
/// below 2^48 fits 64 bits, and its two parts are the tag of that category,
/// which names no other, and that index.
pub proof fn law_decode_encode(category: Category, idx: u64)
    requires
        idx < IDX_LIMIT,
    ensures
        0 <= pack(category.tag(), idx as int) <= u64::MAX,
        category_of(pack(category.tag(), idx as int) as u64) == category.tag(),
        idx_of(pack(category.tag(), idx as int) as u64) == idx,
        Category::from_tag(category_of(pack(category.tag(), idx as int) as u64)) == Some(category),
{
}

/// The same holds of raw tags: unpacking a packed identifier gives back the
/// tag and the index that went in, whenever the index is below 2^48.
pub proof fn law_unpack_pack(category: u16, idx: u64)
    requires
        idx < IDX_LIMIT,
    ensures
        0 <= pack(category as int, idx as int) <= u64::MAX,
        category_of(pack(category as int, idx as int) as u64) == category,
        idx_of(pack(category as int, idx as int) as u64) == idx,
{
}

/// Every identifier is made of a tag of 16 bits and an index of 48 bits, and
/// packing the two gives back the identifier.
pub proof fn law_pack_unpack(raw: u64)
    ensures
        0 <= category_of(raw) <= u16::MAX,
        0 <= idx_of(raw) < IDX_LIMIT,
        pack(category_of(raw), idx_of(raw)) == raw,
{
}

/// A category is found again from its own tag, and a tag that names a
/// category is that category's tag.
pub proof fn law_category_tag(category: Category, tag: int)
    ensures
        Category::from_tag(category.tag()) == Some(category),
        Category::from_tag(tag) == Some(category) ==> tag == category.tag(),
{
}

} // verus!
