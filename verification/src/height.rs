//! Heights of a chain: a revision number and a height within that revision.

use core::cmp::Ordering;
use vstd::prelude::*;
use vstd::std_specs::cmp::PartialOrdSpecImpl;

use crate::error::ClientError;

verus! {

/// A position on a chain. Heights are ordered by revision number first and by
/// the height within the revision second.
#[derive(Clone, Copy, Debug, PartialEq, Eq, Structural, Hash)]
pub struct Height {
    /// Previously known as "epoch".
    pub revision_number: u64,
    /// The height of a block within the revision.
    pub revision_height: u64,
}

/// A height as it arrives over the wire: two numbers, of which neither has
/// been checked.
#[derive(Clone, Copy, Debug, PartialEq, Eq, Structural)]
pub struct RawHeight {
    pub revision_number: u64,
    pub revision_height: u64,
}

/// The height that a raw height stands for, where it stands for one.
pub open spec fn height_of_raw(raw: Option<RawHeight>) -> Option<Height> {
    match raw {
        Some(h) => if h.revision_height == 0 {
            None
        } else {
            Some(Height { revision_number: h.revision_number, revision_height: h.revision_height })
        },
        None => None,
    }
}

/// The order on heights as a relation on the two components.
pub open spec fn height_lt(a: Height, b: Height) -> bool {
    a.revision_number < b.revision_number || (a.revision_number == b.revision_number
        && a.revision_height < b.revision_height)
}

/// `a` is `b` or comes before it.
pub open spec fn height_le(a: Height, b: Height) -> bool {
    a == b || height_lt(a, b)
}

impl Height {
    /// A height is well formed when its height within the revision is not zero.
    pub open spec fn wf(&self) -> bool {
        self.revision_height >= 1
    }

    /// Builds a height; a height of zero within the revision is rejected.
    pub fn new(revision_number: u64, revision_height: u64) -> (r: Result<Height, ClientError>)
        ensures
            revision_height == 0 ==> r == Err::<Height, ClientError>(ClientError::InvalidHeight),
            revision_height != 0 ==> r == Ok::<Height, ClientError>(
                (Height { revision_number, revision_height }),
            ),
            r is Ok ==> r->Ok_0.wf(),
    {
        if revision_height == 0 {
            return Err(ClientError::InvalidHeight);
        }
        Ok(Height { revision_number, revision_height })
    }

    /// Reads a height from its raw form. There is none where the raw height
    /// is missing or has a height of zero within its revision.
    pub fn try_from_raw(raw: Option<RawHeight>) -> (r: Option<Height>)
        ensures
            r == height_of_raw(raw),
    {
        match raw {
            Some(h) => match Height::new(h.revision_number, h.revision_height) {
                Ok(height) => Some(height),
                Err(_) => None,
            },
            None => None,
        }
    }

    /// The raw form of the height.
    pub fn into_raw(self) -> (r: RawHeight)
        ensures
            r == (RawHeight {
                revision_number: self.revision_number,
                revision_height: self.revision_height,
            }),
    {
        RawHeight { revision_number: self.revision_number, revision_height: self.revision_height }
    }

    /// The least well-formed height of a revision.
    pub fn min(revision_number: u64) -> (r: Height)
        ensures
            r == (Height { revision_number, revision_height: 1 }),
            r.wf(),
            forall|h: Height| h.wf() && h.revision_number == revision_number ==> height_le(r, h),
    {
        Height { revision_number, revision_height: 1 }
    }

    pub fn revision_number(&self) -> (r: u64)
        ensures
            r == self.revision_number,
    {
        self.revision_number
    }

    pub fn revision_height(&self) -> (r: u64)
        ensures
            r == self.revision_height,
    {
        self.revision_height
    }

    /// The height `delta` blocks later in the same revision, or `None` where
    /// that height does not fit in 64 bits.
    pub fn add(&self, delta: u64) -> (r: Option<Height>)
        ensures
            self.revision_height + delta <= u64::MAX ==> r == Some(
                Height {
                    revision_number: self.revision_number,
                    revision_height: (self.revision_height + delta) as u64,
                },
            ),
            self.revision_height + delta > u64::MAX ==> r.is_none(),
    {
        match self.revision_height.checked_add(delta) {
            Some(h) => Some(Height { revision_number: self.revision_number, revision_height: h }),
            None => None,
        }
    }

    /// The next height of the same revision.
    pub fn increment(&self) -> (r: Option<Height>)
        ensures
            self.revision_height < u64::MAX ==> r == Some(
                Height {
                    revision_number: self.revision_number,
                    revision_height: (self.revision_height + 1) as u64,
                },
            ),
            self.revision_height == u64::MAX ==> r.is_none(),
    {
        self.add(1)
    }

    /// The height `delta` blocks earlier in the same revision. The result
    /// would not be a height where `delta` reaches the start of the revision.
    pub fn sub(&self, delta: u64) -> (r: Result<Height, ClientError>)
        ensures
            self.revision_height <= delta ==> r == Err::<Height, ClientError>(
                ClientError::InvalidHeightResult,
            ),
            self.revision_height > delta ==> r == Ok::<Height, ClientError>(
                Height {
                    revision_number: self.revision_number,
                    revision_height: (self.revision_height - delta) as u64,
                },
            ),
            r is Ok ==> r->Ok_0.wf() && height_le(r->Ok_0, *self),
    {
        if self.revision_height <= delta {
            return Err(ClientError::InvalidHeightResult);
        }
        Ok(
            Height {
                revision_number: self.revision_number,
                revision_height: self.revision_height - delta,
            },
        )
    }

    /// The previous height of the same revision.
    pub fn decrement(&self) -> (r: Result<Height, ClientError>)
        ensures
            self.revision_height <= 1 ==> r == Err::<Height, ClientError>(
                ClientError::InvalidHeightResult,
            ),
            self.revision_height > 1 ==> r == Ok::<Height, ClientError>(
                Height {
                    revision_number: self.revision_number,
                    revision_height: (self.revision_height - 1) as u64,
                },
            ),
    {
        self.sub(1)
    }

    /// Whether this height comes strictly before `other`.
    pub fn lt(&self, other: &Height) -> (r: bool)
        ensures
            r == height_lt(*self, *other),
    {
        self.revision_number < other.revision_number || (self.revision_number
            == other.revision_number && self.revision_height < other.revision_height)
    }

    /// Whether this height is `other` or comes after it.
    pub fn ge(&self, other: &Height) -> (r: bool)
        ensures
            r == !height_lt(*self, *other),
            r == height_le(*other, *self),
    {
        !self.lt(other)
    }
}

/// The order of two heights, named.
pub open spec fn height_order(a: Height, b: Height) -> Ordering {
    if height_lt(a, b) {
        Ordering::Less
    } else if a == b {
        Ordering::Equal
    } else {
        Ordering::Greater
    }
}

impl PartialOrd for Height {
    fn partial_cmp(&self, other: &Height) -> (r: Option<Ordering>) {
        if self.revision_number < other.revision_number {
            Some(Ordering::Less)
        } else if self.revision_number > other.revision_number {
            Some(Ordering::Greater)
        } else if self.revision_height < other.revision_height {
            Some(Ordering::Less)
        } else if self.revision_height > other.revision_height {
            Some(Ordering::Greater)
        } else {
            Some(Ordering::Equal)
        }
    }
}

impl PartialOrdSpecImpl for Height {
    open spec fn obeys_partial_cmp_spec() -> bool {
        true
    }

    open spec fn partial_cmp_spec(&self, other: &Height) -> Option<Ordering> {
        Some(height_order(*self, *other))
    }
}

/// Heights of one revision are ordered as their heights within the revision
/// are; heights of different revisions are ordered as their revisions are.
pub proof fn lemma_height_order_by_revision_then_height(h1: Height, h2: Height)
    ensures
        h1.revision_number == h2.revision_number ==> (height_lt(h1, h2) <==> h1.revision_height
            < h2.revision_height),
        h1.revision_number < h2.revision_number ==> height_lt(h1, h2),
        h1.revision_number > h2.revision_number ==> height_lt(h2, h1),
        height_lt(h1, h2) <==> height_order(h1, h2) == Ordering::Less,
{
}

/// The order on heights is a strict total order.
pub proof fn lemma_height_order_is_total(h1: Height, h2: Height, h3: Height)
    ensures
        !height_lt(h1, h1),
        height_lt(h1, h2) || h1 == h2 || height_lt(h2, h1),
        height_lt(h1, h2) ==> !height_lt(h2, h1),
        height_lt(h1, h2) && height_lt(h2, h3) ==> height_lt(h1, h3),
{
}

} // verus!
