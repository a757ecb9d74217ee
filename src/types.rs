//! Seal proof kinds and the sector sizes they seal.

use vstd::prelude::*;
use vstd::string::StringExecFns;

verus! {

pub const SIZE_2K: u64 = 2048;
pub const SIZE_8M: u64 = 8388608;
pub const SIZE_512M: u64 = 536870912;
pub const SIZE_32G: u64 = 34359738368;
pub const SIZE_64G: u64 = 68719476736;

/// Seal proof kinds, in the order of their integer codes.
#[derive(Clone, Copy, Debug, PartialEq, Eq, Hash, Structural)]
pub enum SealProof {
    /// 2kib v1
    StackedDrg2KiBV1,
    /// 8mib v1
    StackedDrg8MiBV1,
    /// 512mib v1
    StackedDrg512MiBV1,
    /// 32gib v1
    StackedDrg32GiBV1,
    /// 64gib v1
    StackedDrg64GiBV1,
    /// 2kib v1_1
    StackedDrg2KiBV1_1,
    /// 8mib v1_1
    StackedDrg8MiBV1_1,
    /// 512mib v1_1
    StackedDrg512MiBV1_1,
    /// 32gib v1_1
    StackedDrg32GiBV1_1,
    /// 64gib v1_1
    StackedDrg64GiBV1_1,
}

/// A sector size that no seal proof kind handles.
#[derive(Clone, Copy, Debug, PartialEq, Eq, Structural)]
pub struct InvalidSectorSize {
    pub size: u64,
}

/// The character of a decimal digit.
pub open spec fn digit_char(d: nat) -> char {
    seq!['0', '1', '2', '3', '4', '5', '6', '7', '8', '9'][d as int]
}

/// The decimal text of a number, without leading zeros.
pub open spec fn decimal_text(n: nat) -> Seq<char>
    decreases n,
{
    if n < 10 {
        seq![digit_char(n)]
    } else {
        decimal_text(n / 10).push(digit_char(n % 10))
    }
}

/// Relies on u64's Display (through to_string): its decimal digits, most
/// significant first, without sign or leading zeros.
#[verifier::external_body]
fn decimal(n: u64) -> (r: String)
    ensures
        r@ == decimal_text(n as nat),
{
    n.to_string()
}

impl InvalidSectorSize {
    /// The text of this error.
    pub fn message(&self) -> (r: String)
        ensures
            r@ == "invalid sector size "@ + decimal_text(self.size as nat),
    {
        "invalid sector size ".to_string().concat(decimal(self.size).as_str())
    }
}

/// The sector size sealed by a proof kind.
pub open spec fn spec_sector_size(p: SealProof) -> u64 {
    match p {
        SealProof::StackedDrg2KiBV1 | SealProof::StackedDrg2KiBV1_1 => SIZE_2K,
        SealProof::StackedDrg8MiBV1 | SealProof::StackedDrg8MiBV1_1 => SIZE_8M,
        SealProof::StackedDrg512MiBV1 | SealProof::StackedDrg512MiBV1_1 => SIZE_512M,
        SealProof::StackedDrg32GiBV1 | SealProof::StackedDrg32GiBV1_1 => SIZE_32G,
        SealProof::StackedDrg64GiBV1 | SealProof::StackedDrg64GiBV1_1 => SIZE_64G,
    }
}

/// Whether a proof kind is of the v1_1 revision.
pub open spec fn is_v1_1(p: SealProof) -> bool {
    match p {
        SealProof::StackedDrg2KiBV1_1 | SealProof::StackedDrg8MiBV1_1
        | SealProof::StackedDrg512MiBV1_1 | SealProof::StackedDrg32GiBV1_1
        | SealProof::StackedDrg64GiBV1_1 => true,
        _ => false,
    }
}

/// Whether some proof kind seals sectors of this size.
pub open spec fn is_sector_size(size: u64) -> bool {
    size == SIZE_2K || size == SIZE_8M || size == SIZE_512M || size == SIZE_32G || size
        == SIZE_64G
}

impl SealProof {
    /// Returns the sector size for the seal proof type.
    pub fn sector_size(&self) -> (r: u64)
        ensures
            r == spec_sector_size(*self),
    {
        match self {
            SealProof::StackedDrg2KiBV1 => SIZE_2K,
            SealProof::StackedDrg8MiBV1 => SIZE_8M,
            SealProof::StackedDrg512MiBV1 => SIZE_512M,
            SealProof::StackedDrg32GiBV1 => SIZE_32G,
            SealProof::StackedDrg64GiBV1 => SIZE_64G,
            SealProof::StackedDrg2KiBV1_1 => SIZE_2K,
            SealProof::StackedDrg8MiBV1_1 => SIZE_8M,
            SealProof::StackedDrg512MiBV1_1 => SIZE_512M,
            SealProof::StackedDrg32GiBV1_1 => SIZE_32G,
            SealProof::StackedDrg64GiBV1_1 => SIZE_64G,
        }
    }

    /// The v1_1 proof kind for a sector size.
    pub fn try_from(val: u64) -> (r: Result<SealProof, InvalidSectorSize>)
        ensures
            is_sector_size(val) <==> r.is_ok(),
            r matches Ok(p) ==> is_v1_1(p) && spec_sector_size(p) == val,
            r matches Err(e) ==> e.size == val,
    {
        if val == SIZE_2K {
            Ok(SealProof::StackedDrg2KiBV1_1)
        } else if val == SIZE_8M {
            Ok(SealProof::StackedDrg8MiBV1_1)
        } else if val == SIZE_512M {
            Ok(SealProof::StackedDrg512MiBV1_1)
        } else if val == SIZE_32G {
            Ok(SealProof::StackedDrg32GiBV1_1)
        } else if val == SIZE_64G {
            Ok(SealProof::StackedDrg64GiBV1_1)
        } else {
            Err(InvalidSectorSize { size: val })
        }
    }
}

} // verus!
