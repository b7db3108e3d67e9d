//! The binary group packs.
use vstd::prelude::*;

use crate::pack::common::check_fits;
use crate::pack::common::fits_check;
use crate::pack::util::bits;
use crate::pack::util::get_bits;
use crate::pack::util::lemma_byte_4_4;
use crate::pack::util::lemma_nibbles;
use crate::pack::DecodeError;
use crate::pack::PackContext;
use crate::pack::PackData;
use crate::pack::RawPackData;
use crate::report::entry;
use crate::report::Field;
use crate::report::FieldError;
use crate::report::Report;
use crate::report::Violation;

verus! {

/// Title, AAUX, or VAUX binary group pack
///
/// Binary groups hold further time code data, such as time zones, and
/// character or user data. What they hold is said by the binary group flag of
/// the timecode pack that they follow. The groups may change within a frame.
/// They are kept as they are and not read further.
///
/// DV standards:
///
/// - IEC 61834-4:1998 Section 4.5 - Binary Group (TITLE)
/// - SMPTE 306M-2002 Section 9.2.2 - Binary group pack (BG)
/// - IEC 61834-4:1998 Section 8.5 - Binary Group (AAUX)
/// - IEC 61834-4:1998 Section 9.5 - Binary Group (VAUX)
///
/// The fields within the groups are defined in IEC 60461:2011 Section 7.4 -
/// Use of the binary groups, and in SMPTE 12M.
#[derive(Debug, PartialEq, Eq, Hash, Clone, Copy)]
pub struct BinaryGroup {
    /// The raw data of the binary groups: eight groups of four bits.
    pub group_data: [u8; 8],
}

/// The group with the given number: the low half of a byte for an even
/// number, the high half for an odd one.
pub open spec fn group_of(raw: RawPackData, i: int) -> u8 {
    if i % 2 == 0 {
        bits(raw[i / 2], 0, 4)
    } else {
        bits(raw[i / 2], 4, 4)
    }
}

/// The rule of the groups: each fits into four bits. The violation is that
/// of the first group that does not.
pub open spec fn groups_check(group_data: [u8; 8]) -> Result<(), Violation> {
    if forall|i: int| 0 <= i < 8 ==> #[trigger] group_data[i] <= 15 {
        Ok(())
    } else {
        Err(Violation::GreaterThan { max: 15 })
    }
}

/// Decides [`groups_check`].
pub fn check_groups(group_data: &[u8; 8]) -> (r: Result<(), Violation>)
    ensures
        r == groups_check(*group_data),
{
    let mut i: usize = 0;
    while i < 8
        invariant
            i <= 8,
            forall|j: int| 0 <= j < i ==> #[trigger] group_data[j] <= 15,
        decreases 8 - i,
    {
        if group_data[i] > 15 {
            return Err(Violation::GreaterThan { max: 15 });
        }
        i = i + 1;
    }
    Ok(())
}

impl BinaryGroup {
    /// What the rule says of a value without violations.
    pub proof fn lemma_valid(self, ctx: PackContext)
        requires
            self.violations(ctx).len() == 0,
        ensures
            forall|i: int| 0 <= i < 8 ==> #[trigger] self.group_data[i] <= 15,
    {
        assert(entry(Field::GroupData, groups_check(self.group_data)).len() == 0);
    }
}

impl PackData for BinaryGroup {
    open spec fn decode(raw: RawPackData, ctx: PackContext) -> Result<Self, DecodeError> {
        Ok(
            BinaryGroup {
                group_data: [
                    group_of(raw, 0),
                    group_of(raw, 1),
                    group_of(raw, 2),
                    group_of(raw, 3),
                    group_of(raw, 4),
                    group_of(raw, 5),
                    group_of(raw, 6),
                    group_of(raw, 7),
                ],
            },
        )
    }

    open spec fn violations(&self, ctx: PackContext) -> Seq<FieldError> {
        entry(Field::GroupData, groups_check(self.group_data))
    }

    open spec fn encode(&self, ctx: PackContext) -> RawPackData {
        let g = self.group_data;
        [
            (g[0] + 16 * g[1]) as u8,
            (g[2] + 16 * g[3]) as u8,
            (g[4] + 16 * g[5]) as u8,
            (g[6] + 16 * g[7]) as u8,
        ]
    }

    /// Every bit of the payload has its group: nothing is let go.
    open spec fn canonical(raw: RawPackData, ctx: PackContext) -> RawPackData {
        raw
    }

    fn try_from_raw(raw: &RawPackData, ctx: &PackContext) -> (r: Result<Self, DecodeError>) {
        let group_data = [
            get_bits(raw[0], 0, 4),
            get_bits(raw[0], 4, 4),
            get_bits(raw[1], 0, 4),
            get_bits(raw[1], 4, 4),
            get_bits(raw[2], 0, 4),
            get_bits(raw[2], 4, 4),
            get_bits(raw[3], 0, 4),
            get_bits(raw[3], 4, 4),
        ];
        Ok(BinaryGroup { group_data })
    }

    fn validate_with(&self, ctx: &PackContext) -> (r: Result<(), Report>) {
        let mut report = Report::new();
        report.record(Field::GroupData, check_groups(&self.group_data));
        report.into_result()
    }

    fn write(&self, ctx: &PackContext) -> (r: RawPackData) {
        proof {
            self.lemma_valid(*ctx);
        }
        let g = &self.group_data;
        [g[0] + 16 * g[1], g[2] + 16 * g[3], g[4] + 16 * g[5], g[6] + 16 * g[7]]
    }

    proof fn lemma_decode_encode(self, ctx: PackContext) {
        self.lemma_valid(ctx);
        let g = self.group_data;
        assert(g[0] <= 15 && g[1] <= 15 && g[2] <= 15 && g[3] <= 15);
        assert(g[4] <= 15 && g[5] <= 15 && g[6] <= 15 && g[7] <= 15);
        lemma_nibbles(g[0], g[1]);
        lemma_nibbles(g[2], g[3]);
        lemma_nibbles(g[4], g[5]);
        lemma_nibbles(g[6], g[7]);
        let back = Self::decode(self.encode(ctx), ctx)->Ok_0.group_data;
        assert(back =~= g);
    }

    proof fn lemma_encode_decode(raw: RawPackData, ctx: PackContext) {
        lemma_byte_4_4(raw[0]);
        lemma_byte_4_4(raw[1]);
        lemma_byte_4_4(raw[2]);
        lemma_byte_4_4(raw[3]);
    }
}

} // verus!
