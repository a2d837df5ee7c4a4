//! The output report: the 78 bytes that are written to the controller.

use vstd::prelude::*;

verus! {

/// Number of bytes of a report on the wire.
pub const REPORT_LEN: usize = 78;

/// The report identifier that the controller expects at offset 0.
pub const REPORT_ID: u8 = 0x02;

/// The output report, field by field in wire order. The reserved regions lie
/// between the fields that the firmware reads; they are zero in a fresh
/// report and no operation of this crate writes them.
#[derive(Debug, Clone, Copy)]
pub struct DualSenseReport {
    /// Offset 0: the report identifier.
    pub report_id: u8,
    /// Offset 1: the feature-enable bitmask.
    pub flags: u8,
    /// Offset 2: the effect categories that are active in this frame.
    pub enable_bits: u8,
    /// Offset 3.
    pub reserved0: u8,
    /// Offset 4: intensity of the right motor.
    pub rumble_right: u8,
    /// Offset 5: intensity of the left motor.
    pub rumble_left: u8,
    /// Offset 6.
    pub lightbar_red: u8,
    /// Offset 7.
    pub lightbar_green: u8,
    /// Offset 8.
    pub lightbar_blue: u8,
    /// Offsets 9 and 10.
    pub reserved1: [u8; 2],
    /// Offsets 11 to 19: the left trigger's effect block.
    pub l2_effect: [u8; 9],
    /// Offsets 20 and 21.
    pub reserved2: [u8; 2],
    /// Offsets 22 to 30: the right trigger's effect block.
    pub r2_effect: [u8; 9],
    /// Offsets 31 to 77.
    pub reserved3: [u8; 47],
}

/// `n` zero bytes.
pub open spec fn zeros(n: nat) -> Seq<u8> {
    Seq::new(n, |i: int| 0u8)
}

impl DualSenseReport {
    /// The bytes of the report as the controller receives them: every field in
    /// declaration order, with nothing between them.
    pub open spec fn wire(self) -> Seq<u8> {
        seq![
            self.report_id,
            self.flags,
            self.enable_bits,
            self.reserved0,
            self.rumble_right,
            self.rumble_left,
            self.lightbar_red,
            self.lightbar_green,
            self.lightbar_blue,
        ] + self.reserved1@ + self.l2_effect@ + self.reserved2@ + self.r2_effect@
            + self.reserved3@
    }

    /// Whether every reserved region is zero.
    pub open spec fn reserved_is_zero(self) -> bool {
        &&& self.reserved0 == 0
        &&& self.reserved1@ == zeros(2)
        &&& self.reserved2@ == zeros(2)
        &&& self.reserved3@ == zeros(47)
    }

    /// Whether `self` and `other` agree on every field but the two trigger
    /// blocks.
    pub open spec fn same_outside_triggers(self, other: Self) -> bool {
        &&& self.report_id == other.report_id
        &&& self.flags == other.flags
        &&& self.enable_bits == other.enable_bits
        &&& self.reserved0 == other.reserved0
        &&& self.rumble_right == other.rumble_right
        &&& self.rumble_left == other.rumble_left
        &&& self.lightbar_red == other.lightbar_red
        &&& self.lightbar_green == other.lightbar_green
        &&& self.lightbar_blue == other.lightbar_blue
        &&& self.reserved1 == other.reserved1
        &&& self.reserved2 == other.reserved2
        &&& self.reserved3 == other.reserved3
    }

    /// The bytes of the report, in wire order.
    pub fn as_bytes(&self) -> (bytes: [u8; 78])
        ensures
            bytes@ == self.wire(),
    {
        let mut bytes = [0u8; 78];
        bytes[0] = self.report_id;
        bytes[1] = self.flags;
        bytes[2] = self.enable_bits;
        bytes[3] = self.reserved0;
        bytes[4] = self.rumble_right;
        bytes[5] = self.rumble_left;
        bytes[6] = self.lightbar_red;
        bytes[7] = self.lightbar_green;
        bytes[8] = self.lightbar_blue;
        write_at(&mut bytes, 9, &self.reserved1);
        write_at(&mut bytes, 11, &self.l2_effect);
        write_at(&mut bytes, 20, &self.reserved2);
        write_at(&mut bytes, 22, &self.r2_effect);
        write_at(&mut bytes, 31, &self.reserved3);
        assert(bytes@ =~= self.wire());
        bytes
    }

    /// Sets both trigger blocks to zero, which tells the firmware to release
    /// the triggers. Nothing else changes.
    pub fn clear_triggers(&mut self)
        ensures
            final(self).l2_effect@ == zeros(9),
            final(self).r2_effect@ == zeros(9),
            final(self).same_outside_triggers(*old(self)),
    {
        self.l2_effect = [0; 9];
        self.r2_effect = [0; 9];
        assert(self.l2_effect@ =~= zeros(9));
        assert(self.r2_effect@ =~= zeros(9));
    }
}

impl Default for DualSenseReport {
    /// A report that asks for nothing: the report identifier, then zeros.
    fn default() -> (report: Self)
        ensures
            report.report_id == REPORT_ID,
            report.flags == 0,
            report.enable_bits == 0,
            report.rumble_right == 0,
            report.rumble_left == 0,
            report.lightbar_red == 0,
            report.lightbar_green == 0,
            report.lightbar_blue == 0,
            report.l2_effect@ == zeros(9),
            report.r2_effect@ == zeros(9),
            report.reserved_is_zero(),
            report.wire() == seq![REPORT_ID] + zeros(77),
    {
        let report = Self {
            report_id: REPORT_ID,
            flags: 0x00,
            enable_bits: 0x00,
            reserved0: 0,
            rumble_right: 0,
            rumble_left: 0,
            lightbar_red: 0,
            lightbar_green: 0,
            lightbar_blue: 0,
            reserved1: [0; 2],
            l2_effect: [0; 9],
            reserved2: [0; 2],
            r2_effect: [0; 9],
            reserved3: [0; 47],
        };
        assert(report.reserved1@ =~= zeros(2));
        assert(report.reserved2@ =~= zeros(2));
        assert(report.reserved3@ =~= zeros(47));
        assert(report.l2_effect@ =~= zeros(9));
        assert(report.r2_effect@ =~= zeros(9));
        assert(report.wire() =~= seq![REPORT_ID] + zeros(77));
        report
    }
}

/// Copies `src` into `bytes`, starting at offset `at`.
fn write_at<const N: usize>(bytes: &mut [u8; 78], at: usize, src: &[u8; N])
    requires
        at + N <= 78,
    ensures
        forall|i: int|
            0 <= i < 78 ==> final(bytes)@[i] == if at <= i < at + N {
                src@[i - at]
            } else {
                old(bytes)@[i]
            },
{
    let mut k: usize = 0;
    while k < N
        invariant
            at + N <= 78,
            k <= N,
            forall|i: int|
                0 <= i < 78 ==> bytes@[i] == if at <= i < at + k {
                    src@[i - at]
                } else {
                    old(bytes)@[i]
                },
        decreases N - k,
    {
        bytes[at + k] = src[k];
        k += 1;
    }
}

/// The layout of the wire image: it has 78 bytes, and each field stands at its
/// fixed offset, whatever the report holds.
pub proof fn lemma_wire_layout(report: DualSenseReport)
    ensures
        report.wire().len() == REPORT_LEN,
        report.wire()[0] == report.report_id,
        report.wire()[1] == report.flags,
        report.wire()[2] == report.enable_bits,
        report.wire()[3] == report.reserved0,
        report.wire()[4] == report.rumble_right,
        report.wire()[5] == report.rumble_left,
        report.wire()[6] == report.lightbar_red,
        report.wire()[7] == report.lightbar_green,
        report.wire()[8] == report.lightbar_blue,
        report.wire().subrange(9, 11) == report.reserved1@,
        report.wire().subrange(11, 20) == report.l2_effect@,
        report.wire().subrange(20, 22) == report.reserved2@,
        report.wire().subrange(22, 31) == report.r2_effect@,
        report.wire().subrange(31, 78) == report.reserved3@,
{
    let w = report.wire();
    assert(w.subrange(9, 11) =~= report.reserved1@);
    assert(w.subrange(11, 20) =~= report.l2_effect@);
    assert(w.subrange(20, 22) =~= report.reserved2@);
    assert(w.subrange(22, 31) =~= report.r2_effect@);
    assert(w.subrange(31, 78) =~= report.reserved3@);
}

/// Where the reserved regions are zero, the wire image is zero at offset 3,
/// at 9 and 10, at 20 and 21, and from 31 on.
pub proof fn lemma_reserved_bytes_are_zero(report: DualSenseReport)
    requires
        report.reserved_is_zero(),
    ensures
        forall|i: int|
            (i == 3 || 9 <= i < 11 || 20 <= i < 22 || 31 <= i < 78)
                ==> #[trigger] report.wire()[i] == 0,
{
    lemma_wire_layout(report);
    let w = report.wire();
    assert forall|i: int|
        (i == 3 || 9 <= i < 11 || 20 <= i < 22 || 31 <= i < 78) implies #[trigger] w[i] == 0 by {
        if 9 <= i < 11 {
            assert(w[i] == w.subrange(9, 11)[i - 9]);
        } else if 20 <= i < 22 {
            assert(w[i] == w.subrange(20, 22)[i - 20]);
        } else if 31 <= i < 78 {
            assert(w[i] == w.subrange(31, 78)[i - 31]);
        }
    }
}

/// Clearing the triggers, seen on the wire: offsets 11 to 19 and 22 to 30
/// are zero afterwards, every other offset holds the byte it held before, and
/// reserved regions that were zero stay zero.
pub proof fn lemma_cleared_wire(before: DualSenseReport, after: DualSenseReport)
    requires
        after.l2_effect@ == zeros(9),
        after.r2_effect@ == zeros(9),
        after.same_outside_triggers(before),
    ensures
        after.wire().len() == REPORT_LEN,
        forall|i: int| (11 <= i < 20 || 22 <= i < 31) ==> #[trigger] after.wire()[i] == 0,
        forall|i: int|
            (0 <= i < 11 || 20 <= i < 22 || 31 <= i < 78)
                ==> #[trigger] after.wire()[i] == before.wire()[i],
        before.reserved_is_zero() ==> after.reserved_is_zero(),
{
}

/// Two reports with the same wire image are the same report: the wire image
/// loses nothing.
pub proof fn lemma_wire_determines_report(a: DualSenseReport, b: DualSenseReport)
    requires
        a.wire() == b.wire(),
    ensures
        a == b,
{
    lemma_wire_layout(a);
    lemma_wire_layout(b);
    assert(a.reserved1 =~= b.reserved1);
    assert(a.l2_effect =~= b.l2_effect);
    assert(a.reserved2 =~= b.reserved2);
    assert(a.r2_effect =~= b.r2_effect);
    assert(a.reserved3 =~= b.reserved3);
}

} // verus!
