use crate::error::MeasurementsError;
use crate::hex::{
    bytes_eq, hex_decode, is_hex_field, is_hex_field_error, lemma_lex_cmp_total, lex_cmp, HexBytes,
};
use core::cmp::Ordering;
use vstd::prelude::*;
use vstd::std_specs::convert::FromSpec;

verus! {

/// Every byte of `b` is zero.
pub open spec fn is_zero(b: Seq<u8>) -> bool {
    forall|i: int| 0 <= i < b.len() ==> #[trigger] b[i] == 0
}

/// `first` unless it is `Equal`, then `rest`: how a comparison over several
/// fields goes on to the next one.
pub open spec fn then_cmp(first: Ordering, rest: Ordering) -> Ordering {
    if first == Ordering::Equal {
        rest
    } else {
        first
    }
}

/// Required measurements for TEE attestation verification (the RTMR checks):
/// the trusted baseline that a TEE environment must match.
#[derive(Debug, Clone, Copy, Eq)]
pub struct Measurements {
    /// MRTD (Measurement of Root of Trust for Data): identifies the virtual firmware.
    pub mrtd: [u8; 48],
    /// RTMR0: the bootloader, virtual firmware data and configuration.
    pub rtmr0: [u8; 48],
    /// RTMR1: the OS kernel, boot parameters and initrd.
    pub rtmr1: [u8; 48],
    /// RTMR2: the OS application.
    pub rtmr2: [u8; 48],
}

impl Measurements {
    /// The two hold the same bytes in every register.
    pub open spec fn same_values(self, other: Measurements) -> bool {
        &&& self.mrtd@ == other.mrtd@
        &&& self.rtmr0@ == other.rtmr0@
        &&& self.rtmr1@ == other.rtmr1@
        &&& self.rtmr2@ == other.rtmr2@
    }

    /// All four registers are zero: the sentinel for "no baseline configured".
    pub open spec fn is_zeroed(self) -> bool {
        &&& is_zero(self.mrtd@)
        &&& is_zero(self.rtmr0@)
        &&& is_zero(self.rtmr1@)
        &&& is_zero(self.rtmr2@)
    }

    /// The all-zero sentinel. A genuine TEE never reports it, so it must never
    /// be taken as a baseline that a live quote can match.
    pub fn zeroed() -> (r: Measurements)
        ensures
            r.is_zeroed(),
    {
        Measurements { mrtd: [0; 48], rtmr0: [0; 48], rtmr1: [0; 48], rtmr2: [0; 48] }
    }
}

impl PartialEq for Measurements {
    fn eq(&self, other: &Measurements) -> (r: bool) {
        bytes_eq(&self.mrtd, &other.mrtd) && bytes_eq(&self.rtmr0, &other.rtmr0) && bytes_eq(
            &self.rtmr1,
            &other.rtmr1,
        ) && bytes_eq(&self.rtmr2, &other.rtmr2)
    }
}

impl vstd::std_specs::cmp::PartialEqSpecImpl for Measurements {
    open spec fn obeys_eq_spec() -> bool {
        true
    }

    open spec fn eq_spec(&self, other: &Measurements) -> bool {
        self.same_values(*other)
    }
}

impl Default for Measurements {
    fn default() -> (r: Measurements)
        ensures
            r.is_zeroed(),
    {
        Measurements::zeroed()
    }
}

/// The registers together with the auxiliary digests that a full baseline
/// also pins down.
#[derive(Debug, Clone, Copy, Eq)]
pub struct FullMeasurements {
    /// Expected RTMRs (Runtime Measurement Registers).
    pub rtmrs: Measurements,
    /// Expected digest of the key-provider event (384-bit).
    pub key_provider_event_digest: [u8; 48],
    /// Expected app_compose hash payload (256-bit).
    pub app_compose_hash_payload: [u8; 32],
}

impl FullMeasurements {
    /// Every field is zero: the sentinel for "no baseline configured".
    pub open spec fn is_zeroed(self) -> bool {
        &&& self.rtmrs.is_zeroed()
        &&& is_zero(self.key_provider_event_digest@)
        &&& is_zero(self.app_compose_hash_payload@)
    }

    /// The all-zero sentinel.
    pub fn zeroed() -> (r: FullMeasurements)
        ensures
            r.is_zeroed(),
    {
        FullMeasurements {
            rtmrs: Measurements::zeroed(),
            key_provider_event_digest: [0; 48],
            app_compose_hash_payload: [0; 32],
        }
    }
}

impl PartialEq for FullMeasurements {
    fn eq(&self, other: &FullMeasurements) -> (r: bool) {
        self.rtmrs == other.rtmrs && bytes_eq(
            &self.key_provider_event_digest,
            &other.key_provider_event_digest,
        ) && bytes_eq(&self.app_compose_hash_payload, &other.app_compose_hash_payload)
    }
}

impl vstd::std_specs::cmp::PartialEqSpecImpl for FullMeasurements {
    open spec fn obeys_eq_spec() -> bool {
        true
    }

    open spec fn eq_spec(&self, other: &FullMeasurements) -> bool {
        &&& self.rtmrs.same_values(other.rtmrs)
        &&& self.key_provider_event_digest@ == other.key_provider_event_digest@
        &&& self.app_compose_hash_payload@ == other.app_compose_hash_payload@
    }
}

/// The registers of `Measurements` in hex form, ordered field by field so that
/// a catalog of baselines can be sorted, deduplicated and searched.
#[derive(Debug, Clone, Eq, Ord, Hash)]
pub struct MeasurementsHex {
    /// MRTD (Measurement of Root of Trust for Data): identifies the virtual firmware.
    pub mrtd: HexBytes<48>,
    /// RTMR0: the bootloader, virtual firmware data and configuration.
    pub rtmr0: HexBytes<48>,
    /// RTMR1: the OS kernel, boot parameters and initrd.
    pub rtmr1: HexBytes<48>,
    /// RTMR2: the OS application.
    pub rtmr2: HexBytes<48>,
}

impl MeasurementsHex {
    /// Field-by-field order, in declaration order, each field by its bytes.
    pub open spec fn order(self, other: MeasurementsHex) -> Ordering {
        then_cmp(
            lex_cmp(self.mrtd@, other.mrtd@),
            then_cmp(
                lex_cmp(self.rtmr0@, other.rtmr0@),
                then_cmp(lex_cmp(self.rtmr1@, other.rtmr1@), lex_cmp(self.rtmr2@, other.rtmr2@)),
            ),
        )
    }

    /// The two hold the same values in every field.
    pub open spec fn same_values(self, other: MeasurementsHex) -> bool {
        &&& self.mrtd@ == other.mrtd@
        &&& self.rtmr0@ == other.rtmr0@
        &&& self.rtmr1@ == other.rtmr1@
        &&& self.rtmr2@ == other.rtmr2@
    }

    /// Decodes the four registers from their hex strings, in field order; the
    /// first field that is not `96` hex digits gives the error.
    pub fn decode(mrtd: &str, rtmr0: &str, rtmr1: &str, rtmr2: &str) -> (r: Result<
        MeasurementsHex,
        MeasurementsError,
    >)
        ensures
            is_hex_field(mrtd@, 48) && is_hex_field(rtmr0@, 48) && is_hex_field(rtmr1@, 48)
                && is_hex_field(rtmr2@, 48) ==> (r matches Ok(h) && h.mrtd@ == hex_decode(mrtd@)
                && h.rtmr0@ == hex_decode(rtmr0@) && h.rtmr1@ == hex_decode(rtmr1@) && h.rtmr2@
                == hex_decode(rtmr2@)),
            !is_hex_field(mrtd@, 48) ==> (r matches Err(e) && is_hex_field_error(
                e,
                "mrtd"@,
                mrtd@,
                48,
            )),
            is_hex_field(mrtd@, 48) && !is_hex_field(rtmr0@, 48) ==> (r matches Err(e)
                && is_hex_field_error(e, "rtmr0"@, rtmr0@, 48)),
            is_hex_field(mrtd@, 48) && is_hex_field(rtmr0@, 48) && !is_hex_field(rtmr1@, 48) ==> (
            r matches Err(e) && is_hex_field_error(e, "rtmr1"@, rtmr1@, 48)),
            is_hex_field(mrtd@, 48) && is_hex_field(rtmr0@, 48) && is_hex_field(rtmr1@, 48)
                && !is_hex_field(rtmr2@, 48) ==> (r matches Err(e) && is_hex_field_error(
                e,
                "rtmr2"@,
                rtmr2@,
                48,
            )),
    {
        let mrtd = HexBytes::<48>::decode("mrtd", mrtd)?;
        let rtmr0 = HexBytes::<48>::decode("rtmr0", rtmr0)?;
        let rtmr1 = HexBytes::<48>::decode("rtmr1", rtmr1)?;
        let rtmr2 = HexBytes::<48>::decode("rtmr2", rtmr2)?;
        Ok(MeasurementsHex { mrtd, rtmr0, rtmr1, rtmr2 })
    }
}

impl PartialEq for MeasurementsHex {
    fn eq(&self, other: &MeasurementsHex) -> (r: bool) {
        self.mrtd == other.mrtd && self.rtmr0 == other.rtmr0 && self.rtmr1 == other.rtmr1
            && self.rtmr2 == other.rtmr2
    }
}

impl vstd::std_specs::cmp::PartialEqSpecImpl for MeasurementsHex {
    open spec fn obeys_eq_spec() -> bool {
        true
    }

    open spec fn eq_spec(&self, other: &MeasurementsHex) -> bool {
        self.same_values(*other)
    }
}

impl PartialOrd for MeasurementsHex {
    fn partial_cmp(&self, other: &MeasurementsHex) -> (r: Option<Ordering>) {
        match self.mrtd.partial_cmp(&other.mrtd) {
            Some(Ordering::Equal) => {},
            o => return o,
        }
        match self.rtmr0.partial_cmp(&other.rtmr0) {
            Some(Ordering::Equal) => {},
            o => return o,
        }
        match self.rtmr1.partial_cmp(&other.rtmr1) {
            Some(Ordering::Equal) => {},
            o => return o,
        }
        self.rtmr2.partial_cmp(&other.rtmr2)
    }
}

impl vstd::std_specs::cmp::PartialOrdSpecImpl for MeasurementsHex {
    open spec fn obeys_partial_cmp_spec() -> bool {
        true
    }

    open spec fn partial_cmp_spec(&self, other: &MeasurementsHex) -> Option<Ordering> {
        Some(self.order(*other))
    }
}

impl Default for MeasurementsHex {
    fn default() -> (r: MeasurementsHex)
        ensures
            is_zero(r.mrtd@),
            is_zero(r.rtmr0@),
            is_zero(r.rtmr1@),
            is_zero(r.rtmr2@),
    {
        MeasurementsHex {
            mrtd: HexBytes::from([0; 48]),
            rtmr0: HexBytes::from([0; 48]),
            rtmr1: HexBytes::from([0; 48]),
            rtmr2: HexBytes::from([0; 48]),
        }
    }
}

impl From<MeasurementsHex> for Measurements {
    fn from(hex: MeasurementsHex) -> (r: Measurements) {
        Measurements {
            mrtd: hex.mrtd.bytes,
            rtmr0: hex.rtmr0.bytes,
            rtmr1: hex.rtmr1.bytes,
            rtmr2: hex.rtmr2.bytes,
        }
    }
}

impl vstd::std_specs::convert::FromSpecImpl<MeasurementsHex> for Measurements {
    open spec fn obeys_from_spec() -> bool {
        true
    }

    open spec fn from_spec(hex: MeasurementsHex) -> Measurements {
        Measurements {
            mrtd: hex.mrtd.bytes,
            rtmr0: hex.rtmr0.bytes,
            rtmr1: hex.rtmr1.bytes,
            rtmr2: hex.rtmr2.bytes,
        }
    }
}

impl From<Measurements> for MeasurementsHex {
    fn from(m: Measurements) -> (r: MeasurementsHex) {
        MeasurementsHex {
            mrtd: HexBytes::from(m.mrtd),
            rtmr0: HexBytes::from(m.rtmr0),
            rtmr1: HexBytes::from(m.rtmr1),
            rtmr2: HexBytes::from(m.rtmr2),
        }
    }
}

impl vstd::std_specs::convert::FromSpecImpl<Measurements> for MeasurementsHex {
    open spec fn obeys_from_spec() -> bool {
        true
    }

    open spec fn from_spec(m: Measurements) -> MeasurementsHex {
        MeasurementsHex {
            mrtd: HexBytes { bytes: m.mrtd },
            rtmr0: HexBytes { bytes: m.rtmr0 },
            rtmr1: HexBytes { bytes: m.rtmr1 },
            rtmr2: HexBytes { bytes: m.rtmr2 },
        }
    }
}

/// `FullMeasurements` in hex form, ordered field by field.
#[derive(Debug, Clone, Eq, Ord, Hash)]
pub struct FullMeasurementsHex {
    /// Expected RTMRs (Runtime Measurement Registers).
    pub rtmrs: MeasurementsHex,
    /// Expected digest of the key-provider event.
    pub key_provider_event_digest: HexBytes<48>,
    /// Expected app_compose hash payload.
    pub app_compose_hash_payload: HexBytes<32>,
}

impl FullMeasurementsHex {
    /// Field-by-field order, in declaration order.
    pub open spec fn order(self, other: FullMeasurementsHex) -> Ordering {
        then_cmp(
            self.rtmrs.order(other.rtmrs),
            then_cmp(
                lex_cmp(self.key_provider_event_digest@, other.key_provider_event_digest@),
                lex_cmp(self.app_compose_hash_payload@, other.app_compose_hash_payload@),
            ),
        )
    }

    /// The two hold the same values in every field.
    pub open spec fn same_values(self, other: FullMeasurementsHex) -> bool {
        &&& self.rtmrs.same_values(other.rtmrs)
        &&& self.key_provider_event_digest@ == other.key_provider_event_digest@
        &&& self.app_compose_hash_payload@ == other.app_compose_hash_payload@
    }

    /// Adds the two auxiliary digests, decoded from their hex strings, to
    /// already decoded registers; the key-provider digest is checked first.
    pub fn decode(
        rtmrs: MeasurementsHex,
        key_provider_event_digest: &str,
        app_compose_hash_payload: &str,
    ) -> (r: Result<FullMeasurementsHex, MeasurementsError>)
        ensures
            is_hex_field(key_provider_event_digest@, 48) && is_hex_field(
                app_compose_hash_payload@,
                32,
            ) ==> (r matches Ok(h) && h.rtmrs.same_values(rtmrs) && h.key_provider_event_digest@
                == hex_decode(key_provider_event_digest@) && h.app_compose_hash_payload@
                == hex_decode(app_compose_hash_payload@)),
            !is_hex_field(key_provider_event_digest@, 48) ==> (r matches Err(e)
                && is_hex_field_error(
                e,
                "key_provider_event_digest"@,
                key_provider_event_digest@,
                48,
            )),
            is_hex_field(key_provider_event_digest@, 48) && !is_hex_field(
                app_compose_hash_payload@,
                32,
            ) ==> (r matches Err(e) && is_hex_field_error(
                e,
                "app_compose_hash_payload"@,
                app_compose_hash_payload@,
                32,
            )),
    {
        let key_provider_event_digest = HexBytes::<48>::decode(
            "key_provider_event_digest",
            key_provider_event_digest,
        )?;
        let app_compose_hash_payload = HexBytes::<32>::decode(
            "app_compose_hash_payload",
            app_compose_hash_payload,
        )?;
        Ok(FullMeasurementsHex { rtmrs, key_provider_event_digest, app_compose_hash_payload })
    }
}

impl PartialEq for FullMeasurementsHex {
    fn eq(&self, other: &FullMeasurementsHex) -> (r: bool) {
        self.rtmrs == other.rtmrs && self.key_provider_event_digest
            == other.key_provider_event_digest && self.app_compose_hash_payload
            == other.app_compose_hash_payload
    }
}

impl vstd::std_specs::cmp::PartialEqSpecImpl for FullMeasurementsHex {
    open spec fn obeys_eq_spec() -> bool {
        true
    }

    open spec fn eq_spec(&self, other: &FullMeasurementsHex) -> bool {
        self.same_values(*other)
    }
}

impl PartialOrd for FullMeasurementsHex {
    fn partial_cmp(&self, other: &FullMeasurementsHex) -> (r: Option<Ordering>) {
        match self.rtmrs.partial_cmp(&other.rtmrs) {
            Some(Ordering::Equal) => {},
            o => return o,
        }
        match self.key_provider_event_digest.partial_cmp(&other.key_provider_event_digest) {
            Some(Ordering::Equal) => {},
            o => return o,
        }
        self.app_compose_hash_payload.partial_cmp(&other.app_compose_hash_payload)
    }
}

impl vstd::std_specs::cmp::PartialOrdSpecImpl for FullMeasurementsHex {
    open spec fn obeys_partial_cmp_spec() -> bool {
        true
    }

    open spec fn partial_cmp_spec(&self, other: &FullMeasurementsHex) -> Option<Ordering> {
        Some(self.order(*other))
    }
}

impl Default for FullMeasurementsHex {
    fn default() -> (r: FullMeasurementsHex)
        ensures
            is_zero(r.rtmrs.mrtd@),
            is_zero(r.rtmrs.rtmr0@),
            is_zero(r.rtmrs.rtmr1@),
            is_zero(r.rtmrs.rtmr2@),
            is_zero(r.key_provider_event_digest@),
            is_zero(r.app_compose_hash_payload@),
    {
        FullMeasurementsHex {
            rtmrs: MeasurementsHex::default(),
            key_provider_event_digest: HexBytes::from([0; 48]),
            app_compose_hash_payload: HexBytes::from([0; 32]),
        }
    }
}

impl From<FullMeasurementsHex> for FullMeasurements {
    fn from(hex: FullMeasurementsHex) -> (r: FullMeasurements) {
        FullMeasurements {
            rtmrs: Measurements::from(hex.rtmrs),
            key_provider_event_digest: hex.key_provider_event_digest.bytes,
            app_compose_hash_payload: hex.app_compose_hash_payload.bytes,
        }
    }
}

impl vstd::std_specs::convert::FromSpecImpl<FullMeasurementsHex> for FullMeasurements {
    open spec fn obeys_from_spec() -> bool {
        true
    }

    open spec fn from_spec(hex: FullMeasurementsHex) -> FullMeasurements {
        FullMeasurements {
            rtmrs: Measurements {
                mrtd: hex.rtmrs.mrtd.bytes,
                rtmr0: hex.rtmrs.rtmr0.bytes,
                rtmr1: hex.rtmrs.rtmr1.bytes,
                rtmr2: hex.rtmrs.rtmr2.bytes,
            },
            key_provider_event_digest: hex.key_provider_event_digest.bytes,
            app_compose_hash_payload: hex.app_compose_hash_payload.bytes,
        }
    }
}

impl From<FullMeasurements> for FullMeasurementsHex {
    fn from(m: FullMeasurements) -> (r: FullMeasurementsHex) {
        FullMeasurementsHex {
            rtmrs: MeasurementsHex::from(m.rtmrs),
            key_provider_event_digest: HexBytes::from(m.key_provider_event_digest),
            app_compose_hash_payload: HexBytes::from(m.app_compose_hash_payload),
        }
    }
}

impl vstd::std_specs::convert::FromSpecImpl<FullMeasurements> for FullMeasurementsHex {
    open spec fn obeys_from_spec() -> bool {
        true
    }

    open spec fn from_spec(m: FullMeasurements) -> FullMeasurementsHex {
        FullMeasurementsHex {
            rtmrs: MeasurementsHex {
                mrtd: HexBytes { bytes: m.rtmrs.mrtd },
                rtmr0: HexBytes { bytes: m.rtmrs.rtmr0 },
                rtmr1: HexBytes { bytes: m.rtmrs.rtmr1 },
                rtmr2: HexBytes { bytes: m.rtmrs.rtmr2 },
            },
            key_provider_event_digest: HexBytes { bytes: m.key_provider_event_digest },
            app_compose_hash_payload: HexBytes { bytes: m.app_compose_hash_payload },
        }
    }
}

/// Converting measurements to hex form and back gives them unchanged, and so
/// does converting hex measurements to binary form and back.
pub proof fn lemma_measurements_hex_round_trip(m: Measurements, h: MeasurementsHex)
    ensures
        <Measurements as FromSpec<MeasurementsHex>>::from_spec(
            <MeasurementsHex as FromSpec<Measurements>>::from_spec(m),
        ) == m,
        <MeasurementsHex as FromSpec<Measurements>>::from_spec(
            <Measurements as FromSpec<MeasurementsHex>>::from_spec(h),
        ) == h,
{
}

/// Converting full measurements to hex form and back gives them unchanged, and
/// so does converting hex full measurements to binary form and back.
pub proof fn lemma_full_measurements_hex_round_trip(m: FullMeasurements, h: FullMeasurementsHex)
    ensures
        <FullMeasurements as FromSpec<FullMeasurementsHex>>::from_spec(
            <FullMeasurementsHex as FromSpec<FullMeasurements>>::from_spec(m),
        ) == m,
        <FullMeasurementsHex as FromSpec<FullMeasurements>>::from_spec(
            <FullMeasurements as FromSpec<FullMeasurementsHex>>::from_spec(h),
        ) == h,
{
}

/// The order of hex measurements is total: for any two values exactly one of
/// less, equal (the same value in every field) and greater holds, and
/// swapping them swaps less and greater.
pub proof fn lemma_measurements_hex_order_total(a: MeasurementsHex, b: MeasurementsHex)
    ensures
        a.order(b) == Ordering::Equal <==> a.same_values(b),
        a.order(b) == Ordering::Less <==> b.order(a) == Ordering::Greater,
        a.order(b) == Ordering::Greater <==> b.order(a) == Ordering::Less,
{
    lemma_lex_cmp_total(a.mrtd@, b.mrtd@);
    lemma_lex_cmp_total(a.rtmr0@, b.rtmr0@);
    lemma_lex_cmp_total(a.rtmr1@, b.rtmr1@);
    lemma_lex_cmp_total(a.rtmr2@, b.rtmr2@);
}

/// The order of hex full measurements is total: for any two values exactly
/// one of less, equal (the same value in every field) and greater holds, and
/// swapping them swaps less and greater.
pub proof fn lemma_full_measurements_hex_order_total(a: FullMeasurementsHex, b: FullMeasurementsHex)
    ensures
        a.order(b) == Ordering::Equal <==> a.same_values(b),
        a.order(b) == Ordering::Less <==> b.order(a) == Ordering::Greater,
        a.order(b) == Ordering::Greater <==> b.order(a) == Ordering::Less,
{
    lemma_measurements_hex_order_total(a.rtmrs, b.rtmrs);
    lemma_lex_cmp_total(a.key_provider_event_digest@, b.key_provider_event_digest@);
    lemma_lex_cmp_total(a.app_compose_hash_payload@, b.app_compose_hash_payload@);
}

} // verus!
