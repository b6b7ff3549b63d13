//! The identifiers that a device attests for itself.

use anyhow::Error as ResolveError;
use vstd::prelude::*;
use vstd::utf8::encode_utf8;

use crate::config::DeviceProperty;
use crate::error::{Error, ErrorCode};

verus! {

/// The error of `anyhow`, which the resolution of telephony identifiers may end in.
#[verifier::external_type_specification]
#[verifier::external_body]
pub struct ExResolveError(ResolveError);

/// `c` has the Unicode property `White_Space`.
pub open spec fn is_white_space(c: char) -> bool {
    let n = c as u32;
    ||| 0x9 <= n <= 0xD
    ||| n == 0x20
    ||| n == 0x85
    ||| n == 0xA0
    ||| n == 0x1680
    ||| 0x2000 <= n <= 0x200A
    ||| n == 0x2028
    ||| n == 0x2029
    ||| n == 0x202F
    ||| n == 0x205F
    ||| n == 0x3000
}

/// `s` without the white space that it starts with.
pub open spec fn trimmed_start(s: Seq<char>) -> Seq<char>
    decreases s.len(),
{
    if s.len() > 0 && is_white_space(s.first()) {
        trimmed_start(s.drop_first())
    } else {
        s
    }
}

/// `s` without the white space that it ends with.
pub open spec fn trimmed_end(s: Seq<char>) -> Seq<char>
    decreases s.len(),
{
    if s.len() > 0 && is_white_space(s.last()) {
        trimmed_end(s.drop_last())
    } else {
        s
    }
}

/// `str::trim` removes the leading and trailing characters that have the Unicode property
/// `White_Space`.
pub assume_specification[ str::trim ](s: &str) -> (r: &str)
    ensures
        r@ == trimmed_end(trimmed_start(s@)),
;

/// `s` holds nothing but white space.
pub open spec fn is_blank(s: Seq<char>) -> bool {
    forall|i: int| 0 <= i < s.len() ==> is_white_space(#[trigger] s[i])
}

proof fn lemma_trimmed_start_blank(s: Seq<char>)
    ensures
        is_blank(s) <==> trimmed_start(s).len() == 0,
        trimmed_start(s).len() > 0 ==> !is_white_space(trimmed_start(s).first()),
    decreases s.len(),
{
    if s.len() > 0 && is_white_space(s.first()) {
        lemma_trimmed_start_blank(s.drop_first());
        if is_blank(s.drop_first()) {
            assert forall|i: int| 0 <= i < s.len() implies is_white_space(#[trigger] s[i]) by {
                if i > 0 {
                    assert(s[i] == s.drop_first()[i - 1]);
                }
            }
        } else {
            let i = choose|i: int|
                0 <= i < s.drop_first().len() && !is_white_space(#[trigger] s.drop_first()[i]);
            assert(s[i + 1] == s.drop_first()[i]);
        }
    }
}

proof fn lemma_trimmed_end_nonempty(s: Seq<char>)
    requires
        s.len() > 0,
        !is_white_space(s.first()),
    ensures
        trimmed_end(s).len() > 0,
    decreases s.len(),
{
    if is_white_space(s.last()) {
        lemma_trimmed_end_nonempty(s.drop_last());
    }
}

/// Whether `s` holds nothing but white space.
fn is_blank_text(s: &str) -> (r: bool)
    ensures
        r == is_blank(s@),
{
    proof {
        lemma_trimmed_start_blank(s@);
        if !is_blank(s@) {
            lemma_trimmed_end_nonempty(trimmed_start(s@));
        }
    }
    s.trim().is_empty()
}

/// Attestation identifiers, as the bytes that are put into an attestation record.
#[derive(Debug)]
pub struct AttestationIdInfo {
    /// Brand.
    pub brand: Vec<u8>,
    /// Device.
    pub device: Vec<u8>,
    /// Product.
    pub product: Vec<u8>,
    /// Serial number.
    pub serial: Vec<u8>,
    /// IMEI of the first slot.
    pub imei: Vec<u8>,
    /// IMEI of the second slot.
    pub imei2: Vec<u8>,
    /// MEID.
    pub meid: Vec<u8>,
    /// Manufacturer.
    pub manufacturer: Vec<u8>,
    /// Model.
    pub model: Vec<u8>,
}

/// The contents of `AttestationIdInfo`.
#[verifier::ext_equal]
pub struct AttestationIds {
    /// Brand.
    pub brand: Seq<u8>,
    /// Device.
    pub device: Seq<u8>,
    /// Product.
    pub product: Seq<u8>,
    /// Serial number.
    pub serial: Seq<u8>,
    /// IMEI of the first slot.
    pub imei: Seq<u8>,
    /// IMEI of the second slot.
    pub imei2: Seq<u8>,
    /// MEID.
    pub meid: Seq<u8>,
    /// Manufacturer.
    pub manufacturer: Seq<u8>,
    /// Model.
    pub model: Seq<u8>,
}

impl View for AttestationIdInfo {
    type V = AttestationIds;

    open spec fn view(&self) -> AttestationIds {
        AttestationIds {
            brand: self.brand@,
            device: self.device@,
            product: self.product@,
            serial: self.serial@,
            imei: self.imei@,
            imei2: self.imei2@,
            meid: self.meid@,
            manufacturer: self.manufacturer@,
            model: self.model@,
        }
    }
}

impl Clone for AttestationIdInfo {
    fn clone(&self) -> (r: Self)
        ensures
            r@ == self@,
            r.brand@ == self.brand@,
            r.device@ == self.device@,
            r.product@ == self.product@,
            r.serial@ == self.serial@,
            r.imei@ == self.imei@,
            r.imei2@ == self.imei2@,
            r.meid@ == self.meid@,
            r.manufacturer@ == self.manufacturer@,
            r.model@ == self.model@,
    {
        AttestationIdInfo {
            brand: self.brand.clone(),
            device: self.device.clone(),
            product: self.product.clone(),
            serial: self.serial.clone(),
            imei: self.imei.clone(),
            imei2: self.imei2.clone(),
            meid: self.meid.clone(),
            manufacturer: self.manufacturer.clone(),
            model: self.model.clone(),
        }
    }
}

/// The identifiers of `device`: its properties in UTF-8.
pub open spec fn ids_of(device: DeviceProperty) -> AttestationIds {
    AttestationIds {
        brand: encode_utf8(device.brand@),
        device: encode_utf8(device.device@),
        product: encode_utf8(device.product@),
        serial: encode_utf8(device.serial@),
        imei: encode_utf8(device.imei@),
        imei2: encode_utf8(device.imei2@),
        meid: encode_utf8(device.meid@),
        manufacturer: encode_utf8(device.manufacturer@),
        model: encode_utf8(device.model@),
    }
}

/// `device` leaves a telephony identifier to be found out at run time.
pub open spec fn lacks_telephony_ids(device: DeviceProperty) -> bool {
    &&& !device.override_telephony_properties
    &&& is_blank(device.imei@) || is_blank(device.imei2@) || is_blank(device.meid@)
}

/// `configured` with the telephony identifiers of `device`. Everything else is as configured.
pub open spec fn backfilled(configured: DeviceProperty, device: DeviceProperty) -> DeviceProperty {
    DeviceProperty { imei: device.imei, imei2: device.imei2, meid: device.meid, ..configured }
}

/// What is attested for `configured` once the resolution of its telephony identifiers has ended
/// in `resolved`: the identifiers, and whether they are provisional.
pub open spec fn settled(
    configured: DeviceProperty,
    resolved: anyhow::Result<Option<DeviceProperty>>,
) -> (AttestationIds, bool) {
    match resolved {
        Ok(Some(device)) => (ids_of(backfilled(configured, device)), false),
        _ => (ids_of(configured), true),
    }
}

/// Whether the telephony identifiers of `device` have to be found out at run time.
pub fn needs_resolution(device: &DeviceProperty) -> (r: bool)
    ensures
        r == lacks_telephony_ids(*device),
{
    !device.override_telephony_properties && (is_blank_text(device.imei.as_str()) || is_blank_text(
        device.imei2.as_str(),
    ) || is_blank_text(device.meid.as_str()))
}

/// The identifiers of `device`.
pub fn snapshot_from(device: DeviceProperty) -> (r: AttestationIdInfo)
    ensures
        r@ == ids_of(device),
        r.brand@ == encode_utf8(device.brand@),
        r.device@ == encode_utf8(device.device@),
        r.product@ == encode_utf8(device.product@),
        r.serial@ == encode_utf8(device.serial@),
        r.imei@ == encode_utf8(device.imei@),
        r.imei2@ == encode_utf8(device.imei2@),
        r.meid@ == encode_utf8(device.meid@),
        r.manufacturer@ == encode_utf8(device.manufacturer@),
        r.model@ == encode_utf8(device.model@),
{
    AttestationIdInfo {
        brand: device.brand.as_str().as_bytes_vec(),
        device: device.device.as_str().as_bytes_vec(),
        product: device.product.as_str().as_bytes_vec(),
        serial: device.serial.as_str().as_bytes_vec(),
        imei: device.imei.as_str().as_bytes_vec(),
        imei2: device.imei2.as_str().as_bytes_vec(),
        meid: device.meid.as_str().as_bytes_vec(),
        manufacturer: device.manufacturer.as_str().as_bytes_vec(),
        model: device.model.as_str().as_bytes_vec(),
    }
}

/// Build the snapshot for `configured` from the outcome of resolving its telephony identifiers.
pub fn settled_snapshot(
    configured: DeviceProperty,
    resolved: anyhow::Result<Option<DeviceProperty>>,
) -> (r: (AttestationIdInfo, bool))
    ensures
        (r.0@, r.1) == settled(configured, resolved),
{
    match resolved {
        Ok(Some(device)) => {
            let device = DeviceProperty {
                imei: device.imei,
                imei2: device.imei2,
                meid: device.meid,
                ..configured
            };
            (snapshot_from(device), false)
        },
        Ok(None) => (snapshot_from(configured), true),
        Err(_) => (snapshot_from(configured), true),
    }
}

/// Build the attestation ID snapshot for `configured`, backfilling the telephony identifiers with
/// `resolve` when the configuration leaves them empty.
///
/// Telephony identifiers are only a part of the attestation identity: brand, device, product,
/// manufacturer, model and serial come from the configuration and never need telephony at all. So
/// when `resolve` cannot answer yet, which is normal early in boot, the configured identity is
/// attested as it stands, rather than nothing at all.
///
/// The second element of the returned pair reports whether the snapshot is provisional: built
/// without a completed telephony resolution, and therefore not safe to cache.
pub fn attestation_snapshot<R: FnOnce() -> anyhow::Result<Option<DeviceProperty>>>(
    configured: DeviceProperty,
    resolve: R,
) -> (r: (AttestationIdInfo, bool))
    requires
        lacks_telephony_ids(configured) ==> resolve.requires(()),
    ensures
        !lacks_telephony_ids(configured) ==> (r.0@, r.1) == (ids_of(configured), false),
        lacks_telephony_ids(configured) ==> exists|resolved|
            #[trigger] resolve.ensures((), resolved) && (r.0@, r.1) == settled(
                configured,
                resolved,
            ),
{
    if needs_resolution(&configured) {
        settled_snapshot(configured, resolve())
    } else {
        (snapshot_from(configured), false)
    }
}

/// What the manager remembers between requests.
pub struct IdCache {
    /// The identifiers to answer with from now on, once they are settled.
    pub cached: Option<AttestationIds>,
    /// The most recent answer was built without telephony identifiers that the device may still
    /// report later on.
    pub provisional: bool,
}

impl IdCache {
    /// Provisional identifiers are never remembered.
    pub open spec fn wf(self) -> bool {
        self.provisional ==> self.cached is None
    }

    /// The answer to a request, and what is remembered after it, when the configured device is
    /// `configured` and resolving its telephony identifiers would end in `resolved`.
    pub open spec fn answer(
        self,
        configured: DeviceProperty,
        resolved: anyhow::Result<Option<DeviceProperty>>,
    ) -> (IdCache, AttestationIds) {
        match self.cached {
            Some(ids) => (IdCache { cached: Some(ids), provisional: false }, ids),
            None => {
                let (ids, provisional) = if lacks_telephony_ids(configured) {
                    settled(configured, resolved)
                } else {
                    (ids_of(configured), false)
                };
                (
                    IdCache {
                        cached: if provisional {
                            None
                        } else {
                            Some(ids)
                        },
                        provisional,
                    },
                    ids,
                )
            },
        }
    }
}

/// Hands out the attestation identifiers, and holds on to them once they are settled.
pub struct AttestationIdMgr {
    cached: Option<AttestationIdInfo>,
    provisional: bool,
}

impl View for AttestationIdMgr {
    type V = IdCache;

    closed spec fn view(&self) -> IdCache {
        IdCache {
            cached: match self.cached {
                Some(ids) => Some(ids@),
                None => None,
            },
            provisional: self.provisional,
        }
    }
}

impl AttestationIdMgr {
    /// Provisional identifiers are never remembered.
    #[verifier::type_invariant]
    spec fn inv(self) -> bool {
        self@.wf()
    }

    /// A manager that has not answered any request yet.
    pub fn new() -> (r: Self)
        ensures
            r@ == (IdCache { cached: None, provisional: false }),
            r@.wf(),
    {
        AttestationIdMgr { cached: None, provisional: false }
    }

    /// The identifiers to answer with, if they are settled. Such an answer is not provisional.
    fn settled_ids(&mut self) -> (r: Option<AttestationIdInfo>)
        ensures
            final(self)@.wf(),
            old(self)@.cached is Some ==> r is Some && r->0@ == old(self)@.cached->0 && final(self)@
                == (IdCache { cached: old(self)@.cached, provisional: false }),
            old(self)@.cached is None ==> r is None && final(self)@ == old(self)@,
    {
        proof {
            use_type_invariant(&*self);
        }
        match &self.cached {
            Some(ids) => {
                let ids = ids.clone();
                self.provisional = false;
                Some(ids)
            },
            None => None,
        }
    }

    /// Take note of the first snapshot, or of the next one after a provisional one, that is about
    /// to be answered with, and remember it unless it is provisional.
    fn record(&mut self, ids: &AttestationIdInfo, provisional: bool)
        requires
            old(self)@.cached is None,
        ensures
            final(self)@.wf(),
            final(self)@.provisional == provisional,
            provisional ==> final(self)@.cached is None,
            !provisional ==> final(self)@.cached == Some(ids@),
    {
        let ids = ids.clone();
        self.provisional = provisional;
        if !provisional {
            self.cached = Some(ids);
        }
    }

    /// The attestation identifiers, which are always available. `configured` reads the configured
    /// device, and is asked only while the identifiers are not settled. `resolve` finds out its
    /// telephony identifiers, and is asked only where the configuration leaves one empty.
    pub fn get_ids<
        C: FnOnce() -> Result<DeviceProperty, Error>,
        R: FnOnce() -> anyhow::Result<Option<DeviceProperty>>,
    >(&mut self, configured: C, resolve: R) -> (r: Result<Option<AttestationIdInfo>, Error>)
        requires
            old(self)@.cached is None ==> configured.requires(()),
            old(self)@.cached is None ==> forall|device: DeviceProperty|
                #[trigger] lacks_telephony_ids(device) && configured.ensures((), Ok(device))
                    ==> resolve.requires(()),
        ensures
            final(self)@.wf(),
            // Settled identifiers are answered at once.
            old(self)@.cached is Some ==> r is Ok && r->Ok_0 is Some && r->Ok_0->0@
                == old(self)@.cached->0 && final(self)@ == (IdCache {
                cached: old(self)@.cached,
                provisional: false,
            }),
            // A failure to read the configuration is passed on, and leaves everything as it was.
            old(self)@.cached is None && r is Err ==> configured.ensures(
                (),
                Err(r->Err_0),
            ) && final(self)@ == old(self)@,
            // Otherwise the answer is that for the configured device.
            old(self)@.cached is None && r is Ok ==> r->Ok_0 is Some && exists|
                device: DeviceProperty,
                resolved: anyhow::Result<Option<DeviceProperty>>,
            |
                {
                    &&& #[trigger] configured.ensures((), Ok(device))
                    &&& lacks_telephony_ids(device) ==> resolve.ensures((), resolved)
                    &&& #[trigger] old(self)@.answer(device, resolved) == (
                        final(self)@,
                        r->Ok_0->0@,
                    )
                },
    {
        if let Some(ids) = self.settled_ids() {
            return Ok(Some(ids));
        }
        let configured = match configured() {
            Ok(device) => device,
            Err(e) => {
                return Err(e);
            },
        };
        let (ids, provisional) = attestation_snapshot(configured, resolve);
        self.record(&ids, provisional);
        proof {
            if lacks_telephony_ids(configured) {
                let resolved = choose|resolved|
                    #[trigger] resolve.ensures((), resolved) && (ids@, provisional) == settled(
                        configured,
                        resolved,
                    );
                assert(old(self)@.answer(configured, resolved) == (self@, ids@));
            } else {
                let resolved: anyhow::Result<Option<DeviceProperty>> = Ok(None);
                assert(old(self)@.answer(configured, resolved) == (self@, ids@));
            }
        }
        Ok(Some(ids))
    }

    /// The attestation identifiers. See `get_ids` for what is asked of the arguments.
    pub fn get<
        C: FnOnce() -> Result<DeviceProperty, Error>,
        R: FnOnce() -> anyhow::Result<Option<DeviceProperty>>,
    >(&mut self, configured: C, resolve: R) -> (r: Result<AttestationIdInfo, Error>)
        requires
            old(self)@.cached is None ==> configured.requires(()),
            old(self)@.cached is None ==> forall|device: DeviceProperty|
                #[trigger] lacks_telephony_ids(device) && configured.ensures((), Ok(device))
                    ==> resolve.requires(()),
        ensures
            final(self)@.wf(),
            old(self)@.cached is Some ==> r is Ok && r->Ok_0@ == old(self)@.cached->0
                && final(self)@ == (IdCache { cached: old(self)@.cached, provisional: false }),
            old(self)@.cached is None && r is Err ==> configured.ensures(
                (),
                Err(r->Err_0),
            ) && final(self)@ == old(self)@,
            old(self)@.cached is None && r is Ok ==> exists|
                device: DeviceProperty,
                resolved: anyhow::Result<Option<DeviceProperty>>,
            |
                {
                    &&& #[trigger] configured.ensures((), Ok(device))
                    &&& lacks_telephony_ids(device) ==> resolve.ensures((), resolved)
                    &&& #[trigger] old(self)@.answer(device, resolved) == (
                        final(self)@,
                        r->Ok_0@,
                    )
                },
    {
        match self.get_ids(configured, resolve) {
            Ok(ids) => available_ids(ids),
            Err(e) => Err(e),
        }
    }

    /// Whether the most recent answer was provisional, so that a caller must not hold on to it.
    pub fn ids_are_provisional(&self) -> (r: bool)
        ensures
            r == self@.provisional,
    {
        self.provisional
    }

    /// A request to destroy the identifiers is acknowledged and has no effect.
    pub fn destroy_all(&mut self) -> (r: Result<(), Error>)
        ensures
            r is Ok,
            final(self)@ == old(self)@,
    {
        Ok(())
    }
}

/// The identifiers, or the refusal to attest any where there are none.
pub fn available_ids(ids: Option<AttestationIdInfo>) -> (r: Result<AttestationIdInfo, Error>)
    ensures
        ids matches Some(i) ==> r == Ok::<AttestationIdInfo, Error>(i),
        ids is None ==> r is Err && r->Err_0.is_hal(
            ErrorCode::CannotAttestIds,
            "attestation ID info not available"@,
        ),
{
    match ids {
        Some(ids) => Ok(ids),
        None => Err(
            Error::Hal(
                ErrorCode::CannotAttestIds,
                "attestation ID info not available".to_owned(),
            ),
        ),
    }
}

/// What is said of identifiers is said of the bytes that are handed out.
pub proof fn law_identifiers_are_the_bytes_handed_out(ids: AttestationIdInfo)
    ensures
        ids@.brand == ids.brand@,
        ids@.device == ids.device@,
        ids@.product == ids.product@,
        ids@.serial == ids.serial@,
        ids@.imei == ids.imei@,
        ids@.imei2 == ids.imei2@,
        ids@.meid == ids.meid@,
        ids@.manufacturer == ids.manufacturer@,
        ids@.model == ids.model@,
{
}

/// Each property of a device is attested under its own name, in UTF-8, and independently of every
/// other.
pub proof fn law_each_property_is_attested_as_itself(device: DeviceProperty)
    ensures
        ids_of(device).brand == encode_utf8(device.brand@),
        ids_of(device).device == encode_utf8(device.device@),
        ids_of(device).product == encode_utf8(device.product@),
        ids_of(device).serial == encode_utf8(device.serial@),
        ids_of(device).imei == encode_utf8(device.imei@),
        ids_of(device).imei2 == encode_utf8(device.imei2@),
        ids_of(device).meid == encode_utf8(device.meid@),
        ids_of(device).manufacturer == encode_utf8(device.manufacturer@),
        ids_of(device).model == encode_utf8(device.model@),
{
}

/// Attested identifiers can be told apart: two devices with the same identifiers have the same
/// properties.
pub proof fn law_identifiers_determine_the_properties(a: DeviceProperty, b: DeviceProperty)
    requires
        ids_of(a) == ids_of(b),
    ensures
        a.brand@ == b.brand@,
        a.device@ == b.device@,
        a.product@ == b.product@,
        a.serial@ == b.serial@,
        a.imei@ == b.imei@,
        a.imei2@ == b.imei2@,
        a.meid@ == b.meid@,
        a.manufacturer@ == b.manufacturer@,
        a.model@ == b.model@,
{
    lemma_encode_utf8_injective(a.brand@, b.brand@);
    lemma_encode_utf8_injective(a.device@, b.device@);
    lemma_encode_utf8_injective(a.product@, b.product@);
    lemma_encode_utf8_injective(a.serial@, b.serial@);
    lemma_encode_utf8_injective(a.imei@, b.imei@);
    lemma_encode_utf8_injective(a.imei2@, b.imei2@);
    lemma_encode_utf8_injective(a.meid@, b.meid@);
    lemma_encode_utf8_injective(a.manufacturer@, b.manufacturer@);
    lemma_encode_utf8_injective(a.model@, b.model@);
}

proof fn lemma_encode_utf8_injective(a: Seq<char>, b: Seq<char>)
    requires
        encode_utf8(a) == encode_utf8(b),
    ensures
        a == b,
{
    vstd::utf8::encode_utf8_decode_utf8(a);
    vstd::utf8::encode_utf8_decode_utf8(b);
}

/// A character is white space exactly if Unicode lists it as such.
pub proof fn law_white_space_is_that_of_unicode(c: char)
    ensures
        is_white_space(c) <==> seq![
            '\u{9}',
            '\u{a}',
            '\u{b}',
            '\u{c}',
            '\u{d}',
            '\u{20}',
            '\u{85}',
            '\u{a0}',
            '\u{1680}',
            '\u{2000}',
            '\u{2001}',
            '\u{2002}',
            '\u{2003}',
            '\u{2004}',
            '\u{2005}',
            '\u{2006}',
            '\u{2007}',
            '\u{2008}',
            '\u{2009}',
            '\u{200a}',
            '\u{2028}',
            '\u{2029}',
            '\u{202f}',
            '\u{205f}',
            '\u{3000}',
        ].contains(c),
{
    let list = seq![
        '\u{9}',
        '\u{a}',
        '\u{b}',
        '\u{c}',
        '\u{d}',
        '\u{20}',
        '\u{85}',
        '\u{a0}',
        '\u{1680}',
        '\u{2000}',
        '\u{2001}',
        '\u{2002}',
        '\u{2003}',
        '\u{2004}',
        '\u{2005}',
        '\u{2006}',
        '\u{2007}',
        '\u{2008}',
        '\u{2009}',
        '\u{200a}',
        '\u{2028}',
        '\u{2029}',
        '\u{202f}',
        '\u{205f}',
        '\u{3000}',
    ];
    if is_white_space(c) {
        let n = c as u32;
        let i: int = if n <= 0xD {
            n - 0x9
        } else if n == 0x20 {
            5
        } else if n == 0x85 {
            6
        } else if n == 0xA0 {
            7
        } else if n == 0x1680 {
            8
        } else if n <= 0x200A {
            9 + n - 0x2000
        } else if n == 0x2028 {
            20
        } else if n == 0x2029 {
            21
        } else if n == 0x202F {
            22
        } else if n == 0x205F {
            23
        } else {
            24
        };
        assert(list[i] == c);
    }
}

/// Telephony is asked if and only if the configuration does not pin the identifiers, and one of the
/// IMEIs or the MEID is empty or nothing but white space.
pub proof fn law_telephony_is_asked_for_missing_identifiers(device: DeviceProperty)
    ensures
        lacks_telephony_ids(device) <==> !device.override_telephony_properties && {
            ||| forall|i: int| 0 <= i < device.imei@.len() ==> is_white_space(#[trigger] device.imei@[i])
            ||| forall|i: int|
                0 <= i < device.imei2@.len() ==> is_white_space(#[trigger] device.imei2@[i])
            ||| forall|i: int| 0 <= i < device.meid@.len() ==> is_white_space(#[trigger] device.meid@[i])
        },
{
}

/// A resolution of the telephony identifiers is complete exactly if it gave a device. Then they are
/// attested as that device has them, each as itself, and otherwise as they are configured, as a
/// provisional answer. Everything else is attested as it is configured.
pub proof fn law_resolution_backfills_telephony_identifiers(
    configured: DeviceProperty,
    resolved: anyhow::Result<Option<DeviceProperty>>,
)
    ensures
        ({
            let (ids, provisional) = settled(configured, resolved);
            &&& provisional <==> !(resolved is Ok && resolved->Ok_0 is Some)
            &&& resolved matches Ok(Some(device)) ==> {
                &&& ids.imei == encode_utf8(device.imei@)
                &&& ids.imei2 == encode_utf8(device.imei2@)
                &&& ids.meid == encode_utf8(device.meid@)
            }
            &&& provisional ==> {
                &&& ids.imei == encode_utf8(configured.imei@)
                &&& ids.imei2 == encode_utf8(configured.imei2@)
                &&& ids.meid == encode_utf8(configured.meid@)
            }
            &&& ids.brand == encode_utf8(configured.brand@)
            &&& ids.device == encode_utf8(configured.device@)
            &&& ids.product == encode_utf8(configured.product@)
            &&& ids.serial == encode_utf8(configured.serial@)
            &&& ids.manufacturer == encode_utf8(configured.manufacturer@)
            &&& ids.model == encode_utf8(configured.model@)
        }),
{
}

/// Where telephony is not asked, because the configuration pins the identifiers or gives them all,
/// and where it does not answer, each telephony identifier is attested as it is configured.
pub proof fn law_telephony_identifiers_as_configured(
    cache: IdCache,
    configured: DeviceProperty,
    resolved: anyhow::Result<Option<DeviceProperty>>,
)
    requires
        cache.cached is None,
        configured.override_telephony_properties || ((exists|i: int|
            0 <= i < configured.imei@.len() && !is_white_space(#[trigger] configured.imei@[i])) && (
        exists|i: int|
            0 <= i < configured.imei2@.len() && !is_white_space(#[trigger] configured.imei2@[i])) && (
        exists|i: int|
            0 <= i < configured.meid@.len() && !is_white_space(#[trigger] configured.meid@[i])))
            || resolved is Err || resolved->Ok_0 is None,
    ensures
        ({
            let ids = cache.answer(configured, resolved).1;
            &&& ids.imei == encode_utf8(configured.imei@)
            &&& ids.imei2 == encode_utf8(configured.imei2@)
            &&& ids.meid == encode_utf8(configured.meid@)
        }),
{
}

/// An answer is provisional if and only if nothing was settled, a telephony identifier is missing
/// that the configuration does not pin, and telephony gave no device. A provisional answer is
/// forgotten, and any other is remembered as it was given.
pub proof fn law_answers_are_provisional_without_telephony(
    cache: IdCache,
    configured: DeviceProperty,
    resolved: anyhow::Result<Option<DeviceProperty>>,
)
    ensures
        ({
            let (after, ids) = cache.answer(configured, resolved);
            &&& after.provisional <==> {
                &&& cache.cached is None
                &&& !configured.override_telephony_properties
                &&& {
                    ||| forall|i: int|
                        0 <= i < configured.imei@.len() ==> is_white_space(
                            #[trigger] configured.imei@[i],
                        )
                    ||| forall|i: int|
                        0 <= i < configured.imei2@.len() ==> is_white_space(
                            #[trigger] configured.imei2@[i],
                        )
                    ||| forall|i: int|
                        0 <= i < configured.meid@.len() ==> is_white_space(
                            #[trigger] configured.meid@[i],
                        )
                }
                &&& resolved is Err || resolved->Ok_0 is None
            }
            &&& after.cached == if after.provisional {
                None
            } else {
                Some(ids)
            }
            &&& cache.cached is Some ==> ids == cache.cached->0
        }),
{
}

/// Once identifiers are settled they are answered to every later request, whatever the
/// configuration and telephony say by then, and no later answer is provisional.
pub proof fn law_settled_ids_are_kept(
    cache: IdCache,
    configured: DeviceProperty,
    resolved: anyhow::Result<Option<DeviceProperty>>,
)
    requires
        cache.cached is Some,
    ensures
        cache.answer(configured, resolved).1 == cache.cached->0,
        cache.answer(configured, resolved).0.cached == cache.cached,
        !cache.answer(configured, resolved).0.provisional,
{
}

/// An answer is remembered exactly if it is not provisional.
pub proof fn law_provisional_ids_are_not_kept(
    cache: IdCache,
    configured: DeviceProperty,
    resolved: anyhow::Result<Option<DeviceProperty>>,
)
    requires
        cache.wf(),
    ensures
        ({
            let (after, ids) = cache.answer(configured, resolved);
            &&& after.wf()
            &&& after.provisional <==> after.cached is None
            &&& !after.provisional ==> after.cached == Some(ids)
        }),
{
}

/// While telephony cannot answer, or fails to, the whole configured identity is still attested,
/// as a provisional answer. The next request that telephony does answer settles the identifiers.
pub proof fn law_device_properties_do_not_wait_for_telephony(
    cache: IdCache,
    configured: DeviceProperty,
    resolved: anyhow::Result<Option<DeviceProperty>>,
    device: DeviceProperty,
)
    requires
        cache.cached is None,
        lacks_telephony_ids(configured),
        resolved is Err || resolved->Ok_0 is None,
    ensures
        ({
            let (after, ids) = cache.answer(configured, resolved);
            &&& ids == ids_of(configured)
            &&& after.provisional
            &&& after.answer(configured, Ok(Some(device))) == (
                IdCache {
                    cached: Some(ids_of(backfilled(configured, device))),
                    provisional: false,
                },
                ids_of(backfilled(configured, device)),
            )
        }),
{
}

/// Brand, device, product, manufacturer, model and serial are attested as they are configured,
/// whatever telephony answers. Where telephony is asked and answers, the telephony identifiers are
/// those of its answer.
pub proof fn law_device_properties_come_from_the_configuration(
    cache: IdCache,
    configured: DeviceProperty,
    resolved: anyhow::Result<Option<DeviceProperty>>,
)
    requires
        cache.cached is None,
    ensures
        ({
            let ids = cache.answer(configured, resolved).1;
            &&& ids.brand == encode_utf8(configured.brand@)
            &&& ids.device == encode_utf8(configured.device@)
            &&& ids.product == encode_utf8(configured.product@)
            &&& ids.manufacturer == encode_utf8(configured.manufacturer@)
            &&& ids.model == encode_utf8(configured.model@)
            &&& ids.serial == encode_utf8(configured.serial@)
            &&& lacks_telephony_ids(configured) ==> (resolved matches Ok(Some(device)) ==> {
                &&& ids.imei == encode_utf8(device.imei@)
                &&& ids.imei2 == encode_utf8(device.imei2@)
                &&& ids.meid == encode_utf8(device.meid@)
            })
        }),
{
}

/// A configuration that pins the telephony identifiers, or gives them all, is attested as it
/// stands, whatever telephony would have answered.
pub proof fn law_given_ids_need_no_telephony(
    cache: IdCache,
    configured: DeviceProperty,
    resolved: anyhow::Result<Option<DeviceProperty>>,
)
    requires
        cache.cached is None,
        configured.override_telephony_properties || !(is_blank(configured.imei@) || is_blank(
            configured.imei2@,
        ) || is_blank(configured.meid@)),
    ensures
        cache.answer(configured, resolved) == (
            IdCache { cached: Some(ids_of(configured)), provisional: false },
            ids_of(configured),
        ),
{
}

} // verus!
