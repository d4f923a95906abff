//! Which attached USB device to use as the receipt printer, and which of its
//! endpoints to write to. The caller enumerates devices and reads descriptors;
//! these functions only decide.
use vstd::prelude::*;

verus! {

/// The USB device class of printers.
pub const PRINTER_CLASS: u8 = 0x07;

/// The endpoint written to when the descriptors name no bulk-OUT endpoint.
pub const DEFAULT_ENDPOINT: u8 = 0x01;

/// What enumeration learned of one device whose descriptor could be read.
#[derive(Clone, Copy, Debug, PartialEq, Eq, Structural)]
pub struct DeviceDescriptor {
    pub vendor_id: u16,
    pub product_id: u16,
    pub class_code: u8,
}

/// A vendor/product pair.
#[derive(Clone, Copy, Debug, PartialEq, Eq, Structural)]
pub struct UsbId {
    pub vendor_id: u16,
    pub product_id: u16,
}

/// The known identities of receipt printers, highest priority first.
pub struct MatchRules {
    pub primary: UsbId,
    pub alternates: Vec<UsbId>,
}

/// One endpoint of the active configuration. Bit 7 of the address gives the
/// direction: clear for host-to-device (OUT), set for IN.
#[derive(Clone, Copy, Debug, PartialEq, Eq, Structural)]
pub struct EndpointInfo {
    pub address: u8,
    pub bulk: bool,
}

/// An OUT endpoint address: bit 7 clear.
pub open spec fn is_out_address(a: u8) -> bool {
    a < 0x80
}

impl MatchRules {
    /// The known identities in priority order.
    pub open spec fn ids(&self) -> Seq<UsbId> {
        seq![self.primary].add(self.alternates@)
    }

    /// The identities of the Xprinter family and its Epson-compatible mode.
    pub fn xprinter() -> (r: MatchRules)
        ensures
            r.ids() == seq![
                UsbId { vendor_id: 0x0483, product_id: 0x5743 },
                UsbId { vendor_id: 0x0416, product_id: 0x5011 },
                UsbId { vendor_id: 0x0493, product_id: 0x8760 },
                UsbId { vendor_id: 0x1FC9, product_id: 0x2016 },
                UsbId { vendor_id: 0x04B8, product_id: 0x0202 },
            ],
    {
        let r = MatchRules {
            primary: UsbId { vendor_id: 0x0483, product_id: 0x5743 },
            alternates: vec![
                UsbId { vendor_id: 0x0416, product_id: 0x5011 },
                UsbId { vendor_id: 0x0493, product_id: 0x8760 },
                UsbId { vendor_id: 0x1FC9, product_id: 0x2016 },
                UsbId { vendor_id: 0x04B8, product_id: 0x0202 },
            ],
        };
        assert(r.ids() =~= seq![
            UsbId { vendor_id: 0x0483, product_id: 0x5743 },
            UsbId { vendor_id: 0x0416, product_id: 0x5011 },
            UsbId { vendor_id: 0x0493, product_id: 0x8760 },
            UsbId { vendor_id: 0x1FC9, product_id: 0x2016 },
            UsbId { vendor_id: 0x04B8, product_id: 0x0202 },
        ]);
        r
    }

    /// The known identities in priority order, as a vector.
    pub fn ids_vec(&self) -> (r: Vec<UsbId>)
        ensures
            r@ == self.ids(),
    {
        let mut r: Vec<UsbId> = vec![self.primary];
        let mut rest = self.alternates.clone();
        proof {
            assert(rest@ == self.alternates@) by {
                assert(rest@.len() == self.alternates@.len());
                assert forall|i: int| 0 <= i < rest@.len() implies rest@[i] == self.alternates@[i] by {
                    assert(cloned::<UsbId>(self.alternates@[i], rest@[i]));
                }
            }
        }
        r.append(&mut rest);
        assert(r@ =~= self.ids());
        r
    }
}

pub open spec fn has_id(d: DeviceDescriptor, id: UsbId) -> bool {
    d.vendor_id == id.vendor_id && d.product_id == id.product_id
}

/// The device carries one of the known identities.
pub open spec fn is_known(ids: Seq<UsbId>, d: DeviceDescriptor) -> bool {
    exists|k: int| 0 <= k < ids.len() && has_id(d, #[trigger] ids[k])
}

/// The device is listed as a printer: known identity or printer class.
pub open spec fn is_printer(ids: Seq<UsbId>, d: DeviceDescriptor) -> bool {
    d.class_code == PRINTER_CLASS || is_known(ids, d)
}

/// The first of the first `n` devices that carries `id`.
pub open spec fn first_with_id(devs: Seq<DeviceDescriptor>, id: UsbId, n: int) -> Option<int>
    decreases n,
{
    if n <= 0 {
        None
    } else {
        match first_with_id(devs, id, n - 1) {
            Some(i) => Some(i),
            None => if has_id(devs[n - 1], id) {
                Some(n - 1)
            } else {
                None
            },
        }
    }
}

/// One open attempt per known identity, in priority order: the first device
/// that carries it.
pub open spec fn known_candidates(devs: Seq<DeviceDescriptor>, ids: Seq<UsbId>) -> Seq<usize>
    decreases ids.len(),
{
    if ids.len() == 0 {
        Seq::empty()
    } else {
        let rest = known_candidates(devs, ids.drop_last());
        match first_with_id(devs, ids.last(), devs.len() as int) {
            Some(i) => rest.push(i as usize),
            None => rest,
        }
    }
}

/// Every device of the printer class among the first `n`, in enumeration order.
pub open spec fn class_candidates(devs: Seq<DeviceDescriptor>, n: int) -> Seq<usize>
    decreases n,
{
    if n <= 0 {
        Seq::empty()
    } else {
        let rest = class_candidates(devs, n - 1);
        if devs[n - 1].class_code == PRINTER_CLASS {
            rest.push((n - 1) as usize)
        } else {
            rest
        }
    }
}

/// The order in which devices are tried: known identities by priority, then
/// printer-class devices by enumeration order. The first that opens is used.
pub open spec fn candidates(devs: Seq<DeviceDescriptor>, ids: Seq<UsbId>) -> Seq<usize> {
    known_candidates(devs, ids) + class_candidates(devs, devs.len() as int)
}

/// The first endpoint among the first `n` that is bulk and outbound.
pub open spec fn first_bulk_out(eps: Seq<EndpointInfo>, n: int) -> Option<u8>
    decreases n,
{
    if n <= 0 {
        None
    } else {
        match first_bulk_out(eps, n - 1) {
            Some(a) => Some(a),
            None => if is_out_address(eps[n - 1].address) && eps[n - 1].bulk {
                Some(eps[n - 1].address)
            } else {
                None
            },
        }
    }
}

/// The endpoint to write to, given the active configuration's endpoints
/// (`None` when they could not be read).
pub open spec fn endpoint_for(config: Option<Seq<EndpointInfo>>) -> u8 {
    match config {
        None => DEFAULT_ENDPOINT,
        Some(eps) => match first_bulk_out(eps, eps.len() as int) {
            Some(a) => a,
            None => DEFAULT_ENDPOINT,
        },
    }
}

/// The first device that carries `id`.
pub fn find_with_id(devs: &Vec<DeviceDescriptor>, id: UsbId) -> (r: Option<usize>)
    ensures
        match first_with_id(devs@, id, devs@.len() as int) {
            Some(i) => r == Some(i as usize),
            None => r is None,
        },
{
    let mut r: Option<usize> = None;
    let mut i: usize = 0;
    while i < devs.len()
        invariant
            i <= devs@.len(),
            match first_with_id(devs@, id, i as int) {
                Some(j) => r == Some(j as usize),
                None => r is None,
            },
        decreases devs@.len() - i,
    {
        if r.is_none() && devs[i].vendor_id == id.vendor_id && devs[i].product_id == id.product_id {
            r = Some(i);
        }
        i = i + 1;
    }
    r
}

/// The devices to try to open, in order: for each known identity by
/// priority the first device that carries it, then every printer-class device
/// in enumeration order.
pub fn candidate_order(rules: &MatchRules, devs: &Vec<DeviceDescriptor>) -> (r: Vec<usize>)
    ensures
        r@ == candidates(devs@, rules.ids()),
{
    let ids = rules.ids_vec();
    let mut r: Vec<usize> = Vec::new();
    let mut k: usize = 0;
    while k < ids.len()
        invariant
            k <= ids@.len(),
            ids@ == rules.ids(),
            r@ == known_candidates(devs@, ids@.subrange(0, k as int)),
        decreases ids@.len() - k,
    {
        proof {
            let s = ids@.subrange(0, k + 1);
            assert(s.drop_last() =~= ids@.subrange(0, k as int));
            assert(s.last() == ids@[k as int]);
        }
        match find_with_id(devs, ids[k]) {
            Some(i) => r.push(i),
            None => {},
        }
        k = k + 1;
    }
    assert(ids@.subrange(0, ids@.len() as int) =~= ids@);
    let mut i: usize = 0;
    while i < devs.len()
        invariant
            i <= devs@.len(),
            r@ == known_candidates(devs@, rules.ids()) + class_candidates(devs@, i as int),
        decreases devs@.len() - i,
    {
        if devs[i].class_code == PRINTER_CLASS {
            r.push(i);
            assert(r@ =~= known_candidates(devs@, rules.ids()) + class_candidates(devs@, i + 1));
        }
        i = i + 1;
    }
    r
}

/// The printers among the first `n` devices, in enumeration order.
pub open spec fn printer_indices(devs: Seq<DeviceDescriptor>, ids: Seq<UsbId>, n: int) -> Seq<usize>
    decreases n,
{
    if n <= 0 {
        Seq::empty()
    } else {
        let rest = printer_indices(devs, ids, n - 1);
        if is_printer(ids, devs[n - 1]) {
            rest.push((n - 1) as usize)
        } else {
            rest
        }
    }
}

/// The positions of the devices to list as printers, in enumeration order.
pub fn list_printer_indices(rules: &MatchRules, devs: &Vec<DeviceDescriptor>) -> (r: Vec<usize>)
    ensures
        r@ == printer_indices(devs@, rules.ids(), devs@.len() as int),
{
    let mut r: Vec<usize> = Vec::new();
    let mut i: usize = 0;
    while i < devs.len()
        invariant
            i <= devs@.len(),
            r@ == printer_indices(devs@, rules.ids(), i as int),
        decreases devs@.len() - i,
    {
        if is_listed_printer(rules, devs[i]) {
            r.push(i);
        }
        i = i + 1;
    }
    r
}

/// Whether a device belongs in the list of printers.
pub fn is_listed_printer(rules: &MatchRules, d: DeviceDescriptor) -> (r: bool)
    ensures
        r == is_printer(rules.ids(), d),
{
    if d.class_code == PRINTER_CLASS {
        return true;
    }
    let ids = rules.ids_vec();
    let mut k: usize = 0;
    while k < ids.len()
        invariant
            k <= ids@.len(),
            ids@ == rules.ids(),
            forall|j: int| 0 <= j < k ==> !has_id(d, #[trigger] ids@[j]),
        decreases ids@.len() - k,
    {
        if ids[k].vendor_id == d.vendor_id && ids[k].product_id == d.product_id {
            return true;
        }
        k = k + 1;
    }
    false
}

/// The bulk-OUT endpoint to write to; the default address when the
/// configuration could not be read or names none. Never fails, and always
/// gives an OUT address.
pub fn find_bulk_out_endpoint(config: &Option<Vec<EndpointInfo>>) -> (r: u8)
    ensures
        is_out_address(r),
        r == endpoint_for(
            match config {
                Some(v) => Some(v@),
                None => None,
            },
        ),
{
    match config {
        None => DEFAULT_ENDPOINT,
        Some(eps) => {
            let mut found: Option<u8> = None;
            let mut i: usize = 0;
            while i < eps.len()
                invariant
                    i <= eps@.len(),
                    found == first_bulk_out(eps@, i as int),
                    found matches Some(a) ==> is_out_address(a),
                decreases eps@.len() - i,
            {
                if found.is_none() && eps[i].address < 0x80 && eps[i].bulk {
                    found = Some(eps[i].address);
                }
                i = i + 1;
            }
            match found {
                Some(a) => a,
                None => DEFAULT_ENDPOINT,
            }
        },
    }
}

proof fn lemma_first_with_id(devs: Seq<DeviceDescriptor>, id: UsbId, n: int)
    requires
        n <= devs.len(),
    ensures
        match first_with_id(devs, id, n) {
            Some(i) => 0 <= i < n && has_id(devs[i], id),
            None => forall|j: int| 0 <= j < n ==> !has_id(#[trigger] devs[j], id),
        },
    decreases n,
{
    if n > 0 {
        lemma_first_with_id(devs, id, n - 1);
    }
}

proof fn lemma_known_candidates(devs: Seq<DeviceDescriptor>, ids: Seq<UsbId>)
    requires
        devs.len() <= usize::MAX,
    ensures
        forall|c: int|
            0 <= c < known_candidates(devs, ids).len() ==> {
                let i = #[trigger] known_candidates(devs, ids)[c] as int;
                0 <= i < devs.len() && is_known(ids, devs[i])
            },
        (exists|i: int| 0 <= i < devs.len() && is_known(ids, #[trigger] devs[i])) ==> known_candidates(
            devs,
            ids,
        ).len() > 0,
    decreases ids.len(),
{
    if ids.len() > 0 {
        let pre = ids.drop_last();
        lemma_known_candidates(devs, pre);
        lemma_first_with_id(devs, ids.last(), devs.len() as int);
        let kc = known_candidates(devs, ids);
        let rest = known_candidates(devs, pre);
        assert forall|c: int| 0 <= c < kc.len() implies {
            let i = #[trigger] kc[c] as int;
            0 <= i < devs.len() && is_known(ids, devs[i])
        } by {
            if c < rest.len() {
                assert(kc[c] == rest[c]);
                let i = rest[c] as int;
                let k = choose|k: int| 0 <= k < pre.len() && has_id(devs[i], #[trigger] pre[k]);
                assert(ids[k] == pre[k]);
            } else {
                match first_with_id(devs, ids.last(), devs.len() as int) {
                    Some(i) => {
                        assert(kc == rest.push(i as usize));
                        assert(kc[c] as int == i);
                        assert(has_id(devs[i], ids[ids.len() - 1]));
                    },
                    None => {},
                }
            }
        }
        if exists|i: int| 0 <= i < devs.len() && is_known(ids, #[trigger] devs[i]) {
            let i = choose|i: int| 0 <= i < devs.len() && is_known(ids, #[trigger] devs[i]);
            let k = choose|k: int| 0 <= k < ids.len() && has_id(devs[i], #[trigger] ids[k]);
            if k < ids.len() - 1 {
                assert(pre[k] == ids[k]);
                assert(is_known(pre, devs[i]));
            }
        }
    }
}

/// A device with a known identity is always tried before any device that is
/// only of the printer class, wherever each stands in enumeration order: when
/// some device is known, the first candidate is a known device.
pub proof fn lemma_known_identity_first(
    rules: &MatchRules,
    devs: Seq<DeviceDescriptor>,
    known: int,
)
    requires
        devs.len() <= usize::MAX,
        0 <= known < devs.len(),
        is_known(rules.ids(), devs[known]),
    ensures
        candidates(devs, rules.ids()).len() > 0,
        is_known(rules.ids(), devs[candidates(devs, rules.ids())[0] as int]),
        candidates(devs, rules.ids())[0] < devs.len(),
{
    lemma_known_candidates(devs, rules.ids());
    let kc = known_candidates(devs, rules.ids());
    assert(candidates(devs, rules.ids())[0] == kc[0]);
}

/// A configuration without any bulk-OUT endpoint yields the default address.
pub proof fn lemma_endpoint_fallback(eps: Seq<EndpointInfo>)
    requires
        forall|i: int| 0 <= i < eps.len() ==> !(is_out_address(#[trigger] eps[i].address) && eps[i].bulk),
    ensures
        endpoint_for(Some(eps)) == DEFAULT_ENDPOINT,
        endpoint_for(None) == DEFAULT_ENDPOINT,
{
    lemma_no_bulk_out(eps, eps.len() as int);
}

proof fn lemma_no_bulk_out(eps: Seq<EndpointInfo>, n: int)
    requires
        n <= eps.len(),
        forall|i: int| 0 <= i < eps.len() ==> !(is_out_address(#[trigger] eps[i].address) && eps[i].bulk),
    ensures
        first_bulk_out(eps, n) is None,
    decreases n,
{
    if n > 0 {
        lemma_no_bulk_out(eps, n - 1);
    }
}

} // verus!
