use vstd::prelude::*;

use crate::features::{parse_spec, AirplayFeatures};

verus! {

/// The service type under which receivers advertise themselves.
pub const SERVICE_TYPE: &'static str = "_airplay._tcp.local.";

/// A network address of a receiver.
#[derive(Debug, Clone, Copy, PartialEq, Eq, Structural)]
pub enum IpAddress {
    V4(u8, u8, u8, u8),
    V6(u128),
}

/// What the discovery transport reports once a receiver is resolved.
#[derive(Debug, Clone)]
pub struct ResolvedService {
    pub addresses: Vec<IpAddress>,
    pub port: u16,
    pub properties: Vec<(String, String)>,
}

/// A receiver that advertised a readable capability mask.
#[derive(Debug, Clone)]
pub struct DiscoveredDevice {
    pub addresses: Vec<IpAddress>,
    pub port: u16,
    pub properties: Vec<(String, String)>,
    pub features: AirplayFeatures,
}

/// Why an event gave no device; discovery goes on after either.
#[derive(Debug, Clone, Copy, PartialEq, Eq, Structural)]
pub enum DiscoveryWarning {
    MissingFeatures,
    MalformedFeatures,
}

/// The name of the property that carries the capability mask.
pub open spec fn features_key() -> Seq<char> {
    seq!['f', 'e', 'a', 't', 'u', 'r', 'e', 's']
}

/// The value of the first property named `key`.
pub open spec fn property_value(props: Seq<(String, String)>, key: Seq<char>) -> Option<
    Seq<char>,
>
    decreases props.len(),
{
    if props.len() == 0 {
        None
    } else if props[0].0@ == key {
        Some(props[0].1@)
    } else {
        property_value(props.drop_first(), key)
    }
}

/// The capability mask that an event advertises, if it advertises a readable one.
pub open spec fn advertised_bits(e: ResolvedService) -> Option<u64> {
    match property_value(e.properties@, features_key()) {
        Some(v) => parse_spec(v),
        None => None,
    }
}

/// Whether an event gives a device that has every bit of `required`.
pub open spec fn accepted(e: ResolvedService, required: u64) -> bool {
    &&& advertised_bits(e) is Some
    &&& advertised_bits(e)->0 & required == required
}

/// `d` is the device that event `e` describes.
pub open spec fn describes(d: DiscoveredDevice, e: ResolvedService) -> bool {
    &&& d.addresses@ == e.addresses@
    &&& d.port == e.port
    &&& d.properties@ == e.properties@
    &&& advertised_bits(e) == Some(d.features.bits)
}

/// The events that give devices, in arrival order.
pub open spec fn accepted_events(events: Seq<ResolvedService>, required: u64) -> Seq<
    ResolvedService,
>
    decreases events.len(),
{
    if events.len() == 0 {
        Seq::empty()
    } else {
        let rest = accepted_events(events.drop_last(), required);
        if accepted(events.last(), required) {
            rest.push(events.last())
        } else {
            rest
        }
    }
}

/// The value of the first property named `key`.
pub fn find_property<'a>(props: &'a Vec<(String, String)>, key: &String) -> (r: Option<&'a String>)
    ensures
        match property_value(props@, key@) {
            Some(v) => r is Some && r->0@ == v,
            None => r is None,
        },
{
    let mut i: usize = 0;
    assert(props@.subrange(0, props@.len() as int) =~= props@);
    while i < props.len()
        invariant
            i <= props@.len(),
            property_value(props@, key@) == property_value(props@.subrange(i as int, props@.len() as int), key@),
        decreases props@.len() - i,
    {
        let ghost tail = props@.subrange(i as int, props@.len() as int);
        assert(tail.drop_first() =~= props@.subrange(i + 1, props@.len() as int));
        if props[i].0 == *key {
            return Some(&props[i].1);
        }
        i += 1;
    }
    None
}

/// Reads an event: the device it describes when its mask has every bit of
/// `required`, `Ok(None)` when it lacks one, a warning when it has no
/// readable mask.
pub fn examine(event: ResolvedService, required: AirplayFeatures) -> (r: Result<Option<DiscoveredDevice>, DiscoveryWarning>)
    ensures
        property_value(event.properties@, features_key()) is None <==> r == Err::<Option<DiscoveredDevice>, DiscoveryWarning>(DiscoveryWarning::MissingFeatures),
        (property_value(event.properties@, features_key()) is Some && advertised_bits(event) is None) <==> r == Err::<Option<DiscoveredDevice>, DiscoveryWarning>(DiscoveryWarning::MalformedFeatures),
        (advertised_bits(event) is Some && !accepted(event, required.bits)) <==> r == Ok::<Option<DiscoveredDevice>, DiscoveryWarning>(None),
        accepted(event, required.bits) <==> (r is Ok && r->Ok_0 is Some),
        r matches Ok(Some(d)) ==> describes(d, event),
{
    let key = String::from_str("features");
    proof {
        reveal_strlit("features");
        assert(key@ =~= features_key());
    }
    let bits = match find_property(&event.properties, &key) {
        None => {
            return Err(DiscoveryWarning::MissingFeatures);
        },
        Some(v) => match AirplayFeatures::parse(v.as_str()) {
            None => {
                return Err(DiscoveryWarning::MalformedFeatures);
            },
            Some(f) => f,
        },
    };
    if !bits.contains(required) {
        return Ok(None);
    }
    Ok(Some(DiscoveredDevice {
        addresses: event.addresses,
        port: event.port,
        properties: event.properties,
        features: bits,
    }))
}

/// The devices of a run of events that have every bit of `required`, in
/// arrival order; events without a readable mask are passed over.
pub fn select_devices(events: Vec<ResolvedService>, required: AirplayFeatures) -> (r: Vec<DiscoveredDevice>)
    ensures
        r@.len() == accepted_events(events@, required.bits).len(),
        forall|k: int| 0 <= k < r@.len() ==> describes(#[trigger] r@[k], accepted_events(events@, required.bits)[k]),
{
    let ghost all = events@;
    let mut events = events;
    let mut out: Vec<DiscoveredDevice> = Vec::new();
    let mut i: usize = 0;
    let n = events.len();
    while i < n
        invariant
            i <= n == all.len(),
            events@ == all.subrange(i as int, n as int),
            out@.len() == accepted_events(all.subrange(0, i as int), required.bits).len(),
            forall|k: int|
                0 <= k < out@.len() ==> describes(
                    #[trigger] out@[k],
                    accepted_events(all.subrange(0, i as int), required.bits)[k],
                ),
        decreases n - i,
    {
        let e = events.remove(0);
        assert(all.subrange(0, i + 1).drop_last() =~= all.subrange(0, i as int));
        assert(all.subrange(0, i + 1).last() == e);
        assert(events@ =~= all.subrange(i + 1, n as int));
        match examine(e, required) {
            Ok(Some(d)) => out.push(d),
            _ => {},
        }
        i += 1;
    }
    assert(all.subrange(0, n as int) =~= all);
    out
}

} // verus!
