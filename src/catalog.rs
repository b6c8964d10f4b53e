use vstd::prelude::*;

verus! {

/// A last-known characteristic value of a device, as reported when the
/// catalog was fetched.
#[derive(Clone, Debug, PartialEq, Eq)]
pub enum Reading {
    /// The "On" characteristic: `true` when the hub reported exactly 1.
    Power(bool),
    /// The "Brightness" characteristic, when the hub reported an integer.
    Brightness(Option<i64>),
    /// Any other characteristic.
    Unrecognized,
}

/// One device entry of the hub's catalog.
#[derive(Clone, Debug)]
pub struct Accessory {
    /// Identifier assigned by the hub; addresses control calls.
    pub id: String,
    /// Human-readable label; not necessarily unique.
    pub name: String,
    /// Device category, e.g. "Lightbulb".
    pub kind: String,
    /// Cosmetic category label.
    pub display_kind: Option<String>,
    /// Characteristic values at fetch time.
    pub state: Vec<Reading>,
}

/// The state annotation shown next to a controllable device.
#[derive(Clone, Copy, Debug, PartialEq, Eq)]
pub struct DeviceStatus {
    pub power: Option<bool>,
    pub brightness: Option<i64>,
}

/// Only lights, switches and outlets are controlled by this library.
pub open spec fn controllable_kind(kind: Seq<char>) -> bool {
    kind == "Lightbulb"@ || kind == "Switch"@ || kind == "Outlet"@
}

/// The first power reading, if any.
pub open spec fn power_of(s: Seq<Reading>) -> Option<bool>
    decreases s.len(),
{
    if s.len() == 0 {
        None
    } else {
        match s[0] {
            Reading::Power(on) => Some(on),
            _ => power_of(s.drop_first()),
        }
    }
}

/// The integer value of the first brightness reading, if any.
pub open spec fn brightness_of(s: Seq<Reading>) -> Option<i64>
    decreases s.len(),
{
    if s.len() == 0 {
        None
    } else {
        match s[0] {
            Reading::Brightness(b) => b,
            _ => brightness_of(s.drop_first()),
        }
    }
}

/// Names of the controllable accessories, in catalog order.
pub open spec fn controllable_names(c: Seq<Accessory>) -> Seq<Seq<char>>
    decreases c.len(),
{
    if c.len() == 0 {
        seq![]
    } else {
        let rest = controllable_names(c.drop_last());
        if controllable_kind(c.last().kind@) {
            rest.push(c.last().name@)
        } else {
            rest
        }
    }
}

/// The names separated by ", ".
pub open spec fn joined(names: Seq<Seq<char>>) -> Seq<char>
    decreases names.len(),
{
    if names.len() == 0 {
        seq![]
    } else if names.len() == 1 {
        names[0]
    } else {
        joined(names.drop_last()) + ", "@ + names.last()
    }
}

/// Whether the accessory is a light, a switch or an outlet.
pub fn is_controllable(a: &Accessory) -> (r: bool)
    ensures
        r == controllable_kind(a.kind@),
{
    a.kind == String::from_str("Lightbulb") || a.kind == String::from_str("Switch")
        || a.kind == String::from_str("Outlet")
}

/// The power state and brightness that a listing shows for a device.
pub fn status_of(a: &Accessory) -> (r: DeviceStatus)
    ensures
        r.power == power_of(a.state@),
        r.brightness == brightness_of(a.state@),
{
    let n: usize = a.state.len();
    let mut power: Option<bool> = None;
    let mut brightness: Option<i64> = None;
    let mut seen_power = false;
    let mut seen_brightness = false;
    let mut i: usize = 0;
    assert(a.state@.subrange(0, n as int) =~= a.state@);
    while i < n
        invariant
            n == a.state@.len(),
            i <= n,
            seen_power ==> power == power_of(a.state@),
            !seen_power ==> power_of(a.state@) == power_of(a.state@.subrange(i as int, n as int)),
            !seen_power ==> power is None,
            seen_brightness ==> brightness == brightness_of(a.state@),
            !seen_brightness ==> brightness_of(a.state@) == brightness_of(
                a.state@.subrange(i as int, n as int),
            ),
            !seen_brightness ==> brightness is None,
        decreases n - i,
    {
        let ghost tail = a.state@.subrange(i as int, n as int);
        assert(tail.drop_first() =~= a.state@.subrange(i + 1, n as int));
        match &a.state[i] {
            Reading::Power(on) => {
                if !seen_power {
                    power = Some(*on);
                    seen_power = true;
                }
            },
            Reading::Brightness(b) => {
                if !seen_brightness {
                    brightness = *b;
                    seen_brightness = true;
                }
            },
            Reading::Unrecognized => {},
        }
        i = i + 1;
    }
    assert(a.state@.subrange(n as int, n as int).len() == 0);
    DeviceStatus { power, brightness }
}

/// The controllable devices' names joined by ", ", the list offered to the
/// planner.
pub fn device_list(catalog: &Vec<Accessory>) -> (r: String)
    ensures
        r@ == joined(controllable_names(catalog@)),
{
    let n: usize = catalog.len();
    let mut out = String::new();
    let mut any = false;
    let mut i: usize = 0;
    while i < n
        invariant
            n == catalog@.len(),
            i <= n,
            out@ == joined(controllable_names(catalog@.take(i as int))),
            any == (controllable_names(catalog@.take(i as int)).len() > 0),
        decreases n - i,
    {
        assert(catalog@.take(i + 1).drop_last() =~= catalog@.take(i as int));
        let ghost before = controllable_names(catalog@.take(i as int));
        if is_controllable(&catalog[i]) {
            if any {
                out.append(", ");
            }
            out.append(catalog[i].name.as_str());
            any = true;
            assert(before.push(catalog@[i as int].name@).drop_last() =~= before);
        }
        i = i + 1;
    }
    assert(catalog@.take(n as int) =~= catalog@);
    out
}

} // verus!
