use vstd::prelude::*;
use crate::catalog::Accessory;
use crate::error::{AgentError, ErrorKind};
use crate::resolve::{find_device, folded_names, resolves_to, Resolution};
use crate::text::{lower_of, lowercase, same_chars};

verus! {

/// Largest brightness percentage a device accepts.
pub const MAX_BRIGHTNESS: u8 = 100;

/// A device characteristic that this library writes.
#[derive(Clone, Copy, Debug, PartialEq, Eq)]
pub enum Characteristic {
    On,
    Brightness,
}

/// What an action does to its device.
#[derive(Clone, Copy, Debug, PartialEq, Eq)]
pub enum ActionKind {
    TurnOn,
    TurnOff,
    SetBrightness(u8),
}

/// A control instruction for the device that `device` names or abbreviates.
#[derive(Clone, Debug, PartialEq, Eq)]
pub struct Action {
    pub device: String,
    pub kind: ActionKind,
}

/// An action as a planner states it: a kind word and an optional level.
#[derive(Clone, Debug, PartialEq, Eq)]
pub struct PlannedAction {
    pub device: String,
    pub action: String,
    pub brightness: Option<u8>,
}

/// One control call: write `value` to `characteristic` of the catalog entry at
/// position `device`.
#[derive(Clone, Copy, Debug, PartialEq, Eq)]
pub struct ControlRequest {
    pub device: usize,
    pub characteristic: Characteristic,
    pub value: u8,
}

/// The control calls of a run, in order, up to the first action that failed,
/// and that action's error.
#[derive(Clone, Debug, PartialEq, Eq)]
pub struct ExecutionPlan {
    pub requests: Vec<ControlRequest>,
    pub failure: Option<AgentError>,
}

pub open spec fn clamped(b: u8) -> u8 {
    if b <= MAX_BRIGHTNESS {
        b
    } else {
        MAX_BRIGHTNESS
    }
}

/// The characteristic and value that an action kind writes.
pub open spec fn command_of(kind: ActionKind) -> (Characteristic, u8) {
    match kind {
        ActionKind::TurnOn => (Characteristic::On, 1),
        ActionKind::TurnOff => (Characteristic::On, 0),
        ActionKind::SetBrightness(b) => (Characteristic::Brightness, clamped(b)),
    }
}

pub open spec fn request_for(device: int, kind: ActionKind) -> ControlRequest {
    ControlRequest {
        device: device as usize,
        characteristic: command_of(kind).0,
        value: command_of(kind).1,
    }
}

/// The control call an action leads to, or the error it fails with.
pub open spec fn control_outcome(catalog: Seq<Accessory>, device: Seq<char>, kind: ActionKind) -> Result<
    ControlRequest,
    (ErrorKind, Seq<char>),
> {
    match resolves_to(folded_names(catalog), lower_of(device)) {
        Some(i) => Ok(request_for(i, kind)),
        None => Err((ErrorKind::DeviceNotFound, device)),
    }
}

/// The kind a planner's word names, or the error it fails with.
pub open spec fn kind_outcome(word: Seq<char>, brightness: Option<u8>) -> Result<ActionKind, ErrorKind> {
    if word == "on"@ {
        Ok(ActionKind::TurnOn)
    } else if word == "off"@ {
        Ok(ActionKind::TurnOff)
    } else if word == "brightness"@ {
        match brightness {
            Some(b) => Ok(ActionKind::SetBrightness(b)),
            None => Err(ErrorKind::MissingRequiredField),
        }
    } else {
        Err(ErrorKind::UnknownActionKind)
    }
}

/// The error of an untyped action names the offending word when the kind is
/// unknown, and the device otherwise.
pub open spec fn typed_outcome(raw: PlannedAction) -> Result<ActionKind, (ErrorKind, Seq<char>)> {
    match kind_outcome(raw.action@, raw.brightness) {
        Ok(kind) => Ok(kind),
        Err(ErrorKind::UnknownActionKind) => Err((ErrorKind::UnknownActionKind, raw.action@)),
        Err(k) => Err((k, raw.device@)),
    }
}

pub open spec fn step_outcome(catalog: Seq<Accessory>, raw: PlannedAction) -> Result<
    ControlRequest,
    (ErrorKind, Seq<char>),
> {
    match typed_outcome(raw) {
        Ok(kind) => control_outcome(catalog, raw.device@, kind),
        Err(e) => Err(e),
    }
}

pub open spec fn outcome_matches<T>(r: Result<T, AgentError>, o: Result<T, (ErrorKind, Seq<char>)>) -> bool {
    match r {
        Ok(v) => o == Ok::<T, (ErrorKind, Seq<char>)>(v),
        Err(e) => o == Err::<T, (ErrorKind, Seq<char>)>(e@),
    }
}

/// A plan holds the successful calls of a prefix of `steps` and stops at the
/// first failing step with its error.
pub open spec fn plan_follows(
    plan: ExecutionPlan,
    steps: Seq<Result<ControlRequest, (ErrorKind, Seq<char>)>>,
) -> bool {
    &&& plan.requests@.len() <= steps.len()
    &&& forall|j: int|
        0 <= j < plan.requests@.len() ==> #[trigger] steps[j] == Ok::<
            ControlRequest,
            (ErrorKind, Seq<char>),
        >(plan.requests@[j])
    &&& plan.requests@.len() < steps.len() ==> (plan.failure is Some && steps[plan.requests@.len() as int]
        == Err::<ControlRequest, (ErrorKind, Seq<char>)>(plan.failure->Some_0@))
    &&& plan.requests@.len() == steps.len() ==> plan.failure is None
}

/// Brightness handed to a device: out-of-range input is clamped, not rejected.
pub fn clamp_brightness(b: u8) -> (r: u8)
    ensures
        r == clamped(b),
        r <= MAX_BRIGHTNESS,
{
    if b <= MAX_BRIGHTNESS {
        b
    } else {
        MAX_BRIGHTNESS
    }
}

/// The characteristic and value an action kind writes.
pub fn command_for(kind: ActionKind) -> (r: (Characteristic, u8))
    ensures
        r == command_of(kind),
{
    match kind {
        ActionKind::TurnOn => (Characteristic::On, 1),
        ActionKind::TurnOff => (Characteristic::On, 0),
        ActionKind::SetBrightness(b) => (Characteristic::Brightness, clamp_brightness(b)),
    }
}

/// The hub's name for a characteristic.
pub fn characteristic_name(c: Characteristic) -> (r: String)
    ensures
        c == Characteristic::On ==> r@ == "On"@,
        c == Characteristic::Brightness ==> r@ == "Brightness"@,
{
    match c {
        Characteristic::On => String::from_str("On"),
        Characteristic::Brightness => String::from_str("Brightness"),
    }
}

/// Resolves the action's device and gives the control call to make.
pub fn control_request(catalog: &Vec<Accessory>, action: &Action) -> (r: Result<
    ControlRequest,
    AgentError,
>)
    ensures
        outcome_matches(r, control_outcome(catalog@, action.device@, action.kind)),
{
    match find_device(catalog, action.device.as_str()) {
        Resolution::Found(i) => {
            let (characteristic, value) = command_for(action.kind);
            Ok(ControlRequest { device: i, characteristic, value })
        },
        _ => Err(AgentError::new(ErrorKind::DeviceNotFound, action.device.clone())),
    }
}

/// Resolves `device` and gives the call that switches it on.
pub fn turn_on(catalog: &Vec<Accessory>, device: &str) -> (r: Result<ControlRequest, AgentError>)
    ensures
        outcome_matches(r, control_outcome(catalog@, device@, ActionKind::TurnOn)),
{
    control_request(catalog, &Action { device: String::from_str(device), kind: ActionKind::TurnOn })
}

/// Resolves `device` and gives the call that switches it off.
pub fn turn_off(catalog: &Vec<Accessory>, device: &str) -> (r: Result<ControlRequest, AgentError>)
    ensures
        outcome_matches(r, control_outcome(catalog@, device@, ActionKind::TurnOff)),
{
    control_request(catalog, &Action { device: String::from_str(device), kind: ActionKind::TurnOff })
}

/// Resolves `device` and gives the call that sets its brightness, clamped.
pub fn set_brightness(catalog: &Vec<Accessory>, device: &str, brightness: u8) -> (r: Result<
    ControlRequest,
    AgentError,
>)
    ensures
        outcome_matches(r, control_outcome(catalog@, device@, ActionKind::SetBrightness(brightness))),
{
    let action = Action { device: String::from_str(device), kind: ActionKind::SetBrightness(brightness) };
    control_request(catalog, &action)
}

/// Turns a planner's action into a typed one.
pub fn typed_action(raw: &PlannedAction) -> (r: Result<Action, AgentError>)
    ensures
        match r {
            Ok(a) => a.device@ == raw.device@ && typed_outcome(*raw) == Ok::<
                ActionKind,
                (ErrorKind, Seq<char>),
            >(a.kind),
            Err(e) => typed_outcome(*raw) == Err::<ActionKind, (ErrorKind, Seq<char>)>(e@),
        },
{
    if raw.action == String::from_str("on") {
        Ok(Action { device: raw.device.clone(), kind: ActionKind::TurnOn })
    } else if raw.action == String::from_str("off") {
        Ok(Action { device: raw.device.clone(), kind: ActionKind::TurnOff })
    } else if raw.action == String::from_str("brightness") {
        match raw.brightness {
            Some(b) => Ok(Action { device: raw.device.clone(), kind: ActionKind::SetBrightness(b) }),
            None => Err(AgentError::new(ErrorKind::MissingRequiredField, raw.device.clone())),
        }
    } else {
        Err(AgentError::new(ErrorKind::UnknownActionKind, raw.action.clone()))
    }
}

/// Types and resolves one planned action.
pub fn plan_step(catalog: &Vec<Accessory>, raw: &PlannedAction) -> (r: Result<
    ControlRequest,
    AgentError,
>)
    ensures
        outcome_matches(r, step_outcome(catalog@, *raw)),
{
    match typed_action(raw) {
        Ok(action) => control_request(catalog, &action),
        Err(e) => Err(e),
    }
}

/// The control calls for a planner's action list, taken in order; the first
/// action that fails ends the run, and no later action is looked at.
pub fn plan_actions(catalog: &Vec<Accessory>, raws: &Vec<PlannedAction>) -> (r: ExecutionPlan)
    ensures
        plan_follows(r, raws@.map_values(|raw: PlannedAction| step_outcome(catalog@, raw))),
{
    let ghost steps = raws@.map_values(|raw: PlannedAction| step_outcome(catalog@, raw));
    let n: usize = raws.len();
    let mut requests: Vec<ControlRequest> = Vec::new();
    let mut i: usize = 0;
    while i < n
        invariant
            n == raws@.len(),
            steps == raws@.map_values(|raw: PlannedAction| step_outcome(catalog@, raw)),
            i <= n,
            requests@.len() == i,
            forall|j: int| 0 <= j < i ==> #[trigger] steps[j] == Ok::<
                ControlRequest,
                (ErrorKind, Seq<char>),
            >(requests@[j]),
        decreases n - i,
    {
        match plan_step(catalog, &raws[i]) {
            Ok(req) => requests.push(req),
            Err(e) => {
                return ExecutionPlan { requests, failure: Some(e) };
            },
        }
        i = i + 1;
    }
    ExecutionPlan { requests, failure: None }
}

/// The control calls for typed actions, taken in order up to the first that
/// fails.
pub fn plan_typed(catalog: &Vec<Accessory>, actions: &Vec<Action>) -> (r: ExecutionPlan)
    ensures
        plan_follows(
            r,
            actions@.map_values(|a: Action| control_outcome(catalog@, a.device@, a.kind)),
        ),
{
    let ghost steps = actions@.map_values(|a: Action| control_outcome(catalog@, a.device@, a.kind));
    let n: usize = actions.len();
    let mut requests: Vec<ControlRequest> = Vec::new();
    let mut i: usize = 0;
    while i < n
        invariant
            n == actions@.len(),
            steps == actions@.map_values(|a: Action| control_outcome(catalog@, a.device@, a.kind)),
            i <= n,
            requests@.len() == i,
            forall|j: int| 0 <= j < i ==> #[trigger] steps[j] == Ok::<
                ControlRequest,
                (ErrorKind, Seq<char>),
            >(requests@[j]),
        decreases n - i,
    {
        match control_request(catalog, &actions[i]) {
            Ok(req) => requests.push(req),
            Err(e) => {
                return ExecutionPlan { requests, failure: Some(e) };
            },
        }
        i = i + 1;
    }
    ExecutionPlan { requests, failure: None }
}

/// Words that switch the kitchen lights on, after case folding.
pub open spec fn switch_word_on(folded: Seq<char>) -> bool {
    folded == seq!['o', 'n'] || folded == seq!['e', 'i', 'n'] || folded == seq!['1']
        || folded == seq!['t', 'r', 'u', 'e']
}

/// Whether a case-folded state word means "on"; anything else means "off".
pub fn is_on_word(folded: &Vec<char>) -> (r: bool)
    ensures
        r == switch_word_on(folded@),
{
    let on = vec!['o', 'n'];
    let ein = vec!['e', 'i', 'n'];
    let one = vec!['1'];
    let yes = vec!['t', 'r', 'u', 'e'];
    assert(on@ =~= seq!['o', 'n']);
    assert(ein@ =~= seq!['e', 'i', 'n']);
    assert(one@ =~= seq!['1']);
    assert(yes@ =~= seq!['t', 'r', 'u', 'e']);
    same_chars(folded, &on) || same_chars(folded, &ein) || same_chars(folded, &one) || same_chars(
        folded,
        &yes,
    )
}

/// The two kitchen table lights, both switched as `state` says.
pub fn kitchen_actions(state: &str) -> (r: Vec<Action>)
    ensures
        r@.len() == 2,
        r@[0].device@ == "kuechentisch licht 1"@,
        r@[1].device@ == "kuechentisch licht 2"@,
        forall|j: int|
            0 <= j < 2 ==> (#[trigger] r@[j]).kind == if switch_word_on(lower_of(state@)) {
                ActionKind::TurnOn
            } else {
                ActionKind::TurnOff
            },
{
    let folded = lowercase(state);
    let kind = if is_on_word(&folded) {
        ActionKind::TurnOn
    } else {
        ActionKind::TurnOff
    };
    vec![
        Action { device: String::from_str("kuechentisch licht 1"), kind },
        Action { device: String::from_str("kuechentisch licht 2"), kind },
    ]
}

/// Switches both kitchen table lights, stopping at the first that fails.
pub fn kitchen_lights(catalog: &Vec<Accessory>, state: &str) -> (r: ExecutionPlan)
    ensures
        exists|actions: Seq<Action>|
            actions.len() == 2 && actions[0].device@ == "kuechentisch licht 1"@
                && actions[1].device@ == "kuechentisch licht 2"@
                && (forall|j: int| 0 <= j < 2 ==> (#[trigger] actions[j]).kind == if switch_word_on(lower_of(state@)) {
                    ActionKind::TurnOn
                } else {
                    ActionKind::TurnOff
                })
                && plan_follows(
                r,
                actions.map_values(|a: Action| control_outcome(catalog@, a.device@, a.kind)),
            ),
{
    let actions = kitchen_actions(state);
    plan_typed(catalog, &actions)
}

/// Switching on always writes "On" = 1 and switching off "On" = 0, whatever
/// device the name resolves to.
pub proof fn switching_writes_power(catalog: Seq<Accessory>, device: Seq<char>)
    ensures
        control_outcome(catalog, device, ActionKind::TurnOn) is Ok ==> control_outcome(
            catalog,
            device,
            ActionKind::TurnOn,
        )->Ok_0.characteristic == Characteristic::On && control_outcome(
            catalog,
            device,
            ActionKind::TurnOn,
        )->Ok_0.value == 1,
        control_outcome(catalog, device, ActionKind::TurnOff) is Ok ==> control_outcome(
            catalog,
            device,
            ActionKind::TurnOff,
        )->Ok_0.characteristic == Characteristic::On && control_outcome(
            catalog,
            device,
            ActionKind::TurnOff,
        )->Ok_0.value == 0,
{
}

/// A brightness request carries the level clamped to at most 100.
pub proof fn brightness_is_clamped(catalog: Seq<Accessory>, device: Seq<char>, b: u8)
    ensures
        control_outcome(catalog, device, ActionKind::SetBrightness(b)) is Ok ==> control_outcome(
            catalog,
            device,
            ActionKind::SetBrightness(b),
        )->Ok_0.value == (if b <= 100 { b } else { 100 }),
{
}

/// An action whose kind word is none of "on", "off", "brightness" ends the
/// run with an unknown-kind error naming the word, and no later action gets a
/// control call.
pub proof fn unknown_kind_ends_run(
    catalog: Seq<Accessory>,
    raws: Seq<PlannedAction>,
    k: int,
    plan: ExecutionPlan,
)
    requires
        0 <= k < raws.len(),
        raws[k].action@ != "on"@ && raws[k].action@ != "off"@ && raws[k].action@ != "brightness"@,
        forall|j: int| 0 <= j < k ==> step_outcome(catalog, #[trigger] raws[j]) is Ok,
        plan_follows(plan, raws.map_values(|raw: PlannedAction| step_outcome(catalog, raw))),
    ensures
        plan.requests@.len() == k,
        plan.failure is Some,
        plan.failure->Some_0.kind == ErrorKind::UnknownActionKind,
        plan.failure->Some_0.detail@ == raws[k].action@,
{
    let steps = raws.map_values(|raw: PlannedAction| step_outcome(catalog, raw));
    assert(steps[k] == step_outcome(catalog, raws[k]));
    if plan.requests@.len() < k {
        let m = plan.requests@.len() as int;
        assert(steps[m] == step_outcome(catalog, raws[m]));
    }
    if plan.requests@.len() > k {
        assert(steps[k] == Ok::<ControlRequest, (ErrorKind, Seq<char>)>(plan.requests@[k]));
    }
}

} // verus!
