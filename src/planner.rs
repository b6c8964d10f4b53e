use vstd::prelude::*;

verus! {

/// The instruction text before the list of available devices.
pub const PROMPT_HEAD: &'static str = "You are a smart home automation assistant. Your job is to parse natural language commands and convert them to JSON actions.\n\nAvailable devices: ";

/// The instruction text after the list of available devices.
pub const PROMPT_TAIL: &'static str = "\n\nReturn ONLY a JSON array of actions, with NO additional text. Each action must have:\n- \"device\": exact device name from the list above (use partial matching if needed)\n- \"action\": one of \"on\", \"off\", or \"brightness\"\n- \"brightness\": optional number 0-100 (only for brightness action)\n\nExamples:\nInput: \"turn on kitchen lights\"\nOutput: [{\"device\": \"Kuechentisch Licht 1\", \"action\": \"on\"}, {\"device\": \"Kuechentisch Licht 2\", \"action\": \"on\"}]\n\nInput: \"set living room to 50%\"\nOutput: [{\"device\": \"Wohnzimmer Deckenlampe\", \"action\": \"brightness\", \"brightness\": 50}]\n\nInput: \"lights off in office\"\nOutput: [{\"device\": \"Arbeitszimmer Deckenlampe\", \"action\": \"off\"}]\n\nReturn ONLY valid JSON, nothing else.";

/// The planner's system instruction: the fixed text around the
/// comma-joined names of the controllable devices.
pub fn system_prompt(device_list: &str) -> (r: String)
    ensures
        r@ == PROMPT_HEAD@ + device_list@ + PROMPT_TAIL@,
{
    let mut out = String::from_str(PROMPT_HEAD);
    out.append(device_list);
    out.append(PROMPT_TAIL);
    out
}

} // verus!
