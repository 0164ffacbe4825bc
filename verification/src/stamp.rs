use vstd::prelude::*;

verus! {

/// A single attendance-state-changing action. Each variant carries two fixed
/// associated values: the wire parameter string the server expects, and the
/// working-status value the server must report right after a successful
/// submission. Both are total functions of the variant alone, with no
/// fallback case and no hidden mutable state.
#[derive(Debug, PartialEq, Eq, Structural)]
pub enum Stamp {
    ClockIn,
    ClockOut,
    StartBreak,
    EndBreak,
}

/// The wire-level `adit_item` parameter value sent for each action.
pub open spec fn wire_param(s: Stamp) -> Seq<char> {
    match s {
        Stamp::ClockIn => "work_start"@,
        Stamp::ClockOut => "work_end"@,
        Stamp::StartBreak => "rest_start"@,
        Stamp::EndBreak => "rest_end"@,
    }
}

/// The `current_status` value the server must report right after each action.
pub open spec fn expected_status(s: Stamp) -> Seq<char> {
    match s {
        Stamp::ClockIn => "working"@,
        Stamp::ClockOut => "returned_home"@,
        Stamp::StartBreak => "resting"@,
        Stamp::EndBreak => "working"@,
    }
}

impl Stamp {
    /// The variant's name, as the shell prints it.
    pub open spec fn label_spec(self) -> Seq<char> {
        match self {
            Stamp::ClockIn => "ClockIn"@,
            Stamp::ClockOut => "ClockOut"@,
            Stamp::StartBreak => "StartBreak"@,
            Stamp::EndBreak => "EndBreak"@,
        }
    }

    /// The variant's name.
    pub fn label(&self) -> (r: String)
        ensures
            r@ == self.label_spec(),
    {
        match self {
            Stamp::ClockIn => "ClockIn".to_owned(),
            Stamp::ClockOut => "ClockOut".to_owned(),
            Stamp::StartBreak => "StartBreak".to_owned(),
            Stamp::EndBreak => "EndBreak".to_owned(),
        }
    }

    /// The `adit_item` form value for this action.
    pub fn to_request_params(&self) -> (r: String)
        ensures
            r@ == wire_param(*self),
    {
        match self {
            Stamp::ClockIn => "work_start".to_owned(),
            Stamp::ClockOut => "work_end".to_owned(),
            Stamp::StartBreak => "rest_start".to_owned(),
            Stamp::EndBreak => "rest_end".to_owned(),
        }
    }

    /// The response body this action must produce. Only `current_status`
    /// matters for the comparison; the `result` and `state` placeholders are
    /// fixed at zero.
    pub fn expected_response(&self) -> (r: Response)
        ensures
            r.spec_current_status() == expected_status(*self),
            r.spec_result() == 0,
            r.spec_state() == 0,
    {
        match self {
            Stamp::ClockIn => Response::new(0, 0, "working".to_owned()),
            Stamp::ClockOut => Response::new(0, 0, "returned_home".to_owned()),
            Stamp::StartBreak => Response::new(0, 0, "resting".to_owned()),
            Stamp::EndBreak => Response::new(0, 0, "working".to_owned()),
        }
    }
}

/// The wire parameter is a fixed bijection between the four actions and the
/// four `adit_item` values: distinct actions never share a parameter.
pub proof fn lemma_wire_param_injective(a: Stamp, b: Stamp)
    requires
        wire_param(a) == wire_param(b),
    ensures
        a == b,
{
    reveal_strlit("work_start");
    reveal_strlit("work_end");
    reveal_strlit("rest_start");
    reveal_strlit("rest_end");
    assert("work_start"@.len() == 10);
    assert("work_end"@.len() == 8);
    assert("rest_start"@.len() == 10);
    assert("rest_end"@.len() == 8);
    assert("work_start"@[0] == 'w');
    assert("rest_start"@[0] == 'r');
    assert("work_end"@[0] == 'w');
    assert("rest_end"@[0] == 'r');
}

/// The expected-status lookup is total: every action maps to one of the three
/// status strings the server can report, and two reads of the same action
/// always agree, since the value is a function of the variant alone.
pub proof fn lemma_expected_status_total(s: Stamp)
    ensures
        expected_status(s) == "working"@ || expected_status(s) == "returned_home"@
            || expected_status(s) == "resting"@,
{
}

/// Reading back an action's wire parameter and expected status is
/// deterministic and stable across calls: any two reads of the same action
/// agree, because each read is pinned to a function of the variant alone and
/// no hidden mutable state exists.
pub proof fn lemma_read_back_stable(
    s: Stamp,
    p1: Seq<char>,
    p2: Seq<char>,
    e1: Seq<char>,
    e2: Seq<char>,
)
    requires
        p1 == wire_param(s),
        p2 == wire_param(s),
        e1 == expected_status(s),
        e2 == expected_status(s),
    ensures
        p1 == p2,
        e1 == e2,
{
}

/// The decoded shape of the server's answer to a stamp submission: an object
/// with at least a `current_status` string. The numeric `result` and `state`
/// codes exist on the wire but are ignored when responses are compared.
#[derive(Debug)]
pub struct Response {
    result: i32,
    state: i32,
    current_status: String,
}

impl Response {
    /// The reported working-status string.
    pub closed spec fn spec_current_status(&self) -> Seq<char> {
        self.current_status@
    }

    /// The numeric `result` code, carried but ignored for equality.
    pub closed spec fn spec_result(&self) -> int {
        self.result as int
    }

    /// The numeric `state` code, carried but ignored for equality.
    pub closed spec fn spec_state(&self) -> int {
        self.state as int
    }

    pub fn new(result: i32, state: i32, current_status: String) -> (r: Response)
        ensures
            r.spec_current_status() == current_status@,
            r.spec_result() == result,
            r.spec_state() == state,
    {
        Response { result, state, current_status }
    }

    /// The reported working-status string.
    pub fn current_status(&self) -> (r: &str)
        ensures
            r@ == self.spec_current_status(),
    {
        self.current_status.as_str()
    }
}

impl Default for Response {
    fn default() -> (r: Response)
        ensures
            r.spec_current_status() == Seq::<char>::empty(),
            r.spec_result() == 0,
            r.spec_state() == 0,
    {
        Response { result: 0, state: 0, current_status: String::new() }
    }
}

impl PartialEq for Response {
    /// Responses are equal when their `current_status` values are equal;
    /// `result` and `state` are ignored.
    fn eq(&self, other: &Response) -> (r: bool) {
        self.current_status == other.current_status
    }
}

impl vstd::std_specs::cmp::PartialEqSpecImpl for Response {
    open spec fn obeys_eq_spec() -> bool {
        true
    }

    open spec fn eq_spec(&self, other: &Response) -> bool {
        self.spec_current_status() == other.spec_current_status()
    }
}

} // verus!
