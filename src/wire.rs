use vstd::prelude::*;
use crate::policy::{PolicyAction, PolicyRule};

verus! {

/// Whether two texts hold the same characters.
pub fn same_text(a: &str, b: &str) -> (r: bool)
    ensures
        r == (a@ == b@),
{
    let n = a.unicode_len();
    if n != b.unicode_len() {
        return false;
    }
    let mut i: usize = 0;
    while i < n
        invariant
            n == a@.len(),
            n == b@.len(),
            0 <= i <= n,
            forall|j: int| 0 <= j < i ==> a@[j] == b@[j],
        decreases n - i,
    {
        if a.get_char(i) != b.get_char(i) {
            return false;
        }
        i = i + 1;
    }
    assert(a@ =~= b@);
    true
}

/// The action that a wire name denotes: `"allow"`, `"deny"` or `"log"`.
pub open spec fn action_named(text: Seq<char>) -> Option<PolicyAction> {
    if text == "allow"@ {
        Some(PolicyAction::Allow)
    } else if text == "deny"@ {
        Some(PolicyAction::Deny)
    } else if text == "log"@ {
        Some(PolicyAction::Log)
    } else {
        None
    }
}

impl PolicyAction {
    /// Reads an action from its wire name; any other text is no action.
    pub fn from_wire(text: &str) -> (r: Option<PolicyAction>)
        ensures
            r == action_named(text@),
    {
        if same_text(text, "allow") {
            Some(PolicyAction::Allow)
        } else if same_text(text, "deny") {
            Some(PolicyAction::Deny)
        } else if same_text(text, "log") {
            Some(PolicyAction::Log)
        } else {
            None
        }
    }

    /// The wire name of this action.
    pub fn wire_name(&self) -> (r: &'static str)
        ensures
            action_named(r@) == Some(*self),
    {
        proof {
            reveal_strlit("allow");
            reveal_strlit("deny");
            reveal_strlit("log");
        }
        let r = match self {
            PolicyAction::Allow => "allow",
            PolicyAction::Deny => "deny",
            PolicyAction::Log => "log",
        };
        assert(r@.len() == 5 ==> r@ == "allow"@);
        r
    }
}

/// A rule as it arrives over the wire: the action still as text, the
/// conditions optional.
#[derive(Debug, Clone)]
pub struct WireRule {
    pub action: String,
    pub resource: String,
    pub conditions: Option<Vec<String>>,
}

/// `rule` is what `wire` becomes once its action is read and absent
/// conditions become an empty list.
pub open spec fn converted(wire: WireRule, rule: PolicyRule) -> bool {
    &&& action_named(wire.action@) == Some(rule.action)
    &&& rule.resource == wire.resource
    &&& match wire.conditions {
        Some(c) => rule.conditions == c,
        None => rule.conditions@.len() == 0,
    }
}

/// Converts wire rules into policy rules, in order. Fails, naming the
/// position of the first offender, when some action is not a known name.
pub fn rules_from_wire(wire: Vec<WireRule>) -> (r: Result<Vec<PolicyRule>, usize>)
    ensures
        match r {
            Ok(rules) => rules@.len() == wire@.len()
                && forall|i: int| 0 <= i < wire@.len() ==> converted(wire@[i], #[trigger] rules@[i]),
            Err(k) => k < wire@.len() && action_named(wire@[k as int].action@) is None
                && forall|i: int| 0 <= i < k ==> action_named(#[trigger] wire@[i].action@) is Some,
        },
{
    let mut rules: Vec<PolicyRule> = Vec::new();
    let mut i: usize = 0;
    let ghost input = wire@;
    let total = wire.len();
    let mut rest = wire;
    while rest.len() > 0
        invariant
            i + rest@.len() == input.len(),
            input.len() == total,
            input == wire@,
            rules@.len() == i,
            rest@ == input.subrange(i as int, input.len() as int),
            forall|j: int| 0 <= j < i ==> converted(input[j], #[trigger] rules@[j]),
        decreases rest@.len(),
    {
        let item = rest.remove(0);
        assert(item == input[i as int]);
        let found = PolicyAction::from_wire(item.action.as_str());
        assert(found == action_named(input[i as int].action@));
        match found {
            Some(action) => {
                let conditions = match item.conditions {
                    Some(c) => c,
                    None => Vec::new(),
                };
                rules.push(PolicyRule { action, resource: item.resource, conditions });
                i = i + 1;
            },
            None => {
                assert forall|j: int| 0 <= j < i implies action_named(#[trigger] input[j].action@) is Some by {
                    assert(converted(input[j], rules@[j]));
                }
                return Err(i);
            },
        }
    }
    Ok(rules)
}

} // verus!
