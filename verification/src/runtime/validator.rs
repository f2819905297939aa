//! Validation of actions before they run: their shape, the capabilities
//! they need, and the policy that blocks raw shell execution.
use vstd::prelude::*;

use crate::runtime::action::{Action, ActionRisk, ActionVariant, spec_action_name};
use crate::runtime::errors::AgentError;
use crate::text::{contains_seq, str_contains, str_eq, strings_view};

verus! {

/// The verdict on an action.
#[derive(Debug, Clone)]
pub struct ValidationResult {
    /// Whether every check passed.
    pub valid: bool,
    /// Whether the action is well formed.
    pub schema_ok: bool,
    /// Whether every capability it needs is granted.
    pub capability_ok: bool,
    /// Whether policy allows it.
    pub policy_ok: bool,
    /// The action's risk.
    pub risk_level: ActionRisk,
    /// Whether the user must confirm it.
    pub requires_confirmation: bool,
    /// What failed, in the order the checks ran.
    pub errors: Vec<String>,
}

impl ValidationResult {
    /// A verdict with every check passed.
    pub fn passed(risk: ActionRisk, needs_confirm: bool) -> (r: ValidationResult)
        ensures
            r.valid && r.schema_ok && r.capability_ok && r.policy_ok,
            r.risk_level == risk,
            r.requires_confirmation == needs_confirm,
            r.errors@.len() == 0,
    {
        ValidationResult {
            valid: true,
            schema_ok: true,
            capability_ok: true,
            policy_ok: true,
            risk_level: risk,
            requires_confirmation: needs_confirm,
            errors: Vec::new(),
        }
    }

    /// A verdict with every check failed and the given errors.
    pub fn failed(errors: Vec<String>) -> (r: ValidationResult)
        ensures
            !r.valid && !r.schema_ok && !r.capability_ok && !r.policy_ok,
            r.risk_level == ActionRisk::Low,
            !r.requires_confirmation,
            r.errors == errors,
    {
        ValidationResult {
            valid: false,
            schema_ok: false,
            capability_ok: false,
            policy_ok: false,
            risk_level: ActionRisk::Low,
            requires_confirmation: false,
            errors,
        }
    }
}

/// The first shape problem of an action, if any: a missing session or
/// reason, a launch without an application, a file action without a path,
/// or a deletion of `/`, `/root` or `/etc`.
pub open spec fn spec_schema_error(a: Action) -> Option<Seq<char>> {
    if a.session_id@.len() == 0 {
        Some("Action missing session ID"@)
    } else if a.reason@.len() == 0 {
        Some("Action missing reason"@)
    } else {
        match a.variant {
            ActionVariant::ApplicationLaunch(p) => if p.application_id@.len() == 0 {
                Some("Application launch missing application_id"@)
            } else {
                None
            },
            ActionVariant::FileRead(p) => if p.path@.len() == 0 {
                Some("File action missing path"@)
            } else {
                None
            },
            ActionVariant::FileList(p) => if p.path@.len() == 0 {
                Some("File action missing path"@)
            } else {
                None
            },
            ActionVariant::FileDelete(p) => if p.path@.len() == 0 {
                Some("File delete missing path"@)
            } else if p.path@ == "/"@ || p.path@ == "/root"@ || p.path@ == "/etc"@ {
                Some("Refusing to delete system directory"@)
            } else {
                None
            },
            _ => None,
        }
    }
}

/// The requested capabilities, in order, that are not granted.
pub open spec fn missing_capabilities(requested: Seq<Seq<char>>, granted: Seq<Seq<char>>) -> Seq<Seq<char>>
    decreases requested.len(),
{
    if requested.len() == 0 {
        Seq::empty()
    } else {
        let rest = missing_capabilities(requested.drop_last(), granted);
        if granted.contains(requested.last()) {
            rest
        } else {
            rest.push(requested.last())
        }
    }
}

/// Whether an action name smells of raw shell execution.
pub open spec fn spec_shell_like(name: Seq<char>) -> bool {
    contains_seq(name, "sh "@) || contains_seq(name, "bash "@) || contains_seq(name, "exec"@)
}

/// The error list of a validation: the shape problem, then one line per
/// missing capability, then the policy violation.
pub open spec fn spec_validation_errors(a: Action, granted: Seq<Seq<char>>) -> Seq<Seq<char>> {
    (match spec_schema_error(a) {
        Some(e) => seq![e],
        None => Seq::empty(),
    }) + missing_capabilities(strings_view(a.requested_capabilities@), granted).map_values(
        |c: Seq<char>| "Missing capability: "@ + c,
    ) + if spec_shell_like(spec_action_name(a.variant)) {
        seq!["Policy violation: raw shell execution blocked"@]
    } else {
        Seq::empty()
    }
}

/// Validates actions against the granted capabilities.
pub struct Validator {
    granted_capabilities: Vec<String>,
}

impl Validator {
    /// The granted capabilities.
    pub closed spec fn spec_granted(&self) -> Seq<Seq<char>> {
        strings_view(self.granted_capabilities@)
    }

    /// A validator granting the given capabilities.
    pub fn new(granted_capabilities: Vec<String>) -> (r: Validator)
        ensures
            r.spec_granted() == strings_view(granted_capabilities@),
    {
        Validator { granted_capabilities }
    }

    fn schema_error(&self, action: &Action) -> (r: Option<String>)
        ensures
            match r {
                Some(e) => spec_schema_error(*action) == Some(e@),
                None => spec_schema_error(*action) is None,
            },
    {
        if action.session_id.as_str().is_empty() {
            return Some(String::from_str("Action missing session ID"));
        }
        if action.reason.as_str().is_empty() {
            return Some(String::from_str("Action missing reason"));
        }
        match &action.variant {
            ActionVariant::ApplicationLaunch(p) => {
                if p.application_id.as_str().is_empty() {
                    return Some(String::from_str("Application launch missing application_id"));
                }
            },
            ActionVariant::FileRead(p) => {
                if p.path.as_str().is_empty() {
                    return Some(String::from_str("File action missing path"));
                }
            },
            ActionVariant::FileList(p) => {
                if p.path.as_str().is_empty() {
                    return Some(String::from_str("File action missing path"));
                }
            },
            ActionVariant::FileDelete(p) => {
                if p.path.as_str().is_empty() {
                    return Some(String::from_str("File delete missing path"));
                }
                if str_eq(p.path.as_str(), "/") || str_eq(p.path.as_str(), "/root") || str_eq(
                    p.path.as_str(),
                    "/etc",
                ) {
                    return Some(String::from_str("Refusing to delete system directory"));
                }
            },
            _ => {},
        }
        None
    }

    fn is_granted(&self, cap: &str) -> (r: bool)
        ensures
            r == self.spec_granted().contains(cap@),
    {
        let mut i: usize = 0;
        while i < self.granted_capabilities.len()
            invariant
                i <= self.granted_capabilities@.len(),
                forall|j: int| 0 <= j < i ==> self.spec_granted()[j] != cap@,
            decreases self.granted_capabilities@.len() - i,
        {
            if str_eq(self.granted_capabilities[i].as_str(), cap) {
                assert(self.spec_granted()[i as int] == cap@);
                return true;
            }
            i += 1;
        }
        false
    }

    /// Validates an action: its shape, that every capability it requests
    /// is granted, and that it is no raw shell execution. High and
    /// critical actions need the user's confirmation.
    pub fn validate(&self, action: &Action) -> (r: Result<ValidationResult, AgentError>)
        ensures
            r matches Ok(v) && {
                &&& v.schema_ok == spec_schema_error(*action) is None
                &&& v.capability_ok == (missing_capabilities(
                    strings_view(action.requested_capabilities@),
                    self.spec_granted(),
                ).len() == 0)
                &&& v.policy_ok == !spec_shell_like(spec_action_name(action.variant))
                &&& v.valid == (v.schema_ok && v.capability_ok && v.policy_ok)
                &&& v.risk_level == action.risk_level
                &&& v.requires_confirmation == (action.risk_level == ActionRisk::High || action.risk_level
                    == ActionRisk::Critical)
                &&& strings_view(v.errors@) == spec_validation_errors(*action, self.spec_granted())
            },
    {
        let mut errors: Vec<String> = Vec::new();
        let schema = self.schema_error(action);
        let schema_ok = schema.is_none();
        match schema {
            Some(e) => errors.push(e),
            None => {},
        }
        let ghost e0 = strings_view(errors@);
        let ghost req = strings_view(action.requested_capabilities@);
        let mut capability_ok = true;
        let mut i: usize = 0;
        while i < action.requested_capabilities.len()
            invariant
                req == strings_view(action.requested_capabilities@),
                i <= req.len(),
                strings_view(errors@) == e0 + missing_capabilities(req.subrange(0, i as int), self.spec_granted()).map_values(
                    |c: Seq<char>| "Missing capability: "@ + c,
                ),
                capability_ok == (missing_capabilities(req.subrange(0, i as int), self.spec_granted()).len() == 0),
            decreases req.len() - i,
        {
            let cap = action.requested_capabilities[i].as_str();
            proof {
                assert(req.subrange(0, i + 1).drop_last() =~= req.subrange(0, i as int));
                assert(req.subrange(0, i + 1).last() == cap@);
            }
            if !self.is_granted(cap) {
                let mut line = String::from_str("Missing capability: ");
                line.append(cap);
                let ghost before = strings_view(errors@);
                errors.push(line);
                proof {
                    let m0 = missing_capabilities(req.subrange(0, i as int), self.spec_granted());
                    let f = |c: Seq<char>| "Missing capability: "@ + c;
                    assert(strings_view(errors@) =~= before.push(line@));
                    assert(m0.push(cap@).map_values(f) =~= m0.map_values(f).push(f(cap@)));
                }
                capability_ok = false;
            }
            i += 1;
        }
        proof {
            assert(req.subrange(0, req.len() as int) =~= req);
        }
        let name = action.action_name();
        let shell = str_contains(name, "sh ") || str_contains(name, "bash ") || str_contains(name, "exec");
        let policy_ok = !shell;
        if shell {
            let ghost before = strings_view(errors@);
            errors.push(String::from_str("Policy violation: raw shell execution blocked"));
            assert(strings_view(errors@) =~= before.push("Policy violation: raw shell execution blocked"@));
        } else {
            assert(strings_view(errors@) =~= strings_view(errors@) + Seq::<Seq<char>>::empty());
        }
        let needs_confirmation = match action.risk_level {
            ActionRisk::High | ActionRisk::Critical => true,
            _ => false,
        };
        Ok(ValidationResult {
            valid: schema_ok && capability_ok && policy_ok,
            schema_ok,
            capability_ok,
            policy_ok,
            risk_level: action.risk_level,
            requires_confirmation: needs_confirmation,
            errors,
        })
    }
}

} // verus!
