//! The governance artifacts a compilation emits: DIO invariants, ZT
//! authority records, ICAE cost constraints and traceability entries, each
//! with its mathematical model and its identifier scheme.

use vstd::prelude::*;

use crate::classify::{principal_name, MeasurementUnit, Principal};
use crate::text::{dec_digits, push_decimal, truncate_chars, truncate_clause};

verus! {

/// `dio_<index>`.
pub open spec fn dio_id(i: int) -> Seq<char> {
    "dio_"@ + dec_digits(i)
}

/// `VIOLATION_DIO_<index>`.
pub open spec fn dio_failure_signal(i: int) -> Seq<char> {
    "VIOLATION_DIO_"@ + dec_digits(i)
}

/// The human-readable description of a DIO invariant; clause text is
/// truncated to 50 characters.
pub open spec fn dio_description(clause: Seq<char>) -> Seq<char> {
    "Enforce policy clause: "@ + truncate_chars(clause, 50)
}

/// `zt_auth_<index>`.
pub open spec fn zt_id(i: int) -> Seq<char> {
    "zt_auth_"@ + dec_digits(i)
}

/// `scope_<index>`.
pub open spec fn zt_scope(i: int) -> Seq<char> {
    "scope_"@ + dec_digits(i)
}

/// The synthesized delegation rule of an authority; clause text is
/// truncated to 30 characters.
pub open spec fn zt_delegation_rule(p: Principal, clause: Seq<char>) -> Seq<char> {
    "Delegation requires explicit "@ + principal_name(p) + " approval for: "@ + truncate_chars(
        clause,
        30,
    )
}

/// The synthesized revocation trigger of an authority; clause text is
/// truncated to 30 characters.
pub open spec fn zt_revocation_trigger(clause: Seq<char>) -> Seq<char> {
    "Revoke on policy change affecting: "@ + truncate_chars(clause, 30)
}

/// `icae_<index>`.
pub open spec fn icae_id(i: int) -> Seq<char> {
    "icae_"@ + dec_digits(i)
}

/// The synthesized externality note of a cost constraint; clause text is
/// truncated to 30 characters.
pub open spec fn icae_externality(clause: Seq<char>) -> Seq<char> {
    "External cost from: "@ + truncate_chars(clause, 30)
}

/// `clause_<index>`.
pub open spec fn clause_id(i: int) -> Seq<char> {
    "clause_"@ + dec_digits(i)
}

/// A per-clause deterministic enforcement record; one is emitted for every
/// clause, unconditionally.
#[derive(Debug, Clone)]
pub struct DIOInvariant {
    pub id: String,
    pub description: String,
    pub clause_index: usize,
    pub failure_signal: String,
}

/// The model of a [`DIOInvariant`].
#[verifier::ext_equal]
pub ghost struct DIOModel {
    pub id: Seq<char>,
    pub description: Seq<char>,
    pub clause_index: int,
    pub failure_signal: Seq<char>,
}

impl View for DIOInvariant {
    type V = DIOModel;

    open spec fn view(&self) -> DIOModel {
        DIOModel {
            id: self.id@,
            description: self.description@,
            clause_index: self.clause_index as int,
            failure_signal: self.failure_signal@,
        }
    }
}

impl DeepView for DIOInvariant {
    type V = DIOModel;

    open spec fn deep_view(&self) -> DIOModel {
        self.view()
    }
}

/// The one DIO invariant generated for clause `i`.
pub open spec fn dio_model(i: int, clause: Seq<char>) -> DIOModel {
    DIOModel {
        id: dio_id(i),
        description: dio_description(clause),
        clause_index: i,
        failure_signal: dio_failure_signal(i),
    }
}

impl DIOInvariant {
    /// Builds the DIO invariant for clause `clause_index`.
    pub fn new(clause: &str, clause_index: usize) -> (r: DIOInvariant)
        ensures
            r@ == dio_model(clause_index as int, clause@),
    {
        let mut id = String::from_str("dio_");
        push_decimal(&mut id, clause_index);
        let mut description = String::from_str("Enforce policy clause: ");
        let truncated = truncate_clause(clause, 50);
        description.append(truncated.as_str());
        let mut failure_signal = String::from_str("VIOLATION_DIO_");
        push_decimal(&mut failure_signal, clause_index);
        DIOInvariant { id, description, clause_index, failure_signal }
    }
}

/// A zero-trust authority record binding a resolved principal to synthesized
/// delegation and revocation rule text; at most one per clause.
#[derive(Debug, Clone)]
pub struct ZTAuthority {
    pub id: String,
    pub principal: Principal,
    pub scope: String,
    pub clause_index: usize,
    pub delegation_rules: Vec<String>,
    pub revocation_triggers: Vec<String>,
}

/// The model of a [`ZTAuthority`].
#[verifier::ext_equal]
pub ghost struct ZTModel {
    pub id: Seq<char>,
    pub principal: Principal,
    pub scope: Seq<char>,
    pub clause_index: int,
    pub delegation_rules: Seq<Seq<char>>,
    pub revocation_triggers: Seq<Seq<char>>,
}

impl View for ZTAuthority {
    type V = ZTModel;

    open spec fn view(&self) -> ZTModel {
        ZTModel {
            id: self.id@,
            principal: self.principal,
            scope: self.scope@,
            clause_index: self.clause_index as int,
            delegation_rules: self.delegation_rules.deep_view(),
            revocation_triggers: self.revocation_triggers.deep_view(),
        }
    }
}

impl DeepView for ZTAuthority {
    type V = ZTModel;

    open spec fn deep_view(&self) -> ZTModel {
        self.view()
    }
}

/// The one authority generated for clause `i` once its principal resolved.
pub open spec fn zt_model(i: int, clause: Seq<char>, p: Principal) -> ZTModel {
    ZTModel {
        id: zt_id(i),
        principal: p,
        scope: zt_scope(i),
        clause_index: i,
        delegation_rules: seq![zt_delegation_rule(p, clause)],
        revocation_triggers: seq![zt_revocation_trigger(clause)],
    }
}

impl ZTAuthority {
    /// Builds the authority record for clause `clause_index` with the
    /// resolved principal `principal`.
    pub fn new(clause: &str, clause_index: usize, principal: Principal) -> (r: ZTAuthority)
        ensures
            r@ == zt_model(clause_index as int, clause@, principal),
    {
        let mut id = String::from_str("zt_auth_");
        push_decimal(&mut id, clause_index);
        let mut scope = String::from_str("scope_");
        push_decimal(&mut scope, clause_index);
        let truncated = truncate_clause(clause, 30);
        let mut rule = String::from_str("Delegation requires explicit ");
        rule.append(principal.as_str());
        rule.append(" approval for: ");
        rule.append(truncated.as_str());
        let mut delegation_rules: Vec<String> = Vec::new();
        delegation_rules.push(rule);
        let mut trigger = String::from_str("Revoke on policy change affecting: ");
        trigger.append(truncated.as_str());
        let mut revocation_triggers: Vec<String> = Vec::new();
        revocation_triggers.push(trigger);
        let r = ZTAuthority { id, scope, principal, clause_index, delegation_rules,
            revocation_triggers };
        proof {
            assert(r.delegation_rules.deep_view() =~= seq![
                zt_delegation_rule(principal, clause@),
            ]);
            assert(r.revocation_triggers.deep_view() =~= seq![zt_revocation_trigger(clause@)]);
        }
        r
    }
}

/// A cost constraint for a clause that mentions cost: the attribution
/// subject, the resolved unit and a synthesized externality note. The
/// ceiling is always unset: no numeric extraction is performed.
#[derive(Debug, Clone)]
pub struct ICAECostConstraint {
    pub id: String,
    pub subject: String,
    pub measurement_unit: MeasurementUnit,
    pub clause_index: usize,
    pub ceiling: Option<u64>,
    pub externalities: Vec<String>,
}

/// The model of an [`ICAECostConstraint`].
#[verifier::ext_equal]
pub ghost struct CostModel {
    pub id: Seq<char>,
    pub subject: Seq<char>,
    pub measurement_unit: MeasurementUnit,
    pub clause_index: int,
    pub ceiling: Option<int>,
    pub externalities: Seq<Seq<char>>,
}

impl View for ICAECostConstraint {
    type V = CostModel;

    open spec fn view(&self) -> CostModel {
        CostModel {
            id: self.id@,
            subject: self.subject@,
            measurement_unit: self.measurement_unit,
            clause_index: self.clause_index as int,
            ceiling: match self.ceiling {
                Some(c) => Some(c as int),
                None => None,
            },
            externalities: self.externalities.deep_view(),
        }
    }
}

impl DeepView for ICAECostConstraint {
    type V = CostModel;

    open spec fn deep_view(&self) -> CostModel {
        self.view()
    }
}

/// The one cost constraint generated for cost clause `i` once its subject
/// and unit resolved.
pub open spec fn cost_model(i: int, clause: Seq<char>, subject: Seq<char>, u: MeasurementUnit)
    -> CostModel {
    CostModel {
        id: icae_id(i),
        subject: subject,
        measurement_unit: u,
        clause_index: i,
        ceiling: None,
        externalities: seq![icae_externality(clause)],
    }
}

impl ICAECostConstraint {
    /// Builds the cost constraint for clause `clause_index` with the
    /// resolved subject and unit.
    pub fn new(clause: &str, clause_index: usize, subject: String, unit: MeasurementUnit) -> (r:
        ICAECostConstraint)
        ensures
            r@ == cost_model(clause_index as int, clause@, subject@, unit),
    {
        let mut id = String::from_str("icae_");
        push_decimal(&mut id, clause_index);
        let mut note = String::from_str("External cost from: ");
        let truncated = truncate_clause(clause, 30);
        note.append(truncated.as_str());
        let mut externalities: Vec<String> = Vec::new();
        externalities.push(note);
        let r = ICAECostConstraint {
            id,
            subject,
            measurement_unit: unit,
            clause_index,
            ceiling: None,
            externalities,
        };
        proof {
            assert(r.externalities.deep_view() =~= seq![icae_externality(clause@)]);
        }
        r
    }
}

/// The join record tying one clause to the identifiers of every artifact
/// generated for it; the id lists are present, possibly empty, for every
/// artifact family.
#[derive(Debug, Clone)]
pub struct TraceabilityEntry {
    pub clause_id: String,
    pub clause_index: usize,
    pub clause_text: String,
    pub invariant_ids: Vec<String>,
    pub authority_ids: Vec<String>,
    pub cost_ids: Vec<String>,
}

/// The model of a [`TraceabilityEntry`].
#[verifier::ext_equal]
pub ghost struct TraceModel {
    pub clause_id: Seq<char>,
    pub clause_index: int,
    pub clause_text: Seq<char>,
    pub invariant_ids: Seq<Seq<char>>,
    pub authority_ids: Seq<Seq<char>>,
    pub cost_ids: Seq<Seq<char>>,
}

impl View for TraceabilityEntry {
    type V = TraceModel;

    open spec fn view(&self) -> TraceModel {
        TraceModel {
            clause_id: self.clause_id@,
            clause_index: self.clause_index as int,
            clause_text: self.clause_text@,
            invariant_ids: self.invariant_ids.deep_view(),
            authority_ids: self.authority_ids.deep_view(),
            cost_ids: self.cost_ids.deep_view(),
        }
    }
}

impl DeepView for TraceabilityEntry {
    type V = TraceModel;

    open spec fn deep_view(&self) -> TraceModel {
        self.view()
    }
}

} // verus!
