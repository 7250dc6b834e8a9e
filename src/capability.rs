//! Capabilities: the actions a permit may grant, and the exact-match check
//! that decides whether a permit authorizes a requested action.
use vstd::prelude::*;

verus! {

/// One action a permit may allow: viewing one named record, or adding records.
#[derive(Debug, Clone)]
pub enum RecordPermissions {
    ViewById { record_id: String },
    Add,
}

impl RecordPermissions {
    /// Exact match: same kind of action and, for a record-scoped action, the same record.
    pub open spec fn same(self, other: RecordPermissions) -> bool {
        match self {
            RecordPermissions::ViewById { record_id } => {
                &&& other matches RecordPermissions::ViewById { record_id: o }
                &&& record_id@ == o@
            },
            RecordPermissions::Add => other is Add,
        }
    }
}

impl PartialEq for RecordPermissions {
    fn eq(&self, other: &RecordPermissions) -> (r: bool) {
        match self {
            RecordPermissions::ViewById { record_id } => match other {
                RecordPermissions::ViewById { record_id: o } => *record_id == *o,
                RecordPermissions::Add => false,
            },
            RecordPermissions::Add => match other {
                RecordPermissions::ViewById { .. } => false,
                RecordPermissions::Add => true,
            },
        }
    }
}

impl vstd::std_specs::cmp::PartialEqSpecImpl for RecordPermissions {
    open spec fn obeys_eq_spec() -> bool {
        true
    }

    open spec fn eq_spec(&self, other: &RecordPermissions) -> bool {
        self.same(*other)
    }
}

/// A permit as a store sees it once the outside permit verifier has examined
/// it: whether its signature checked out against an unrevoked permit, and the
/// actions it grants.
#[derive(Debug, Clone)]
pub struct CheckedPermit {
    pub verified: bool,
    pub permissions: Vec<RecordPermissions>,
}

/// True when one of `permissions` matches `wanted` exactly.
pub open spec fn grants(permissions: Seq<RecordPermissions>, wanted: RecordPermissions) -> bool {
    exists|i: int| 0 <= i < permissions.len() && permissions[i].same(wanted)
}

/// True when the permit verified and grants `wanted`; nothing is widened.
pub open spec fn authorizes(permit: CheckedPermit, wanted: RecordPermissions) -> bool {
    permit.verified && grants(permit.permissions@, wanted)
}

impl CheckedPermit {
    /// Whether the permit's list of grants holds `permission` exactly.
    pub fn check_permission(&self, permission: &RecordPermissions) -> (r: bool)
        ensures
            r == grants(self.permissions@, *permission),
    {
        let mut i: usize = 0;
        while i < self.permissions.len()
            invariant
                i <= self.permissions.len(),
                forall|j: int| 0 <= j < i ==> !self.permissions@[j].same(*permission),
            decreases self.permissions.len() - i,
        {
            if self.permissions[i] == *permission {
                return true;
            }
            i += 1;
        }
        false
    }

    /// Whether the permit verified and grants `permission`.
    pub fn authorizes(&self, permission: &RecordPermissions) -> (r: bool)
        ensures
            r == authorizes(*self, *permission),
    {
        self.verified && self.check_permission(permission)
    }
}

/// A verified permit whose only grant is viewing one record authorizes viewing
/// that record, and neither viewing any other record nor adding records.
pub proof fn lemma_permit_scope_exact(permit: CheckedPermit, granted: String, other: String)
    requires
        permit.verified,
        permit.permissions@ == seq![RecordPermissions::ViewById { record_id: granted }],
        other@ != granted@,
    ensures
        authorizes(permit, RecordPermissions::ViewById { record_id: granted }),
        !authorizes(permit, RecordPermissions::ViewById { record_id: other }),
        !authorizes(permit, RecordPermissions::Add),
{
    assert(permit.permissions@[0].same(RecordPermissions::ViewById { record_id: granted }));
}

} // verus!
