use vstd::prelude::*;

verus! {

/// Why one field of an inbound request was rejected.
#[derive(Clone, Debug, PartialEq, Eq)]
pub enum RejectionReason {
    /// The field is required for this request shape and was absent.
    MissingRequiredValue(String),
    /// The field was present but its value is not acceptable.
    InvalidValue(String),
    /// The field named a grant type this server does not know.
    UnknownGrantType(String),
}

/// Mathematical model of a rejection reason, over character sequences.
pub ghost enum ReasonModel {
    MissingRequiredValue(Seq<char>),
    InvalidValue(Seq<char>),
    UnknownGrantType(Seq<char>),
}

impl View for RejectionReason {
    type V = ReasonModel;

    open spec fn view(&self) -> ReasonModel {
        match self {
            RejectionReason::MissingRequiredValue(s) => ReasonModel::MissingRequiredValue(s@),
            RejectionReason::InvalidValue(s) => ReasonModel::InvalidValue(s@),
            RejectionReason::UnknownGrantType(s) => ReasonModel::UnknownGrantType(s@),
        }
    }
}

/// Accumulator of every field-level violation found in one validation pass.
/// It never short-circuits: each violation is recorded, so a caller can
/// report all of them at once.
#[derive(Clone, Debug, PartialEq, Eq)]
pub struct ValidationState {
    /// Each rejected field, in the order found, with the reason.
    pub rejections: Vec<(String, RejectionReason)>,
    /// Overall flag: true exactly as long as nothing was rejected.
    pub valid: bool,
}

impl View for ValidationState {
    type V = Seq<(Seq<char>, ReasonModel)>;

    open spec fn view(&self) -> Seq<(Seq<char>, ReasonModel)> {
        self.rejections@.map_values(|p: (String, RejectionReason)| (p.0@, p.1@))
    }
}

impl ValidationState {
    /// The `valid` flag agrees with the record of rejections.
    pub open spec fn wf(self) -> bool {
        self.valid <==> self@.len() == 0
    }

    /// Whether some rejection was recorded against the named field.
    pub open spec fn spec_rejects_field(self, field: Seq<char>) -> bool {
        exists|i: int| 0 <= i < self@.len() && #[trigger] self@[i].0 == field
    }

    pub fn new() -> (s: ValidationState)
        ensures
            s@ == Seq::<(Seq<char>, ReasonModel)>::empty(),
            s.valid,
            s.wf(),
    {
        let s = ValidationState { rejections: Vec::new(), valid: true };
        proof {
            assert(s@ =~= Seq::<(Seq<char>, ReasonModel)>::empty());
        }
        s
    }

    /// Record one violation and clear the overall flag; everything already
    /// recorded is kept.
    pub fn reject(&mut self, field: &str, reason: RejectionReason)
        ensures
            final(self)@ == old(self)@.push((field@, reason@)),
            !final(self).valid,
            old(self).wf() ==> final(self).wf(),
    {
        let ghost prior = self@;
        let ghost reason_model = reason@;
        self.rejections.push((field.to_owned(), reason));
        self.valid = false;
        proof {
            assert(self@ =~= prior.push((field@, reason_model)));
        }
    }

    /// Whether the named field has a recorded rejection.
    pub fn rejects_field(&self, field: &str) -> (r: bool)
        ensures
            r == self.spec_rejects_field(field@),
    {
        let mut i: usize = 0;
        while i < self.rejections.len()
            invariant
                0 <= i <= self.rejections.len(),
                forall|j: int| 0 <= j < i ==> #[trigger] self@[j].0 != field@,
            decreases self.rejections.len() - i,
        {
            if str_eq_strings(&self.rejections[i].0, field) {
                proof {
                    assert(self@[i as int].0 == field@);
                }
                return true;
            }
            i += 1;
        }
        false
    }
}

/// Equality of an owned string against a string slice, over views.
fn str_eq_strings(a: &String, b: &str) -> (r: bool)
    ensures
        r == (a@ == b@),
{
    crate::strutil::str_eq(a.as_str(), b)
}

} // verus!
