//! The dispatcher: it chooses the variant of a delivered activity, has it
//! verified and begins to receive it. It is the same for every endpoint, but
//! for the variants that the endpoint declares.
//!
//! An endpoint declares the variants that it accepts, in a fixed order. A
//! delivered activity is the first declared variant whose shape it has;
//! where two shapes overlap, the earlier declaration wins.

use crate::activity::{Activity, ActivityView};
use crate::delivery::{proceed, Progress, ProgressView, ReceiveErrorView};
use crate::receive::{
    law_every_variant_has_an_effect, mutation, references, ActorIdentity, ReceiveError,
};
use crate::schema::{conforms, Variant};
use crate::verification::{verdict, Context, VerificationError, VerificationErrorView};
use crate::wire::{read_activity, WireDocument, WireDocumentView};
use vstd::prelude::*;

verus! {

/// Why a delivery was not carried out.
#[derive(Debug, PartialEq, Eq)]
pub enum DispatchError {
    /// The payload is none of the variants that the endpoint accepts. It is
    /// dropped.
    UnrecognizedActivity,
    /// The activity failed a check. Nothing was changed.
    Verification(VerificationError),
    /// The activity could not be received. Nothing was changed.
    Receive(ReceiveError),
}

/// Whether a delivery with the outcome `outcome` is acknowledged to the peer
/// that sent it: one that was carried out is, and so is one that was
/// dropped as unrecognized. Every other failure is reported to the peer.
pub open spec fn acknowledged(outcome: Result<(), DispatchError>) -> bool {
    match outcome {
        Ok(_) => true,
        Err(DispatchError::UnrecognizedActivity) => true,
        Err(_) => false,
    }
}

/// Whether a delivery with the outcome `outcome` is acknowledged to the peer
/// that sent it.
pub fn acknowledges(outcome: &Result<(), DispatchError>) -> (b: bool)
    ensures
        b == acknowledged(*outcome),
{
    match outcome {
        Ok(_) => true,
        Err(DispatchError::UnrecognizedActivity) => true,
        Err(_) => false,
    }
}

/// Whether `i` is the place of the first variant in `declared` whose shape
/// the activity `a` has.
pub open spec fn is_first_match(a: ActivityView, declared: Seq<Variant>, i: int) -> bool {
    &&& 0 <= i < declared.len()
    &&& conforms(a, declared[i])
    &&& forall|j: int| 0 <= j < i ==> !conforms(a, #[trigger] declared[j])
}

/// Whether the activity `a` has the shape of some variant in `declared`.
pub open spec fn recognized(a: ActivityView, declared: Seq<Variant>) -> bool {
    exists|i: int| 0 <= i < declared.len() && conforms(a, #[trigger] declared[i])
}

/// The place in `declared` of the variant that the activity `a` is: that of
/// the first whose shape it has.
pub open spec fn selected(a: ActivityView, declared: Seq<Variant>) -> Option<int> {
    if exists|i: int| is_first_match(a, declared, i) {
        Some(choose|i: int| is_first_match(a, declared, i))
    } else {
        None
    }
}

/// The variant that the document `doc` is for an endpoint that declares
/// `declared`, with the activity that it states: `None` where it states no
/// activity, or one of no declared shape.
pub open spec fn resolution(doc: WireDocumentView, declared: Seq<Variant>) -> Option<
    (Variant, ActivityView),
> {
    match read_activity(doc) {
        Some(a) => match selected(a, declared) {
            Some(i) => Some((declared[i], a)),
            None => None,
        },
        None => None,
    }
}

/// At most one place is that of the first match.
pub proof fn law_selection_is_unique(a: ActivityView, declared: Seq<Variant>, i: int, j: int)
    requires
        is_first_match(a, declared, i),
        is_first_match(a, declared, j),
    ensures
        i == j,
{
    if i < j {
        assert(!conforms(a, declared[i]));
    } else if j < i {
        assert(!conforms(a, declared[j]));
    }
}

/// Where an activity has the shape of two declared variants, the one that
/// is declared earlier is selected before the other, whatever the activity
/// and whatever the order of declaration.
pub proof fn law_earlier_declaration_wins(
    a: ActivityView,
    declared: Seq<Variant>,
    earlier: int,
    later: int,
)
    requires
        0 <= earlier < later < declared.len(),
        conforms(a, declared[earlier]),
        conforms(a, declared[later]),
    ensures
        selected(a, declared) matches Some(i) && i <= earlier,
        selected(a, declared) != Some(later),
{
    lemma_some_match_is_first(a, declared, earlier);
    let i = choose|i: int| is_first_match(a, declared, i);
    if earlier < i {
        assert(!conforms(a, declared[earlier]));
    }
}

/// Where the activity has the shape of the variant at `k`, some place at or
/// before `k` is that of the first match.
proof fn lemma_some_match_is_first(a: ActivityView, declared: Seq<Variant>, k: int)
    requires
        0 <= k < declared.len(),
        conforms(a, declared[k]),
    ensures
        exists|i: int| is_first_match(a, declared, i) && i <= k,
    decreases k,
{
    if forall|j: int| 0 <= j < k ==> !conforms(a, #[trigger] declared[j]) {
        assert(is_first_match(a, declared, k));
    } else {
        let j = choose|j: int| 0 <= j < k && conforms(a, #[trigger] declared[j]);
        lemma_some_match_is_first(a, declared, j);
    }
}

/// An activity is selected exactly where it is recognized.
pub proof fn law_recognized_is_selected(a: ActivityView, declared: Seq<Variant>)
    ensures
        recognized(a, declared) <==> selected(a, declared) is Some,
{
    if recognized(a, declared) {
        let k = choose|i: int| 0 <= i < declared.len() && conforms(a, #[trigger] declared[i]);
        lemma_some_match_is_first(a, declared, k);
    }
    if selected(a, declared) is Some {
        let i = choose|i: int| is_first_match(a, declared, i);
        assert(conforms(a, declared[i]));
    }
}

/// Finds the first variant in `declared` whose shape the activity has.
pub fn select(a: &Activity, declared: &Vec<Variant>) -> (r: Option<usize>)
    ensures
        match r {
            Some(i) => selected(a@, declared@) == Some(i as int) && is_first_match(
                a@,
                declared@,
                i as int,
            ),
            None => selected(a@, declared@) is None && !recognized(a@, declared@),
        },
{
    let mut i: usize = 0;
    while i < declared.len()
        invariant
            i <= declared.len(),
            forall|j: int| 0 <= j < i ==> !conforms(a@, #[trigger] declared@[j]),
        decreases declared.len() - i,
    {
        if a.conforms_to(declared[i]) {
            proof {
                assert(is_first_match(a@, declared@, i as int));
                let k = choose|k: int| is_first_match(a@, declared@, k);
                law_selection_is_unique(a@, declared@, i as int, k);
            }
            return Some(i);
        }
        i += 1;
    }
    proof {
        law_recognized_is_selected(a@, declared@);
    }
    None
}

/// Resolves a delivered document for an endpoint that declares `declared`:
/// reads the activity that it states and finds the first declared variant
/// whose shape the activity has.
///
/// Fails with `UnrecognizedActivity` where the document states no activity,
/// or one of no declared shape.
pub fn resolve(doc: &WireDocument, declared: &Vec<Variant>) -> (r: Result<
    (Variant, Activity),
    DispatchError,
>)
    ensures
        match r {
            Ok((v, a)) => resolution(doc@, declared@) == Some((v, a@)) && conforms(a@, v)
                && declared@.contains(v),
            Err(e) => e is UnrecognizedActivity && resolution(doc@, declared@) is None,
        },
{
    let a = match doc.read() {
        Some(a) => a,
        None => {
            return Err(DispatchError::UnrecognizedActivity);
        },
    };
    match select(&a, declared) {
        Some(i) => Ok((declared[i], a)),
        None => Err(DispatchError::UnrecognizedActivity),
    }
}

/// Begins to receive the activity `a` of the variant `v` on the authority
/// of `actor`: plans the one change that it asks for, and says what is to
/// be done first.
pub fn receive(v: Variant, a: &Activity, actor: &ActorIdentity) -> (p: Progress)
    requires
        conforms(a@, v),
    ensures
        mutation(a@, actor.id@) matches Some(m) && p@ == proceed(m, references(m)),
{
    proof {
        law_every_variant_has_an_effect(a@, v);
    }
    match a.mutation(actor) {
        Some(m) => Progress::begin(m),
        None => Progress::Done,
    }
}

/// Verifies the activity `a` of the variant `v` and, where it passes,
/// begins to receive it on the authority of `actor`. An activity that fails
/// is not received.
pub fn handle(v: Variant, a: &Activity, actor: &ActorIdentity, context: &Context) -> (r: Result<
    Progress,
    DispatchError,
>)
    requires
        conforms(a@, v),
    ensures
        match r {
            Ok(p) => verdict(a@, context@) is Ok && (mutation(a@, actor.id@) matches Some(m) && p@
                == proceed(m, references(m))),
            Err(e) => e matches DispatchError::Verification(cause) && verdict(a@, context@)
                == Err::<(), VerificationErrorView>(cause@),
        },
{
    match a.verify(context) {
        Ok(_) => Ok(receive(v, a, actor)),
        Err(e) => Err(DispatchError::Verification(e)),
    }
}

/// How a delivery ended, once it has: `None` while its caller has something
/// left to do.
pub open spec fn conclusion(p: ProgressView) -> Option<Result<(), ReceiveErrorView>> {
    match p {
        ProgressView::Done => Some(Ok(())),
        ProgressView::Failed(e) => Some(Err(e)),
        _ => None,
    }
}

impl Progress {
    /// How the delivery ended, once it has: `None` while its caller has
    /// something left to do.
    pub fn conclude(self) -> (r: Option<Result<(), DispatchError>>)
        ensures
            match r {
                Some(Ok(_)) => self@ is Done,
                Some(Err(e)) => e matches DispatchError::Receive(cause) && self@
                    == ProgressView::Failed(cause@),
                None => conclusion(self@) is None,
            },
    {
        match self {
            Progress::Done => Some(Ok(())),
            Progress::Failed(e) => Some(Err(DispatchError::Receive(e))),
            _ => None,
        }
    }
}

} // verus!
