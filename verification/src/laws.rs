//! The laws of the scanner and the synthesizer, stated over the spec
//! functions that the executable contracts use.

use vstd::prelude::*;

use crate::ast::CallTarget;
use crate::ast::Fragment;
use crate::ast::GenError;
use crate::ast::Member;
use crate::ast::MessageKind;
use crate::ast::Method;
use crate::ast::Param;
use crate::scanner::spec_classify;
use crate::scanner::spec_shape;
use crate::synth::spec_fragment;
use crate::synth::spec_groups;

verus! {

/// A method with no marker attribute is classified `Unclassified`.
pub proof fn lemma_no_marker_unclassified(m: Method)
    requires
        m.attrs@.len() == 0,
    ensures
        spec_classify(m.attrs@) is Unclassified,
{
}

/// A method that no recognized marker classifies as a question or tell
/// handler — one with no marker, an unrecognized marker, or a
/// broadcast marker — contributes no fragment to any dispatch group:
/// removing it from the block leaves the whole synthesis unchanged.
pub proof fn lemma_undispatched_method_adds_nothing(members: Seq<Member>, i: int)
    requires
        0 <= i < members.len(),
        members[i] matches Member::Method(m) && (spec_classify(m.attrs@) is Unclassified
            || spec_classify(m.attrs@) is Broadcast),
    ensures
        spec_groups(members) == spec_groups(members.remove(i)),
    decreases i,
{
    if i == 0 {
        assert(members.remove(0) =~= members.drop_first());
    } else {
        let tail = members.drop_first();
        assert(tail[i - 1] == members[i]);
        lemma_undispatched_method_adds_nothing(tail, i - 1);
        assert(members.remove(i)[0] == members[0]);
        assert(members.remove(i).drop_first() =~= tail.remove(i - 1));
    }
}

/// A question or tell handler with a shared or mutable receiver and 2
/// or 3 parameters in all yields exactly the fragment that binds the
/// type of its second parameter — the first one after the receiver —
/// to a call on the receiver; a third parameter changes nothing of the
/// binding.
pub proof fn lemma_instance_handler_fragment(kind: MessageKind, m: Method)
    requires
        kind is Question || kind is Tell,
        spec_classify(m.attrs@) == kind,
        spec_shape(m.params@) is SharedRef || spec_shape(m.params@) is MutableRef,
        m.params@.len() == 2 || m.params@.len() == 3,
        m.params@[1] matches Param::Typed { .. },
    ensures
        m.params@[1] matches Param::Typed { ty } ==> spec_fragment(kind, m) == Ok::<_, GenError>(
            Fragment { payload_ty: ty, method: m.name, target: CallTarget::Instance },
        ),
{
}

/// A question or tell handler that takes its receiver by value is
/// rejected with an error naming that method.
pub proof fn lemma_by_value_handler_fails(kind: MessageKind, m: Method)
    requires
        spec_shape(m.params@) is ByValue,
    ensures
        spec_fragment(kind, m) == Err::<Fragment, _>(
            GenError::ByValueReceiver { kind, method: m.name },
        ),
{
}

/// A question or tell handler with no parameter at all has static
/// shape and falls outside the 1-or-2 parameters a static handler must
/// take: it is rejected with an error naming that method and the count
/// of zero.
pub proof fn lemma_static_without_params_fails(kind: MessageKind, m: Method)
    requires
        m.params@.len() == 0,
    ensures
        spec_shape(m.params@) is Static,
        spec_fragment(kind, m) == Err::<Fragment, _>(
            GenError::StaticArity { method: m.name, count: 0 },
        ),
{
}

/// A member of the block whose method is classified as a question or
/// tell handler but whose fragment synthesis fails makes the whole
/// pass fail: no partial output is produced.
pub proof fn lemma_handler_failure_aborts(members: Seq<Member>, i: int)
    requires
        0 <= i < members.len(),
        members[i] matches Member::Method(m) && (spec_classify(m.attrs@) is Question
            || spec_classify(m.attrs@) is Tell) && spec_fragment(spec_classify(m.attrs@), m)
            is Err,
    ensures
        spec_groups(members) is Err,
    decreases i,
{
    if i == 0 {
    } else {
        let tail = members.drop_first();
        assert(tail[i - 1] == members[i]);
        lemma_handler_failure_aborts(tail, i - 1);
    }
}

/// The methods of a member list that are classified `kind`, in
/// declaration order, each mapped to its fragment. Methods whose
/// fragment synthesis fails are passed over here; a successful pass
/// has none.
pub open spec fn dispatch_fragments(kind: MessageKind, members: Seq<Member>) -> Seq<Fragment>
    decreases members.len(),
{
    if members.len() == 0 {
        Seq::empty()
    } else {
        let rest = dispatch_fragments(kind, members.drop_first());
        match members[0] {
            Member::Method(m) => if spec_classify(m.attrs@) == kind && spec_fragment(kind, m)
                is Ok {
                seq![spec_fragment(kind, m)->Ok_0] + rest
            } else {
                rest
            },
            Member::Other => rest,
        }
    }
}

/// Fragment order within a dispatch group equals method declaration
/// order within the block: a successful pass returns, as its question
/// group, exactly the fragments of the question-classified methods in
/// declaration order, and likewise for the tell group, however
/// question, tell, broadcast and unmarked methods are intermixed.
pub proof fn lemma_group_order(members: Seq<Member>)
    ensures
        spec_groups(members) matches Ok(p) ==> p.0 == dispatch_fragments(
            MessageKind::Question,
            members,
        ) && p.1 == dispatch_fragments(MessageKind::Tell, members),
    decreases members.len(),
{
    if members.len() == 0 {
    } else {
        lemma_group_order(members.drop_first());
    }
}

} // verus!
